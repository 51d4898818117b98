//! The life of a QEMU instance: what is prepared for a launch, how the launch ends, how the
//! guest is shut down, and which files are removed afterwards.

use vstd::prelude::*;

use crate::config;
use crate::config::{LinuxQemuConfig, QemuConfig};
use crate::qmp::QmpError;
use crate::text;
use crate::text::{cat2, cat3, decimal_text, join_path, push_text, starts_with};

verus! {

/// Size of the jog display's shared file.
pub const JOG_SHM_BYTES: u64 = 0x10_0000;

/// Size of the main display's shared file: large enough for every frame, so that it never
/// grows under a reader's mapping.
pub const MAIN_SHM_PREFILL: u64 = 0x80_0000;

/// Size of the empty medium: one sector.
pub const PLACEHOLDER_BYTES: u64 = 512;

/// Why an instance could not be started. An error of the host is given as its text.
#[derive(Clone, Debug)]
pub enum InstanceError {
    AlreadyRunning,
    DylibUnavailable,
    QmpConnect(QmpError),
    SockDir(String),
    EmmcLocked(String),
    InstanceLocked(String),
}

/// What is done before QEMU starts.
#[derive(Clone, Debug)]
pub enum LaunchStep {
    /// Ask a QEMU that still answers on the port to quit, and clean up after it.
    StopStale { qmp_port: u16, dir: String },
    /// Create the directory and what is above it.
    CreateDir { path: String },
    /// Take the lock of the run directory, without waiting.
    LockInstance { path: String },
    /// Remove the protocol sockets that earlier launches left behind.
    RemoveStaleSockets { dir: String },
    /// Make the file an empty one of this size.
    Prefill { path: String, len: u64 },
    /// Make the file an empty one of this size, unless it exists.
    PrefillMissing { path: String, len: u64 },
    /// Take the lock of the eMMC image, without waiting.
    LockImage { path: String },
}

/// What a [`LaunchStep`] holds.
pub enum LaunchStepView {
    StopStale { qmp_port: u16, dir: Seq<char> },
    CreateDir { path: Seq<char> },
    LockInstance { path: Seq<char> },
    RemoveStaleSockets { dir: Seq<char> },
    Prefill { path: Seq<char>, len: u64 },
    PrefillMissing { path: Seq<char>, len: u64 },
    LockImage { path: Seq<char> },
}

impl View for LaunchStep {
    type V = LaunchStepView;

    open spec fn view(&self) -> LaunchStepView {
        match *self {
            LaunchStep::StopStale { qmp_port, dir } => LaunchStepView::StopStale {
                qmp_port,
                dir: dir@,
            },
            LaunchStep::CreateDir { path } => LaunchStepView::CreateDir { path: path@ },
            LaunchStep::LockInstance { path } => LaunchStepView::LockInstance { path: path@ },
            LaunchStep::RemoveStaleSockets { dir } => LaunchStepView::RemoveStaleSockets {
                dir: dir@,
            },
            LaunchStep::Prefill { path, len } => LaunchStepView::Prefill { path: path@, len },
            LaunchStep::PrefillMissing { path, len } => LaunchStepView::PrefillMissing {
                path: path@,
                len,
            },
            LaunchStep::LockImage { path } => LaunchStepView::LockImage { path: path@ },
        }
    }
}

/// The contents of a list of steps.
pub open spec fn launch_views(steps: Seq<LaunchStep>) -> Seq<LaunchStepView> {
    steps.map_values(|s: LaunchStep| s@)
}

fn add_step(steps: &mut Vec<LaunchStep>, step: LaunchStep)
    ensures
        launch_views(final(steps)@) == launch_views(old(steps)@).push(step@),
{
    steps.push(step);
    assert(launch_views(steps@) =~= launch_views(old(steps)@).push(step@));
}

/// The lock on the eMMC image, where there is one.
pub open spec fn image_lock(emmc_img: Option<String>) -> Seq<LaunchStepView> {
    match emmc_img {
        Some(path) => seq![LaunchStepView::LockImage { path: path@ }],
        None => Seq::empty(),
    }
}

/// What is done before QEMU starts on Linux. The run directory is locked before anything in
/// it is touched.
pub open spec fn linux_preparation(c: LinuxQemuConfig) -> Seq<LaunchStepView> {
    let dir = c.guest.run_dir@;
    seq![
        LaunchStepView::CreateDir { path: dir },
        LaunchStepView::LockInstance { path: text::joined(dir, ".instance.lock"@) },
        LaunchStepView::RemoveStaleSockets { dir },
        LaunchStepView::Prefill { path: c.guest.spec_main_shm_path(), len: MAIN_SHM_PREFILL },
        LaunchStepView::Prefill { path: c.guest.spec_jog_shm_path(), len: JOG_SHM_BYTES },
    ] + (if c.virtual_media {
        seq![
            LaunchStepView::Prefill {
                path: text::joined(dir, "usb.empty.medium"@),
                len: PLACEHOLDER_BYTES,
            },
        ]
    } else {
        Seq::empty()
    }) + image_lock(c.guest.emmc_img)
}

/// What is done before QEMU starts on Linux, in this order. The first step that fails ends
/// the launch, with the error that [`step_error`] gives.
pub fn linux_launch_steps(c: &LinuxQemuConfig) -> (r: Vec<LaunchStep>)
    ensures
        launch_views(r@) == linux_preparation(*c),
{
    let g = &c.guest;
    let dir = g.run_dir.as_str();
    let mut steps: Vec<LaunchStep> = Vec::new();
    assert(launch_views(steps@) =~= Seq::empty());
    add_step(&mut steps, LaunchStep::CreateDir { path: dir.to_owned() });
    add_step(&mut steps, LaunchStep::LockInstance { path: join_path(dir, ".instance.lock") });
    add_step(&mut steps, LaunchStep::RemoveStaleSockets { dir: dir.to_owned() });
    add_step(&mut steps, LaunchStep::Prefill { path: g.main_shm_path(), len: MAIN_SHM_PREFILL });
    add_step(&mut steps, LaunchStep::Prefill { path: g.jog_shm_path(), len: JOG_SHM_BYTES });
    if c.virtual_media {
        add_step(
            &mut steps,
            LaunchStep::Prefill {
                path: join_path(dir, "usb.empty.medium"),
                len: PLACEHOLDER_BYTES,
            },
        );
    }
    if let Some(path) = &g.emmc_img {
        add_step(&mut steps, LaunchStep::LockImage { path: path.clone() });
    }
    assert(launch_views(steps@) =~= linux_preparation(*c));
    steps
}

/// What is done before QEMU starts on macOS.
pub open spec fn macos_preparation(c: QemuConfig) -> Seq<LaunchStepView> {
    let dir = config::instance_dir(c.instance_id);
    seq![
        LaunchStepView::StopStale { qmp_port: c.qmp_port, dir },
        LaunchStepView::CreateDir { path: dir },
    ] + image_lock(c.emmc_img) + (if c.shm {
        seq![
            LaunchStepView::Prefill {
                path: text::joined(dir, "ram.shm"@),
                len: QemuConfig::MEM_BYTES,
            },
        ]
    } else {
        Seq::empty()
    }) + seq![
        LaunchStepView::Prefill { path: text::joined(dir, "main.shm"@), len: MAIN_SHM_PREFILL },
        LaunchStepView::Prefill { path: text::joined(dir, "jog.shm"@), len: JOG_SHM_BYTES },
        LaunchStepView::PrefillMissing {
            path: text::joined(dir, "usb.placeholder"@),
            len: PLACEHOLDER_BYTES,
        },
    ]
}

/// What is done before QEMU starts on macOS, in this order. The first step that fails ends
/// the launch, with the error that [`step_error`] gives.
pub fn macos_launch_steps(c: &QemuConfig) -> (r: Vec<LaunchStep>)
    ensures
        launch_views(r@) == macos_preparation(*c),
{
    let dir = c.sock_dir();
    let mut steps: Vec<LaunchStep> = Vec::new();
    assert(launch_views(steps@) =~= Seq::empty());
    add_step(&mut steps, LaunchStep::StopStale { qmp_port: c.qmp_port, dir: c.sock_dir() });
    add_step(&mut steps, LaunchStep::CreateDir { path: c.sock_dir() });
    if let Some(path) = &c.emmc_img {
        add_step(&mut steps, LaunchStep::LockImage { path: path.clone() });
    }
    if c.shm {
        add_step(
            &mut steps,
            LaunchStep::Prefill { path: c.shm_path(), len: QemuConfig::MEM_BYTES },
        );
    }
    add_step(
        &mut steps,
        LaunchStep::Prefill { path: join_path(dir.as_str(), "main.shm"), len: MAIN_SHM_PREFILL },
    );
    add_step(&mut steps, LaunchStep::Prefill { path: c.jog_shm_path(), len: JOG_SHM_BYTES });
    add_step(
        &mut steps,
        LaunchStep::PrefillMissing { path: c.usb_placeholder_path(), len: PLACEHOLDER_BYTES },
    );
    assert(launch_views(steps@) =~= macos_preparation(*c));
    steps
}

/// A step makes or removes files of a launch.
pub open spec fn touches_files(step: LaunchStepView) -> bool {
    step is RemoveStaleSockets || step is Prefill || step is PrefillMissing
}

/// On Linux the instance is locked before any file of a launch is touched, and a launch
/// with an eMMC image locks it.
pub proof fn linux_launches_lock_first(c: LinuxQemuConfig, i: int)
    requires
        0 <= i < linux_preparation(c).len(),
    ensures
        touches_files(linux_preparation(c)[i]) ==> i > 1 && linux_preparation(c)[1]
            == (LaunchStepView::LockInstance {
            path: text::joined(c.guest.run_dir@, ".instance.lock"@),
        }),
        c.guest.emmc_img matches Some(path) ==> linux_preparation(c).last()
            == (LaunchStepView::LockImage { path: path@ }),
{
}

/// On macOS a stale QEMU is stopped before anything else is done, the directory of the
/// instance is created next, and the only lock is that of the eMMC image, which is taken
/// before any file of the launch is touched.
pub proof fn macos_launches_recover_first(c: QemuConfig, i: int)
    requires
        0 <= i < macos_preparation(c).len(),
    ensures
        macos_preparation(c)[0] is StopStale,
        i > 0 ==> !(macos_preparation(c)[i] is StopStale),
        !(macos_preparation(c)[i] is LockInstance),
        touches_files(macos_preparation(c)[i]) ==> i > 1 && (c.emmc_img matches Some(path) ==> i
            > 2 && macos_preparation(c)[2] == (LaunchStepView::LockImage { path: path@ })),
{
}

/// The arguments with which the macOS application starts itself as QEMU.
pub fn macos_worker_args(c: &QemuConfig) -> (r: Vec<String>)
    ensures
        text::texts(r@) == seq!["--qemu-worker"@] + c.argv(),
{
    let argv = c.build_argv();
    let mut args: Vec<String> = Vec::new();
    push_text(&mut args, "--qemu-worker");
    let len: usize = argv.len();
    let mut i: usize = 0;
    assert(text::texts(args@) =~= seq!["--qemu-worker"@] + text::texts(argv@).take(0));
    while i < len
        invariant
            i <= len == argv@.len(),
            text::texts(args@) == seq!["--qemu-worker"@] + text::texts(argv@).take(i as int),
        decreases len - i,
    {
        push_text(&mut args, argv[i].as_str());
        assert(text::texts(args@) =~= seq!["--qemu-worker"@] + text::texts(argv@).take(i + 1));
        i += 1;
    }
    assert(text::texts(argv@).take(len as int) =~= text::texts(argv@));
    args
}

/// Why a step failed.
#[derive(Clone, Debug)]
pub enum StepFailure {
    /// The host reported an error; holds its text.
    Io(String),
    /// Somebody else holds the lock.
    Locked,
}

/// Whether an error is the one that a failed step is reported as.
pub open spec fn is_step_error(step: LaunchStep, failure: StepFailure, e: InstanceError) -> bool {
    match (step, failure) {
        (LaunchStep::LockInstance { path }, StepFailure::Locked) => e
            == InstanceError::InstanceLocked(path),
        (LaunchStep::LockImage { path }, StepFailure::Locked) => e == InstanceError::EmmcLocked(
            path,
        ),
        (_, StepFailure::Io(message)) => e == InstanceError::SockDir(message),
        (_, StepFailure::Locked) => true,
    }
}

/// The error that a failed step is reported as. Only a step that takes a lock can find it
/// taken.
pub fn step_error(step: LaunchStep, failure: StepFailure) -> (r: InstanceError)
    requires
        failure is Locked ==> step is LockInstance || step is LockImage,
    ensures
        is_step_error(step, failure, r),
{
    match failure {
        StepFailure::Io(message) => InstanceError::SockDir(message),
        StepFailure::Locked => match step {
            LaunchStep::LockInstance { path } => InstanceError::InstanceLocked(path),
            LaunchStep::LockImage { path } => InstanceError::EmmcLocked(path),
            _ => InstanceError::AlreadyRunning,
        },
    }
}

/// The protocol socket of a launch.
pub open spec fn launch_socket(run_dir: Seq<char>, launch_id: u128) -> Seq<char> {
    text::joined(run_dir, "qmp-"@ + text::decimal(launch_id as nat) + ".sock"@)
}

/// The serial log of a launch.
pub open spec fn launch_log(run_dir: Seq<char>, log_id: u128) -> Seq<char> {
    text::joined(run_dir, "serial-"@ + text::decimal(log_id as nat) + ".log"@)
}

/// The configuration of one launch: with a protocol socket of its own, and with a serial
/// log of its own unless one was given. The two numbers are such that no other launch has
/// them.
pub fn configure_launch(c: LinuxQemuConfig, launch_id: u128, log_id: u128) -> (r:
    LinuxQemuConfig)
    ensures
        r == (LinuxQemuConfig { qmp_socket: r.qmp_socket, serial_log: r.serial_log, ..c }),
        r.qmp_socket matches Some(path) && path@ == launch_socket(c.guest.run_dir@, launch_id),
        match c.serial_log {
            Some(path) => r.serial_log == Some(path),
            None => r.serial_log matches Some(path) && path@ == launch_log(
                c.guest.run_dir@,
                log_id,
            ),
        },
{
    let id = decimal_text(launch_id);
    let socket = join_path(
        c.guest.run_dir.as_str(),
        cat3("qmp-", id.as_str(), ".sock").as_str(),
    );
    let mut r = c;
    r.qmp_socket = Some(socket);
    if r.serial_log.is_none() {
        let log = join_path(
            r.guest.run_dir.as_str(),
            cat3("serial-", decimal_text(log_id).as_str(), ".log").as_str(),
        );
        r.serial_log = Some(log);
    }
    r
}

/// Launches with different numbers have different protocol sockets and serial logs.
pub proof fn launches_have_files_of_their_own(run_dir: Seq<char>, a: u128, b: u128)
    requires
        a != b,
    ensures
        launch_socket(run_dir, a) != launch_socket(run_dir, b),
        launch_log(run_dir, a) != launch_log(run_dir, b),
{
    reveal_strlit("qmp-");
    reveal_strlit("serial-");
    reveal_strlit(".sock");
    reveal_strlit(".log");
    text::lemma_numbered_names_differ(run_dir, "qmp-"@, a as nat, b as nat, ".sock"@);
    text::lemma_numbered_names_differ(run_dir, "serial-"@, a as nat, b as nat, ".log"@);
}

/// What happens while QEMU starts.
#[derive(Clone, Debug)]
pub enum NegotiationEvent {
    /// QEMU has exited, with this status.
    ChildExited { status: String },
    /// QEMU is running.
    ChildRunning,
    /// The host cannot say whether QEMU is running; holds the error's text.
    ChildUnknown { error: String },
    /// The protocol has been negotiated.
    Connected,
    /// The protocol could not be negotiated; says whether the time for it is over.
    ConnectFailed { error: QmpError, expired: bool },
}

/// What to do next while QEMU starts.
#[derive(Clone, Debug)]
pub enum NegotiationAction {
    /// Try to negotiate the protocol.
    Connect,
    /// Wait a moment, and ask whether QEMU is running.
    Retry,
    /// The launch has failed: kill QEMU where that is due, remove the protocol socket.
    Abandon { kill: bool, error: InstanceError },
    /// The launch has succeeded: start the thread that waits for QEMU.
    Monitor,
}

/// Whether an action is the one that an event leads to.
pub open spec fn is_negotiation_action(event: NegotiationEvent, a: NegotiationAction) -> bool {
    match event {
        NegotiationEvent::ChildExited { status } => {
            &&& a matches NegotiationAction::Abandon {
                kill,
                error: InstanceError::QmpConnect(QmpError::QemuError(reason)),
            }
            &&& !kill
            &&& reason@ == "QEMU exited before QMP negotiation: "@ + status@
        },
        NegotiationEvent::ChildRunning => a is Connect,
        NegotiationEvent::ChildUnknown { error } => a == (NegotiationAction::Abandon {
            kill: true,
            error: InstanceError::SockDir(error),
        }),
        NegotiationEvent::Connected => a is Monitor,
        NegotiationEvent::ConnectFailed { error, expired } => if expired {
            a == (NegotiationAction::Abandon {
                kill: true,
                error: InstanceError::QmpConnect(error),
            })
        } else {
            a is Retry
        },
    }
}

/// The next action while QEMU starts. The first question is whether QEMU is running.
pub fn negotiate(event: NegotiationEvent) -> (r: NegotiationAction)
    ensures
        is_negotiation_action(event, r),
{
    match event {
        NegotiationEvent::ChildExited { status } => NegotiationAction::Abandon {
            kill: false,
            error: InstanceError::QmpConnect(
                QmpError::QemuError(
                    cat2("QEMU exited before QMP negotiation: ", status.as_str()),
                ),
            ),
        },
        NegotiationEvent::ChildRunning => NegotiationAction::Connect,
        NegotiationEvent::ChildUnknown { error } => NegotiationAction::Abandon {
            kill: true,
            error: InstanceError::SockDir(error),
        },
        NegotiationEvent::Connected => NegotiationAction::Monitor,
        NegotiationEvent::ConnectFailed { error, expired } => {
            if expired {
                NegotiationAction::Abandon {
                    kill: true,
                    error: InstanceError::QmpConnect(error),
                }
            } else {
                NegotiationAction::Retry
            }
        },
    }
}

/// The stages of a graceful shutdown.
#[derive(Clone, Copy, Debug, PartialEq, Eq, Structural)]
pub enum ShutdownStage {
    /// The guest's application is asked to power off, and unmounts its media.
    Cleanup,
    /// The ACPI power button is pressed.
    Powerdown,
    /// QEMU is told to quit.
    Quit,
}

/// The first stage of a shutdown.
pub open spec fn first_stage(has_monitor: bool, owns_child: bool, running: bool) -> Option<
    ShutdownStage,
> {
    if has_monitor && (running || !owns_child) {
        Some(ShutdownStage::Cleanup)
    } else {
        None
    }
}

/// The first stage of a shutdown: none where there is no monitor thread, or where a directly
/// owned child is known to have exited.
pub fn first_shutdown_stage(has_monitor: bool, owns_child: bool, running: bool) -> (r: Option<
    ShutdownStage,
>)
    ensures
        r == first_stage(has_monitor, owns_child, running),
        r == (if has_monitor && (running || !owns_child) {
            Some(ShutdownStage::Cleanup)
        } else {
            None
        }),
{
    if has_monitor && (running || !owns_child) {
        Some(ShutdownStage::Cleanup)
    } else {
        None
    }
}

/// The stage after this one, where QEMU is still running.
pub open spec fn later_stage(stage: ShutdownStage) -> Option<ShutdownStage> {
    match stage {
        ShutdownStage::Cleanup => Some(ShutdownStage::Powerdown),
        ShutdownStage::Powerdown => Some(ShutdownStage::Quit),
        ShutdownStage::Quit => None,
    }
}

/// How long QEMU has to exit in a stage, in seconds.
pub open spec fn stage_seconds(stage: ShutdownStage) -> u64 {
    match stage {
        ShutdownStage::Cleanup => 8,
        ShutdownStage::Powerdown => 20,
        ShutdownStage::Quit => 5,
    }
}

/// How long QEMU has to exit in a stage, in seconds.
pub fn shutdown_wait(stage: ShutdownStage) -> (r: u64)
    ensures
        r == stage_seconds(stage),
{
    match stage {
        ShutdownStage::Cleanup => 8,
        ShutdownStage::Powerdown => 20,
        ShutdownStage::Quit => 5,
    }
}

/// What to do while waiting for QEMU to exit.
#[derive(Clone, Copy, Debug, PartialEq, Eq, Structural)]
pub enum WaitStep {
    /// QEMU has exited.
    Exited,
    /// Look again in a moment.
    Poll,
    /// The time is over: begin the next stage.
    Advance { next: ShutdownStage },
    /// The time of the last stage is over: kill QEMU.
    Kill,
}

/// What to do while waiting for QEMU to exit in a stage: `expired` says whether the stage's
/// time is over. QEMU is killed where the last stage was of no use either.
pub open spec fn wait_step(stage: ShutdownStage, running: bool, expired: bool) -> WaitStep {
    if !running {
        WaitStep::Exited
    } else if !expired {
        WaitStep::Poll
    } else {
        match later_stage(stage) {
            Some(next) => WaitStep::Advance { next },
            None => WaitStep::Kill,
        }
    }
}

/// What to do while waiting for QEMU to exit in a stage.
pub fn wait_or_kill(stage: ShutdownStage, running: bool, expired: bool) -> (r: WaitStep)
    ensures
        r == wait_step(stage, running, expired),
{
    if !running {
        WaitStep::Exited
    } else if !expired {
        WaitStep::Poll
    } else {
        match stage {
            ShutdownStage::Cleanup => WaitStep::Advance { next: ShutdownStage::Powerdown },
            ShutdownStage::Powerdown => WaitStep::Advance { next: ShutdownStage::Quit },
            ShutdownStage::Quit => WaitStep::Kill,
        }
    }
}

/// How many stages come after this one.
pub open spec fn stages_left(stage: ShutdownStage) -> nat {
    match stage {
        ShutdownStage::Cleanup => 2,
        ShutdownStage::Powerdown => 1,
        ShutdownStage::Quit => 0,
    }
}

/// QEMU is killed only where it still runs when the time of the last stage is over: until
/// then an expired stage leads to the next one, and each comes once.
pub proof fn qemu_is_killed_as_the_last_resort(stage: ShutdownStage, running: bool, expired: bool)
    ensures
        wait_step(stage, running, expired) is Kill <==> running && expired && stage
            == ShutdownStage::Quit,
        wait_step(stage, running, expired) matches WaitStep::Advance { next } ==> running
            && expired && stages_left(next) + 1 == stages_left(stage),
{
}

/// What is done to clean up.
#[derive(Clone, Debug)]
pub enum CleanupStep {
    /// Overwrite the first four bytes of the file with zeros, where it exists.
    ZeroMagic { path: String },
    /// Remove the directory and everything in it.
    RemoveTree { path: String },
    /// Remove the file.
    RemoveFile { path: String },
    /// Remove the empty directory.
    RemoveDir { path: String },
}

/// What a [`CleanupStep`] holds.
pub enum CleanupView {
    ZeroMagic { path: Seq<char> },
    RemoveTree { path: Seq<char> },
    RemoveFile { path: Seq<char> },
    RemoveDir { path: Seq<char> },
}

impl View for CleanupStep {
    type V = CleanupView;

    open spec fn view(&self) -> CleanupView {
        match *self {
            CleanupStep::ZeroMagic { path } => CleanupView::ZeroMagic { path: path@ },
            CleanupStep::RemoveTree { path } => CleanupView::RemoveTree { path: path@ },
            CleanupStep::RemoveFile { path } => CleanupView::RemoveFile { path: path@ },
            CleanupStep::RemoveDir { path } => CleanupView::RemoveDir { path: path@ },
        }
    }
}

/// The contents of a list of steps.
pub open spec fn cleanup_views(steps: Seq<CleanupStep>) -> Seq<CleanupView> {
    steps.map_values(|s: CleanupStep| s@)
}

fn add_cleanup(steps: &mut Vec<CleanupStep>, step: CleanupStep)
    ensures
        cleanup_views(final(steps)@) == cleanup_views(old(steps)@).push(step@),
{
    steps.push(step);
    assert(cleanup_views(steps@) =~= cleanup_views(old(steps)@).push(step@));
}

/// An entry of a directory.
#[derive(Clone, Debug)]
pub struct DirEntry {
    pub name: String,
    /// Whether it is a directory, where the host can say.
    pub is_dir: Option<bool>,
}

/// Whether a file is a socket of the vmnet daemon, which outlives a QEMU process.
pub open spec fn is_vmnet_name(name: Seq<char>) -> bool {
    text::has_prefix(name, "vmnet-"@)
}

/// The removal of an entry. One whose kind is unknown stays.
pub open spec fn removal(dir: Seq<char>, entry: DirEntry) -> Seq<CleanupView> {
    let path = text::joined(dir, entry.name@);
    match entry.is_dir {
        Some(true) => seq![CleanupView::RemoveTree { path }],
        Some(false) => seq![CleanupView::RemoveFile { path }],
        None => Seq::empty(),
    }
}

/// The removals of the entries, but for the sockets of the vmnet daemon where those are kept.
pub open spec fn removals(dir: Seq<char>, entries: Seq<DirEntry>, keep_vmnet: bool) -> Seq<
    CleanupView,
>
    decreases entries.len(),
{
    if entries.len() == 0 {
        Seq::empty()
    } else {
        removals(dir, entries.drop_last(), keep_vmnet) + (if keep_vmnet && is_vmnet_name(
            entries.last().name@,
        ) {
            Seq::empty()
        } else {
            removal(dir, entries.last())
        })
    }
}

/// The cleanup of a socket directory. The magic of the shared files is zeroed before they are
/// removed, so that a reader's mapping shows that they are dead.
pub open spec fn cleanup_plan(dir: Seq<char>, entries: Seq<DirEntry>, keep_vmnet: bool) -> Seq<
    CleanupView,
> {
    seq![
        CleanupView::ZeroMagic { path: text::joined(dir, "main.shm"@) },
        CleanupView::ZeroMagic { path: text::joined(dir, "jog.shm"@) },
    ] + removals(dir, entries, keep_vmnet) + (if keep_vmnet {
        Seq::empty()
    } else {
        seq![CleanupView::RemoveDir { path: dir }]
    })
}

fn plan_cleanup(sock_dir: &str, entries: &Vec<DirEntry>, keep_vmnet: bool) -> (r: Vec<CleanupStep>)
    ensures
        cleanup_views(r@) == cleanup_plan(sock_dir@, entries@, keep_vmnet),
{
    let mut steps: Vec<CleanupStep> = Vec::new();
    assert(cleanup_views(steps@) =~= Seq::empty());
    add_cleanup(&mut steps, CleanupStep::ZeroMagic { path: join_path(sock_dir, "main.shm") });
    add_cleanup(&mut steps, CleanupStep::ZeroMagic { path: join_path(sock_dir, "jog.shm") });
    let ghost front = seq![
        CleanupView::ZeroMagic { path: text::joined(sock_dir@, "main.shm"@) },
        CleanupView::ZeroMagic { path: text::joined(sock_dir@, "jog.shm"@) },
    ];
    let len: usize = entries.len();
    let mut i: usize = 0;
    assert(entries@.take(0) =~= Seq::empty());
    assert(cleanup_views(steps@) =~= front + removals(sock_dir@, entries@.take(0), keep_vmnet));
    while i < len
        invariant
            i <= len == entries@.len(),
            cleanup_views(steps@) == front + removals(
                sock_dir@,
                entries@.take(i as int),
                keep_vmnet,
            ),
        decreases len - i,
    {
        let entry = &entries[i];
        assert(entries@.take(i + 1).drop_last() =~= entries@.take(i as int));
        let ghost before = cleanup_views(steps@);
        let kept = keep_vmnet && starts_with(entry.name.as_str(), "vmnet-");
        if !kept {
            let path = join_path(sock_dir, entry.name.as_str());
            match entry.is_dir {
                Some(true) => add_cleanup(&mut steps, CleanupStep::RemoveTree { path }),
                Some(false) => add_cleanup(&mut steps, CleanupStep::RemoveFile { path }),
                None => {},
            }
        }
        assert(cleanup_views(steps@) =~= front + removals(
            sock_dir@,
            entries@.take(i + 1),
            keep_vmnet,
        ));
        i += 1;
    }
    assert(entries@.take(len as int) =~= entries@);
    if !keep_vmnet {
        add_cleanup(&mut steps, CleanupStep::RemoveDir { path: sock_dir.to_owned() });
    }
    assert(cleanup_views(steps@) =~= cleanup_plan(sock_dir@, entries@, keep_vmnet));
    steps
}

/// The cleanup at the end: the directory and everything in it goes.
pub fn cleanup_qemu_files(sock_dir: &str, entries: &Vec<DirEntry>) -> (r: Vec<CleanupStep>)
    ensures
        cleanup_views(r@) == cleanup_plan(sock_dir@, entries@, false),
{
    plan_cleanup(sock_dir, entries, false)
}

/// The cleanup before a restart: everything goes but the sockets of the vmnet daemon, which
/// would exit without them.
pub fn cleanup_qemu_files_for_restart(sock_dir: &str, entries: &Vec<DirEntry>) -> (r: Vec<
    CleanupStep,
>)
    ensures
        cleanup_views(r@) == cleanup_plan(sock_dir@, entries@, true),
{
    plan_cleanup(sock_dir, entries, true)
}

/// The cleanup at shutdown of the directory that was registered for it, if one was.
pub fn cleanup_runtime_files(registered: Option<&str>, entries: &Vec<DirEntry>) -> (r: Vec<
    CleanupStep,
>)
    ensures
        cleanup_views(r@) == (match registered {
            Some(dir) => cleanup_plan(dir@, entries@, false),
            None => Seq::empty(),
        }),
{
    match registered {
        Some(dir) => plan_cleanup(dir, entries, false),
        None => {
            let steps: Vec<CleanupStep> = Vec::new();
            assert(cleanup_views(steps@) =~= Seq::empty());
            steps
        },
    }
}

proof fn lemma_removals(dir: Seq<char>, entries: Seq<DirEntry>, keep_vmnet: bool, i: int)
    requires
        0 <= i < entries.len(),
        entries[i].is_dir is Some,
        !(keep_vmnet && is_vmnet_name(entries[i].name@)),
    ensures
        removals(dir, entries, keep_vmnet).contains(removal(dir, entries[i])[0]),
    decreases entries.len(),
{
    let wanted = removal(dir, entries[i])[0];
    let front = removals(dir, entries.drop_last(), keep_vmnet);
    let all = removals(dir, entries, keep_vmnet);
    if i == entries.len() - 1 {
        assert(all[front.len() as int] == wanted);
    } else {
        lemma_removals(dir, entries.drop_last(), keep_vmnet, i);
        let k = choose|k: int| 0 <= k < front.len() && front[k] == wanted;
        assert(all[k] == wanted);
    }
}

/// The final cleanup removes every entry whose kind is known, and the directory itself last.
pub proof fn the_final_cleanup_removes_everything(dir: Seq<char>, entries: Seq<DirEntry>, i: int)
    requires
        0 <= i < entries.len(),
        entries[i].is_dir is Some,
    ensures
        cleanup_plan(dir, entries, false).contains(removal(dir, entries[i])[0]),
        cleanup_plan(dir, entries, false).last() == (CleanupView::RemoveDir { path: dir }),
{
    lemma_removals(dir, entries, false, i);
    let wanted = removal(dir, entries[i])[0];
    let middle = removals(dir, entries, false);
    let k = choose|k: int| 0 <= k < middle.len() && middle[k] == wanted;
    assert(cleanup_plan(dir, entries, false)[k + 2] == wanted);
}

/// The cleanup before a restart removes every other entry whose kind is known.
pub proof fn the_restart_cleanup_removes_the_rest(dir: Seq<char>, entries: Seq<DirEntry>, i: int)
    requires
        0 <= i < entries.len(),
        entries[i].is_dir is Some,
        !is_vmnet_name(entries[i].name@),
    ensures
        cleanup_plan(dir, entries, true).contains(removal(dir, entries[i])[0]),
{
    lemma_removals(dir, entries, true, i);
    let wanted = removal(dir, entries[i])[0];
    let middle = removals(dir, entries, true);
    let k = choose|k: int| 0 <= k < middle.len() && middle[k] == wanted;
    assert(cleanup_plan(dir, entries, true)[k + 2] == wanted);
}

proof fn lemma_restart_removals(dir: Seq<char>, entries: Seq<DirEntry>, k: int) -> (i: int)
    requires
        0 <= k < removals(dir, entries, true).len(),
    ensures
        0 <= i < entries.len(),
        !is_vmnet_name(entries[i].name@),
        entries[i].is_dir is Some,
        removals(dir, entries, true)[k] == removal(dir, entries[i])[0],
    decreases entries.len(),
{
    let front = removals(dir, entries.drop_last(), true);
    if k < front.len() {
        let i = lemma_restart_removals(dir, entries.drop_last(), k);
        i
    } else {
        entries.len() - 1
    }
}

/// The cleanup before a restart touches nothing but the two shared files and entries that
/// are no sockets of the vmnet daemon, and keeps the directory.
pub proof fn the_restart_cleanup_keeps_the_network(dir: Seq<char>, entries: Seq<DirEntry>, k: int)
    requires
        0 <= k < cleanup_plan(dir, entries, true).len(),
    ensures
        k < 2 ==> cleanup_plan(dir, entries, true)[k] is ZeroMagic,
        k >= 2 ==> exists|i: int|
            0 <= i < entries.len() && !is_vmnet_name(#[trigger] entries[i].name@) && entries[i].is_dir
                is Some && cleanup_plan(dir, entries, true)[k] == removal(dir, entries[i])[0],
{
    if k >= 2 {
        let middle = removals(dir, entries, true);
        assert(cleanup_plan(dir, entries, true)[k] == middle[k - 2]);
        let i = lemma_restart_removals(dir, entries, k - 2);
        assert(!is_vmnet_name(entries[i].name@));
    }
}

/// The shared files of a launch on Linux.
pub open spec fn linux_shared_files() -> Seq<Seq<char>> {
    seq!["main.shm"@, "jog.shm"@, "ram.shm"@]
}

/// The other files that belong to a launch on Linux.
pub open spec fn linux_transport_files() -> Seq<Seq<char>> {
    seq!["ctrl.sock"@, "cfg.sock"@, "usb.placeholder"@, "usb.empty.medium"@]
}

/// The cleanup of a run directory on Linux: what belongs to the launch goes, and nothing
/// else.
pub open spec fn linux_cleanup(run_dir: Seq<char>) -> Seq<CleanupView> {
    seq![
        CleanupView::ZeroMagic { path: text::joined(run_dir, "main.shm"@) },
        CleanupView::RemoveFile { path: text::joined(run_dir, "main.shm"@) },
        CleanupView::ZeroMagic { path: text::joined(run_dir, "jog.shm"@) },
        CleanupView::RemoveFile { path: text::joined(run_dir, "jog.shm"@) },
        CleanupView::ZeroMagic { path: text::joined(run_dir, "ram.shm"@) },
        CleanupView::RemoveFile { path: text::joined(run_dir, "ram.shm"@) },
        CleanupView::RemoveFile { path: text::joined(run_dir, "ctrl.sock"@) },
        CleanupView::RemoveFile { path: text::joined(run_dir, "cfg.sock"@) },
        CleanupView::RemoveFile { path: text::joined(run_dir, "usb.placeholder"@) },
        CleanupView::RemoveFile { path: text::joined(run_dir, "usb.empty.medium"@) },
    ]
}

/// The cleanup of a run directory on Linux. The directory and the serial logs remain.
pub fn cleanup_linux_qemu_files_for_restart(run_dir: &str) -> (r: Vec<CleanupStep>)
    ensures
        cleanup_views(r@) == linux_cleanup(run_dir@),
{
    let mut steps: Vec<CleanupStep> = Vec::new();
    assert(cleanup_views(steps@) =~= Seq::empty());
    add_cleanup(&mut steps, CleanupStep::ZeroMagic { path: join_path(run_dir, "main.shm") });
    add_cleanup(&mut steps, CleanupStep::RemoveFile { path: join_path(run_dir, "main.shm") });
    add_cleanup(&mut steps, CleanupStep::ZeroMagic { path: join_path(run_dir, "jog.shm") });
    add_cleanup(&mut steps, CleanupStep::RemoveFile { path: join_path(run_dir, "jog.shm") });
    add_cleanup(&mut steps, CleanupStep::ZeroMagic { path: join_path(run_dir, "ram.shm") });
    add_cleanup(&mut steps, CleanupStep::RemoveFile { path: join_path(run_dir, "ram.shm") });
    add_cleanup(&mut steps, CleanupStep::RemoveFile { path: join_path(run_dir, "ctrl.sock") });
    add_cleanup(&mut steps, CleanupStep::RemoveFile { path: join_path(run_dir, "cfg.sock") });
    add_cleanup(
        &mut steps,
        CleanupStep::RemoveFile { path: join_path(run_dir, "usb.placeholder") },
    );
    add_cleanup(
        &mut steps,
        CleanupStep::RemoveFile { path: join_path(run_dir, "usb.empty.medium") },
    );
    assert(cleanup_views(steps@) =~= linux_cleanup(run_dir@));
    steps
}

/// The path that a step works on.
pub open spec fn touched(step: CleanupView) -> Seq<char> {
    match step {
        CleanupView::ZeroMagic { path } => path,
        CleanupView::RemoveTree { path } => path,
        CleanupView::RemoveFile { path } => path,
        CleanupView::RemoveDir { path } => path,
    }
}

/// A file that the operator needs after a launch, or that belongs to somebody else: a
/// protocol socket, a socket of the vmnet daemon, a serial log, or the lock.
pub open spec fn outlives_a_launch(name: Seq<char>) -> bool {
    ||| text::has_prefix(name, "qmp-"@)
    ||| text::has_prefix(name, "vmnet-"@)
    ||| text::has_prefix(name, "serial-"@)
    ||| name == ".instance.lock"@
}

/// The cleanup on Linux touches neither the run directory nor a file in it that outlives a
/// launch.
pub proof fn the_linux_cleanup_keeps_diagnostics(run_dir: Seq<char>, name: Seq<char>, k: int)
    requires
        outlives_a_launch(name),
        0 <= k < linux_cleanup(run_dir).len(),
    ensures
        touched(linux_cleanup(run_dir)[k]) != text::joined(run_dir, name),
        linux_cleanup(run_dir)[k] is ZeroMagic || linux_cleanup(run_dir)[k] is RemoveFile,
{
    reveal_strlit("qmp-");
    reveal_strlit("vmnet-");
    reveal_strlit("serial-");
    reveal_strlit(".instance.lock");
    reveal_strlit("main.shm");
    reveal_strlit("jog.shm");
    reveal_strlit("ram.shm");
    reveal_strlit("ctrl.sock");
    reveal_strlit("cfg.sock");
    reveal_strlit("usb.placeholder");
    reveal_strlit("usb.empty.medium");
    lemma_first_letter(name);
    let c = name[0];
    assert(c == 'q' || c == 'v' || c == 's' || c == '.');
    let own = if k < 6 {
        linux_shared_files()[k / 2]
    } else {
        linux_transport_files()[k - 6]
    };
    assert(own[0] == 'm' || own[0] == 'j' || own[0] == 'r' || own[0] == 'c' || own[0] == 'u');
    assert(touched(linux_cleanup(run_dir)[k]) == text::joined(run_dir, own));
    if text::joined(run_dir, own) == text::joined(run_dir, name) {
        text::lemma_joined_is_injective(run_dir, own, name);
    }
}

proof fn lemma_first_letter(name: Seq<char>)
    requires
        outlives_a_launch(name),
    ensures
        name.len() > 0,
        name[0] == 'q' || name[0] == 'v' || name[0] == 's' || name[0] == '.',
{
    reveal_strlit("qmp-");
    reveal_strlit("vmnet-");
    reveal_strlit("serial-");
    reveal_strlit(".instance.lock");
    if text::has_prefix(name, "qmp-"@) {
        assert(name.take(4)[0] == 'q');
    } else if text::has_prefix(name, "vmnet-"@) {
        assert(name.take(6)[0] == 'v');
    } else if text::has_prefix(name, "serial-"@) {
        assert(name.take(7)[0] == 's');
    }
}

/// The protocol sockets among the entries of a run directory, as paths.
pub open spec fn stale_sockets(run_dir: Seq<char>, names: Seq<Seq<char>>) -> Seq<Seq<char>>
    decreases names.len(),
{
    if names.len() == 0 {
        Seq::empty()
    } else {
        let front = stale_sockets(run_dir, names.drop_last());
        if text::has_prefix(names.last(), "qmp-"@) {
            front.push(text::joined(run_dir, names.last()))
        } else {
            front
        }
    }
}

/// The files to remove once the lock of the run directory is held: the protocol sockets of
/// earlier launches.
pub fn remove_stale_qmp_sockets(run_dir: &str, names: &Vec<String>) -> (r: Vec<String>)
    ensures
        text::texts(r@) == stale_sockets(run_dir@, text::texts(names@)),
{
    let ghost all = text::texts(names@);
    let mut paths: Vec<String> = Vec::new();
    let len: usize = names.len();
    let mut i: usize = 0;
    assert(all.take(0) =~= Seq::empty());
    assert(text::texts(paths@) =~= Seq::empty());
    while i < len
        invariant
            i <= len == names@.len(),
            all == text::texts(names@),
            text::texts(paths@) == stale_sockets(run_dir@, all.take(i as int)),
        decreases len - i,
    {
        assert(all.take(i + 1).drop_last() =~= all.take(i as int));
        assert(all.take(i + 1).last() == names@[i as int]@);
        if starts_with(names[i].as_str(), "qmp-") {
            let path = join_path(run_dir, names[i].as_str());
            push_text(&mut paths, path.as_str());
        }
        i += 1;
    }
    assert(all.take(len as int) =~= all);
    paths
}

/// A QEMU that still answers is looked for on the port on which the new one will listen, and
/// in the directory of the same instance.
pub proof fn stale_instances_are_looked_for_on_their_port(c: QemuConfig)
    ensures
        macos_preparation(c)[0] matches LaunchStepView::StopStale { qmp_port, dir }
            && config::gives(
            c.argv(),
            "-qmp"@,
            "tcp:localhost:"@ + text::decimal(qmp_port as nat) + ",server=on,wait=off"@,
        ) && dir == config::instance_dir(c.instance_id),
        macos_preparation(c)[1] == (LaunchStepView::CreateDir {
            path: config::instance_dir(c.instance_id),
        }),
{
    config::macos_serves_the_configured_ports(c);
}

/// The files that QEMU is told to share on Linux exist before it starts, large enough: 8 MiB
/// for the main display, 1 MiB for the jog display, and a sector for the empty medium.
pub proof fn linux_files_are_prepared(c: LinuxQemuConfig)
    ensures
        exists|path: Seq<char>|
            #[trigger] config::gives(c.argv(), "-display"@, "shm,path="@ + path)
                && linux_preparation(c).contains(
                LaunchStepView::Prefill { path, len: 8_388_608 },
            ),
        exists|path: Seq<char>|
            #[trigger] config::gives(
                c.argv(),
                "-object"@,
                "memory-backend-file,id=jogshm,mem-path="@ + path + ",size=1M,share=on"@,
            ) && linux_preparation(c).contains(LaunchStepView::Prefill { path, len: 1_048_576 }),
        c.virtual_media ==> exists|path: Seq<char>|
            #[trigger] config::gives_drive(c.argv(), path, "usb0"@, "raw"@) && linux_preparation(
                c,
            ).contains(LaunchStepView::Prefill { path, len: 512 }),
        linux_preparation(c)[0] == (LaunchStepView::CreateDir { path: c.guest.run_dir@ }),
        linux_preparation(c).contains(
            LaunchStepView::RemoveStaleSockets { dir: c.guest.run_dir@ },
        ),
        c.guest.emmc_img matches Some(img) ==> linux_preparation(c).contains(
            LaunchStepView::LockImage { path: img@ },
        ),
{
    let dir = c.guest.run_dir@;
    let all = linux_preparation(c);
    config::linux_shares_files_with_the_application(c);
    config::linux_offers_what_is_on(c);
    assert(all[2] == (LaunchStepView::RemoveStaleSockets { dir }));
    assert(all[3] == (LaunchStepView::Prefill {
        path: text::joined(dir, "main.shm"@),
        len: 8_388_608,
    }));
    assert(all[4] == (LaunchStepView::Prefill {
        path: text::joined(dir, "jog.shm"@),
        len: 1_048_576,
    }));
    assert(config::gives(c.argv(), "-display"@, "shm,path="@ + text::joined(dir, "main.shm"@)));
    assert(config::gives(
        c.argv(),
        "-object"@,
        "memory-backend-file,id=jogshm,mem-path="@ + text::joined(dir, "jog.shm"@)
            + ",size=1M,share=on"@,
    ));
    if c.virtual_media {
        assert(all[5] == (LaunchStepView::Prefill {
            path: text::joined(dir, "usb.empty.medium"@),
            len: 512,
        }));
        assert(config::gives_drive(
            c.argv(),
            text::joined(dir, "usb.empty.medium"@),
            "usb0"@,
            "raw"@,
        ));
    }
    if c.guest.emmc_img is Some {
        assert(all[all.len() - 1] == (LaunchStepView::LockImage { path: c.guest.emmc_img->0@ }));
    }
}

/// The files that QEMU is told to share on macOS exist before it starts, large enough; the
/// placeholder of the slot keeps what it holds.
pub proof fn macos_files_are_prepared(c: QemuConfig)
    ensures
        ({
            let dir = config::instance_dir(c.instance_id);
            let all = macos_preparation(c);
            &&& all.contains(
                LaunchStepView::Prefill {
                    path: text::joined(dir, "main.shm"@),
                    len: 8_388_608,
                },
            )
            &&& all.contains(
                LaunchStepView::Prefill { path: text::joined(dir, "jog.shm"@), len: 1_048_576 },
            )
            &&& all.contains(
                LaunchStepView::PrefillMissing {
                    path: text::joined(dir, "usb.placeholder"@),
                    len: 512,
                },
            )
            &&& c.shm ==> all.contains(
                LaunchStepView::Prefill {
                    path: text::joined(dir, "ram.shm"@),
                    len: 1_610_612_736,
                },
            )
            &&& c.emmc_img matches Some(img) ==> all.contains(
                LaunchStepView::LockImage { path: img@ },
            )
        }),
{
    let dir = config::instance_dir(c.instance_id);
    let all = macos_preparation(c);
    let n = all.len();
    assert(all[n - 3] == (LaunchStepView::Prefill {
        path: text::joined(dir, "main.shm"@),
        len: 8_388_608,
    }));
    assert(all[n - 2] == (LaunchStepView::Prefill {
        path: text::joined(dir, "jog.shm"@),
        len: 1_048_576,
    }));
    assert(all[n - 1] == (LaunchStepView::PrefillMissing {
        path: text::joined(dir, "usb.placeholder"@),
        len: 512,
    }));
    if c.shm {
        assert(all[n - 4] == (LaunchStepView::Prefill {
            path: text::joined(dir, "ram.shm"@),
            len: 1_610_612_736,
        }));
    }
    if c.emmc_img is Some {
        assert(all[2] == (LaunchStepView::LockImage { path: c.emmc_img->0@ }));
    }
}

/// The main display that is prepared on macOS is the one that QEMU is told to share.
pub proof fn the_macos_display_is_the_prepared_one(c: QemuConfig)
    ensures
        config::gives(
            c.argv(),
            "-display"@,
            "shm,path="@ + text::joined(config::instance_dir(c.instance_id), "main.shm"@),
        ),
{
    lemma_display_path(c.instance_id);
    config::macos_shares_files_with_the_application(c);
}

proof fn lemma_display_path(id: u32)
    ensures
        "shm,path="@ + config::instance_dir(id) + "/main.shm"@ == "shm,path="@ + text::joined(
            config::instance_dir(id),
            "main.shm"@,
        ),
{
    let dir = config::instance_dir(id);
    let name = "main.shm"@;
    lemma_instance_dir_ends_with_a_digit(id);
    assert("/main.shm"@ =~= seq!['/'] + name && name[0] != '/') by {
        reveal_strlit("main.shm");
        reveal_strlit("/main.shm");
    }
    assert(text::joined(dir, name) == dir.push('/') + name);
    assert("shm,path="@ + dir + (seq!['/'] + name) =~= "shm,path="@ + (dir.push('/') + name));
}

proof fn lemma_instance_dir_ends_with_a_digit(id: u32)
    ensures
        config::instance_dir(id).len() > 0,
        config::instance_dir(id).last() != '/',
{
    text::lemma_decimal_reads_back(id as nat);
    let d = text::decimal(id as nat);
    assert(config::instance_dir(id).last() == d[d.len() - 1]);
    assert(text::is_digit(d[d.len() - 1]));
}

/// The readers of the displays and the control client look for their files where QEMU puts
/// them: directly below the directory of the run.
pub proof fn readers_look_where_qemu_writes(dir: Seq<char>)
    requires
        dir.len() > 0,
        dir.last() != '/',
    ensures
        text::file_below(dir, "main.shm"@) == text::joined(dir, "main.shm"@),
        text::file_below(dir, "jog.shm"@) == text::joined(dir, "jog.shm"@),
        text::file_below(dir, "ctrl.sock"@) == text::joined(dir, "ctrl"@ + ".sock"@),
{
    reveal_strlit("main.shm");
    reveal_strlit("jog.shm");
    reveal_strlit("ctrl.sock");
    reveal_strlit("ctrl");
    reveal_strlit(".sock");
    reveal_strlit("/");
    assert("ctrl"@ + ".sock"@ =~= "ctrl.sock"@);
    assert(text::without_end_slashes(dir) == dir);
    assert(text::file_below(dir, "main.shm"@) =~= text::joined(dir, "main.shm"@));
    assert(text::file_below(dir, "jog.shm"@) =~= text::joined(dir, "jog.shm"@));
    assert(text::file_below(dir, "ctrl.sock"@) =~= text::joined(dir, "ctrl"@ + ".sock"@));
}

/// A launch is monitored when and only when the protocol was negotiated; it is tried again
/// while there is time; and it is abandoned with its reason, and QEMU killed unless it has
/// exited by itself.
pub proof fn launches_end_in_one_of_two_ways(event: NegotiationEvent, a: NegotiationAction)
    requires
        is_negotiation_action(event, a),
    ensures
        a is Monitor <==> event is Connected,
        a is Connect <==> event is ChildRunning,
        a is Retry <==> (event matches NegotiationEvent::ConnectFailed { expired, .. } && !expired),
        a matches NegotiationAction::Abandon { kill, .. } ==> kill == !(event is ChildExited),
        event matches NegotiationEvent::ConnectFailed { error, expired } ==> expired ==> a == (
        NegotiationAction::Abandon { kill: true, error: InstanceError::QmpConnect(error) }),
        event matches NegotiationEvent::ChildUnknown { error } ==> a == (
        NegotiationAction::Abandon { kill: true, error: InstanceError::SockDir(error) }),
        event is ChildExited ==> (a matches NegotiationAction::Abandon {
            error: InstanceError::QmpConnect(QmpError::QemuError(_)),
            ..
        }),
{
}

/// A lock that somebody else holds is reported as the lock that it is, with its path; any
/// other trouble is reported with the host's message.
pub proof fn failed_steps_name_their_cause(step: LaunchStep, path: String, message: String)
    ensures
        forall|e: InstanceError| #[trigger]
            is_step_error(LaunchStep::LockInstance { path }, StepFailure::Locked, e) ==> e
                == InstanceError::InstanceLocked(path),
        forall|e: InstanceError| #[trigger]
            is_step_error(LaunchStep::LockImage { path }, StepFailure::Locked, e) ==> e
                == InstanceError::EmmcLocked(path),
        forall|e: InstanceError| #[trigger]
            is_step_error(step, StepFailure::Io(message), e) ==> e == InstanceError::SockDir(
                message,
            ),
{
}

/// A shutdown begins with the guest's own cleanup, wherever QEMU may still run under a
/// monitor; 8 seconds later the power button is pressed, after 20 more QEMU is told to quit,
/// and after 5 more it is killed. Whenever QEMU has exited there is nothing left to do, and
/// until a stage's time is over it is given that time.
pub proof fn shutdowns_go_through_three_stages(
    has_monitor: bool,
    owns_child: bool,
    running: bool,
    stage: ShutdownStage,
    expired: bool,
)
    ensures
        !has_monitor ==> first_stage(has_monitor, owns_child, running) is None,
        owns_child && !running ==> first_stage(has_monitor, owns_child, running) is None,
        has_monitor && running ==> first_stage(has_monitor, owns_child, running) == Some(
            ShutdownStage::Cleanup,
        ),
        has_monitor && !owns_child ==> first_stage(has_monitor, owns_child, running) == Some(
            ShutdownStage::Cleanup,
        ),
        stage_seconds(ShutdownStage::Cleanup) == 8,
        stage_seconds(ShutdownStage::Powerdown) == 20,
        stage_seconds(ShutdownStage::Quit) == 5,
        wait_step(stage, false, expired) is Exited,
        wait_step(stage, true, false) is Poll,
        wait_step(ShutdownStage::Cleanup, true, true) == (WaitStep::Advance {
            next: ShutdownStage::Powerdown,
        }),
        wait_step(ShutdownStage::Powerdown, true, true) == (WaitStep::Advance {
            next: ShutdownStage::Quit,
        }),
        wait_step(ShutdownStage::Quit, true, true) is Kill,
{
}

/// A cleanup zeroes the first bytes of both shared files before anything else, removes a
/// directory with all that is in it and any other entry as a file, and is about entries of the
/// directory alone.
pub proof fn cleanups_are_about_the_directory(
    dir: Seq<char>,
    entries: Seq<DirEntry>,
    keep_vmnet: bool,
    entry: DirEntry,
)
    ensures
        cleanup_plan(dir, entries, keep_vmnet)[0] == (CleanupView::ZeroMagic {
            path: text::joined(dir, "main.shm"@),
        }),
        cleanup_plan(dir, entries, keep_vmnet)[1] == (CleanupView::ZeroMagic {
            path: text::joined(dir, "jog.shm"@),
        }),
        entry.is_dir == Some(true) ==> removal(dir, entry) == seq![
            CleanupView::RemoveTree { path: text::joined(dir, entry.name@) },
        ],
        entry.is_dir == Some(false) ==> removal(dir, entry) == seq![
            CleanupView::RemoveFile { path: text::joined(dir, entry.name@) },
        ],
        entry.is_dir is None ==> removal(dir, entry).len() == 0,
        is_vmnet_name(entry.name@) <==> entry.name@.len() >= 6 && entry.name@[0] == 'v'
            && entry.name@[1] == 'm' && entry.name@[2] == 'n' && entry.name@[3] == 'e'
            && entry.name@[4] == 't' && entry.name@[5] == '-',
{
    reveal_strlit("vmnet-");
    let n = entry.name@;
    if is_vmnet_name(n) {
        let t = n.take(6);
        assert(t[0] == n[0] && t[1] == n[1] && t[2] == n[2] && t[3] == n[3] && t[4] == n[4] && t[5]
            == n[5]);
    }
    if n.len() >= 6 && n[0] == 'v' && n[1] == 'm' && n[2] == 'n' && n[3] == 'e' && n[4] == 't'
        && n[5] == '-' {
        assert(n.take(6) =~= "vmnet-"@);
    }
}

/// The cleanup on Linux removes every file that QEMU and the displays share in a run, and
/// zeroes the first bytes of the shared memory before it does.
pub proof fn the_linux_cleanup_removes_the_shared_files(run_dir: Seq<char>)
    ensures
        ({
            let all = linux_cleanup(run_dir);
            let gone = |name: Seq<char>|
                all.contains(CleanupView::RemoveFile { path: text::joined(run_dir, name) });
            &&& gone("main.shm"@) && gone("jog.shm"@) && gone("ram.shm"@)
            &&& gone("ctrl.sock"@) && gone("cfg.sock"@)
            &&& gone("usb.placeholder"@) && gone("usb.empty.medium"@)
            &&& all[0] == (CleanupView::ZeroMagic { path: text::joined(run_dir, "main.shm"@) })
            &&& all[2] == (CleanupView::ZeroMagic { path: text::joined(run_dir, "jog.shm"@) })
            &&& all[4] == (CleanupView::ZeroMagic { path: text::joined(run_dir, "ram.shm"@) })
            &&& all.len() == 10
        }),
{
    let all = linux_cleanup(run_dir);
    assert(all[1] == (CleanupView::RemoveFile { path: text::joined(run_dir, "main.shm"@) }));
    assert(all[3] == (CleanupView::RemoveFile { path: text::joined(run_dir, "jog.shm"@) }));
    assert(all[5] == (CleanupView::RemoveFile { path: text::joined(run_dir, "ram.shm"@) }));
    assert(all[6] == (CleanupView::RemoveFile { path: text::joined(run_dir, "ctrl.sock"@) }));
    assert(all[7] == (CleanupView::RemoveFile { path: text::joined(run_dir, "cfg.sock"@) }));
    assert(all[8] == (CleanupView::RemoveFile { path: text::joined(run_dir, "usb.placeholder"@) }));
    assert(all[9] == (CleanupView::RemoveFile {
        path: text::joined(run_dir, "usb.empty.medium"@),
    }));
}

/// A path of one of the names, which begins like a protocol socket.
pub open spec fn is_socket_of(run_dir: Seq<char>, names: Seq<Seq<char>>, path: Seq<char>) -> bool {
    exists|j: int|
        0 <= j < names.len() && text::has_prefix(#[trigger] names[j], "qmp-"@) && path
            == text::joined(run_dir, names[j])
}

/// The protocol sockets of earlier launches are removed, each of them, and no other file is.
pub proof fn sockets_of_earlier_launches_are_removed(
    run_dir: Seq<char>,
    names: Seq<Seq<char>>,
    i: int,
    id: u128,
)
    requires
        0 <= i < names.len(),
    ensures
        names[i] == "qmp-"@ + text::decimal(id as nat) + ".sock"@ ==> stale_sockets(
            run_dir,
            names,
        ).contains(launch_socket(run_dir, id)),
        forall|k: int|
            0 <= k < stale_sockets(run_dir, names).len() ==> is_socket_of(
                run_dir,
                names,
                #[trigger] stale_sockets(run_dir, names)[k],
            ),
    decreases names.len(),
{
    let front = names.drop_last();
    let before = stale_sockets(run_dir, front);
    let all = stale_sockets(run_dir, names);
    reveal_strlit("qmp-");
    let name = "qmp-"@ + text::decimal(id as nat) + ".sock"@;
    assert(name.take(4) =~= "qmp-"@);
    if i < front.len() {
        sockets_of_earlier_launches_are_removed(run_dir, front, i, id);
        if names[i] == name {
            let k = choose|k: int| 0 <= k < before.len() && before[k] == launch_socket(run_dir, id);
            assert(all[k] == launch_socket(run_dir, id));
        }
    } else if names[i] == name {
        assert(all[all.len() - 1] == launch_socket(run_dir, id));
    }
    lemma_stale_sockets_come_from_names(run_dir, names);
}

proof fn lemma_stale_sockets_come_from_names(run_dir: Seq<char>, names: Seq<Seq<char>>)
    ensures
        forall|k: int|
            0 <= k < stale_sockets(run_dir, names).len() ==> is_socket_of(
                run_dir,
                names,
                #[trigger] stale_sockets(run_dir, names)[k],
            ),
    decreases names.len(),
{
    if names.len() > 0 {
        let front = names.drop_last();
        let before = stale_sockets(run_dir, front);
        let all = stale_sockets(run_dir, names);
        lemma_stale_sockets_come_from_names(run_dir, front);
        assert forall|k: int| 0 <= k < all.len() implies is_socket_of(
            run_dir,
            names,
            #[trigger] all[k],
        ) by {
            if k < before.len() {
                assert(all[k] == before[k]);
                assert(is_socket_of(run_dir, front, before[k]));
                let j = choose|j: int|
                    0 <= j < front.len() && text::has_prefix(#[trigger] front[j], "qmp-"@)
                        && before[k] == text::joined(run_dir, front[j]);
                assert(names[j] == front[j]);
            } else {
                assert(text::has_prefix(names[names.len() - 1], "qmp-"@));
                assert(all[k] == text::joined(run_dir, names[names.len() - 1]));
            }
        }
    }
}

} // verus!
