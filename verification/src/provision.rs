//! Installing a firmware: decrypt the update, install the kernel, patch the initramfs, and
//! create the eMMC image.
//!
//! [`ProvisionRun`] decides what comes next and keeps the status and the log; the caller
//! performs each action and reports its outcome.

use vstd::prelude::*;

use crate::emmc;
use crate::emmc::{default_path, EmmcConfig, FirmwareInfo};
use crate::menu_state::{AppState, LifecycleState};
use crate::text;
use crate::text::{cat2, cat3, decimal_text, join_path};

verus! {

/// How far an installation has come.
#[derive(Clone, Debug)]
pub enum ProvisionStep {
    Decrypting,
    ExtractingKernel,
    PatchingInitramfs,
    CreatingEmmc,
    Done,
    Error(String),
}

/// What a [`ProvisionStep`] holds.
pub enum StepView {
    Decrypting,
    ExtractingKernel,
    PatchingInitramfs,
    CreatingEmmc,
    Done,
    Error(Seq<char>),
}

impl View for ProvisionStep {
    type V = StepView;

    open spec fn view(&self) -> StepView {
        match *self {
            ProvisionStep::Decrypting => StepView::Decrypting,
            ProvisionStep::ExtractingKernel => StepView::ExtractingKernel,
            ProvisionStep::PatchingInitramfs => StepView::PatchingInitramfs,
            ProvisionStep::CreatingEmmc => StepView::CreatingEmmc,
            ProvisionStep::Done => StepView::Done,
            ProvisionStep::Error(message) => StepView::Error(message@),
        }
    }
}

/// The step as the wizard shows it.
pub open spec fn step_label(step: StepView) -> Seq<char> {
    match step {
        StepView::Decrypting => "Decrypting firmware…"@,
        StepView::ExtractingKernel => "Extracting kernel…"@,
        StepView::PatchingInitramfs => "Patching initramfs…"@,
        StepView::CreatingEmmc => "Creating eMMC image…"@,
        StepView::Done => "Done"@,
        StepView::Error(_) => "Error"@,
    }
}

impl ProvisionStep {
    /// The step as the wizard shows it.
    pub fn label(&self) -> (r: &'static str)
        ensures
            r@ == step_label(self@),
    {
        match self {
            ProvisionStep::Decrypting => "Decrypting firmware…",
            ProvisionStep::ExtractingKernel => "Extracting kernel…",
            ProvisionStep::PatchingInitramfs => "Patching initramfs…",
            ProvisionStep::CreatingEmmc => "Creating eMMC image…",
            ProvisionStep::Done => "Done",
            ProvisionStep::Error(_) => "Error",
        }
    }

    /// Whether the installation has ended.
    pub fn is_terminal(&self) -> (r: bool)
        ensures
            r == (self@ is Done || self@ is Error),
    {
        match self {
            ProvisionStep::Done => true,
            ProvisionStep::Error(_) => true,
            _ => false,
        }
    }
}

/// What is being installed, and where.
#[derive(Clone, Debug)]
pub struct ProvisionJob {
    pub upd_path: String,
    pub target_instance: u32,
    /// The host's directory for temporary files.
    pub temp_dir: String,
    /// The application's data directory.
    pub app_data_dir: String,
    /// Optional explicit qemu-img binary.
    pub qemu_img: Option<String>,
}

impl ProvisionJob {
    /// The decrypted firmware.
    pub open spec fn iso(self) -> Seq<char> {
        text::joined(
            self.temp_dir@,
            "cdj3k-emu-firmware-"@ + text::decimal(self.target_instance as nat) + ".iso.tmp"@,
        )
    }

    /// The directory of the target instance.
    pub open spec fn out_dir(self) -> Seq<char> {
        text::joined(
            self.app_data_dir@,
            "instance-"@ + text::decimal(self.target_instance as nat),
        )
    }

    /// The eMMC image of the target instance.
    pub open spec fn emmc(self) -> Seq<char> {
        emmc::image_path(self.app_data_dir@, self.target_instance)
    }

    fn iso_path(&self) -> (r: String)
        ensures
            r@ == self.iso(),
    {
        join_path(
            self.temp_dir.as_str(),
            cat3(
                "cdj3k-emu-firmware-",
                decimal_text(self.target_instance as u128).as_str(),
                ".iso.tmp",
            ).as_str(),
        )
    }

    fn out_path(&self) -> (r: String)
        ensures
            r@ == self.out_dir(),
    {
        join_path(
            self.app_data_dir.as_str(),
            cat2("instance-", decimal_text(self.target_instance as u128).as_str()).as_str(),
        )
    }

    fn out_file(&self, name: &str) -> (r: String)
        ensures
            r@ == text::joined(self.out_dir(), name@),
    {
        join_path(self.out_path().as_str(), name)
    }

    fn emmc_file(&self) -> (r: String)
        ensures
            r@ == self.emmc(),
    {
        default_path(self.app_data_dir.as_str(), self.target_instance)
    }
}

/// What the run is waiting for.
#[derive(Clone, Copy, Debug, PartialEq, Eq, Structural)]
pub enum ProvisionStage {
    Decrypt,
    ReadInfo,
    CreateDir,
    FindResources,
    CopyKernel,
    ExtractKernel,
    ExtractInitramfs,
    DropKernel,
    Patch,
    DropInitramfs,
    CheckEmmc,
    RemoveEmmc,
    CreateEmmc,
    DropIso,
    Finished,
}

/// What the caller is to do next.
#[derive(Clone, Debug)]
pub enum ProvisionAction {
    /// Decrypt the update to an ISO image.
    Decrypt { upd: String, iso: String },
    /// Read the version metadata of the ISO image.
    ReadInfo { iso: String },
    /// Create the directory and what is above it.
    CreateDir { path: String },
    /// Find the resources.
    FindResources,
    /// Copy the file.
    Copy { from: String, to: String },
    /// Extract the kernel of the ISO image.
    ExtractKernel { iso: String, to: String },
    /// Extract the initramfs of the kernel.
    ExtractInitramfs { kernel: String, to: String },
    /// Patch the initramfs with the resources.
    Patch { initramfs: String, resources: String, to: String },
    /// Say whether the path exists.
    CheckPath { path: String },
    /// Remove the file.
    Remove { path: String },
    /// Create the eMMC image.
    CreateEmmc { config: EmmcConfig },
    /// The run has ended.
    Finish,
}

/// What a [`ProvisionAction`] holds.
pub enum ActionView {
    Decrypt { upd: Seq<char>, iso: Seq<char> },
    ReadInfo { iso: Seq<char> },
    CreateDir { path: Seq<char> },
    FindResources,
    Copy { from: Seq<char>, to: Seq<char> },
    ExtractKernel { iso: Seq<char>, to: Seq<char> },
    ExtractInitramfs { kernel: Seq<char>, to: Seq<char> },
    Patch { initramfs: Seq<char>, resources: Seq<char>, to: Seq<char> },
    CheckPath { path: Seq<char> },
    Remove { path: Seq<char> },
    CreateEmmc {
        path: Seq<char>,
        instance_id: u32,
        firmware: FirmwareInfo,
        qemu_img: Option<String>,
    },
    Finish,
}

impl View for ProvisionAction {
    type V = ActionView;

    open spec fn view(&self) -> ActionView {
        match *self {
            ProvisionAction::Decrypt { upd, iso } => ActionView::Decrypt { upd: upd@, iso: iso@ },
            ProvisionAction::ReadInfo { iso } => ActionView::ReadInfo { iso: iso@ },
            ProvisionAction::CreateDir { path } => ActionView::CreateDir { path: path@ },
            ProvisionAction::FindResources => ActionView::FindResources,
            ProvisionAction::Copy { from, to } => ActionView::Copy { from: from@, to: to@ },
            ProvisionAction::ExtractKernel { iso, to } => ActionView::ExtractKernel {
                iso: iso@,
                to: to@,
            },
            ProvisionAction::ExtractInitramfs { kernel, to } => ActionView::ExtractInitramfs {
                kernel: kernel@,
                to: to@,
            },
            ProvisionAction::Patch { initramfs, resources, to } => ActionView::Patch {
                initramfs: initramfs@,
                resources: resources@,
                to: to@,
            },
            ProvisionAction::CheckPath { path } => ActionView::CheckPath { path: path@ },
            ProvisionAction::Remove { path } => ActionView::Remove { path: path@ },
            ProvisionAction::CreateEmmc { config } => ActionView::CreateEmmc {
                path: config.path@,
                instance_id: config.instance_id,
                firmware: config.firmware,
                qemu_img: config.qemu_img,
            },
            ProvisionAction::Finish => ActionView::Finish,
        }
    }
}

/// The outcome of an action.
#[derive(Clone, Debug)]
pub enum ProvisionEvent {
    /// The action succeeded, or the path exists.
    Done,
    /// The path does not exist.
    Absent,
    /// The version metadata.
    Info(FirmwareInfo),
    /// The directory of the resources.
    Resources(String),
    /// The action failed; holds the error's text.
    Failed(String),
}

/// A running installation.
#[derive(Debug)]
pub struct ProvisionRun {
    pub job: ProvisionJob,
    pub stage: ProvisionStage,
    pub status: ProvisionStep,
    /// A step went wrong, and the run clears up what it has decrypted.
    pub failed: bool,
    /// The directory of the resources, once it is known.
    pub resources: String,
    /// The version metadata, once it is known.
    pub info: FirmwareInfo,
    pub log: String,
}

/// The status that the wizard shows in a stage.
pub open spec fn stage_status(stage: ProvisionStage) -> StepView {
    match stage {
        ProvisionStage::Decrypt | ProvisionStage::ReadInfo => StepView::Decrypting,
        ProvisionStage::CreateDir
        | ProvisionStage::FindResources
        | ProvisionStage::CopyKernel => StepView::ExtractingKernel,
        ProvisionStage::ExtractKernel
        | ProvisionStage::ExtractInitramfs
        | ProvisionStage::DropKernel
        | ProvisionStage::Patch
        | ProvisionStage::DropInitramfs => StepView::PatchingInitramfs,
        ProvisionStage::CheckEmmc
        | ProvisionStage::RemoveEmmc
        | ProvisionStage::CreateEmmc
        | ProvisionStage::DropIso => StepView::CreatingEmmc,
        ProvisionStage::Finished => StepView::Done,
    }
}

/// The action of a stage.
pub open spec fn stage_action(
    stage: ProvisionStage,
    job: ProvisionJob,
    resources: Seq<char>,
    info: FirmwareInfo,
) -> ActionView {
    let dir = job.out_dir();
    let kernel = text::joined(dir, "Image.pioneer.tmp"@);
    let original = text::joined(dir, "initramfs-orig.cpio"@);
    match stage {
        ProvisionStage::Decrypt => ActionView::Decrypt { upd: job.upd_path@, iso: job.iso() },
        ProvisionStage::ReadInfo => ActionView::ReadInfo { iso: job.iso() },
        ProvisionStage::CreateDir => ActionView::CreateDir { path: dir },
        ProvisionStage::FindResources => ActionView::FindResources,
        ProvisionStage::CopyKernel => ActionView::Copy {
            from: text::joined(resources, "Image"@),
            to: text::joined(dir, "Image"@),
        },
        ProvisionStage::ExtractKernel => ActionView::ExtractKernel { iso: job.iso(), to: kernel },
        ProvisionStage::ExtractInitramfs => ActionView::ExtractInitramfs { kernel, to: original },
        ProvisionStage::DropKernel => ActionView::Remove { path: kernel },
        ProvisionStage::Patch => ActionView::Patch {
            initramfs: original,
            resources,
            to: text::joined(dir, "initramfs-patched.cpio.gz"@),
        },
        ProvisionStage::DropInitramfs => ActionView::Remove { path: original },
        ProvisionStage::CheckEmmc => ActionView::CheckPath { path: job.emmc() },
        ProvisionStage::RemoveEmmc => ActionView::Remove { path: job.emmc() },
        ProvisionStage::CreateEmmc => ActionView::CreateEmmc {
            path: job.emmc(),
            instance_id: job.target_instance,
            firmware: info,
            qemu_img: job.qemu_img,
        },
        ProvisionStage::DropIso => ActionView::Remove { path: job.iso() },
        ProvisionStage::Finished => ActionView::Finish,
    }
}

/// The action that a run asks for.
pub open spec fn asked(run: ProvisionRun) -> ActionView {
    stage_action(run.stage, run.job, run.resources@, run.info)
}

/// A line of the log.
pub open spec fn line(words: Seq<char>) -> Seq<char> {
    words + "\n"@
}

/// What the log says before the action of a stage.
pub open spec fn entry_log(stage: ProvisionStage, job: ProvisionJob, resources: Seq<char>) -> Seq<
    char,
> {
    let dir = job.out_dir();
    match stage {
        ProvisionStage::Decrypt => line(
            "[slot] target = instance-"@ + text::decimal(job.target_instance as nat),
        ) + line("[decrypt] opening "@ + job.upd_path@) + line("[decrypt] output → "@ + job.iso()),
        ProvisionStage::CopyKernel => line(
            "[kernel] installing kernel "@ + text::joined(resources, "Image"@) + " → "@
                + text::joined(dir, "Image"@),
        ),
        ProvisionStage::ExtractKernel => line("[patch] resources dir: "@ + resources) + line(
            "[initramfs] extracting Pioneer kernel (initramfs source) → "@ + text::joined(
                dir,
                "Image.pioneer.tmp"@,
            ),
        ),
        ProvisionStage::ExtractInitramfs => line(
            "[initramfs] extracting from Pioneer kernel → "@ + text::joined(
                dir,
                "initramfs-orig.cpio"@,
            ),
        ),
        ProvisionStage::RemoveEmmc => line("[emmc] removing existing image → "@ + job.emmc()),
        ProvisionStage::CreateEmmc => line("[emmc] provisioning → "@ + job.emmc()),
        ProvisionStage::Finished => line("[done] all steps completed"@),
        _ => Seq::empty(),
    }
}

/// A version, or "(unknown)".
pub open spec fn shown_version(version: Option<String>) -> Seq<char> {
    match version {
        Some(v) => v@,
        None => "(unknown)"@,
    }
}

/// What the log says of the version metadata.
pub open spec fn info_log(info: FirmwareInfo) -> Seq<char> {
    line(
        "[firmware] release="@ + shown_version(info.release) + " rev_apl="@ + shown_version(
            info.rev_apl,
        ) + " rev_kernel="@ + shown_version(info.rev_kernel) + " miniloader="@ + shown_version(
            info.miniloader,
        ),
    )
}

/// What the log says after the action of a stage, where nothing went wrong.
pub open spec fn exit_log(stage: ProvisionStage, job: ProvisionJob) -> Seq<char> {
    match stage {
        ProvisionStage::Decrypt => line("[decrypt] OK - ISO written"@),
        ProvisionStage::CopyKernel => line("[kernel] OK"@),
        ProvisionStage::DropKernel => line("[initramfs] OK"@),
        ProvisionStage::Patch => line(
            "[patch] OK → "@ + text::joined(job.out_dir(), "initramfs-patched.cpio.gz"@),
        ),
        ProvisionStage::CreateEmmc => line("[emmc] OK"@),
        _ => Seq::empty(),
    }
}

/// The stage after this one. An existing eMMC image is removed first.
pub open spec fn next_stage(stage: ProvisionStage, absent: bool) -> ProvisionStage {
    match stage {
        ProvisionStage::Decrypt => ProvisionStage::ReadInfo,
        ProvisionStage::ReadInfo => ProvisionStage::CreateDir,
        ProvisionStage::CreateDir => ProvisionStage::FindResources,
        ProvisionStage::FindResources => ProvisionStage::CopyKernel,
        ProvisionStage::CopyKernel => ProvisionStage::ExtractKernel,
        ProvisionStage::ExtractKernel => ProvisionStage::ExtractInitramfs,
        ProvisionStage::ExtractInitramfs => ProvisionStage::DropKernel,
        ProvisionStage::DropKernel => ProvisionStage::Patch,
        ProvisionStage::Patch => ProvisionStage::DropInitramfs,
        ProvisionStage::DropInitramfs => ProvisionStage::CheckEmmc,
        ProvisionStage::CheckEmmc => if absent {
            ProvisionStage::CreateEmmc
        } else {
            ProvisionStage::RemoveEmmc
        },
        ProvisionStage::RemoveEmmc => ProvisionStage::CreateEmmc,
        ProvisionStage::CreateEmmc => ProvisionStage::DropIso,
        ProvisionStage::DropIso => ProvisionStage::Finished,
        ProvisionStage::Finished => ProvisionStage::Finished,
    }
}

/// A failure in this stage is passed over: the metadata defaults to unknown, and a temporary
/// file may stay.
pub open spec fn may_fail(stage: ProvisionStage) -> bool {
    match stage {
        ProvisionStage::ReadInfo
        | ProvisionStage::DropKernel
        | ProvisionStage::DropInitramfs
        | ProvisionStage::DropIso => true,
        _ => false,
    }
}

/// The error as the log shows it.
pub open spec fn shown_failure(stage: ProvisionStage, error: Seq<char>) -> Seq<char> {
    if stage == ProvisionStage::CopyKernel {
        "copy Image: "@ + error
    } else {
        error
    }
}

/// A step makes the run fail.
pub open spec fn aborts(stage: ProvisionStage, event: ProvisionEvent) -> bool {
    event is Failed && !may_fail(stage)
}

/// The stage after this one, where a run clears up: the kernel, the initramfs and the image
/// that were decrypted are removed.
pub open spec fn next_clearing(stage: ProvisionStage) -> ProvisionStage {
    match stage {
        ProvisionStage::DropKernel => ProvisionStage::DropInitramfs,
        ProvisionStage::DropInitramfs => ProvisionStage::DropIso,
        _ => ProvisionStage::Finished,
    }
}

/// The stage that an outcome leads to.
pub open spec fn stage_following(
    stage: ProvisionStage,
    failed: bool,
    event: ProvisionEvent,
) -> ProvisionStage {
    if failed {
        next_clearing(stage)
    } else if aborts(stage, event) {
        ProvisionStage::DropKernel
    } else {
        next_stage(stage, event is Absent)
    }
}

/// `after` is where an outcome leads `before`.
pub open spec fn proceeds(
    before: ProvisionRun,
    event: ProvisionEvent,
    after: ProvisionRun,
) -> bool {
    &&& after.job == before.job
    &&& after.stage == stage_following(before.stage, before.failed, event)
    &&& after.failed == (before.failed || aborts(before.stage, event))
}

/// The status after a step. A run that failed says so when it has cleared up.
pub open spec fn status_after(before: ProvisionRun, after: ProvisionRun) -> StepView {
    if !after.failed {
        stage_status(after.stage)
    } else if after.stage is Finished {
        failure_status()
    } else {
        before.status@
    }
}

/// The log after a step, up to the next stage.
pub open spec fn log_after(run: ProvisionRun, event: ProvisionEvent) -> Seq<char> {
    if run.failed {
        run.log@
    } else {
        stage_log(run, event)
    }
}

/// The log after a step of a run that goes well, up to the next stage.
pub open spec fn stage_log(run: ProvisionRun, event: ProvisionEvent) -> Seq<char> {
    match event {
        ProvisionEvent::Failed(error) => if !may_fail(run.stage) {
            run.log@ + line("[error] "@ + shown_failure(run.stage, error@))
        } else if run.stage == ProvisionStage::ReadInfo {
            run.log@ + line(
                "[firmware] could not read version info ("@ + error@
                    + "), defaulting to all-unknown"@,
            )
        } else {
            run.log@ + exit_log(run.stage, run.job)
        },
        ProvisionEvent::Info(info) => run.log@ + info_log(info),
        _ => run.log@ + exit_log(run.stage, run.job),
    }
}

/// The version metadata after a step.
pub open spec fn info_after(run: ProvisionRun, event: ProvisionEvent) -> FirmwareInfo {
    match event {
        ProvisionEvent::Info(info) => if run.failed {
            run.info
        } else {
            info
        },
        _ => run.info,
    }
}

/// The directory of the resources after a step.
pub open spec fn resources_after(run: ProvisionRun, event: ProvisionEvent) -> Seq<char> {
    match event {
        ProvisionEvent::Resources(dir) => if run.failed {
            run.resources@
        } else {
            dir@
        },
        _ => run.resources@,
    }
}

/// The shared state after a step: where an instance was provisioned that this window shows, it
/// is to be booted.
pub open spec fn state_after(s: AppState, status: StepView, target: u32) -> AppState {
    AppState {
        lifecycle: LifecycleState {
            qemu_boot_requested: s.lifecycle.qemu_boot_requested || (status is Done && target
                == s.current_instance_id),
            ..s.lifecycle
        },
        ..s
    }
}

/// What the operator is told of a failure.
pub open spec fn failure_status() -> StepView {
    StepView::Error("Error while processing: see the console for details"@)
}

fn push_line(log: &mut String, words: &str)
    ensures
        final(log)@ == old(log)@ + line(words@),
{
    log.append(words);
    log.append("\n");
    assert(log@ =~= old(log)@ + line(words@));
}

fn version_text(version: &Option<String>) -> (r: String)
    ensures
        r@ == shown_version(*version),
{
    match version {
        Some(v) => v.clone(),
        None => "(unknown)".to_owned(),
    }
}

fn push_info(log: &mut String, info: &FirmwareInfo)
    ensures
        final(log)@ == old(log)@ + info_log(*info),
{
    let a = cat3("[firmware] release=", version_text(&info.release).as_str(), " rev_apl=");
    let b = cat3(a.as_str(), version_text(&info.rev_apl).as_str(), " rev_kernel=");
    let c = cat3(b.as_str(), version_text(&info.rev_kernel).as_str(), " miniloader=");
    let d = cat2(c.as_str(), version_text(&info.miniloader).as_str());
    push_line(log, d.as_str());
}

fn status_of(stage: ProvisionStage) -> (r: ProvisionStep)
    ensures
        r@ == stage_status(stage),
{
    match stage {
        ProvisionStage::Decrypt | ProvisionStage::ReadInfo => ProvisionStep::Decrypting,
        ProvisionStage::CreateDir
        | ProvisionStage::FindResources
        | ProvisionStage::CopyKernel => ProvisionStep::ExtractingKernel,
        ProvisionStage::ExtractKernel
        | ProvisionStage::ExtractInitramfs
        | ProvisionStage::DropKernel
        | ProvisionStage::Patch
        | ProvisionStage::DropInitramfs => ProvisionStep::PatchingInitramfs,
        ProvisionStage::CheckEmmc
        | ProvisionStage::RemoveEmmc
        | ProvisionStage::CreateEmmc
        | ProvisionStage::DropIso => ProvisionStep::CreatingEmmc,
        ProvisionStage::Finished => ProvisionStep::Done,
    }
}

fn stage_after(stage: ProvisionStage, absent: bool) -> (r: ProvisionStage)
    ensures
        r == next_stage(stage, absent),
{
    match stage {
        ProvisionStage::Decrypt => ProvisionStage::ReadInfo,
        ProvisionStage::ReadInfo => ProvisionStage::CreateDir,
        ProvisionStage::CreateDir => ProvisionStage::FindResources,
        ProvisionStage::FindResources => ProvisionStage::CopyKernel,
        ProvisionStage::CopyKernel => ProvisionStage::ExtractKernel,
        ProvisionStage::ExtractKernel => ProvisionStage::ExtractInitramfs,
        ProvisionStage::ExtractInitramfs => ProvisionStage::DropKernel,
        ProvisionStage::DropKernel => ProvisionStage::Patch,
        ProvisionStage::Patch => ProvisionStage::DropInitramfs,
        ProvisionStage::DropInitramfs => ProvisionStage::CheckEmmc,
        ProvisionStage::CheckEmmc => {
            if absent {
                ProvisionStage::CreateEmmc
            } else {
                ProvisionStage::RemoveEmmc
            }
        },
        ProvisionStage::RemoveEmmc => ProvisionStage::CreateEmmc,
        ProvisionStage::CreateEmmc => ProvisionStage::DropIso,
        ProvisionStage::DropIso => ProvisionStage::Finished,
        ProvisionStage::Finished => ProvisionStage::Finished,
    }
}

fn tolerates_failure(stage: ProvisionStage) -> (r: bool)
    ensures
        r == may_fail(stage),
{
    match stage {
        ProvisionStage::ReadInfo
        | ProvisionStage::DropKernel
        | ProvisionStage::DropInitramfs
        | ProvisionStage::DropIso => true,
        _ => false,
    }
}

impl ProvisionRun {
    /// The run has not been tampered with: the status is the stage's, and a run that failed
    /// clears up and then says so.
    pub open spec fn wf(&self) -> bool {
        if !self.failed {
            self.status@ == stage_status(self.stage)
        } else if self.stage is Finished {
            self.status@ == failure_status()
        } else {
            &&& self.stage is DropKernel || self.stage is DropInitramfs || self.stage is DropIso
            &&& !(self.status@ is Done) && !(self.status@ is Error)
        }
    }

    fn action(&self) -> (r: ProvisionAction)
        ensures
            r@ == asked(*self),
    {
        let job = &self.job;
        match self.stage {
            ProvisionStage::Decrypt => ProvisionAction::Decrypt {
                upd: job.upd_path.clone(),
                iso: job.iso_path(),
            },
            ProvisionStage::ReadInfo => ProvisionAction::ReadInfo { iso: job.iso_path() },
            ProvisionStage::CreateDir => ProvisionAction::CreateDir { path: job.out_path() },
            ProvisionStage::FindResources => ProvisionAction::FindResources,
            ProvisionStage::CopyKernel => ProvisionAction::Copy {
                from: join_path(self.resources.as_str(), "Image"),
                to: job.out_file("Image"),
            },
            ProvisionStage::ExtractKernel => ProvisionAction::ExtractKernel {
                iso: job.iso_path(),
                to: job.out_file("Image.pioneer.tmp"),
            },
            ProvisionStage::ExtractInitramfs => ProvisionAction::ExtractInitramfs {
                kernel: job.out_file("Image.pioneer.tmp"),
                to: job.out_file("initramfs-orig.cpio"),
            },
            ProvisionStage::DropKernel => ProvisionAction::Remove {
                path: job.out_file("Image.pioneer.tmp"),
            },
            ProvisionStage::Patch => ProvisionAction::Patch {
                initramfs: job.out_file("initramfs-orig.cpio"),
                resources: self.resources.clone(),
                to: job.out_file("initramfs-patched.cpio.gz"),
            },
            ProvisionStage::DropInitramfs => ProvisionAction::Remove {
                path: job.out_file("initramfs-orig.cpio"),
            },
            ProvisionStage::CheckEmmc => ProvisionAction::CheckPath { path: job.emmc_file() },
            ProvisionStage::RemoveEmmc => ProvisionAction::Remove { path: job.emmc_file() },
            ProvisionStage::CreateEmmc => {
                let mut config = EmmcConfig::new(job.emmc_file(), job.target_instance);
                config.firmware = self.info_copy();
                config.qemu_img = copy_text(&job.qemu_img);
                ProvisionAction::CreateEmmc { config }
            },
            ProvisionStage::DropIso => ProvisionAction::Remove { path: job.iso_path() },
            ProvisionStage::Finished => ProvisionAction::Finish,
        }
    }

    fn info_copy(&self) -> (r: FirmwareInfo)
        ensures
            r == self.info,
    {
        FirmwareInfo {
            miniloader: copy_text(&self.info.miniloader),
            release: copy_text(&self.info.release),
            rev_apl: copy_text(&self.info.rev_apl),
            rev_kernel: copy_text(&self.info.rev_kernel),
        }
    }

    fn log_entry(&mut self)
        ensures
            final(self).log@ == old(self).log@ + entry_log(
                old(self).stage,
                old(self).job,
                old(self).resources@,
            ),
            final(self).job == old(self).job,
            final(self).stage == old(self).stage,
            final(self).status == old(self).status,
            final(self).failed == old(self).failed,
            final(self).resources == old(self).resources,
            final(self).info == old(self).info,
    {
        let ghost before = self.log@;
        match self.stage {
            ProvisionStage::Decrypt => {
                let id = decimal_text(self.job.target_instance as u128);
                push_line(&mut self.log, cat2("[slot] target = instance-", id.as_str()).as_str());
                push_line(
                    &mut self.log,
                    cat2("[decrypt] opening ", self.job.upd_path.as_str()).as_str(),
                );
                let iso = self.job.iso_path();
                push_line(&mut self.log, cat2("[decrypt] output → ", iso.as_str()).as_str());
            },
            ProvisionStage::CopyKernel => {
                let from = join_path(self.resources.as_str(), "Image");
                let to = self.job.out_file("Image");
                let words = cat3("[kernel] installing kernel ", from.as_str(), " → ");
                push_line(&mut self.log, cat2(words.as_str(), to.as_str()).as_str());
            },
            ProvisionStage::ExtractKernel => {
                push_line(
                    &mut self.log,
                    cat2("[patch] resources dir: ", self.resources.as_str()).as_str(),
                );
                let to = self.job.out_file("Image.pioneer.tmp");
                push_line(
                    &mut self.log,
                    cat2(
                        "[initramfs] extracting Pioneer kernel (initramfs source) → ",
                        to.as_str(),
                    ).as_str(),
                );
            },
            ProvisionStage::ExtractInitramfs => {
                let to = self.job.out_file("initramfs-orig.cpio");
                push_line(
                    &mut self.log,
                    cat2("[initramfs] extracting from Pioneer kernel → ", to.as_str()).as_str(),
                );
            },
            ProvisionStage::RemoveEmmc => {
                let path = self.job.emmc_file();
                push_line(
                    &mut self.log,
                    cat2("[emmc] removing existing image → ", path.as_str()).as_str(),
                );
            },
            ProvisionStage::CreateEmmc => {
                let path = self.job.emmc_file();
                push_line(&mut self.log, cat2("[emmc] provisioning → ", path.as_str()).as_str());
            },
            ProvisionStage::Finished => push_line(&mut self.log, "[done] all steps completed"),
            _ => {},
        }
        assert(self.log@ =~= before + entry_log(
            old(self).stage,
            old(self).job,
            old(self).resources@,
        ));
    }

    fn log_exit(&mut self)
        ensures
            final(self).log@ == old(self).log@ + exit_log(old(self).stage, old(self).job),
            final(self).job == old(self).job,
            final(self).stage == old(self).stage,
            final(self).status == old(self).status,
            final(self).failed == old(self).failed,
            final(self).resources == old(self).resources,
            final(self).info == old(self).info,
    {
        let ghost before = self.log@;
        match self.stage {
            ProvisionStage::Decrypt => push_line(&mut self.log, "[decrypt] OK - ISO written"),
            ProvisionStage::CopyKernel => push_line(&mut self.log, "[kernel] OK"),
            ProvisionStage::DropKernel => push_line(&mut self.log, "[initramfs] OK"),
            ProvisionStage::Patch => {
                let to = self.job.out_file("initramfs-patched.cpio.gz");
                push_line(&mut self.log, cat2("[patch] OK → ", to.as_str()).as_str());
            },
            ProvisionStage::CreateEmmc => push_line(&mut self.log, "[emmc] OK"),
            _ => {},
        }
        assert(self.log@ =~= before + exit_log(old(self).stage, old(self).job));
    }

    /// A new run, which begins by decrypting the update.
    pub fn new(job: ProvisionJob) -> (r: (Self, ProvisionAction))
        ensures
            r.0.job == job,
            r.0.stage is Decrypt,
            r.0.status@ == StepView::Decrypting,
            !r.0.failed,
            r.0.resources@ == Seq::<char>::empty(),
            r.0.info == (FirmwareInfo {
                miniloader: None,
                release: None,
                rev_apl: None,
                rev_kernel: None,
            }),
            r.0.log@ == entry_log(ProvisionStage::Decrypt, job, Seq::empty()),
            r.0.wf(),
            r.1@ == asked(r.0),
    {
        let mut run = ProvisionRun {
            job,
            stage: ProvisionStage::Decrypt,
            status: ProvisionStep::Decrypting,
            failed: false,
            resources: String::new(),
            info: FirmwareInfo::default(),
            log: String::new(),
        };
        assert(run.resources@ =~= Seq::<char>::empty());
        run.log_entry();
        assert(run.log@ =~= entry_log(ProvisionStage::Decrypt, job, Seq::empty()));
        let action = run.action();
        (run, action)
    }

    /// Takes a line that the caller has for the log.
    pub fn note(&mut self, words: &str)
        ensures
            *final(self) == (ProvisionRun { log: final(self).log, ..*old(self) }),
            final(self).log@ == old(self).log@ + line(words@),
    {
        push_line(&mut self.log, words);
    }

    /// Goes on with clearing up.
    fn clear_up(&mut self)
        requires
            old(self).failed,
        ensures
            final(self).stage == next_clearing(old(self).stage),
            final(self).status@ == (if final(self).stage is Finished {
                failure_status()
            } else {
                old(self).status@
            }),
            *final(self) == (ProvisionRun {
                stage: final(self).stage,
                status: final(self).status,
                ..*old(self)
            }),
    {
        match self.stage {
            ProvisionStage::DropKernel => {
                self.stage = ProvisionStage::DropInitramfs;
            },
            ProvisionStage::DropInitramfs => {
                self.stage = ProvisionStage::DropIso;
            },
            _ => {
                self.stage = ProvisionStage::Finished;
                self.status = ProvisionStep::Error(
                    "Error while processing: see the console for details".to_owned(),
                );
            },
        }
    }

    /// Takes the outcome of the last action, and returns the next one. Where a step goes
    /// wrong, what was decrypted is removed before the run ends with an error. Where an
    /// instance was provisioned that this window shows, it is booted.
    pub fn step(&mut self, event: ProvisionEvent, s: &mut AppState) -> (r: ProvisionAction)
        requires
            old(self).wf(),
            !(old(self).stage is Finished),
        ensures
            final(self).wf(),
            proceeds(*old(self), event, *final(self)),
            final(self).status@ == status_after(*old(self), *final(self)),
            final(self).info == info_after(*old(self), event),
            final(self).resources@ == resources_after(*old(self), event),
            final(self).log@ == log_after(*old(self), event) + (if final(self).failed {
                Seq::empty()
            } else {
                entry_log(final(self).stage, final(self).job, final(self).resources@)
            }),
            r@ == asked(*final(self)),
            *final(s) == state_after(*old(s), final(self).status@, old(self).job.target_instance),
            *final(s) == (AppState {
                lifecycle: LifecycleState {
                    qemu_boot_requested: old(s).lifecycle.qemu_boot_requested || (
                    final(self).status@ is Done && old(self).job.target_instance
                        == old(s).current_instance_id),
                    ..old(s).lifecycle
                },
                ..*old(s)
            }),
    {
        if self.failed {
            self.clear_up();
            assert(self.log@ =~= log_after(*old(self), event) + Seq::<char>::empty());
            return self.action();
        }
        let absent = match event {
            ProvisionEvent::Absent => true,
            _ => false,
        };
        match event {
            ProvisionEvent::Failed(error) => {
                if !tolerates_failure(self.stage) {
                    let shown = match self.stage {
                        ProvisionStage::CopyKernel => cat2("copy Image: ", error.as_str()),
                        _ => error,
                    };
                    push_line(&mut self.log, cat2("[error] ", shown.as_str()).as_str());
                    self.failed = true;
                    self.stage = ProvisionStage::DropKernel;
                    assert(self.log@ =~= log_after(*old(self), event) + Seq::<char>::empty());
                    return self.action();
                }
                match self.stage {
                    ProvisionStage::ReadInfo => push_line(
                        &mut self.log,
                        cat3(
                            "[firmware] could not read version info (",
                            error.as_str(),
                            "), defaulting to all-unknown",
                        ).as_str(),
                    ),
                    _ => self.log_exit(),
                }
            },
            ProvisionEvent::Info(info) => {
                push_info(&mut self.log, &info);
                self.info = info;
            },
            ProvisionEvent::Resources(dir) => {
                self.log_exit();
                self.resources = dir;
            },
            _ => self.log_exit(),
        }
        self.stage = stage_after(self.stage, absent);
        self.status = status_of(self.stage);
        self.log_entry();
        if let ProvisionStep::Done = self.status {
            if self.job.target_instance == s.current_instance_id {
                s.lifecycle.qemu_boot_requested = true;
            }
        }
        self.action()
    }
}

fn copy_text(t: &Option<String>) -> (r: Option<String>)
    ensures
        r == *t,
{
    match t {
        Some(s) => Some(s.clone()),
        None => None,
    }
}

/// How many steps a run has left at most. Clearing up comes after everything else.
pub open spec fn steps_left(stage: ProvisionStage, failed: bool) -> nat {
    match stage {
        ProvisionStage::Decrypt => 18,
        ProvisionStage::ReadInfo => 17,
        ProvisionStage::CreateDir => 16,
        ProvisionStage::FindResources => 15,
        ProvisionStage::CopyKernel => 14,
        ProvisionStage::ExtractKernel => 13,
        ProvisionStage::ExtractInitramfs => 12,
        ProvisionStage::DropKernel => if failed {
            3
        } else {
            11
        },
        ProvisionStage::Patch => 10,
        ProvisionStage::DropInitramfs => if failed {
            2
        } else {
            9
        },
        ProvisionStage::CheckEmmc => 8,
        ProvisionStage::RemoveEmmc => 7,
        ProvisionStage::CreateEmmc => 6,
        ProvisionStage::DropIso => if failed {
            1
        } else {
            4
        },
        ProvisionStage::Finished => 0,
    }
}

/// An installation goes forward only, and an existing eMMC image is always removed before a
/// new one is created.
pub proof fn installations_go_forward(
    before: ProvisionRun,
    event: ProvisionEvent,
    after: ProvisionRun,
)
    requires
        before.wf(),
        !(before.stage is Finished),
        proceeds(before, event, after),
    ensures
        steps_left(after.stage, after.failed) < steps_left(before.stage, before.failed),
        after.stage is CreateEmmc ==> before.stage is RemoveEmmc || (before.stage is CheckEmmc
            && event is Absent),
        after.stage is Finished <==> before.stage is DropIso,
{
}

/// The states of a run, from its beginning on, with the outcomes that led from one to the
/// next.
pub open spec fn is_course(runs: Seq<ProvisionRun>, events: Seq<ProvisionEvent>) -> bool {
    &&& runs.len() == events.len() + 1
    &&& runs[0].stage is Decrypt && !runs[0].failed
    &&& forall|i: int|
        #![trigger events[i]]
        0 <= i < events.len() ==> !(runs[i].stage is Finished) && proceeds(
            runs[i],
            events[i],
            runs[i + 1],
        )
}

/// A run asks for a removal somewhere on its course.
pub open spec fn asks_to_remove(runs: Seq<ProvisionRun>, path: Seq<char>) -> bool {
    exists|i: int|
        0 <= i < runs.len() && asked(#[trigger] runs[i]) == (ActionView::Remove { path })
}

/// Whatever goes wrong on the way: a run that has ended has asked for the removal of the
/// decrypted image, and of the kernel and the initramfs that were taken from it.
pub proof fn decrypted_material_is_removed(
    runs: Seq<ProvisionRun>,
    events: Seq<ProvisionEvent>,
)
    requires
        is_course(runs, events),
        runs.last().stage is Finished,
    ensures
        asks_to_remove(runs, runs[0].job.iso()),
        asks_to_remove(runs, text::joined(runs[0].job.out_dir(), "Image.pioneer.tmp"@)),
        asks_to_remove(runs, text::joined(runs[0].job.out_dir(), "initramfs-orig.cpio"@)),
{
    lemma_removals(runs, events);
}

/// A run has got beyond this stage.
pub open spec fn is_behind(run: ProvisionRun, stage: ProvisionStage) -> bool {
    steps_left(run.stage, false) < steps_left(stage, false)
}

proof fn lemma_removals(runs: Seq<ProvisionRun>, events: Seq<ProvisionEvent>)
    requires
        is_course(runs, events),
    ensures
        runs.last().job == runs[0].job,
        runs.last().failed ==> runs.last().stage is DropKernel || runs.last().stage is DropInitramfs
            || runs.last().stage is DropIso || runs.last().stage is Finished,
        is_behind(runs.last(), ProvisionStage::DropIso) ==> asks_to_remove(
            runs,
            runs[0].job.iso(),
        ),
        is_behind(runs.last(), ProvisionStage::DropKernel) ==> asks_to_remove(
            runs,
            text::joined(runs[0].job.out_dir(), "Image.pioneer.tmp"@),
        ),
        is_behind(runs.last(), ProvisionStage::DropInitramfs) ==> asks_to_remove(
            runs,
            text::joined(runs[0].job.out_dir(), "initramfs-orig.cpio"@),
        ),
    decreases events.len(),
{
    if events.len() > 0 {
        let shorter = runs.drop_last();
        let fewer = events.drop_last();
        let n = fewer.len() as int;
        assert(events[n] == events.last());
        assert(proceeds(runs[n], events[n], runs[n + 1]));
        assert forall|i: int| #![trigger fewer[i]] 0 <= i < fewer.len() implies !(
        shorter[i].stage is Finished) && proceeds(shorter[i], fewer[i], shorter[i + 1]) by {
            assert(events[i] == fewer[i]);
        }
        lemma_removals(shorter, fewer);
        assert(shorter.last() == runs[n]);
        lemma_removals_stay(shorter, runs);
        let last = shorter.last();
        if last.stage is DropKernel || last.stage is DropInitramfs || last.stage is DropIso {
            assert(asked(runs[n]) is Remove);
        }
    }
}

proof fn lemma_removals_stay(shorter: Seq<ProvisionRun>, runs: Seq<ProvisionRun>)
    requires
        runs.len() > 0,
        shorter == runs.drop_last(),
    ensures
        forall|path: Seq<char>| asks_to_remove(shorter, path) ==> asks_to_remove(runs, path),
{
    assert forall|path: Seq<char>| asks_to_remove(shorter, path) implies asks_to_remove(
        runs,
        path,
    ) by {
        let i = choose|i: int|
            0 <= i < shorter.len() && asked(#[trigger] shorter[i]) == (ActionView::Remove { path });
        assert(runs[i] == shorter[i]);
    }
}

/// Installations for different instances write different files.
pub proof fn installations_have_files_of_their_own(a: ProvisionJob, b: ProvisionJob)
    requires
        a.target_instance != b.target_instance,
        a.temp_dir@ == b.temp_dir@,
        a.app_data_dir@ == b.app_data_dir@,
    ensures
        a.iso() != b.iso(),
        a.out_dir() != b.out_dir(),
{
    reveal_strlit("cdj3k-emu-firmware-");
    reveal_strlit("instance-");
    let x = a.target_instance as nat;
    let y = b.target_instance as nat;
    text::lemma_numbered_names_differ(
        a.temp_dir@,
        "cdj3k-emu-firmware-"@,
        x,
        y,
        ".iso.tmp"@,
    );
    text::lemma_numbered_names_differ(a.app_data_dir@, "instance-"@, x, y, Seq::empty());
    assert("instance-"@ + text::decimal(x) + Seq::<char>::empty() =~= "instance-"@ + text::decimal(
        x,
    ));
    assert("instance-"@ + text::decimal(y) + Seq::<char>::empty() =~= "instance-"@ + text::decimal(
        y,
    ));
}

proof fn lemma_course_without_failure(
    runs: Seq<ProvisionRun>,
    events: Seq<ProvisionEvent>,
    i: int,
)
    requires
        is_course(runs, events),
        0 <= i < runs.len(),
        forall|k: int| 0 <= k < events.len() ==> !(#[trigger] events[k] is Failed),
    ensures
        !runs[i].failed,
        runs[i].job == runs[0].job,
        i > 0 ==> runs[i].stage == next_stage(runs[i - 1].stage, events[i - 1] is Absent),
    decreases i,
{
    if i > 0 {
        lemma_course_without_failure(runs, events, i - 1);
        assert(!(events[i - 1] is Failed));
        assert(proceeds(runs[i - 1], events[i - 1], runs[i - 1 + 1]));
    }
}

/// An installation in which nothing fails decrypts the update, reads its versions, makes the
/// directory of the instance, installs the kernel of the resources, takes the initramfs out of
/// the update's kernel, patches it, replaces the eMMC image with a fresh one that knows the
/// versions, removes what was temporary, and ends, in this order.
pub proof fn installations_do_everything_in_order(
    runs: Seq<ProvisionRun>,
    events: Seq<ProvisionEvent>,
    job: ProvisionJob,
)
    requires
        is_course(runs, events),
        forall|k: int| 0 <= k < events.len() ==> !(#[trigger] events[k] is Failed),
        runs.last().stage is Finished,
        runs[0].job == job,
    ensures
        ({
            let iso = job.iso();
            let dir = job.out_dir();
            let kernel = text::joined(dir, "Image.pioneer.tmp"@);
            let original = text::joined(dir, "initramfs-orig.cpio"@);
            let old_image = !(events[10] is Absent);
            let n = if old_image {
                12int
            } else {
                11
            };
            &&& runs.len() == n + 3
            &&& asked(runs[0]) == (ActionView::Decrypt { upd: job.upd_path@, iso })
            &&& asked(runs[1]) == (ActionView::ReadInfo { iso })
            &&& asked(runs[2]) == (ActionView::CreateDir { path: dir })
            &&& asked(runs[3]) is FindResources
            &&& asked(runs[4]) == (ActionView::Copy {
                from: text::joined(runs[4].resources@, "Image"@),
                to: text::joined(dir, "Image"@),
            })
            &&& asked(runs[5]) == (ActionView::ExtractKernel { iso, to: kernel })
            &&& asked(runs[6]) == (ActionView::ExtractInitramfs { kernel, to: original })
            &&& asked(runs[7]) == (ActionView::Remove { path: kernel })
            &&& asked(runs[8]) == (ActionView::Patch {
                initramfs: original,
                resources: runs[8].resources@,
                to: text::joined(dir, "initramfs-patched.cpio.gz"@),
            })
            &&& asked(runs[9]) == (ActionView::Remove { path: original })
            &&& asked(runs[10]) == (ActionView::CheckPath { path: job.emmc() })
            &&& old_image ==> asked(runs[11]) == (ActionView::Remove { path: job.emmc() })
            &&& asked(runs[n]) == (ActionView::CreateEmmc {
                path: job.emmc(),
                instance_id: job.target_instance,
                firmware: runs[n].info,
                qemu_img: job.qemu_img,
            })
            &&& asked(runs[n + 1]) == (ActionView::Remove { path: iso })
            &&& asked(runs[n + 2]) is Finish
            &&& !runs.last().failed
        }),
{
    assert(runs.last() == runs[runs.len() - 1]);
    lemma_stages_so_far(runs, events);
}

proof fn lemma_stages_so_far(runs: Seq<ProvisionRun>, events: Seq<ProvisionEvent>)
    requires
        is_course(runs, events),
        forall|k: int| 0 <= k < events.len() ==> !(#[trigger] events[k] is Failed),
        runs.last().stage is Finished,
    ensures
        ({
            let n = if !(events[10] is Absent) {
                12int
            } else {
                11
            };
            &&& runs.len() == n + 3
            &&& runs[0].stage is Decrypt && runs[1].stage is ReadInfo && runs[2].stage is CreateDir
            &&& runs[3].stage is FindResources && runs[4].stage is CopyKernel
            &&& runs[5].stage is ExtractKernel && runs[6].stage is ExtractInitramfs
            &&& runs[7].stage is DropKernel && runs[8].stage is Patch
            &&& runs[9].stage is DropInitramfs && runs[10].stage is CheckEmmc
            &&& n == 12 ==> runs[11].stage is RemoveEmmc
            &&& runs[n].stage is CreateEmmc && runs[n + 1].stage is DropIso
            &&& runs[n + 2].stage is Finished
        }),
        ({
            let n = if !(events[10] is Absent) {
                12int
            } else {
                11
            };
            &&& runs[1].job == runs[0].job && runs[2].job == runs[0].job && runs[4].job
                == runs[0].job
            &&& runs[5].job == runs[0].job && runs[6].job == runs[0].job && runs[7].job
                == runs[0].job
            &&& runs[8].job == runs[0].job && runs[9].job == runs[0].job && runs[10].job
                == runs[0].job
            &&& runs[11].job == runs[0].job && runs[n].job == runs[0].job && runs[n + 1].job
                == runs[0].job
            &&& !runs[n + 2].failed
        }),
{
    lemma_goes_on(runs, events, 0);
    lemma_goes_on(runs, events, 1);
    lemma_goes_on(runs, events, 2);
    lemma_goes_on(runs, events, 3);
    lemma_goes_on(runs, events, 4);
    lemma_goes_on(runs, events, 5);
    lemma_goes_on(runs, events, 6);
    lemma_goes_on(runs, events, 7);
    lemma_goes_on(runs, events, 8);
    lemma_goes_on(runs, events, 9);
    lemma_goes_on(runs, events, 10);
    lemma_goes_on(runs, events, 11);
    lemma_goes_on(runs, events, 12);
    if !(events[10] is Absent) {
        lemma_goes_on(runs, events, 13);
        lemma_end(runs, events, 14);
    } else {
        lemma_end(runs, events, 13);
    }
}

proof fn lemma_goes_on(runs: Seq<ProvisionRun>, events: Seq<ProvisionEvent>, i: int)
    requires
        is_course(runs, events),
        forall|k: int| 0 <= k < events.len() ==> !(#[trigger] events[k] is Failed),
        runs.last().stage is Finished,
        0 <= i < runs.len(),
        !(runs[i].stage is Finished),
    ensures
        i + 1 < runs.len(),
        runs[i + 1].stage == next_stage(runs[i].stage, events[i] is Absent),
        runs[i + 1].job == runs[0].job,
        !runs[i + 1].failed,
{
    assert(runs.last() == runs[runs.len() - 1]);
    lemma_course_without_failure(runs, events, i + 1);
}

proof fn lemma_end(runs: Seq<ProvisionRun>, events: Seq<ProvisionEvent>, i: int)
    requires
        is_course(runs, events),
        0 <= i < runs.len(),
        runs[i].stage is Finished,
    ensures
        runs.len() == i + 1,
{
    if i < events.len() {
        assert(proceeds(runs[i], events[i], runs[i + 1]));
    }
}

/// The files that an installation writes: the decrypted image among the temporary files, and
/// the rest in the directory of the instance.
pub proof fn installations_write_below_the_instance(job: ProvisionJob)
    ensures
        job.iso() == text::joined(
            job.temp_dir@,
            "cdj3k-emu-firmware-"@ + text::decimal(job.target_instance as nat) + ".iso.tmp"@,
        ),
        job.out_dir() == text::joined(
            job.app_data_dir@,
            "instance-"@ + text::decimal(job.target_instance as nat),
        ),
        job.emmc() == text::joined(job.out_dir(), "emmc.qcow2"@),
{
}

/// The resources and the versions that were found are used from then on; a failure to read the
/// versions, or to remove what is temporary, does not stop an installation, and any other
/// failure does: it clears up and ends in an error.
pub proof fn failures_stop_installations(
    run: ProvisionRun,
    event: ProvisionEvent,
    after: ProvisionRun,
    dir: String,
    info: FirmwareInfo,
)
    requires
        run.wf(),
        !(run.stage is Finished),
        proceeds(run, event, after),
    ensures
        !run.failed ==> resources_after(run, ProvisionEvent::Resources(dir)) == dir@ && info_after(
            run,
            ProvisionEvent::Info(info),
        ) == info,
        !(event is Info) ==> info_after(run, event) == run.info,
        !(event is Resources) ==> resources_after(run, event) == run.resources@,
        event is Failed && !run.failed && !(run.stage is ReadInfo) && !(run.stage is DropKernel)
            && !(run.stage is DropInitramfs) && !(run.stage is DropIso) ==> after.failed && asked(
            after,
        ) == (ActionView::Remove {
            path: text::joined(run.job.out_dir(), "Image.pioneer.tmp"@),
        }),
        !(event is Failed) ==> after.failed == run.failed,
        run.stage is ReadInfo && !run.failed ==> !after.failed && after.stage is CreateDir,
        !run.failed && (run.stage is DropKernel || run.stage is DropInitramfs || run.stage
            is DropIso) ==> !after.failed,
        run.failed ==> after.failed,
{
}

/// An installation that failed ends in an error and never as done, one that did not ends as
/// done; and until it ends it shows what it is at.
pub proof fn ends_are_shown(before: ProvisionRun, event: ProvisionEvent, after: ProvisionRun)
    requires
        before.wf(),
        !(before.stage is Finished),
        proceeds(before, event, after),
    ensures
        status_after(before, after) is Done <==> after.stage is Finished && !after.failed,
        status_after(before, after) is Error <==> after.stage is Finished && after.failed,
        !after.failed && (after.stage is Decrypt || after.stage is ReadInfo) ==> status_after(
            before,
            after,
        ) is Decrypting,
        !after.failed && (after.stage is CreateDir || after.stage is CopyKernel) ==> status_after(
            before,
            after,
        ) is ExtractingKernel,
        !after.failed && (after.stage is ExtractInitramfs || after.stage is Patch) ==> status_after(
            before,
            after,
        ) is PatchingInitramfs,
        !after.failed && (after.stage is CheckEmmc || after.stage is CreateEmmc) ==> status_after(
            before,
            after,
        ) is CreatingEmmc,
{
}

/// An instance that was provisioned is booted where this window shows it, and nothing else of
/// the shared state changes.
pub proof fn provisioned_instances_are_booted(s: AppState, status: StepView, target: u32)
    ensures
        status is Done && target == s.current_instance_id ==> state_after(
            s,
            status,
            target,
        ).lifecycle.qemu_boot_requested,
        !(status is Done) || target != s.current_instance_id ==> state_after(s, status, target)
            == s,
        state_after(s, status, target) == (AppState {
            lifecycle: LifecycleState {
                qemu_boot_requested: state_after(s, status, target).lifecycle.qemu_boot_requested,
                ..s.lifecycle
            },
            ..s
        }),
{
}

/// Each step has its label.
pub proof fn steps_have_their_labels(message: Seq<char>)
    ensures
        step_label(StepView::Decrypting) == "Decrypting firmware…"@,
        step_label(StepView::ExtractingKernel) == "Extracting kernel…"@,
        step_label(StepView::PatchingInitramfs) == "Patching initramfs…"@,
        step_label(StepView::CreatingEmmc) == "Creating eMMC image…"@,
        step_label(StepView::Done) == "Done"@,
        step_label(StepView::Error(message)) == "Error"@,
{
}

/// Before an action the log names the files that it is about.
pub proof fn the_log_names_the_files(job: ProvisionJob, resources: Seq<char>)
    ensures
        ({
            let slot = text::decimal(job.target_instance as nat);
            let dir = job.out_dir();
            let said = |stage: ProvisionStage| entry_log(stage, job, resources);
            &&& said(ProvisionStage::Decrypt) == ("[slot] target = instance-"@ + slot + "\n"@) + (
            "[decrypt] opening "@ + job.upd_path@ + "\n"@) + ("[decrypt] output → "@ + job.iso()
                + "\n"@)
            &&& said(ProvisionStage::CopyKernel) == "[kernel] installing kernel "@ + text::joined(
                resources,
                "Image"@,
            ) + " → "@ + text::joined(dir, "Image"@) + "\n"@
            &&& said(ProvisionStage::ExtractKernel) == ("[patch] resources dir: "@ + resources
                + "\n"@) + ("[initramfs] extracting Pioneer kernel (initramfs source) → "@
                + text::joined(dir, "Image.pioneer.tmp"@) + "\n"@)
            &&& said(ProvisionStage::ExtractInitramfs)
                == "[initramfs] extracting from Pioneer kernel → "@ + text::joined(
                dir,
                "initramfs-orig.cpio"@,
            ) + "\n"@
            &&& said(ProvisionStage::RemoveEmmc) == "[emmc] removing existing image → "@
                + job.emmc() + "\n"@
            &&& said(ProvisionStage::CreateEmmc) == "[emmc] provisioning → "@ + job.emmc() + "\n"@
            &&& said(ProvisionStage::Finished) == "[done] all steps completed"@ + "\n"@
            &&& said(ProvisionStage::Patch).len() == 0
            &&& said(ProvisionStage::ReadInfo).len() == 0
        }),
{
}

/// After an action the log tells what came of it: that it went well, the versions that were
/// read, or the error. Nothing is told twice once a run has failed, and what was told stays.
pub proof fn the_log_tells_what_came_of_it(run: ProvisionRun, event: ProvisionEvent)
    ensures
        run.failed ==> log_after(run, event) == run.log@,
        !run.failed && event is Failed && !may_fail(run.stage) ==> log_after(run, event)
            == run.log@ + ("[error] "@ + (if run.stage is CopyKernel {
            "copy Image: "@ + event->Failed_0@
        } else {
            event->Failed_0@
        }) + "\n"@),
        !run.failed && event is Failed && run.stage is ReadInfo ==> log_after(run, event)
            == run.log@ + ("[firmware] could not read version info ("@ + event->Failed_0@
            + "), defaulting to all-unknown"@ + "\n"@),
        !run.failed ==> (event matches ProvisionEvent::Info(info) ==> log_after(run, event)
            == run.log@ + ("[firmware] release="@ + shown_version(info.release) + " rev_apl="@
            + shown_version(info.rev_apl) + " rev_kernel="@ + shown_version(info.rev_kernel)
            + " miniloader="@ + shown_version(info.miniloader) + "\n"@)),
        exit_log(ProvisionStage::Decrypt, run.job) == "[decrypt] OK - ISO written"@ + "\n"@,
        exit_log(ProvisionStage::CopyKernel, run.job) == "[kernel] OK"@ + "\n"@,
        exit_log(ProvisionStage::DropKernel, run.job) == "[initramfs] OK"@ + "\n"@,
        exit_log(ProvisionStage::Patch, run.job) == "[patch] OK → "@ + text::joined(
            run.job.out_dir(),
            "initramfs-patched.cpio.gz"@,
        ) + "\n"@,
        exit_log(ProvisionStage::CreateEmmc, run.job) == "[emmc] OK"@ + "\n"@,
        forall|v: String| shown_version(Some(v)) == v@,
        shown_version(None) == "(unknown)"@,
{
}

/// A run that goes well shows the status of its stage. One that has failed is clearing up, with
/// the status that it had, or has ended with an error.
pub proof fn runs_show_where_they_are(run: ProvisionRun)
    requires
        run.wf(),
    ensures
        !run.failed ==> run.status@ == stage_status(run.stage),
        run.failed && run.stage is Finished ==> run.status@ is Error,
        run.failed && !(run.stage is Finished) ==> (run.stage is DropKernel
            || run.stage is DropInitramfs || run.stage is DropIso) && !(run.status@ is Done) && !(
        run.status@ is Error),
{
}

} // verus!
