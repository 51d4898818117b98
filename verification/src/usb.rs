//! USB hot-plug for one QEMU instance.
//!
//! The USB slot of the guest is always present, backed by an empty placeholder at boot.
//! Attaching and detaching swap the medium of the slot and tell the guest about it.
//! [`UsbManager`] decides what comes next; the caller performs it and reports the outcome.

use vstd::prelude::*;

use crate::qmp::QmpError;
use crate::text;
use crate::text::{
    cat2, cat3, char_vec, code_text, contains_text, first_word, push_text, strip_prefix, trim,
};
use crate::virtual_image;
use crate::virtual_image::{build_command, ImageStage};

verus! {

/// The drive behind the USB slot.
pub const USB_DRIVE_ID: &'static str = "usb0";

/// How long the guest needs to let go of a medium, in milliseconds.
pub const DETACH_SETTLE_MS: u64 = 400;

/// How long the guest's driver needs to notice a new medium, in milliseconds.
pub const ATTACH_SETTLE_MS: u64 = 600;

/// A removable disk of the host.
#[derive(Clone, Debug)]
pub struct PhysicalDisk {
    /// Such as "disk2".
    pub bsd_name: String,
    /// Such as "PIONEER (32.1 GB)", for display.
    pub label: String,
    /// Such as "/dev/disk2".
    pub bsd_path: String,
    pub size_bytes: u64,
}

/// What the host's disk management offers. An error is given as its text.
pub trait DiskProvider {
    fn list_removable(&self) -> Vec<PhysicalDisk>;

    fn unmount_host(&self, bsd_name: &str) -> Result<(), String>;

    fn remount_host(&self, bsd_name: &str) -> Result<(), String>;

    fn reveal_in_finder(&self, path: &str);
}

/// The disk management of macOS; on another host it offers nothing.
pub struct MacOsDiskProvider;

impl DiskProvider for MacOsDiskProvider {
    fn list_removable(&self) -> (r: Vec<PhysicalDisk>)
        ensures
            r@.len() == 0,
    {
        Vec::new()
    }

    fn unmount_host(&self, _bsd_name: &str) -> (r: Result<(), String>)
        ensures
            r is Err && r->Err_0@ == "MacOsDiskProvider only implemented on macOS"@,
    {
        Err("MacOsDiskProvider only implemented on macOS".to_owned())
    }

    fn remount_host(&self, _bsd_name: &str) -> (r: Result<(), String>)
        ensures
            r is Err && r->Err_0@ == "MacOsDiskProvider only implemented on macOS"@,
    {
        Err("MacOsDiskProvider only implemented on macOS".to_owned())
    }

    fn reveal_in_finder(&self, _path: &str) {
    }
}

/// A path of the shape `/dev/disk<digits>`, optionally followed by `s<digits>`.
pub open spec fn is_bsd_disk_path(p: Seq<char>) -> bool {
    ||| exists|major: Seq<char>| text::is_digits(major) && p == #[trigger] disk_path(major)
    ||| exists|major: Seq<char>, minor: Seq<char>|
        text::is_digits(major) && text::is_digits(minor) && p == #[trigger] slice_path(major, minor)
}

/// The path of a disk.
pub open spec fn disk_path(major: Seq<char>) -> Seq<char> {
    "/dev/disk"@ + major
}

/// The path of a slice of a disk.
pub open spec fn slice_path(major: Seq<char>, minor: Seq<char>) -> Seq<char> {
    "/dev/disk"@ + major + "s"@ + minor
}

/// Where the digits that begin at `from` end.
fn skip_digits(chars: &Vec<char>, from: usize) -> (r: usize)
    requires
        from <= chars@.len(),
    ensures
        from <= r <= chars@.len(),
        forall|j: int| from <= j < r ==> text::is_digit(#[trigger] chars@[j]),
        r < chars@.len() ==> !text::is_digit(chars@[r as int]),
{
    let mut i: usize = from;
    while i < chars.len() && '0' <= chars[i] && chars[i] <= '9'
        invariant
            from <= i <= chars@.len(),
            forall|j: int| from <= j < i ==> text::is_digit(#[trigger] chars@[j]),
        decreases chars@.len() - i,
    {
        i += 1;
    }
    i
}

/// Whether `p` is `/dev/disk<digits>`, optionally followed by `s<digits>`.
pub fn is_valid_bsd_disk_path(p: &str) -> (r: bool)
    ensures
        r == is_bsd_disk_path(p@),
{
    let rest = match strip_prefix(p, "/dev/disk") {
        Some(rest) => rest,
        None => {
            proof {
                lemma_disk_paths_have_the_prefix(p@);
            }
            return false;
        },
    };
    let chars = char_vec(rest);
    assert(p@ =~= "/dev/disk"@ + chars@);
    let len: usize = chars.len();
    let n: usize = skip_digits(&chars, 0);
    if n == len {
        proof {
            lemma_whole_disk(p@, chars@, n as int);
        }
        return n > 0;
    }
    let m: usize = skip_digits(&chars, n + 1);
    let valid = n > 0 && chars[n] == 's' && m == len && m > n + 1;
    proof {
        lemma_slice(p@, chars@, n as int, m as int);
    }
    valid
}

proof fn lemma_disk_paths_have_the_prefix(p: Seq<char>)
    ensures
        is_bsd_disk_path(p) ==> text::has_prefix(p, "/dev/disk"@),
{
    if is_bsd_disk_path(p) {
        if exists|major: Seq<char>| text::is_digits(major) && p == #[trigger] disk_path(major) {
            let major = choose|major: Seq<char>|
                text::is_digits(major) && p == #[trigger] disk_path(major);
            assert(p.take("/dev/disk"@.len() as int) =~= "/dev/disk"@);
        } else {
            let (major, minor) = choose|major: Seq<char>, minor: Seq<char>|
                text::is_digits(major) && text::is_digits(minor) && p == #[trigger] slice_path(
                    major,
                    minor,
                );
            assert(p.take("/dev/disk"@.len() as int) =~= "/dev/disk"@);
        }
    }
}

/// The digits at the front are the whole rest of the path.
proof fn lemma_whole_disk(p: Seq<char>, rest: Seq<char>, n: int)
    requires
        p == "/dev/disk"@ + rest,
        n == rest.len(),
        forall|j: int| 0 <= j < n ==> text::is_digit(#[trigger] rest[j]),
    ensures
        is_bsd_disk_path(p) == (n > 0),
{
    if n > 0 {
        assert(p == disk_path(rest));
    } else {
        if exists|major: Seq<char>, minor: Seq<char>|
            text::is_digits(major) && text::is_digits(minor) && p == #[trigger] slice_path(
                major,
                minor,
            ) {
            let (major, minor) = choose|major: Seq<char>, minor: Seq<char>|
                text::is_digits(major) && text::is_digits(minor) && p == #[trigger] slice_path(
                    major,
                    minor,
                );
            assert(p.len() == "/dev/disk"@.len() + major.len() + "s"@.len() + minor.len());
        }
        if exists|major: Seq<char>| text::is_digits(major) && p == #[trigger] disk_path(major) {
            let major = choose|major: Seq<char>|
                text::is_digits(major) && p == #[trigger] disk_path(major);
            assert(p.len() == "/dev/disk"@.len() + major.len());
        }
    }
}

/// The digits at the front end at `n`, before the end of the path, and those behind the
/// next character at `m`.
proof fn lemma_slice(p: Seq<char>, rest: Seq<char>, n: int, m: int)
    requires
        p == "/dev/disk"@ + rest,
        0 <= n < m <= rest.len(),
        forall|j: int| 0 <= j < n ==> text::is_digit(#[trigger] rest[j]),
        !text::is_digit(rest[n]),
        forall|j: int| n < j < m ==> text::is_digit(#[trigger] rest[j]),
        m < rest.len() ==> !text::is_digit(rest[m]),
    ensures
        is_bsd_disk_path(p) == (n > 0 && rest[n] == 's' && m == rest.len() && m > n + 1),
{
    reveal_strlit("s");
    let k = "/dev/disk"@.len();
    if n > 0 && rest[n] == 's' && m == rest.len() && m > n + 1 {
        let major = rest.take(n);
        let minor = rest.skip(n + 1);
        assert(p =~= slice_path(major, minor));
        assert(forall|j: int| 0 <= j < minor.len() ==> #[trigger] minor[j] == rest[j + n + 1]);
        assert(text::is_digits(minor));
        assert(text::is_digits(major));
    }
    if exists|major: Seq<char>| text::is_digits(major) && p == #[trigger] disk_path(major) {
        let major = choose|major: Seq<char>|
            text::is_digits(major) && p == #[trigger] disk_path(major);
        assert(p.skip(k as int) =~= rest);
        assert(p.skip(k as int) =~= major);
        assert(text::is_digit(major[n]));
    }
    if exists|major: Seq<char>, minor: Seq<char>|
        text::is_digits(major) && text::is_digits(minor) && p == #[trigger] slice_path(
            major,
            minor,
        ) {
        let (major, minor) = choose|major: Seq<char>, minor: Seq<char>|
            text::is_digits(major) && text::is_digits(minor) && p == #[trigger] slice_path(
                major,
                minor,
            );
        assert(p.skip(k as int) =~= rest);
        assert(p.skip(k as int) =~= major + "s"@ + minor);
        assert(rest[major.len() as int] == 's');
        assert(forall|j: int| 0 <= j < major.len() ==> rest[j] == #[trigger] major[j]);
        assert(forall|j: int|
            0 <= j < minor.len() ==> rest[j + major.len() + 1] == #[trigger] minor[j]);
        if major.len() < n {
            assert(text::is_digit(rest[major.len() as int]));
        }
        if major.len() > n {
            assert(text::is_digit(major[n]));
        }
        if m < rest.len() {
            assert(text::is_digit(minor[m - major.len() - 1]));
        }
    }
}

/// The script that asks for the administrator's password and makes a device writable.
pub open spec fn unlock_script_text(dev_path: Seq<char>) -> Seq<char> {
    "do shell script \"chmod 660 "@ + dev_path + "\" with administrator privileges"@
}

/// The script that makes a device writable; an error where the path is not that of a disk.
pub fn unlock_script(dev_path: &str) -> (r: Result<String, String>)
    ensures
        r is Ok <==> is_bsd_disk_path(dev_path@),
        r is Ok ==> r->Ok_0@ == unlock_script_text(dev_path@),
        r is Err ==> r->Err_0@ == "refusing to elevate on suspicious device path: "@ + dev_path@,
{
    if !is_valid_bsd_disk_path(dev_path) {
        return Err(cat2("refusing to elevate on suspicious device path: ", dev_path));
    }
    Ok(cat3("do shell script \"chmod 660 ", dev_path, "\" with administrator privileges"))
}

/// Why a USB operation failed.
#[derive(Clone, Debug)]
pub enum UsbError {
    Qmp(QmpError),
    /// Holds the error's text.
    Io(String),
    /// The device could not be opened for want of access rights.
    PermissionDenied(String),
}

impl UsbError {
    /// The error as it is shown to the operator.
    pub open spec fn shown(self) -> Seq<char> {
        match self {
            UsbError::Qmp(e) => "QMP error: "@ + e.shown(),
            UsbError::Io(e) => "I/O error: "@ + e@,
            UsbError::PermissionDenied(dev) => "Permission denied opening "@ + dev@
                + ". Grant Full Disk Access to cdj3k-emu in System Settings \u{2192} Privacy & Security \u{2192} Full Disk Access."@,
        }
    }

    /// The error as it is shown to the operator.
    pub fn message(&self) -> (r: String)
        ensures
            r@ == self.shown(),
    {
        match self {
            UsbError::Qmp(e) => cat2("QMP error: ", e.message().as_str()),
            UsbError::Io(e) => cat2("I/O error: ", e.as_str()),
            UsbError::PermissionDenied(dev) => cat3(
                "Permission denied opening ",
                dev.as_str(),
                ". Grant Full Disk Access to cdj3k-emu in System Settings \u{2192} Privacy & Security \u{2192} Full Disk Access.",
            ),
        }
    }
}

/// What is attached.
#[derive(Clone, Debug)]
pub enum AttachedMode {
    /// An image file.
    Virtual,
    /// A disk of the host.
    Physical { bsd_name: String },
}

/// What the operator or the guest asks for.
#[derive(Clone, Debug)]
pub enum UsbRequest {
    /// Put an image file into the slot.
    AttachVirtual { path: String },
    /// Put a disk of the host into the slot.
    AttachPhysical { disk: PhysicalDisk },
    /// Take the medium out of the slot.
    Detach,
    /// The guest has ejected the medium: follow suit.
    AcknowledgeEject,
}

/// What comes after the slot has been emptied.
#[derive(Clone, Debug)]
pub enum AfterEject {
    /// A detach request ends.
    Detached,
    /// An acknowledgement ends.
    Acknowledged,
    /// An image file comes next.
    Virtual { path: String },
    /// A disk comes next.
    Physical { disk: PhysicalDisk },
}

/// What the manager is waiting for.
#[derive(Clone, Debug)]
pub enum UsbPhase {
    /// The next request.
    Idle,
    /// The file of a new image.
    Create { path: String, macos: bool },
    /// A new image, being formatted.
    Format { stage: FormatStage, path: String },
    /// The guest, letting go of the medium.
    GuestDetach { then: AfterEject },
    /// The placeholder in the slot.
    Placeholder { remount: Option<String>, then: AfterEject },
    /// The host, mounting the ejected disk again.
    EjectRemount { then: AfterEject },
    /// The image file in the slot.
    VirtualMedium,
    /// The host, unmounting the disk.
    HostUnmount { disk: PhysicalDisk },
    /// Whether the disk can be opened for writing.
    Probe { disk: PhysicalDisk },
    /// The administrator, making the disk writable.
    Unlock { disk: PhysicalDisk },
    /// Whether the disk can be opened for writing now.
    ProbeAgain { disk: PhysicalDisk },
    /// The disk in the slot.
    PhysicalMedium { disk: PhysicalDisk },
    /// The guest, taking up the new medium.
    GuestAttach { mode: AttachedMode },
    /// The host, mounting the disk again after a failure.
    GiveUp { error: UsbError },
}

/// Why an action failed.
#[derive(Clone, Debug)]
pub enum UsbFailure {
    /// The host failed; says whether for want of access rights, and the error's text.
    Host { denied: bool, message: String },
    /// The machine protocol failed.
    Qmp(QmpError),
}

/// The outcome of an action.
#[derive(Clone, Debug)]
pub enum UsbEvent {
    Done,
    Failed(UsbFailure),
}

/// How a request ended.
#[derive(Clone, Debug)]
pub enum UsbOutcome {
    /// The medium is attached or detached.
    Done,
    /// The eject was acknowledged; says whether there was anything to eject.
    Acknowledged { ejected: bool },
    Failed(UsbError),
}

/// What the caller is to do next.
#[derive(Clone, Debug)]
pub enum UsbAction {
    /// Run a program, with its arguments behind it, and hand the outcome to
    /// [`UsbManager::tool_step`].
    RunTool { command: Vec<String> },
    /// Ask the guest to let go of the medium, and wait for [`DETACH_SETTLE_MS`].
    NotifyGuestDetach,
    /// Swap the medium of the slot for this raw file.
    ChangeMedium { filename: String },
    /// Mount a disk on the host again.
    RemountHost { bsd_name: String },
    /// Unmount a disk on the host.
    UnmountHost { bsd_name: String },
    /// Open a device for reading and writing, and close it.
    ProbeDevice { path: String },
    /// Make a device writable.
    UnlockDevice { path: String },
    /// Wait for [`ATTACH_SETTLE_MS`], and tell the guest of the medium.
    NotifyGuestAttach,
    /// The request has ended.
    Finish(UsbOutcome),
}

/// Manages the USB slot of one QEMU instance.
#[derive(Debug)]
pub struct UsbManager {
    /// The file that stands for an empty slot.
    pub placeholder_path: String,
    /// What is attached.
    pub current: Option<AttachedMode>,
    pub phase: UsbPhase,
}

/// What one step decides.
pub struct UsbStep {
    pub manager: UsbManager,
    pub action: UsbAction,
}

/// The error that a failure is reported as.
pub open spec fn error_of(failure: UsbFailure) -> UsbError {
    match failure {
        UsbFailure::Host { denied, message } => UsbError::Io(message),
        UsbFailure::Qmp(e) => UsbError::Qmp(e),
    }
}

/// The manager waits for this, with nothing attached.
pub open spec fn waiting(m: UsbManager, phase: UsbPhase, action: UsbAction) -> UsbStep {
    UsbStep { manager: UsbManager { current: None, phase, ..m }, action }
}

/// The request has ended with nothing attached.
pub open spec fn ended(m: UsbManager, outcome: UsbOutcome) -> UsbStep {
    waiting(m, UsbPhase::Idle, UsbAction::Finish(outcome))
}

/// The slot is empty: what comes after that begins.
pub open spec fn after_eject(m: UsbManager, then: AfterEject) -> UsbStep {
    match then {
        AfterEject::Detached => ended(m, UsbOutcome::Done),
        AfterEject::Acknowledged => ended(m, UsbOutcome::Acknowledged { ejected: true }),
        AfterEject::Virtual { path } => waiting(
            m,
            UsbPhase::VirtualMedium,
            UsbAction::ChangeMedium { filename: path },
        ),
        AfterEject::Physical { disk } => waiting(
            m,
            UsbPhase::HostUnmount { disk },
            UsbAction::UnmountHost { bsd_name: disk.bsd_name },
        ),
    }
}

/// The disk of the host that is attached.
pub open spec fn attached_disk(current: Option<AttachedMode>) -> Option<String> {
    match current {
        Some(AttachedMode::Physical { bsd_name }) => Some(bsd_name),
        _ => None,
    }
}

/// The placeholder goes into the slot, and nothing counts as attached from here on.
pub open spec fn ejecting(m: UsbManager, then: AfterEject) -> UsbStep {
    waiting(
        m,
        UsbPhase::Placeholder { remount: attached_disk(m.current), then },
        UsbAction::ChangeMedium { filename: m.placeholder_path },
    )
}

/// A request that begins by emptying the slot: where it is empty, what comes after that
/// begins at once; otherwise the guest is asked to let go of the medium.
pub open spec fn detaching(m: UsbManager, then: AfterEject) -> UsbStep {
    if m.current is None {
        after_eject(m, then)
    } else {
        UsbStep {
            manager: UsbManager { phase: UsbPhase::GuestDetach { then }, ..m },
            action: UsbAction::NotifyGuestDetach,
        }
    }
}

/// The first step of a request.
pub open spec fn begun(m: UsbManager, request: UsbRequest) -> UsbStep {
    match request {
        UsbRequest::AttachVirtual { path } => detaching(m, AfterEject::Virtual { path }),
        UsbRequest::AttachPhysical { disk } => detaching(m, AfterEject::Physical { disk }),
        UsbRequest::Detach => detaching(m, AfterEject::Detached),
        UsbRequest::AcknowledgeEject => if m.current is None {
            ended(m, UsbOutcome::Acknowledged { ejected: false })
        } else {
            ejecting(m, AfterEject::Acknowledged)
        },
    }
}

/// The disk goes into the slot.
pub open spec fn inserting(m: UsbManager, disk: PhysicalDisk) -> UsbStep {
    waiting(
        m,
        UsbPhase::PhysicalMedium { disk },
        UsbAction::ChangeMedium { filename: disk.bsd_path },
    )
}

/// The disk goes back to the host, and the request fails after that.
pub open spec fn giving_up(m: UsbManager, disk: PhysicalDisk, error: UsbError) -> UsbStep {
    waiting(
        m,
        UsbPhase::GiveUp { error },
        UsbAction::RemountHost { bsd_name: disk.bsd_name },
    )
}

/// The guest is told of the medium.
pub open spec fn announcing(m: UsbManager, mode: AttachedMode) -> UsbStep {
    waiting(m, UsbPhase::GuestAttach { mode }, UsbAction::NotifyGuestAttach)
}

/// Whether a device could not be opened for want of access rights.
pub open spec fn is_denied(event: UsbEvent) -> bool {
    event matches UsbEvent::Failed(UsbFailure::Host { denied, message }) && denied
}

/// Why QEMU refused the medium, where it did. Any other failure of the machine protocol is
/// passed over.
pub open spec fn refusal(event: UsbEvent) -> Option<String> {
    match event {
        UsbEvent::Failed(UsbFailure::Qmp(QmpError::QemuError(reason))) => Some(reason),
        _ => None,
    }
}

/// The step of the phases that empty the slot.
pub open spec fn eject_step(m: UsbManager, event: UsbEvent) -> UsbStep {
    match m.phase {
        UsbPhase::GuestDetach { then } => ejecting(m, then),
        UsbPhase::Placeholder { remount, then } => match event {
            UsbEvent::Failed(failure) => ended(m, UsbOutcome::Failed(error_of(failure))),
            UsbEvent::Done => match remount {
                Some(bsd_name) => waiting(
                    m,
                    UsbPhase::EjectRemount { then },
                    UsbAction::RemountHost { bsd_name },
                ),
                None => after_eject(m, then),
            },
        },
        UsbPhase::EjectRemount { then } => after_eject(m, then),
        _ => ended(m, UsbOutcome::Done),
    }
}

/// The step of the phases that make a disk ready.
pub open spec fn disk_step(m: UsbManager, event: UsbEvent) -> UsbStep {
    match m.phase {
        UsbPhase::HostUnmount { disk } => match event {
            UsbEvent::Failed(failure) => ended(m, UsbOutcome::Failed(error_of(failure))),
            UsbEvent::Done => waiting(
                m,
                UsbPhase::Probe { disk },
                UsbAction::ProbeDevice { path: disk.bsd_path },
            ),
        },
        UsbPhase::Probe { disk } => if is_denied(event) {
            waiting(
                m,
                UsbPhase::Unlock { disk },
                UsbAction::UnlockDevice { path: disk.bsd_path },
            )
        } else {
            match event {
                UsbEvent::Failed(failure) => giving_up(m, disk, error_of(failure)),
                UsbEvent::Done => inserting(m, disk),
            }
        },
        UsbPhase::Unlock { disk } => match event {
            UsbEvent::Failed(_) => giving_up(m, disk, UsbError::PermissionDenied(disk.bsd_path)),
            UsbEvent::Done => waiting(
                m,
                UsbPhase::ProbeAgain { disk },
                UsbAction::ProbeDevice { path: disk.bsd_path },
            ),
        },
        UsbPhase::ProbeAgain { disk } => if is_denied(event) {
            giving_up(m, disk, UsbError::PermissionDenied(disk.bsd_path))
        } else {
            match event {
                UsbEvent::Failed(failure) => giving_up(m, disk, error_of(failure)),
                UsbEvent::Done => inserting(m, disk),
            }
        },
        _ => ended(m, UsbOutcome::Done),
    }
}

/// The step of the phases that put a medium into the slot.
pub open spec fn insert_step(m: UsbManager, event: UsbEvent) -> UsbStep {
    match m.phase {
        UsbPhase::VirtualMedium => match event {
            UsbEvent::Failed(failure) => ended(m, UsbOutcome::Failed(error_of(failure))),
            UsbEvent::Done => announcing(m, AttachedMode::Virtual),
        },
        UsbPhase::PhysicalMedium { disk } => match refusal(event) {
            Some(reason) => if text::holds_text(reason@, "Permission denied"@) {
                giving_up(m, disk, UsbError::PermissionDenied(disk.bsd_path))
            } else {
                giving_up(m, disk, UsbError::Qmp(QmpError::QemuError(reason)))
            },
            None => announcing(m, AttachedMode::Physical { bsd_name: disk.bsd_name }),
        },
        UsbPhase::GuestAttach { mode } => match event {
            UsbEvent::Failed(failure) => ended(m, UsbOutcome::Failed(error_of(failure))),
            UsbEvent::Done => UsbStep {
                manager: UsbManager { current: Some(mode), phase: UsbPhase::Idle, ..m },
                action: UsbAction::Finish(UsbOutcome::Done),
            },
        },
        UsbPhase::GiveUp { error } => ended(m, UsbOutcome::Failed(error)),
        _ => ended(m, UsbOutcome::Done),
    }
}

/// The step that an outcome leads to, while a request is under way.
pub open spec fn stepped(m: UsbManager, event: UsbEvent) -> UsbStep {
    match m.phase {
        UsbPhase::GuestDetach { .. }
        | UsbPhase::Placeholder { .. }
        | UsbPhase::EjectRemount { .. } => eject_step(m, event),
        UsbPhase::HostUnmount { .. }
        | UsbPhase::Probe { .. }
        | UsbPhase::Unlock { .. }
        | UsbPhase::ProbeAgain { .. } => disk_step(m, event),
        _ => insert_step(m, event),
    }
}

fn failed(failure: UsbFailure) -> (r: UsbOutcome)
    ensures
        r == UsbOutcome::Failed(error_of(failure)),
{
    UsbOutcome::Failed(rendered(failure))
}

fn rendered(failure: UsbFailure) -> (r: UsbError)
    ensures
        r == error_of(failure),
{
    match failure {
        UsbFailure::Host { denied: _, message } => UsbError::Io(message),
        UsbFailure::Qmp(e) => UsbError::Qmp(e),
    }
}

impl UsbManager {
    /// While a request is under way and the guest has let go, nothing counts as attached.
    pub open spec fn wf(&self) -> bool {
        match self.phase {
            UsbPhase::Idle | UsbPhase::Create { .. } | UsbPhase::Format { .. } => true,
            UsbPhase::GuestDetach { .. } => self.current is Some,
            _ => self.current is None,
        }
    }

    /// An image is being made; the slot is not touched.
    pub open spec fn is_making(&self) -> bool {
        self.phase is Create || self.phase is Format
    }

    /// A request is under way at the slot.
    pub open spec fn is_busy(&self) -> bool {
        !(self.phase is Idle) && !self.is_making()
    }

    /// A manager with an empty slot.
    pub fn new(placeholder_path: String) -> (r: Self)
        ensures
            r == (UsbManager { placeholder_path, current: None, phase: UsbPhase::Idle }),
            r.wf(),
    {
        UsbManager { placeholder_path, current: None, phase: UsbPhase::Idle }
    }

    /// Whether anything is attached.
    pub fn is_attached(&self) -> (r: bool)
        ensures
            r == self.current is Some,
    {
        self.current.is_some()
    }

    fn go(&mut self, phase: UsbPhase, action: UsbAction) -> (r: UsbAction)
        requires
            old(self).current is None,
        ensures
            (UsbStep { manager: *final(self), action: r }) == waiting(*old(self), phase, action),
    {
        self.phase = phase;
        action
    }

    fn end(&mut self, outcome: UsbOutcome) -> (r: UsbAction)
        requires
            old(self).current is None,
        ensures
            (UsbStep { manager: *final(self), action: r }) == ended(*old(self), outcome),
    {
        self.go(UsbPhase::Idle, UsbAction::Finish(outcome))
    }

    fn go_on(&mut self, then: AfterEject) -> (r: UsbAction)
        requires
            old(self).current is None,
        ensures
            (UsbStep { manager: *final(self), action: r }) == after_eject(*old(self), then),
    {
        match then {
            AfterEject::Detached => self.end(UsbOutcome::Done),
            AfterEject::Acknowledged => self.end(UsbOutcome::Acknowledged { ejected: true }),
            AfterEject::Virtual { path } => self.go(
                UsbPhase::VirtualMedium,
                UsbAction::ChangeMedium { filename: path },
            ),
            AfterEject::Physical { disk } => {
                let bsd_name = disk.bsd_name.clone();
                self.go(UsbPhase::HostUnmount { disk }, UsbAction::UnmountHost { bsd_name })
            },
        }
    }

    fn eject(&mut self, then: AfterEject) -> (r: UsbAction)
        ensures
            (UsbStep { manager: *final(self), action: r }) == ejecting(*old(self), then),
    {
        let remount = match &self.current {
            Some(AttachedMode::Physical { bsd_name }) => Some(bsd_name.clone()),
            _ => None,
        };
        self.current = None;
        let filename = self.placeholder_path.clone();
        self.phase = UsbPhase::Placeholder { remount, then };
        UsbAction::ChangeMedium { filename }
    }

    fn detach_first(&mut self, then: AfterEject) -> (r: UsbAction)
        ensures
            (UsbStep { manager: *final(self), action: r }) == detaching(*old(self), then),
    {
        if self.current.is_none() {
            self.go_on(then)
        } else {
            self.phase = UsbPhase::GuestDetach { then };
            UsbAction::NotifyGuestDetach
        }
    }

    fn insert_disk(&mut self, disk: PhysicalDisk) -> (r: UsbAction)
        requires
            old(self).current is None,
        ensures
            (UsbStep { manager: *final(self), action: r }) == inserting(*old(self), disk),
    {
        let filename = disk.bsd_path.clone();
        self.go(UsbPhase::PhysicalMedium { disk }, UsbAction::ChangeMedium { filename })
    }

    fn give_up(&mut self, disk: PhysicalDisk, error: UsbError) -> (r: UsbAction)
        requires
            old(self).current is None,
        ensures
            (UsbStep { manager: *final(self), action: r }) == giving_up(*old(self), disk, error),
    {
        self.go(UsbPhase::GiveUp { error }, UsbAction::RemountHost { bsd_name: disk.bsd_name })
    }

    /// Begins to put a virtual image into the USB slot and to tell the guest, and returns the
    /// first action. What was attached before is ejected.
    pub fn attach_virtual(&mut self, img_path: String) -> (r: UsbAction)
        requires
            old(self).phase is Idle,
        ensures
            (UsbStep { manager: *final(self), action: r }) == begun(
                *old(self),
                UsbRequest::AttachVirtual { path: img_path },
            ),
            final(self).wf(),
    {
        self.detach_first(AfterEject::Virtual { path: img_path })
    }

    /// Begins to take a disk from the host, to put it into the USB slot and to tell the
    /// guest, and returns the first action. What was attached before is ejected.
    pub fn attach_physical(&mut self, disk: PhysicalDisk) -> (r: UsbAction)
        requires
            old(self).phase is Idle,
        ensures
            (UsbStep { manager: *final(self), action: r }) == begun(
                *old(self),
                UsbRequest::AttachPhysical { disk },
            ),
            final(self).wf(),
    {
        self.detach_first(AfterEject::Physical { disk })
    }

    /// Begins an eject that the host asks for, and returns the first action: the guest lets
    /// go of the medium before it is taken away. Without a medium there is nothing to do.
    pub fn detach(&mut self) -> (r: UsbAction)
        requires
            old(self).phase is Idle,
        ensures
            (UsbStep { manager: *final(self), action: r }) == begun(
                *old(self),
                UsbRequest::Detach,
            ),
            final(self).wf(),
    {
        self.detach_first(AfterEject::Detached)
    }

    /// Begins to follow an eject that the guest has made, and returns the first action. The
    /// guest is not told of it again.
    pub fn acknowledge_guest_eject(&mut self) -> (r: UsbAction)
        requires
            old(self).phase is Idle,
        ensures
            (UsbStep { manager: *final(self), action: r }) == begun(
                *old(self),
                UsbRequest::AcknowledgeEject,
            ),
            final(self).wf(),
    {
        if self.current.is_none() {
            self.end(UsbOutcome::Acknowledged { ejected: false })
        } else {
            self.eject(AfterEject::Acknowledged)
        }
    }

    /// Takes the outcome of the last action, and returns the next one.
    pub fn step(&mut self, event: UsbEvent) -> (r: UsbAction)
        requires
            old(self).wf(),
            old(self).is_busy(),
        ensures
            (UsbStep { manager: *final(self), action: r }) == stepped(*old(self), event),
            final(self).wf(),
    {
        let mut phase = UsbPhase::Idle;
        std::mem::swap(&mut phase, &mut self.phase);
        match phase {
            UsbPhase::GuestDetach { then } => self.eject(then),
            UsbPhase::Placeholder { remount, then } => match event {
                UsbEvent::Failed(failure) => self.end(failed(failure)),
                UsbEvent::Done => match remount {
                    Some(bsd_name) => self.go(
                        UsbPhase::EjectRemount { then },
                        UsbAction::RemountHost { bsd_name },
                    ),
                    None => self.go_on(then),
                },
            },
            UsbPhase::EjectRemount { then } => self.go_on(then),
            UsbPhase::HostUnmount { disk } => match event {
                UsbEvent::Failed(failure) => self.end(failed(failure)),
                UsbEvent::Done => {
                    let path = disk.bsd_path.clone();
                    self.go(UsbPhase::Probe { disk }, UsbAction::ProbeDevice { path })
                },
            },
            UsbPhase::Probe { disk } => match event {
                UsbEvent::Failed(UsbFailure::Host { denied: true, message: _ }) => {
                    let path = disk.bsd_path.clone();
                    self.go(UsbPhase::Unlock { disk }, UsbAction::UnlockDevice { path })
                },
                UsbEvent::Failed(failure) => self.give_up(disk, rendered(failure)),
                UsbEvent::Done => self.insert_disk(disk),
            },
            UsbPhase::Unlock { disk } => match event {
                UsbEvent::Failed(_) => {
                    let path = disk.bsd_path.clone();
                    self.give_up(disk, UsbError::PermissionDenied(path))
                },
                UsbEvent::Done => {
                    let path = disk.bsd_path.clone();
                    self.go(UsbPhase::ProbeAgain { disk }, UsbAction::ProbeDevice { path })
                },
            },
            UsbPhase::ProbeAgain { disk } => match event {
                UsbEvent::Failed(UsbFailure::Host { denied: true, message: _ }) => {
                    let path = disk.bsd_path.clone();
                    self.give_up(disk, UsbError::PermissionDenied(path))
                },
                UsbEvent::Failed(failure) => self.give_up(disk, rendered(failure)),
                UsbEvent::Done => self.insert_disk(disk),
            },
            UsbPhase::VirtualMedium => match event {
                UsbEvent::Failed(failure) => self.end(failed(failure)),
                UsbEvent::Done => self.go(
                    UsbPhase::GuestAttach { mode: AttachedMode::Virtual },
                    UsbAction::NotifyGuestAttach,
                ),
            },
            UsbPhase::PhysicalMedium { disk } => match event {
                UsbEvent::Failed(UsbFailure::Qmp(QmpError::QemuError(reason))) => {
                    if contains_text(reason.as_str(), "Permission denied") {
                        let path = disk.bsd_path.clone();
                        self.give_up(disk, UsbError::PermissionDenied(path))
                    } else {
                        self.give_up(disk, UsbError::Qmp(QmpError::QemuError(reason)))
                    }
                },
                _ => self.go(
                    UsbPhase::GuestAttach {
                        mode: AttachedMode::Physical { bsd_name: disk.bsd_name },
                    },
                    UsbAction::NotifyGuestAttach,
                ),
            },
            UsbPhase::GuestAttach { mode } => match event {
                UsbEvent::Failed(failure) => self.end(failed(failure)),
                UsbEvent::Done => {
                    self.current = Some(mode);
                    UsbAction::Finish(UsbOutcome::Done)
                },
            },
            UsbPhase::GiveUp { error } => self.end(UsbOutcome::Failed(error)),
            _ => UsbAction::Finish(UsbOutcome::Done),
        }
    }

    /// Begins to create and format an image of this size, and returns the first action. What
    /// is attached stays attached until the image is ready; then the image takes its place.
    pub fn create_and_attach_virtual(
        &mut self,
        qemu_img: &str,
        img_path: String,
        size_bytes: u64,
        macos: bool,
    ) -> (r: UsbAction)
        requires
            old(self).phase is Idle,
        ensures
            *final(self) == (UsbManager {
                phase: UsbPhase::Create { path: img_path, macos },
                ..*old(self)
            }),
            runs(
                r,
                virtual_image::command_line(ImageStage::Create, qemu_img@, img_path@, size_bytes),
            ),
            final(self).wf(),
    {
        let command = build_command(ImageStage::Create, qemu_img, img_path.as_str(), size_bytes);
        self.phase = UsbPhase::Create { path: img_path, macos };
        UsbAction::RunTool { command }
    }

    fn format(&mut self, stage: FormatStage, path: String) -> (r: UsbAction)
        ensures
            formatting(*old(self), stage, path, *final(self), r),
    {
        let command = build_format_command(&stage, path.as_str());
        self.phase = UsbPhase::Format { stage, path };
        UsbAction::RunTool { command }
    }

    fn fail_making(&mut self, error: String) -> (r: UsbAction)
        ensures
            making_failed(*old(self), error@, *final(self), r),
    {
        self.phase = UsbPhase::Idle;
        UsbAction::Finish(UsbOutcome::Failed(UsbError::Io(error)))
    }

    /// Takes the outcome of a program that makes an image, and returns the next action.
    pub fn tool_step(&mut self, outcome: ToolOutcome) -> (r: UsbAction)
        requires
            old(self).is_making(),
        ensures
            is_tool_step(*old(self), outcome, *final(self), r),
            final(self).wf(),
    {
        let mut phase = UsbPhase::Idle;
        std::mem::swap(&mut phase, &mut self.phase);
        match phase {
            UsbPhase::Create { path, macos } => match outcome {
                ToolOutcome::NotRun(e) => self.fail_making(e),
                ToolOutcome::Ran { success, code, output: _, errors: _ } => {
                    if success {
                        self.format(first_format_stage(macos), path)
                    } else {
                        self.fail_making(create_failure(code))
                    }
                },
            },
            UsbPhase::Format { stage, path } => {
                let ghost before = stage;
                let ghost seen = outcome;
                let verdict = after_format_stage(stage, outcome);
                assert(is_format_verdict(before, seen, verdict));
                match verdict {
                    FormatVerdict::Next(next) => self.format(next, path),
                    FormatVerdict::Formatted => self.attach_virtual(path),
                    FormatVerdict::Failed(e) => self.fail_making(e),
                }
            },
            _ => UsbAction::Finish(UsbOutcome::Done),
        }
    }
}

/// An action runs this command.
pub open spec fn runs(action: UsbAction, command: Seq<Seq<char>>) -> bool {
    action matches UsbAction::RunTool { command: c } && text::texts(c@) == command
}

/// The next stage of formatting an image begins.
pub open spec fn formatting(
    m: UsbManager,
    stage: FormatStage,
    path: String,
    after: UsbManager,
    action: UsbAction,
) -> bool {
    &&& after == (UsbManager { phase: UsbPhase::Format { stage, path }, ..m })
    &&& runs(action, format_command(stage, path@))
}

/// The image could not be made: the request fails, and what is attached stays attached.
pub open spec fn making_failed(
    m: UsbManager,
    error: Seq<char>,
    after: UsbManager,
    action: UsbAction,
) -> bool {
    &&& after == (UsbManager { phase: UsbPhase::Idle, ..m })
    &&& action matches UsbAction::Finish(UsbOutcome::Failed(UsbError::Io(e))) && e@ == error
}

/// The step that a verdict on a stage of formatting leads to: an image that is formatted is
/// attached.
pub open spec fn follows_verdict(
    m: UsbManager,
    v: FormatVerdict,
    path: String,
    after: UsbManager,
    action: UsbAction,
) -> bool {
    match v {
        FormatVerdict::Next(next) => formatting(m, next, path, after, action),
        FormatVerdict::Formatted => (UsbStep { manager: after, action }) == begun(
            m,
            UsbRequest::AttachVirtual { path },
        ),
        FormatVerdict::Failed(e) => making_failed(m, e@, after, action),
    }
}

/// The step that the outcome of a program leads to, while an image is being made: the file is
/// created, then formatted, then attached.
pub open spec fn is_tool_step(
    m: UsbManager,
    outcome: ToolOutcome,
    after: UsbManager,
    action: UsbAction,
) -> bool {
    match m.phase {
        UsbPhase::Create { path, macos } => match outcome {
            ToolOutcome::NotRun(e) => making_failed(m, e@, after, action),
            ToolOutcome::Ran { success, code, output, errors } => if success {
                formatting(
                    m,
                    if macos {
                        FormatStage::Attach
                    } else {
                        FormatStage::MakeFilesystem
                    },
                    path,
                    after,
                    action,
                )
            } else {
                making_failed(
                    m,
                    "qemu-img create failed (exit "@ + text::shown_code(code) + ")"@,
                    after,
                    action,
                )
            },
        },
        UsbPhase::Format { stage, path } => exists|v: FormatVerdict| #[trigger]
            is_format_verdict(stage, outcome, v) && follows_verdict(m, v, path, after, action),
        _ => false,
    }
}

/// How many steps a phase is away from the end of its request, at most.
pub open spec fn steps_left(phase: UsbPhase) -> nat {
    match phase {
        UsbPhase::Idle => 0,
        UsbPhase::GiveUp { .. } => 1,
        UsbPhase::GuestAttach { .. } => 1,
        UsbPhase::VirtualMedium => 2,
        UsbPhase::PhysicalMedium { .. } => 2,
        UsbPhase::ProbeAgain { .. } => 3,
        UsbPhase::Unlock { .. } => 4,
        UsbPhase::Probe { .. } => 5,
        UsbPhase::HostUnmount { .. } => 6,
        UsbPhase::EjectRemount { .. } => 7,
        UsbPhase::Placeholder { .. } => 8,
        UsbPhase::GuestDetach { .. } => 9,
        UsbPhase::Format { stage, .. } => match stage {
            FormatStage::Detach { .. } | FormatStage::MakeFilesystem => 10,
            FormatStage::Erase { .. } => 11,
            FormatStage::Attach => 12,
        },
        UsbPhase::Create { .. } => 13,
    }
}

/// Every outcome brings the making of an image nearer to its end. As long as it is not ready,
/// and also where it cannot be made, what is attached stays attached, and nothing else goes
/// into the slot.
pub proof fn images_are_made_before_they_are_attached(
    m: UsbManager,
    outcome: ToolOutcome,
    after: UsbManager,
    action: UsbAction,
)
    requires
        is_tool_step(m, outcome, after, action),
    ensures
        steps_left(after.phase) < steps_left(m.phase),
        after.placeholder_path == m.placeholder_path,
        action is RunTool <==> after.is_making(),
        action is RunTool || action is Finish ==> after.current == m.current,
        !(action is RunTool) && !(action is Finish) ==> m.phase is Format && (UsbStep {
            manager: after,
            action,
        }) == begun(m, UsbRequest::AttachVirtual { path: m.phase->Format_path }),
{
}

/// Every outcome brings a request nearer to its end, and a request ends when and only when
/// the manager becomes idle.
pub proof fn requests_end(m: UsbManager, event: UsbEvent)
    requires
        m.wf(),
        m.is_busy(),
    ensures
        steps_left(stepped(m, event).manager.phase) < steps_left(m.phase),
        stepped(m, event).manager.phase is Idle <==> stepped(m, event).action is Finish,
        stepped(m, event).manager.wf(),
        stepped(m, event).manager.placeholder_path == m.placeholder_path,
{
}

/// Nothing is attached after a request that failed.
pub proof fn nothing_is_attached_after_a_failure(m: UsbManager, event: UsbEvent)
    requires
        m.wf(),
        m.is_busy(),
        stepped(m, event).action matches UsbAction::Finish(UsbOutcome::Failed(_)),
    ensures
        stepped(m, event).manager.current is None,
{
}

/// A medium goes into the slot only while nothing counts as attached: whatever was
/// attached before has been taken out first.
pub proof fn one_medium_at_a_time(m: UsbManager, request: UsbRequest, event: UsbEvent)
    requires
        m.wf(),
    ensures
        m.phase is Idle && begun(m, request).action is ChangeMedium ==> begun(
            m,
            request,
        ).manager.current is None,
        m.is_busy() && stepped(m, event).action is ChangeMedium ==> stepped(
            m,
            event,
        ).manager.current is None,
{
}

/// A disk that cannot be opened or that QEMU refuses goes back to the host before the
/// request fails.
pub proof fn refused_disks_go_back_to_the_host(
    m: UsbManager,
    disk: PhysicalDisk,
    failure: UsbFailure,
)
    requires
        m.wf(),
        m.phase == (UsbPhase::Probe { disk }) || m.phase == (UsbPhase::Unlock { disk }) || m.phase
            == (UsbPhase::ProbeAgain { disk }) || m.phase == (UsbPhase::PhysicalMedium { disk }),
    ensures
        ({
            let step = stepped(m, UsbEvent::Failed(failure));
            ||| step.action == (UsbAction::RemountHost { bsd_name: disk.bsd_name })
                && step.manager.phase is GiveUp
            ||| step.manager.phase == (UsbPhase::Unlock { disk })
            ||| m.phase is PhysicalMedium && refusal(UsbEvent::Failed(failure)) is None
        }),
{
}

/// The actions of a request whose every outcome is a success, from `step` on, up to `n` of
/// them.
pub open spec fn course(step: UsbStep, n: nat) -> Seq<UsbAction>
    decreases n,
{
    if n == 0 {
        Seq::empty()
    } else if step.action is Finish {
        seq![step.action]
    } else {
        seq![step.action] + course(stepped(step.manager, UsbEvent::Done), (n - 1) as nat)
    }
}

/// The manager after a request whose every outcome is a success, from `step` on, and after
/// `n` outcomes at most.
pub open spec fn course_end(step: UsbStep, n: nat) -> UsbManager
    decreases n,
{
    if n == 0 || step.action is Finish {
        step.manager
    } else {
        course_end(stepped(step.manager, UsbEvent::Done), (n - 1) as nat)
    }
}

/// What empties a slot, where the guest is asked first: the guest lets go, the placeholder
/// goes in, and a disk goes back to the host.
pub open spec fn emptying(m: UsbManager) -> Seq<UsbAction> {
    match m.current {
        None => Seq::empty(),
        Some(AttachedMode::Virtual) => seq![
            UsbAction::NotifyGuestDetach,
            UsbAction::ChangeMedium { filename: m.placeholder_path },
        ],
        Some(AttachedMode::Physical { bsd_name }) => seq![
            UsbAction::NotifyGuestDetach,
            UsbAction::ChangeMedium { filename: m.placeholder_path },
            UsbAction::RemountHost { bsd_name },
        ],
    }
}

/// Attaching an image without a failure: whatever is attached is taken out, the image goes
/// into the slot, the guest is told, and the image counts as attached.
pub proof fn images_are_attached(m: UsbManager, path: String)
    requires
        m.phase is Idle,
    ensures
        ({
            let first = begun(m, UsbRequest::AttachVirtual { path });
            &&& course(first, 12) == emptying(m) + seq![
                UsbAction::ChangeMedium { filename: path },
                UsbAction::NotifyGuestAttach,
                UsbAction::Finish(UsbOutcome::Done),
            ]
            &&& course_end(first, 12) == (UsbManager { current: Some(AttachedMode::Virtual), ..m })
        }),
{
    let first = begun(m, UsbRequest::AttachVirtual { path });
    reveal_with_fuel(course, 12);
    reveal_with_fuel(course_end, 12);
    assert(course(first, 12) =~= emptying(m) + seq![
        UsbAction::ChangeMedium { filename: path },
        UsbAction::NotifyGuestAttach,
        UsbAction::Finish(UsbOutcome::Done),
    ]);
}

/// Attaching a disk without a failure: whatever is attached is taken out, the host lets go of
/// the disk, the disk can be opened, it goes into the slot, the guest is told, and the disk
/// counts as attached.
pub proof fn disks_are_attached(m: UsbManager, disk: PhysicalDisk)
    requires
        m.phase is Idle,
    ensures
        ({
            let first = begun(m, UsbRequest::AttachPhysical { disk });
            &&& course(first, 12) == emptying(m) + seq![
                UsbAction::UnmountHost { bsd_name: disk.bsd_name },
                UsbAction::ProbeDevice { path: disk.bsd_path },
                UsbAction::ChangeMedium { filename: disk.bsd_path },
                UsbAction::NotifyGuestAttach,
                UsbAction::Finish(UsbOutcome::Done),
            ]
            &&& course_end(first, 12) == (UsbManager {
                current: Some(AttachedMode::Physical { bsd_name: disk.bsd_name }),
                ..m
            })
        }),
{
    let first = begun(m, UsbRequest::AttachPhysical { disk });
    reveal_with_fuel(course, 12);
    reveal_with_fuel(course_end, 12);
    assert(course(first, 12) =~= emptying(m) + seq![
        UsbAction::UnmountHost { bsd_name: disk.bsd_name },
        UsbAction::ProbeDevice { path: disk.bsd_path },
        UsbAction::ChangeMedium { filename: disk.bsd_path },
        UsbAction::NotifyGuestAttach,
        UsbAction::Finish(UsbOutcome::Done),
    ]);
}

/// Detaching without a failure empties the slot, and does nothing where it is empty. An
/// eject of the guest is followed in the same way, but for asking the guest, and says whether
/// there was anything to eject.
pub proof fn media_are_detached(m: UsbManager)
    requires
        m.phase is Idle,
    ensures
        ({
            let detach = begun(m, UsbRequest::Detach);
            let eject = begun(m, UsbRequest::AcknowledgeEject);
            &&& course(detach, 12) == emptying(m).push(UsbAction::Finish(UsbOutcome::Done))
            &&& course_end(detach, 12) == (UsbManager { current: None, ..m })
            &&& course(eject, 12) == (if m.current is Some {
                emptying(m).skip(1)
            } else {
                Seq::empty()
            }).push(
                UsbAction::Finish(UsbOutcome::Acknowledged { ejected: m.current is Some }),
            )
            &&& course_end(eject, 12) == (UsbManager { current: None, ..m })
        }),
{
    let detach = begun(m, UsbRequest::Detach);
    let eject = begun(m, UsbRequest::AcknowledgeEject);
    reveal_with_fuel(course, 12);
    reveal_with_fuel(course_end, 12);
    assert(course(detach, 12) =~= emptying(m).push(UsbAction::Finish(UsbOutcome::Done)));
    assert(course(eject, 12) =~= (if m.current is Some {
        emptying(m).skip(1)
    } else {
        Seq::empty()
    }).push(UsbAction::Finish(UsbOutcome::Acknowledged { ejected: m.current is Some })));
}

/// What comes after the slot has been emptied is what a request asks for.
pub open spec fn then_serves(then: AfterEject, request: UsbRequest) -> bool {
    match request {
        UsbRequest::AttachVirtual { path } => then == (AfterEject::Virtual { path }),
        UsbRequest::AttachPhysical { disk } => then == (AfterEject::Physical { disk }),
        UsbRequest::Detach => then is Detached,
        UsbRequest::AcknowledgeEject => then is Acknowledged,
    }
}

/// A manager that serves a request.
pub open spec fn serves(m: UsbManager, request: UsbRequest) -> bool {
    match m.phase {
        UsbPhase::GuestDetach { then } => then_serves(then, request) && !(
        request is AcknowledgeEject),
        UsbPhase::Placeholder { then, .. } => then_serves(then, request),
        UsbPhase::EjectRemount { then } => then_serves(then, request),
        UsbPhase::VirtualMedium => request is AttachVirtual,
        UsbPhase::HostUnmount { disk } => request == (UsbRequest::AttachPhysical { disk }),
        UsbPhase::Probe { disk } => request == (UsbRequest::AttachPhysical { disk }),
        UsbPhase::Unlock { disk } => request == (UsbRequest::AttachPhysical { disk }),
        UsbPhase::ProbeAgain { disk } => request == (UsbRequest::AttachPhysical { disk }),
        UsbPhase::PhysicalMedium { disk } => request == (UsbRequest::AttachPhysical { disk }),
        UsbPhase::GuestAttach { mode } => match request {
            UsbRequest::AttachVirtual { .. } => mode is Virtual,
            UsbRequest::AttachPhysical { disk } => mode == (AttachedMode::Physical {
                bsd_name: disk.bsd_name,
            }),
            _ => false,
        },
        UsbPhase::GiveUp { .. } => request is AttachPhysical,
        _ => false,
    }
}

/// The end that a request comes to: success means that its medium, and no other, is attached,
/// or that none is.
pub open spec fn ends_rightly(m: UsbManager, request: UsbRequest, step: UsbStep) -> bool {
    match step.action {
        UsbAction::Finish(UsbOutcome::Done) => match request {
            UsbRequest::AttachVirtual { .. } => step.manager.current == Some(
                AttachedMode::Virtual,
            ),
            UsbRequest::AttachPhysical { disk } => step.manager.current == Some(
                AttachedMode::Physical { bsd_name: disk.bsd_name },
            ),
            UsbRequest::Detach => step.manager.current is None,
            UsbRequest::AcknowledgeEject => false,
        },
        UsbAction::Finish(UsbOutcome::Acknowledged { ejected }) => request is AcknowledgeEject
            && step.manager.current is None && ejected == !(m.phase is Idle && m.current is None),
        UsbAction::Finish(UsbOutcome::Failed(_)) => step.manager.current is None,
        UsbAction::ChangeMedium { filename } => filename == m.placeholder_path || match request {
            UsbRequest::AttachVirtual { path } => filename == path,
            UsbRequest::AttachPhysical { disk } => filename == disk.bsd_path,
            _ => false,
        },
        _ => true,
    }
}

/// Whatever the outcomes: a request is served until it ends, it ends in success only with
/// what it asked for, and no other file than its own and the placeholder goes into the slot.
pub proof fn requests_end_with_what_they_asked_for(
    m: UsbManager,
    request: UsbRequest,
    event: UsbEvent,
)
    requires
        m.wf(),
    ensures
        m.phase is Idle ==> ends_rightly(m, request, begun(m, request)) && (begun(
            m,
            request,
        ).action is Finish || serves(begun(m, request).manager, request)),
        m.is_busy() && serves(m, request) ==> ends_rightly(m, request, stepped(m, event)) && (
        stepped(m, event).action is Finish || serves(stepped(m, event).manager, request)),
{
}

/// A host or a QEMU that fails to swap the medium, to let go of a disk or to announce the
/// medium ends the request with that error. What the guest or the host does with the medium
/// that leaves does not stop a request.
pub proof fn failures_are_reported(m: UsbManager, failure: UsbFailure)
    requires
        m.wf(),
    ensures
        ({
            let step = stepped(m, UsbEvent::Failed(failure));
            &&& m.phase is Placeholder || m.phase is HostUnmount || m.phase is VirtualMedium
                || m.phase is GuestAttach ==> step.action == UsbAction::Finish(
                UsbOutcome::Failed(
                    match failure {
                        UsbFailure::Host { message, .. } => UsbError::Io(message),
                        UsbFailure::Qmp(e) => UsbError::Qmp(e),
                    },
                ),
            )
            &&& m.phase is GuestDetach || m.phase is EjectRemount ==> step == stepped(
                m,
                UsbEvent::Done,
            )
            &&& m.phase matches UsbPhase::GiveUp { error } ==> step.action == UsbAction::Finish(
                UsbOutcome::Failed(error),
            )
        }),
{
}

/// A disk that may not be opened is made writable once and opened again; where that does not
/// help it goes back to the host, and the request fails for want of access rights.
pub proof fn denied_disks_are_unlocked_once(m: UsbManager, disk: PhysicalDisk, message: String)
    requires
        m.wf(),
    ensures
        ({
            let denied = UsbEvent::Failed(UsbFailure::Host { denied: true, message });
            let broken = UsbEvent::Failed(UsbFailure::Host { denied: false, message });
            &&& m.phase == (UsbPhase::Probe { disk }) ==> {
                &&& stepped(m, denied).action == (UsbAction::UnlockDevice { path: disk.bsd_path })
                &&& stepped(m, denied).manager.phase == (UsbPhase::Unlock { disk })
                &&& stepped(m, broken).action == (UsbAction::RemountHost {
                    bsd_name: disk.bsd_name,
                })
                &&& stepped(m, broken).manager.phase == (UsbPhase::GiveUp {
                    error: UsbError::Io(message),
                })
            }
            &&& m.phase == (UsbPhase::Unlock { disk }) ==> {
                &&& stepped(m, UsbEvent::Done).action == (UsbAction::ProbeDevice {
                    path: disk.bsd_path,
                })
                &&& stepped(m, UsbEvent::Done).manager.phase == (UsbPhase::ProbeAgain { disk })
                &&& stepped(m, broken).manager.phase == (UsbPhase::GiveUp {
                    error: UsbError::PermissionDenied(disk.bsd_path),
                })
            }
            &&& m.phase == (UsbPhase::ProbeAgain { disk }) ==> {
                &&& stepped(m, UsbEvent::Done).action == (UsbAction::ChangeMedium {
                    filename: disk.bsd_path,
                })
                &&& stepped(m, denied).action == (UsbAction::RemountHost {
                    bsd_name: disk.bsd_name,
                })
                &&& stepped(m, denied).manager.phase == (UsbPhase::GiveUp {
                    error: UsbError::PermissionDenied(disk.bsd_path),
                })
                &&& stepped(m, broken).manager.phase == (UsbPhase::GiveUp {
                    error: UsbError::Io(message),
                })
            }
        }),
{
}

/// A disk that QEMU refuses goes back to the host, and the request fails: for want of access
/// rights where the reason says so, and else with the reason. Any other trouble on the
/// protocol does not stop the disk.
pub proof fn refusals_name_their_reason(m: UsbManager, disk: PhysicalDisk, error: QmpError)
    requires
        m.wf(),
        m.phase == (UsbPhase::PhysicalMedium { disk }),
    ensures
        ({
            let step = stepped(m, UsbEvent::Failed(UsbFailure::Qmp(error)));
            match error {
                QmpError::QemuError(reason) => {
                    &&& step.action == (UsbAction::RemountHost { bsd_name: disk.bsd_name })
                    &&& text::holds_text(reason@, "Permission denied"@) ==> step.manager.phase == (
                    UsbPhase::GiveUp { error: UsbError::PermissionDenied(disk.bsd_path) })
                    &&& !text::holds_text(reason@, "Permission denied"@) ==> step.manager.phase == (
                    UsbPhase::GiveUp { error: UsbError::Qmp(error) })
                },
                _ => step.action is NotifyGuestAttach,
            }
        }),
{
}

/// The path of every numbered disk, and of every slice of one, is taken as such; and such a
/// path holds no character but slashes, letters and digits, so that it stands for itself in a
/// script.
pub proof fn disk_paths_are_plain(p: Seq<char>, major: nat, minor: nat)
    ensures
        is_bsd_disk_path("/dev/disk"@ + text::decimal(major)),
        is_bsd_disk_path("/dev/disk"@ + text::decimal(major) + "s"@ + text::decimal(minor)),
        is_bsd_disk_path(p) ==> forall|i: int|
            0 <= i < p.len() ==> #[trigger] p[i] == '/' || 'a' <= p[i] <= 'z' || '0' <= p[i]
                <= '9',
        is_bsd_disk_path(p) ==> p.len() > 9 && '0' <= p[9] <= '9' && '0' <= p.last() <= '9',
{
    text::lemma_decimal_reads_back(major);
    text::lemma_decimal_reads_back(minor);
    assert("/dev/disk"@ + text::decimal(major) == disk_path(text::decimal(major)));
    assert("/dev/disk"@ + text::decimal(major) + "s"@ + text::decimal(minor) == slice_path(
        text::decimal(major),
        text::decimal(minor),
    ));
    reveal_strlit("/dev/disk");
    reveal_strlit("s");
    if is_bsd_disk_path(p) {
        if exists|a: Seq<char>| text::is_digits(a) && p == #[trigger] disk_path(a) {
            let a = choose|a: Seq<char>| text::is_digits(a) && p == #[trigger] disk_path(a);
            assert(forall|i: int| 9 <= i < p.len() ==> #[trigger] p[i] == a[i - 9]);
            assert(text::is_digit(a[0]) && text::is_digit(a[a.len() - 1]));
        } else {
            let (a, b) = choose|a: Seq<char>, b: Seq<char>|
                text::is_digits(a) && text::is_digits(b) && p == #[trigger] slice_path(a, b);
            assert(forall|i: int| 9 <= i < 9 + a.len() ==> #[trigger] p[i] == a[i - 9]);
            assert(p[9 + a.len() as int] == 's');
            assert(forall|i: int|
                10 + a.len() <= i < p.len() ==> #[trigger] p[i] == b[i - 10 - a.len()]);
            assert(text::is_digit(a[0]) && text::is_digit(b[b.len() - 1]));
        }
    }
}

/// Making an image on a host other than macOS: the file that was created is formatted with one
/// command, and then attached.
pub proof fn created_images_are_formatted(
    m: UsbManager,
    outcome: ToolOutcome,
    formatting: UsbManager,
    first: UsbAction,
    again: ToolOutcome,
    after: UsbManager,
    second: UsbAction,
)
    requires
        m.phase is Create,
        !m.phase->macos,
        outcome matches ToolOutcome::Ran { success, .. } && success,
        again matches ToolOutcome::Ran { success, .. } && success,
        is_tool_step(m, outcome, formatting, first),
        is_tool_step(formatting, again, after, second),
    ensures
        first matches UsbAction::RunTool { command } && text::texts(command@) == seq![
            "mkfs.exfat"@,
            "-L"@,
            "REKORDBOX"@,
            m.phase->Create_path@,
        ],
        (UsbStep { manager: after, action: second }) == begun(
            m,
            UsbRequest::AttachVirtual { path: m.phase->Create_path },
        ),
{
}

/// Making an image on macOS: the file becomes the disk that the first word of the output
/// names, the disk is formatted, it goes away again, and the image is attached.
pub proof fn created_images_are_formatted_as_disks(
    m: UsbManager,
    outcomes: Seq<ToolOutcome>,
    managers: Seq<UsbManager>,
    actions: Seq<UsbAction>,
)
    requires
        m.phase is Create,
        m.phase->macos,
        outcomes.len() == 4,
        managers.len() == 4,
        actions.len() == 4,
        forall|i: int|
            0 <= i < 4 ==> (#[trigger] outcomes[i] matches ToolOutcome::Ran { success, .. }
                && success),
        text::words(outcomes[1]->output@).len() > 0,
        is_tool_step(m, outcomes[0], managers[0], actions[0]),
        is_tool_step(managers[0], outcomes[1], managers[1], actions[1]),
        is_tool_step(managers[1], outcomes[2], managers[2], actions[2]),
        is_tool_step(managers[2], outcomes[3], managers[3], actions[3]),
    ensures
        ({
            let path = m.phase->Create_path;
            let disk = text::words(outcomes[1]->output@)[0];
            &&& actions[0] matches UsbAction::RunTool { command } && text::texts(command@) == seq![
                "hdiutil"@,
                "attach"@,
                "-nomount"@,
                "-imagekey"@,
                "diskimage-class=CRawDiskImage"@,
                path@,
            ]
            &&& actions[1] matches UsbAction::RunTool { command } && text::texts(command@) == seq![
                "diskutil"@,
                "eraseDisk"@,
                "ExFAT"@,
                "REKORDBOX"@,
                "MBR"@,
                disk,
            ]
            &&& actions[2] matches UsbAction::RunTool { command } && text::texts(command@) == seq![
                "hdiutil"@,
                "detach"@,
                disk,
            ]
            &&& (UsbStep { manager: managers[3], action: actions[3] }) == begun(
                m,
                UsbRequest::AttachVirtual { path },
            )
        }),
{
    assert(outcomes[0] is Ran && outcomes[1] is Ran && outcomes[2] is Ran && outcomes[3] is Ran);
}

/// An image that cannot be created or formatted ends the request with an error, and what is
/// attached stays.
pub proof fn failed_tools_end_the_making(
    m: UsbManager,
    outcome: ToolOutcome,
    after: UsbManager,
    action: UsbAction,
)
    requires
        is_tool_step(m, outcome, after, action),
        m.phase is Create || (m.phase matches UsbPhase::Format { stage, .. } && (
        stage is MakeFilesystem || stage is Attach)),
        outcome is NotRun || (outcome matches ToolOutcome::Ran { success, .. } && !success),
    ensures
        action matches UsbAction::Finish(UsbOutcome::Failed(UsbError::Io(_))),
        after == (UsbManager { phase: UsbPhase::Idle, ..m }),
        outcome matches ToolOutcome::NotRun(e) ==> (action matches UsbAction::Finish(
            UsbOutcome::Failed(UsbError::Io(t)),
        ) && t@ == e@),
{
}

/// A tool's outcome.
#[derive(Clone, Debug)]
pub enum ToolOutcome {
    /// It ran, with this exit code and these outputs.
    Ran { success: bool, code: Option<i32>, output: String, errors: String },
    /// It could not be run; holds the error's text.
    NotRun(String),
}

/// The steps that format an image.
#[derive(Clone, Debug)]
pub enum FormatStage {
    /// macOS: the image becomes a disk.
    Attach,
    /// macOS: the disk is partitioned and formatted.
    Erase { disk: String },
    /// macOS: the disk goes away again, whatever came of it.
    Detach { disk: String, failure: Option<String> },
    /// Other hosts: the image is formatted.
    MakeFilesystem,
}

/// What a step's outcome means.
#[derive(Clone, Debug)]
pub enum FormatVerdict {
    Next(FormatStage),
    Formatted,
    Failed(String),
}

/// The first step on macOS or on another host.
pub fn first_format_stage(macos: bool) -> (r: FormatStage)
    ensures
        r == (if macos {
            FormatStage::Attach
        } else {
            FormatStage::MakeFilesystem
        }),
{
    if macos {
        FormatStage::Attach
    } else {
        FormatStage::MakeFilesystem
    }
}

/// The command line of a step, with the program in front.
pub open spec fn format_command(stage: FormatStage, image: Seq<char>) -> Seq<Seq<char>> {
    match stage {
        FormatStage::Attach => seq![
            "hdiutil"@,
            "attach"@,
            "-nomount"@,
            "-imagekey"@,
            "diskimage-class=CRawDiskImage"@,
            image,
        ],
        FormatStage::Erase { disk } => seq![
            "diskutil"@,
            "eraseDisk"@,
            "ExFAT"@,
            "REKORDBOX"@,
            "MBR"@,
            disk@,
        ],
        FormatStage::Detach { disk, .. } => seq!["hdiutil"@, "detach"@, disk@],
        FormatStage::MakeFilesystem => seq!["mkfs.exfat"@, "-L"@, "REKORDBOX"@, image],
    }
}

/// The command line of a step, with the program in front.
pub fn build_format_command(stage: &FormatStage, image: &str) -> (r: Vec<String>)
    ensures
        text::texts(r@) == format_command(*stage, image@),
{
    let mut args: Vec<String> = Vec::new();
    match stage {
        FormatStage::Attach => {
            push_text(&mut args, "hdiutil");
            push_text(&mut args, "attach");
            push_text(&mut args, "-nomount");
            push_text(&mut args, "-imagekey");
            push_text(&mut args, "diskimage-class=CRawDiskImage");
            push_text(&mut args, image);
        },
        FormatStage::Erase { disk } => {
            push_text(&mut args, "diskutil");
            push_text(&mut args, "eraseDisk");
            push_text(&mut args, "ExFAT");
            push_text(&mut args, "REKORDBOX");
            push_text(&mut args, "MBR");
            push_text(&mut args, disk.as_str());
        },
        FormatStage::Detach { disk, .. } => {
            push_text(&mut args, "hdiutil");
            push_text(&mut args, "detach");
            push_text(&mut args, disk.as_str());
        },
        FormatStage::MakeFilesystem => {
            push_text(&mut args, "mkfs.exfat");
            push_text(&mut args, "-L");
            push_text(&mut args, "REKORDBOX");
            push_text(&mut args, image);
        },
    }
    assert(text::texts(args@) =~= format_command(*stage, image@));
    args
}

/// Whether a verdict says that the next step works on this disk, with this failure to report.
pub open spec fn detaches(v: FormatVerdict, disk: Seq<char>, failure: Option<Seq<char>>) -> bool {
    v matches FormatVerdict::Next(FormatStage::Detach { disk: d, failure: f }) && d@ == disk
        && text::maybe(f) == failure
}

/// Whether a verdict is what the outcome of a step means.
pub open spec fn is_format_verdict(
    stage: FormatStage,
    outcome: ToolOutcome,
    v: FormatVerdict,
) -> bool {
    match (stage, outcome) {
        (FormatStage::Attach, ToolOutcome::NotRun(e)) => v == FormatVerdict::Failed(e),
        (FormatStage::Attach, ToolOutcome::Ran { success, code, output, errors }) => {
            if !success {
                v matches FormatVerdict::Failed(t) && t@ == "hdiutil attach failed: "@
                    + text::trimmed(errors@)
            } else if text::words(output@).len() == 0 {
                v matches FormatVerdict::Failed(t) && t@
                    == "hdiutil attach: could not parse disk device from output"@
            } else {
                v matches FormatVerdict::Next(FormatStage::Erase { disk }) && disk@ == text::words(
                    output@,
                )[0]
            }
        },
        (FormatStage::Erase { disk }, ToolOutcome::NotRun(e)) => detaches(v, disk@, Some(e@)),
        (FormatStage::Erase { disk }, ToolOutcome::Ran { success, code, output, errors }) => detaches(
            v,
            disk@,
            if success {
                None
            } else {
                Some("diskutil eraseDisk failed (exit "@ + text::shown_code(code) + ")"@)
            },
        ),
        (FormatStage::Detach { disk, failure }, _) => match failure {
            None => v is Formatted,
            Some(e) => v == FormatVerdict::Failed(e),
        },
        (FormatStage::MakeFilesystem, ToolOutcome::NotRun(e)) => v == FormatVerdict::Failed(e),
        (FormatStage::MakeFilesystem, ToolOutcome::Ran { success, code, output, errors }) => {
            if success {
                v is Formatted
            } else {
                v matches FormatVerdict::Failed(t) && t@ == "mkfs.exfat failed"@
            }
        },
    }
}

/// What the outcome of a step means.
pub fn after_format_stage(stage: FormatStage, outcome: ToolOutcome) -> (r: FormatVerdict)
    ensures
        is_format_verdict(stage, outcome, r),
{
    match stage {
        FormatStage::Attach => match outcome {
            ToolOutcome::NotRun(e) => FormatVerdict::Failed(e),
            ToolOutcome::Ran { success, code: _, output, errors } => {
                if !success {
                    FormatVerdict::Failed(
                        cat2("hdiutil attach failed: ", trim(errors.as_str()).as_str()),
                    )
                } else {
                    match first_word(output.as_str()) {
                        Some(disk) => FormatVerdict::Next(FormatStage::Erase { disk }),
                        None => FormatVerdict::Failed(
                            "hdiutil attach: could not parse disk device from output".to_owned(),
                        ),
                    }
                }
            },
        },
        FormatStage::Erase { disk } => match outcome {
            ToolOutcome::NotRun(e) => FormatVerdict::Next(
                FormatStage::Detach { disk, failure: Some(e) },
            ),
            ToolOutcome::Ran { success, code, output: _, errors: _ } => {
                let failure = if success {
                    None
                } else {
                    Some(cat3("diskutil eraseDisk failed (exit ", code_text(code).as_str(), ")"))
                };
                FormatVerdict::Next(FormatStage::Detach { disk, failure })
            },
        },
        FormatStage::Detach { disk: _, failure } => match failure {
            None => FormatVerdict::Formatted,
            Some(e) => FormatVerdict::Failed(e),
        },
        FormatStage::MakeFilesystem => match outcome {
            ToolOutcome::NotRun(e) => FormatVerdict::Failed(e),
            ToolOutcome::Ran { success, code: _, output: _, errors: _ } => {
                if success {
                    FormatVerdict::Formatted
                } else {
                    FormatVerdict::Failed("mkfs.exfat failed".to_owned())
                }
            },
        },
    }
}

/// A disk that an image became is taken away again, whether or not it could be formatted.
pub proof fn attached_images_are_detached(
    disk: String,
    outcome: ToolOutcome,
    v: FormatVerdict,
)
    requires
        is_format_verdict(FormatStage::Erase { disk }, outcome, v),
    ensures
        v matches FormatVerdict::Next(FormatStage::Detach { disk: d, failure }) && d@ == disk@,
{
}

/// The error where the file of an image could not be created.
pub fn create_failure(code: Option<i32>) -> (r: String)
    ensures
        r@ == "qemu-img create failed (exit "@ + text::shown_code(code) + ")"@,
{
    cat3("qemu-img create failed (exit ", code_text(code).as_str(), ")")
}

/// The script asks for the administrator's password and gives the group the right to read and
/// write the device, and nothing else.
pub proof fn devices_are_unlocked_for_the_group(dev_path: Seq<char>)
    ensures
        unlock_script_text(dev_path) == "do shell script \"chmod 660 "@ + dev_path
            + "\" with administrator privileges"@,
{
}

/// A tool that fails is named in the error, with its exit code or what it printed. A disk that
/// could not be formatted goes away before its failure is told, whatever comes of that.
pub proof fn failed_tools_are_named(
    m: UsbManager,
    outcome: ToolOutcome,
    after: UsbManager,
    action: UsbAction,
    later: ToolOutcome,
    end: UsbManager,
    last: UsbAction,
)
    requires
        is_tool_step(m, outcome, after, action),
        outcome matches ToolOutcome::Ran { success, .. },
    ensures
        ({
            let ran = outcome;
            let failed = !ran->success;
            let message = action->Finish_0->Failed_0->Io_0@;
            let ends = action is Finish && action->Finish_0 is Failed && action->Finish_0->Failed_0
                is Io;
            &&& m.phase is Create && failed ==> ends && message == "qemu-img create failed (exit "@
                + text::shown_code(ran->code) + ")"@
            &&& m.phase matches UsbPhase::Format { stage, .. } ==> {
                &&& stage is Attach && failed ==> ends && message == "hdiutil attach failed: "@
                    + text::trimmed(ran->errors@)
                &&& stage is Attach && !failed && text::words(ran->output@).len() == 0 ==> ends
                    && message == "hdiutil attach: could not parse disk device from output"@
                &&& stage is MakeFilesystem && failed ==> ends && message == "mkfs.exfat failed"@
                &&& stage is Erase && failed && is_tool_step(after, later, end, last) ==> {
                    &&& action matches UsbAction::RunTool { command } && text::texts(command@)
                        == seq!["hdiutil"@, "detach"@, stage->Erase_disk@]
                    &&& last matches UsbAction::Finish(UsbOutcome::Failed(UsbError::Io(t))) && t@
                        == "diskutil eraseDisk failed (exit "@ + text::shown_code(ran->code)
                        + ")"@
                }
            }
        }),
{
}

} // verus!
