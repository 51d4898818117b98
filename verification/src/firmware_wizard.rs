//! The firmware install wizard: what it shows, and what its buttons do.

use vstd::prelude::*;

use crate::app::BootShadeMode;
use crate::menu_state::{AppState, LifecycleState, MAX_INSTANCES};
use crate::provision;
use crate::provision::{ProvisionJob, ProvisionStep};
use crate::text;
use crate::text::{cat2, cat3, decimal_text, push_text};

verus! {

/// Whether a restart out of the wizard brings the boot shade up.
pub fn restart_uses_legacy_shade(mode: BootShadeMode) -> (r: bool)
    ensures
        r == (mode == BootShadeMode::LegacyFrameThreshold),
{
    match mode {
        BootShadeMode::LegacyFrameThreshold => true,
        BootShadeMode::LinuxLiveStatus => false,
    }
}

/// The firmware install wizard.
#[derive(Debug)]
pub struct FirmwareWizard {
    pub open: bool,
    pub upd_path: String,
    pub key_path: String,
    /// Target slot for provisioning (1..=MAX_INSTANCES). The current window's instance to
    /// begin with.
    pub target_instance: u32,
    pub log: String,
    /// Set while provisioning is running.
    pub provision_status: Option<ProvisionStep>,
    /// How provisioning ended.
    pub terminal: Option<ProvisionStep>,
    /// The wizard's window has been raised since it was opened.
    pub focused_after_open: bool,
    pub resources_dir: Option<String>,
    pub qemu_img: Option<String>,
    pub boot_shade_mode: BootShadeMode,
}

/// What the banner of the wizard says.
#[derive(Clone, Debug)]
pub enum Banner {
    Nothing,
    Running { label: &'static str },
    Installed,
    Failed { message: String },
}

/// The buttons at the bottom of the wizard.
#[derive(Clone, Copy, Debug, PartialEq, Eq, Structural)]
pub enum ButtonRow {
    Nothing,
    Restart,
    CloseAndBack,
    InstallAndCancel { can_install: bool },
}

/// A button of the wizard.
#[derive(Clone, Copy, Debug, PartialEq, Eq, Structural)]
pub enum WizardButton {
    Restart,
    Close,
    Back,
    Install,
    Cancel,
}

/// What a button asks the caller to do.
#[derive(Clone, Debug)]
pub enum WizardCommand {
    Nothing,
    /// Close the wizard.
    Close,
    /// Read the key, and begin the installation with it.
    Install { key_path: String },
}

/// Provisioning is running.
pub open spec fn is_running(w: FirmwareWizard) -> bool {
    w.provision_status is Some
}

/// Whether a banner is the one that the wizard shows.
pub open spec fn is_banner(w: FirmwareWizard, b: Banner) -> bool {
    match w.provision_status {
        Some(step) => b matches Banner::Running { label } && label@ == provision::step_label(step@),
        None => match w.terminal {
            Some(ProvisionStep::Done) => b is Installed,
            Some(ProvisionStep::Error(message)) => b == (Banner::Failed { message }),
            _ => b is Nothing,
        },
    }
}

/// The buttons that the wizard shows.
pub open spec fn button_row(w: FirmwareWizard) -> ButtonRow {
    match w.provision_status {
        Some(_) => ButtonRow::Nothing,
        None => match w.terminal {
            Some(ProvisionStep::Done) => ButtonRow::Restart,
            Some(ProvisionStep::Error(_)) => ButtonRow::CloseAndBack,
            _ => ButtonRow::InstallAndCancel {
                can_install: w.upd_path@.len() > 0 && w.key_path@.len() > 0,
            },
        },
    }
}

/// The wizard after it has noticed that provisioning has ended.
pub open spec fn polled(w: FirmwareWizard) -> FirmwareWizard {
    match w.provision_status {
        Some(step) => if step@ is Done || step@ is Error {
            FirmwareWizard { terminal: Some(step), provision_status: None, ..w }
        } else {
            w
        },
        None => w,
    }
}

impl FirmwareWizard {
    /// A wizard with the bundled resources and tools.
    pub fn new(current_instance_id: u32) -> (r: Self)
        ensures
            r.is_new(None, None, BootShadeMode::LegacyFrameThreshold, current_instance_id),
    {
        Self::new_with_options(None, None, current_instance_id)
    }

    /// A wizard with the given resources and tools, or the bundled ones where none are given.
    pub fn new_with_options(
        resources_dir: Option<String>,
        qemu_img: Option<String>,
        current_instance_id: u32,
    ) -> (r: Self)
        ensures
            r.is_new(
                resources_dir,
                qemu_img,
                BootShadeMode::LegacyFrameThreshold,
                current_instance_id,
            ),
    {
        Self::new_with_boot_shade_mode(
            resources_dir,
            qemu_img,
            BootShadeMode::default(),
            current_instance_id,
        )
    }

    /// A closed wizard without paths, for the window's own slot.
    pub open spec fn is_new(
        self,
        resources_dir: Option<String>,
        qemu_img: Option<String>,
        boot_shade_mode: BootShadeMode,
        current_instance_id: u32,
    ) -> bool {
        &&& !self.open
        &&& self.upd_path@ == Seq::<char>::empty()
        &&& self.key_path@ == Seq::<char>::empty()
        &&& self.target_instance == (if current_instance_id >= 1 {
            current_instance_id
        } else {
            1
        })
        &&& self.log@ == Seq::<char>::empty()
        &&& self.provision_status is None
        &&& self.terminal is None
        &&& !self.focused_after_open
        &&& self.resources_dir == resources_dir
        &&& self.qemu_img == qemu_img
        &&& self.boot_shade_mode == boot_shade_mode
    }

    /// A wizard whose restart follows the given shade mode.
    pub fn new_with_boot_shade_mode(
        resources_dir: Option<String>,
        qemu_img: Option<String>,
        boot_shade_mode: BootShadeMode,
        current_instance_id: u32,
    ) -> (r: Self)
        ensures
            r.is_new(resources_dir, qemu_img, boot_shade_mode, current_instance_id),
    {
        let target_instance: u32 = if current_instance_id >= 1 {
            current_instance_id
        } else {
            1
        };
        let r = FirmwareWizard {
            open: false,
            upd_path: String::new(),
            key_path: String::new(),
            target_instance,
            log: String::new(),
            provision_status: None,
            terminal: None,
            focused_after_open: false,
            resources_dir,
            qemu_img,
            boot_shade_mode,
        };
        assert(r.upd_path@ =~= Seq::<char>::empty());
        assert(r.key_path@ =~= Seq::<char>::empty());
        assert(r.log@ =~= Seq::<char>::empty());
        r
    }

    /// Begins a frame. None where the wizard is closed; otherwise whether its window is to be
    /// raised.
    pub fn begin_show(&mut self) -> (r: Option<bool>)
        ensures
            !old(self).open ==> r is None && *final(self) == (FirmwareWizard {
                focused_after_open: false,
                ..*old(self)
            }),
            old(self).open ==> r == Some(!old(self).focused_after_open) && *final(self)
                == (FirmwareWizard { focused_after_open: true, ..polled(*old(self)) }),
    {
        if !self.open {
            self.focused_after_open = false;
            return None;
        }
        let need_focus = !self.focused_after_open;
        self.focused_after_open = true;
        let ended = match &self.provision_status {
            Some(step) => step.is_terminal(),
            None => false,
        };
        if ended {
            self.terminal = self.provision_status.take();
        }
        Some(need_focus)
    }

    /// Ends a frame in which the wizard was shown.
    pub fn end_show(&mut self, close: bool)
        ensures
            !close ==> *final(self) == *old(self),
            close ==> *final(self) == (FirmwareWizard {
                open: false,
                provision_status: None,
                terminal: None,
                log: final(self).log,
                ..*old(self)
            }) && final(self).log@ == Seq::<char>::empty(),
    {
        if close {
            self.open = false;
            self.provision_status = None;
            self.terminal = None;
            self.log = String::new();
            assert(self.log@ =~= Seq::<char>::empty());
        }
    }

    /// The banner of the wizard.
    pub fn banner(&self) -> (r: Banner)
        ensures
            is_banner(*self, r),
    {
        match &self.provision_status {
            Some(step) => Banner::Running { label: step.label() },
            None => match &self.terminal {
                Some(ProvisionStep::Done) => Banner::Installed,
                Some(ProvisionStep::Error(message)) => Banner::Failed { message: message.clone() },
                _ => Banner::Nothing,
            },
        }
    }

    /// Whether the form is shown: while nothing is running.
    pub fn shows_form(&self) -> (r: bool)
        ensures
            r == !is_running(*self),
    {
        self.provision_status.is_none()
    }

    /// The buttons of the wizard.
    pub fn buttons(&self) -> (r: ButtonRow)
        ensures
            r == button_row(*self),
    {
        match &self.provision_status {
            Some(_) => ButtonRow::Nothing,
            None => match &self.terminal {
                Some(ProvisionStep::Done) => ButtonRow::Restart,
                Some(ProvisionStep::Error(_)) => ButtonRow::CloseAndBack,
                _ => {
                    let can_install = self.upd_path.as_str().unicode_len() > 0
                        && self.key_path.as_str().unicode_len() > 0;
                    ButtonRow::InstallAndCancel { can_install }
                },
            },
        }
    }

    /// What stands beside the chosen slot.
    pub fn slot_hint(&self, current_instance_id: u32) -> (r: &'static str)
        ensures
            r@ == (if self.target_instance == current_instance_id {
                "this window"@
            } else {
                "open from the Instances menu after install"@
            }),
    {
        if self.target_instance == current_instance_id {
            "this window"
        } else {
            "open from the Instances menu after install"
        }
    }

    /// A button was pressed. A restart brings the boot shade up in the legacy mode.
    pub fn press(&mut self, button: WizardButton, s: &mut AppState) -> (r: WizardCommand)
        ensures
            *final(self) == (if button is Back {
                FirmwareWizard { terminal: None, ..*old(self) }
            } else {
                *old(self)
            }),
            *final(s) == (if button is Restart {
                AppState {
                    lifecycle: LifecycleState {
                        restart_requested: true,
                        shade_forced: old(s).lifecycle.shade_forced || old(self).boot_shade_mode
                            == BootShadeMode::LegacyFrameThreshold,
                        ..old(s).lifecycle
                    },
                    ..*old(s)
                }
            } else {
                *old(s)
            }),
            match button {
                WizardButton::Restart | WizardButton::Close | WizardButton::Cancel => r is Close,
                WizardButton::Back => r is Nothing,
                WizardButton::Install => r == (WizardCommand::Install {
                    key_path: old(self).key_path,
                }),
            },
    {
        match button {
            WizardButton::Restart => {
                if restart_uses_legacy_shade(self.boot_shade_mode) {
                    s.lifecycle.shade_forced = true;
                }
                s.lifecycle.restart_requested = true;
                WizardCommand::Close
            },
            WizardButton::Close => WizardCommand::Close,
            WizardButton::Back => {
                self.terminal = None;
                WizardCommand::Nothing
            },
            WizardButton::Install => WizardCommand::Install { key_path: self.key_path.clone() },
            WizardButton::Cancel => WizardCommand::Close,
        }
    }

    /// The key could not be read.
    pub fn key_unreadable(&mut self, error: &str)
        ensures
            *final(self) == (FirmwareWizard {
                log: final(self).log,
                terminal: final(self).terminal,
                ..*old(self)
            }),
            final(self).log@ == "[key] could not read key file: "@ + error@ + "\n"@,
            final(self).terminal matches Some(ProvisionStep::Error(message)) && message@
                == "Could not read key file: "@ + error@,
    {
        self.log = cat3("[key] could not read key file: ", error, "\n");
        self.terminal = Some(ProvisionStep::Error(cat2("Could not read key file: ", error)));
    }

    /// The key was read: the installation begins, with an empty log.
    pub fn start_provision(&mut self, temp_dir: String, app_data_dir: String) -> (r: ProvisionJob)
        ensures
            *final(self) == (FirmwareWizard {
                log: final(self).log,
                provision_status: Some(ProvisionStep::Decrypting),
                ..*old(self)
            }),
            final(self).log@ == Seq::<char>::empty(),
            r == (ProvisionJob {
                upd_path: old(self).upd_path,
                target_instance: old(self).target_instance,
                temp_dir,
                app_data_dir,
                qemu_img: old(self).qemu_img,
            }),
    {
        self.provision_status = Some(ProvisionStep::Decrypting);
        self.log = String::new();
        assert(self.log@ =~= Seq::<char>::empty());
        let qemu_img = match &self.qemu_img {
            Some(path) => Some(path.clone()),
            None => None,
        };
        ProvisionJob {
            upd_path: self.upd_path.clone(),
            target_instance: self.target_instance,
            temp_dir,
            app_data_dir,
            qemu_img,
        }
    }

    /// The installation has said something.
    pub fn append_log(&mut self, lines: &str)
        ensures
            *final(self) == (FirmwareWizard { log: final(self).log, ..*old(self) }),
            final(self).log@ == old(self).log@ + lines@,
    {
        self.log.append(lines);
    }

    /// The installation has come further. Without effect where the wizard was closed in the
    /// meantime.
    pub fn set_status(&mut self, step: ProvisionStep)
        ensures
            *final(self) == (if old(self).provision_status is Some {
                FirmwareWizard { provision_status: Some(step), ..*old(self) }
            } else {
                *old(self)
            }),
    {
        if self.provision_status.is_some() {
            self.provision_status = Some(step);
        }
    }

    /// A file was picked: the update, or the key.
    pub fn set_path(&mut self, is_upd: bool, path: String)
        ensures
            *final(self) == (if is_upd {
                FirmwareWizard { upd_path: path, ..*old(self) }
            } else {
                FirmwareWizard { key_path: path, ..*old(self) }
            }),
    {
        if is_upd {
            self.upd_path = path;
        } else {
            self.key_path = path;
        }
    }
}

/// The label of a slot.
pub open spec fn slot_name(n: nat) -> Seq<char> {
    "Slot "@ + text::decimal(n)
}

/// The label of a slot.
pub fn slot_label(n: u32) -> (r: String)
    ensures
        r@ == slot_name(n as nat),
{
    cat2("Slot ", decimal_text(n as u128).as_str())
}

/// The labels of the slots, from the first one on.
pub fn slot_labels() -> (r: Vec<String>)
    ensures
        text::texts(r@) == Seq::new(MAX_INSTANCES as nat, |i: int| slot_name((i + 1) as nat)),
{
    let ghost all = Seq::new(MAX_INSTANCES as nat, |i: int| slot_name((i + 1) as nat));
    let mut list: Vec<String> = Vec::new();
    let mut n: u32 = 0;
    assert(text::texts(list@) =~= all.take(0));
    while n < MAX_INSTANCES
        invariant
            n <= MAX_INSTANCES,
            all == Seq::new(MAX_INSTANCES as nat, |i: int| slot_name((i + 1) as nat)),
            text::texts(list@) == all.take(n as int),
        decreases MAX_INSTANCES - n,
    {
        push_text(&mut list, slot_label(n + 1).as_str());
        assert(all.take(n + 1) =~= all.take(n as int).push(slot_name((n + 1) as nat)));
        n += 1;
    }
    assert(all.take(n as int) =~= all);
    list
}

/// What the empty field of a path shows.
pub fn path_hint(is_upd: bool) -> (r: &'static str)
    ensures
        r@ == (if is_upd {
            "/path/to/firmware.UPD"@
        } else {
            "/path/to/aes256.key"@
        }),
{
    if is_upd {
        "/path/to/firmware.UPD"
    } else {
        "/path/to/aes256.key"
    }
}

/// The directory of the resources: the given one where it is a directory, otherwise the one
/// of the application bundle, otherwise the one beside the program, otherwise "resources".
/// Each is given where it exists.
pub fn bundled_resources(
    explicit: Option<String>,
    bundle: Option<String>,
    beside: Option<String>,
) -> (r: String)
    ensures
        r@ == (match (explicit, bundle, beside) {
            (Some(dir), _, _) => dir@,
            (None, Some(dir), _) => dir@,
            (None, None, Some(dir)) => dir@,
            (None, None, None) => "resources"@,
        }),
{
    match explicit {
        Some(dir) => dir,
        None => match bundle {
            Some(dir) => dir,
            None => match beside {
                Some(dir) => dir,
                None => "resources".to_owned(),
            },
        },
    }
}

/// The banner and the buttons go together: nothing can be pressed while the installation runs,
/// a restart is offered when it has succeeded, and after a failure, which is told, one can
/// close or go back. Otherwise one can install, once both files are named.
pub proof fn buttons_go_with_the_banner(w: FirmwareWizard, b: Banner)
    requires
        is_banner(w, b),
    ensures
        b is Running <==> w.provision_status is Some,
        b matches Banner::Running { label } ==> label@ == provision::step_label(
            w.provision_status->0@,
        ),
        b is Running <==> button_row(w) is Nothing,
        b is Installed <==> button_row(w) is Restart,
        b is Failed <==> button_row(w) is CloseAndBack,
        b is Nothing <==> button_row(w) is InstallAndCancel,
        b is Installed <==> w.provision_status is None && w.terminal == Some(ProvisionStep::Done),
        forall|message: String|
            b == (Banner::Failed { message }) <==> w.provision_status is None && w.terminal
                == Some(ProvisionStep::Error(message)),
        button_row(w) matches ButtonRow::InstallAndCancel { can_install } ==> (can_install
            <==> w.upd_path@.len() >= 1 && w.key_path@.len() >= 1),
        is_running(w) <==> b is Running,
{
}

/// An installation that has ended is noticed once: what it ended with becomes the outcome, and
/// it runs no more. One that goes on is left alone.
pub proof fn ends_are_noticed_once(w: FirmwareWizard)
    ensures
        polled(polled(w)) == polled(w),
        w.provision_status == Some(ProvisionStep::Done) ==> polled(w).terminal == Some(
            ProvisionStep::Done,
        ) && button_row(polled(w)) is Restart,
        forall|message: String|
            w.provision_status == Some(ProvisionStep::Error(message)) ==> polled(w).terminal
                == Some(ProvisionStep::Error(message)) && button_row(polled(w)) is CloseAndBack,
        is_running(polled(w)) <==> w.provision_status is Some && !(w.provision_status->0 is Done)
            && !(w.provision_status->0 is Error),
        is_running(polled(w)) || w.provision_status is None ==> polled(w) == w,
        polled(w).open == w.open,
        polled(w).upd_path == w.upd_path,
        polled(w).key_path == w.key_path,
        polled(w).target_instance == w.target_instance,
        polled(w).log == w.log,
        polled(w).focused_after_open == w.focused_after_open,
        polled(w).resources_dir == w.resources_dir,
        polled(w).qemu_img == w.qemu_img,
        polled(w).boot_shade_mode == w.boot_shade_mode,
{
}

/// A new wizard is closed and asks for both files; it installs to the window's own slot, and
/// to the first one where the window has none.
pub proof fn new_wizards_ask_for_the_files(
    w: FirmwareWizard,
    resources_dir: Option<String>,
    qemu_img: Option<String>,
    mode: BootShadeMode,
    current: u32,
)
    requires
        w.is_new(resources_dir, qemu_img, mode, current),
    ensures
        !w.open && !w.focused_after_open,
        button_row(w) == (ButtonRow::InstallAndCancel { can_install: false }),
        w.log@.len() == 0,
        w.target_instance >= 1,
        current >= 1 ==> w.target_instance == current,
        current == 0 ==> w.target_instance == 1,
        w.resources_dir == resources_dir && w.qemu_img == qemu_img && w.boot_shade_mode == mode,
{
}

/// The wizard names the slots as the menu of the instances does.
pub proof fn slots_are_named_as_in_the_menu(count: nat, i: int)
    requires
        0 <= i < count,
    ensures
        crate::menu_entries::instance_entries(count)[i] matches
            crate::menu_entries::EntryView::Check { label, .. } && label == slot_name(
            (i + 1) as nat,
        ),
        slot_name((i + 1) as nat) == "Slot "@ + text::decimal((i + 1) as nat),
{
}

} // verus!
