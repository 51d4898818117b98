use cdj3k_emu::qmp::QmpError;
use cdj3k_emu::usb::{
    after_format_stage, build_format_command, create_failure, first_format_stage,
    is_valid_bsd_disk_path, unlock_script, DiskProvider, FormatStage, FormatVerdict,
    MacOsDiskProvider, PhysicalDisk, ToolOutcome, UsbAction, UsbError, UsbEvent, UsbFailure,
    UsbManager, UsbOutcome,
};

fn disk() -> PhysicalDisk {
    PhysicalDisk {
        bsd_name: "disk2".into(),
        label: "PIONEER (32.1 GB)".into(),
        bsd_path: "/dev/disk2".into(),
        size_bytes: 32_100_000_000,
    }
}

fn host_failure(denied: bool, message: &str) -> UsbEvent {
    UsbEvent::Failed(UsbFailure::Host {
        denied,
        message: message.into(),
    })
}

fn refusal(reason: &str) -> UsbEvent {
    UsbEvent::Failed(UsbFailure::Qmp(QmpError::QemuError(reason.into())))
}

fn inserts(action: &UsbAction, name: &str) -> bool {
    matches!(action, UsbAction::ChangeMedium { filename } if filename == name)
}

#[test]
fn accepts_real_bsd_paths() {
    assert!(is_valid_bsd_disk_path("/dev/disk2"));
    assert!(is_valid_bsd_disk_path("/dev/disk2s1"));
    assert!(is_valid_bsd_disk_path("/dev/disk20s10"));
}

#[test]
fn rejects_injection_attempts() {
    assert!(!is_valid_bsd_disk_path("/dev/disk2\" ; rm -rf /"));
    assert!(!is_valid_bsd_disk_path("/dev/disk2; reboot"));
    assert!(!is_valid_bsd_disk_path("/dev/disk2 s1"));
    assert!(!is_valid_bsd_disk_path("/dev/disk"));
    assert!(!is_valid_bsd_disk_path("/dev/diskX"));
    assert!(!is_valid_bsd_disk_path("disk2"));
    assert!(!is_valid_bsd_disk_path("/dev/disk2s"));
    assert!(!is_valid_bsd_disk_path("/dev/disk2s1s2"));
    assert!(!is_valid_bsd_disk_path("/dev/../disk2"));
}

#[test]
fn only_disks_are_unlocked() {
    assert_eq!(
        unlock_script("/dev/disk2").unwrap(),
        "do shell script \"chmod 660 /dev/disk2\" with administrator privileges"
    );
    assert_eq!(
        unlock_script("/etc/passwd").unwrap_err(),
        "refusing to elevate on suspicious device path: /etc/passwd"
    );
}

#[test]
fn a_virtual_image_is_attached_and_detached() {
    let mut usb = UsbManager::new("/run/usb.placeholder".into());
    assert!(!usb.is_attached());
    let action = usb.attach_virtual("/media/a.img".into());
    assert!(inserts(&action, "/media/a.img"));
    assert!(matches!(
        usb.step(UsbEvent::Done),
        UsbAction::NotifyGuestAttach
    ));
    assert!(!usb.is_attached());
    assert!(matches!(
        usb.step(UsbEvent::Done),
        UsbAction::Finish(UsbOutcome::Done)
    ));
    assert!(usb.is_attached());

    assert!(matches!(
        usb.detach(),
        UsbAction::NotifyGuestDetach
    ));
    assert!(usb.is_attached());
    let action = usb.step(host_failure(false, "guest is gone"));
    assert!(inserts(&action, "/run/usb.placeholder"));
    assert!(!usb.is_attached());
    assert!(matches!(
        usb.step(UsbEvent::Done),
        UsbAction::Finish(UsbOutcome::Done)
    ));
    assert!(matches!(
        usb.detach(),
        UsbAction::Finish(UsbOutcome::Done)
    ));
}

#[test]
fn a_physical_disk_is_unlocked_once_and_remounted_on_eject() {
    let mut usb = UsbManager::new("/run/usb.placeholder".into());
    let action = usb.attach_physical(disk());
    assert!(matches!(action, UsbAction::UnmountHost { bsd_name } if bsd_name == "disk2"));
    let action = usb.step(UsbEvent::Done);
    assert!(matches!(action, UsbAction::ProbeDevice { path } if path == "/dev/disk2"));
    let action = usb.step(host_failure(true, "denied"));
    assert!(matches!(action, UsbAction::UnlockDevice { path } if path == "/dev/disk2"));
    let action = usb.step(UsbEvent::Done);
    assert!(matches!(action, UsbAction::ProbeDevice { path } if path == "/dev/disk2"));
    let action = usb.step(UsbEvent::Done);
    assert!(inserts(&action, "/dev/disk2"));
    assert!(matches!(
        usb.step(UsbEvent::Done),
        UsbAction::NotifyGuestAttach
    ));
    assert!(matches!(
        usb.step(UsbEvent::Done),
        UsbAction::Finish(UsbOutcome::Done)
    ));
    assert!(usb.is_attached());

    let action = usb.acknowledge_guest_eject();
    assert!(inserts(&action, "/run/usb.placeholder"));
    let action = usb.step(UsbEvent::Done);
    assert!(matches!(action, UsbAction::RemountHost { bsd_name } if bsd_name == "disk2"));
    assert!(matches!(
        usb.step(UsbEvent::Done),
        UsbAction::Finish(UsbOutcome::Acknowledged { ejected: true })
    ));
    assert!(matches!(
        usb.acknowledge_guest_eject(),
        UsbAction::Finish(UsbOutcome::Acknowledged { ejected: false })
    ));
}

#[test]
fn a_refused_disk_goes_back_to_the_host() {
    let mut usb = UsbManager::new("/run/usb.placeholder".into());
    usb.attach_physical(disk());
    usb.step(UsbEvent::Done);
    usb.step(UsbEvent::Done);
    let action = usb.step(refusal("Could not open: Permission denied"));
    assert!(matches!(action, UsbAction::RemountHost { bsd_name } if bsd_name == "disk2"));
    let action = usb.step(UsbEvent::Done);
    assert!(matches!(
        action,
        UsbAction::Finish(UsbOutcome::Failed(UsbError::PermissionDenied(path))) if path == "/dev/disk2"
    ));
    assert!(!usb.is_attached());

    usb.attach_physical(disk());
    usb.step(UsbEvent::Done);
    usb.step(UsbEvent::Done);
    usb.step(refusal("no such drive"));
    let action = usb.step(UsbEvent::Done);
    assert!(matches!(
        action,
        UsbAction::Finish(UsbOutcome::Failed(UsbError::Qmp(QmpError::QemuError(reason))))
            if reason == "no such drive"
    ));

    usb.attach_physical(disk());
    usb.step(UsbEvent::Done);
    usb.step(host_failure(false, "busy"));
    let action = usb.step(UsbEvent::Done);
    assert!(matches!(
        action,
        UsbAction::Finish(UsbOutcome::Failed(UsbError::Io(message))) if message == "busy"
    ));
}

#[test]
fn only_refusals_of_qemu_stop_a_disk() {
    let mut usb = UsbManager::new("/run/usb.placeholder".into());
    usb.attach_physical(disk());
    usb.step(UsbEvent::Done);
    usb.step(UsbEvent::Done);
    let action = usb.step(UsbEvent::Failed(UsbFailure::Qmp(QmpError::Timeout)));
    assert!(matches!(action, UsbAction::NotifyGuestAttach));
}

#[test]
fn errors_name_their_cause() {
    assert_eq!(
        UsbError::Io("no space".into()).message(),
        "I/O error: no space"
    );
    assert_eq!(
        UsbError::Qmp(QmpError::QemuError("a \"b\"".into())).message(),
        "QMP error: QemuError(\"a \\\"b\\\"\")"
    );
    assert_eq!(
        UsbError::Qmp(QmpError::Timeout).message(),
        "QMP error: Timeout"
    );
    assert_eq!(
        UsbError::PermissionDenied("/dev/disk2".into()).message(),
        "Permission denied opening /dev/disk2. Grant Full Disk Access to cdj3k-emu in System Settings → Privacy & Security → Full Disk Access."
    );
}

#[test]
fn an_attached_image_is_detached_after_a_failure() {
    let stage = first_format_stage(true);
    assert_eq!(
        build_format_command(&stage, "/media/a.img"),
        [
            "hdiutil",
            "attach",
            "-nomount",
            "-imagekey",
            "diskimage-class=CRawDiskImage",
            "/media/a.img"
        ]
    );
    let attached = ToolOutcome::Ran {
        success: true,
        code: Some(0),
        output: "/dev/disk9   \n".into(),
        errors: String::new(),
    };
    let stage = match after_format_stage(stage, attached) {
        FormatVerdict::Next(stage) => stage,
        _ => panic!("not attached"),
    };
    assert_eq!(
        build_format_command(&stage, "/media/a.img"),
        ["diskutil", "eraseDisk", "ExFAT", "REKORDBOX", "MBR", "/dev/disk9"]
    );
    let failed = ToolOutcome::Ran {
        success: false,
        code: Some(1),
        output: String::new(),
        errors: String::new(),
    };
    let stage = match after_format_stage(stage, failed) {
        FormatVerdict::Next(stage) => stage,
        _ => panic!("not detached"),
    };
    assert_eq!(
        build_format_command(&stage, "/media/a.img"),
        ["hdiutil", "detach", "/dev/disk9"]
    );
    let verdict = after_format_stage(stage, ToolOutcome::NotRun("gone".into()));
    assert!(matches!(
        verdict,
        FormatVerdict::Failed(message) if message == "diskutil eraseDisk failed (exit Some(1))"
    ));
}

fn ran(success: bool, output: &str) -> ToolOutcome {
    ToolOutcome::Ran {
        success,
        code: Some(if success { 0 } else { 1 }),
        output: output.into(),
        errors: String::new(),
    }
}

fn command(action: UsbAction) -> Vec<String> {
    match action {
        UsbAction::RunTool { command } => command,
        other => panic!("{other:?}"),
    }
}

#[test]
fn a_new_image_is_created_formatted_and_attached() {
    let mut usb = UsbManager::new("/run/usb.empty".into());
    let action = usb.create_and_attach_virtual("qemu-img", "/m/a.img".into(), 512, true);
    assert_eq!(
        command(action),
        ["qemu-img", "create", "-f", "raw", "/m/a.img", "512"]
    );
    assert_eq!(
        command(usb.tool_step(ran(true, "")))[..2],
        ["hdiutil", "attach"]
    );
    let erase = command(usb.tool_step(ran(true, "/dev/disk9\n")));
    assert_eq!(erase[0], "diskutil");
    assert_eq!(
        command(usb.tool_step(ran(true, ""))),
        ["hdiutil", "detach", "/dev/disk9"]
    );
    assert!(inserts(&usb.tool_step(ran(true, "")), "/m/a.img"));
}

#[test]
fn an_image_that_cannot_be_made_leaves_the_slot_alone() {
    let mut usb = UsbManager::new("/run/usb.empty".into());
    usb.attach_virtual("/m/old.img".into());
    usb.step(UsbEvent::Done);
    usb.step(UsbEvent::Done);
    assert!(usb.is_attached());
    usb.create_and_attach_virtual("qemu-img", "/m/a.img".into(), 512, false);
    let action = usb.tool_step(ran(false, ""));
    assert!(matches!(
        action,
        UsbAction::Finish(UsbOutcome::Failed(UsbError::Io(e)))
            if e == "qemu-img create failed (exit Some(1))"
    ));
    assert!(usb.is_attached());
    usb.create_and_attach_virtual("qemu-img", "/m/a.img".into(), 512, false);
    assert_eq!(
        command(usb.tool_step(ran(true, ""))),
        ["mkfs.exfat", "-L", "REKORDBOX", "/m/a.img"]
    );
    let action = usb.tool_step(ToolOutcome::NotRun("no such program".into()));
    assert!(matches!(
        action,
        UsbAction::Finish(UsbOutcome::Failed(UsbError::Io(e))) if e == "no such program"
    ));
    assert!(usb.is_attached());
    usb.create_and_attach_virtual("qemu-img", "/m/a.img".into(), 512, false);
    usb.tool_step(ran(true, ""));
    let action = usb.tool_step(ran(true, ""));
    assert!(matches!(action, UsbAction::NotifyGuestDetach));
}

#[test]
fn format_failures_are_told_apart() {
    let refused = ToolOutcome::Ran {
        success: false,
        code: None,
        output: String::new(),
        errors: "  no such image \n".into(),
    };
    assert!(matches!(
        after_format_stage(FormatStage::Attach, refused),
        FormatVerdict::Failed(message) if message == "hdiutil attach failed: no such image"
    ));
    let silent = ToolOutcome::Ran {
        success: true,
        code: Some(0),
        output: " \n".into(),
        errors: String::new(),
    };
    assert!(matches!(
        after_format_stage(FormatStage::Attach, silent),
        FormatVerdict::Failed(message)
            if message == "hdiutil attach: could not parse disk device from output"
    ));
    let unformatted = ToolOutcome::Ran {
        success: false,
        code: Some(2),
        output: String::new(),
        errors: String::new(),
    };
    assert!(matches!(
        after_format_stage(first_format_stage(false), unformatted),
        FormatVerdict::Failed(message) if message == "mkfs.exfat failed"
    ));
    assert_eq!(create_failure(None), "qemu-img create failed (exit None)");
    assert_eq!(
        create_failure(Some(-1)),
        "qemu-img create failed (exit Some(-1))"
    );
}

#[test]
fn other_hosts_have_no_disk_management() {
    let provider = MacOsDiskProvider;
    assert!(provider.list_removable().is_empty());
    assert!(provider.unmount_host("disk2").is_err());
    assert_eq!(
        provider.remount_host("disk2").unwrap_err(),
        "MacOsDiskProvider only implemented on macOS"
    );
    provider.reveal_in_finder("/tmp");
}
