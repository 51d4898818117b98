use cdj3k_emu::app::BootShadeMode;
use cdj3k_emu::emmc::FirmwareInfo;
use cdj3k_emu::firmware_wizard::{
    bundled_resources, path_hint, restart_uses_legacy_shade, slot_labels, Banner, ButtonRow,
    FirmwareWizard, WizardButton, WizardCommand,
};
use cdj3k_emu::menu_state::AppState;
use cdj3k_emu::provision::{
    ProvisionAction, ProvisionEvent, ProvisionJob, ProvisionRun, ProvisionStage, ProvisionStep,
};

#[test]
fn new_keeps_the_upstream_restart_policy_and_bundled_defaults() {
    let wizard = FirmwareWizard::new(1);
    assert_eq!(wizard.boot_shade_mode, BootShadeMode::LegacyFrameThreshold);
    assert!(wizard.resources_dir.is_none());
    assert!(wizard.qemu_img.is_none());
    assert!(restart_uses_legacy_shade(wizard.boot_shade_mode));
}

#[test]
fn linux_wizard_restart_does_not_force_the_legacy_shade() {
    let wizard =
        FirmwareWizard::new_with_boot_shade_mode(None, None, BootShadeMode::LinuxLiveStatus, 1);
    assert!(!restart_uses_legacy_shade(wizard.boot_shade_mode));
}

#[test]
fn the_wizard_asks_for_both_files() {
    let mut wizard = FirmwareWizard::new(0);
    assert_eq!(wizard.target_instance, 1);
    assert_eq!(
        wizard.buttons(),
        ButtonRow::InstallAndCancel { can_install: false }
    );
    wizard.set_path(true, "/tmp/a.UPD".into());
    assert_eq!(
        wizard.buttons(),
        ButtonRow::InstallAndCancel { can_install: false }
    );
    wizard.set_path(false, "/tmp/a.key".into());
    assert_eq!(
        wizard.buttons(),
        ButtonRow::InstallAndCancel { can_install: true }
    );
    assert_eq!(wizard.slot_hint(1), "this window");
    assert_eq!(
        wizard.slot_hint(2),
        "open from the Instances menu after install"
    );
    assert_eq!(slot_labels(), ["Slot 1", "Slot 2", "Slot 3", "Slot 4"]);
    assert_eq!(path_hint(true), "/path/to/firmware.UPD");
    assert_eq!(path_hint(false), "/path/to/aes256.key");
}

#[test]
fn an_installation_is_followed_to_its_end() {
    let mut state = AppState::new();
    let mut wizard = FirmwareWizard::new(1);
    assert_eq!(wizard.begin_show(), None);
    wizard.open = true;
    wizard.set_path(true, "/tmp/a.UPD".into());
    wizard.set_path(false, "/tmp/a.key".into());
    assert_eq!(wizard.begin_show(), Some(true));
    assert_eq!(wizard.begin_show(), Some(false));
    assert!(matches!(
        wizard.press(WizardButton::Install, &mut state),
        WizardCommand::Install { key_path } if key_path == "/tmp/a.key"
    ));
    let job = wizard.start_provision("/tmp".into(), "/data".into());
    assert_eq!(job.upd_path, "/tmp/a.UPD");
    assert!(!wizard.shows_form());
    assert_eq!(wizard.buttons(), ButtonRow::Nothing);
    assert!(matches!(
        wizard.banner(),
        Banner::Running { label } if label == "Decrypting firmware…"
    ));
    wizard.append_log("one\n");
    wizard.set_status(ProvisionStep::CreatingEmmc);
    assert_eq!(wizard.begin_show(), Some(false));
    assert!(matches!(
        wizard.banner(),
        Banner::Running { label } if label == "Creating eMMC image…"
    ));
    wizard.set_status(ProvisionStep::Done);
    wizard.begin_show();
    assert!(matches!(wizard.banner(), Banner::Installed));
    assert_eq!(wizard.buttons(), ButtonRow::Restart);
    assert!(matches!(
        wizard.press(WizardButton::Restart, &mut state),
        WizardCommand::Close
    ));
    assert!(state.lifecycle.restart_requested);
    assert!(state.lifecycle.shade_forced);
    wizard.end_show(true);
    assert!(!wizard.open);
    assert_eq!(wizard.log, "");
    assert_eq!(wizard.upd_path, "/tmp/a.UPD");
    wizard.set_status(ProvisionStep::Done);
    assert!(wizard.shows_form());
}

#[test]
fn a_live_status_restart_leaves_the_shade_alone() {
    let mut state = AppState::new();
    let mut wizard =
        FirmwareWizard::new_with_boot_shade_mode(None, None, BootShadeMode::LinuxLiveStatus, 2);
    wizard.press(WizardButton::Restart, &mut state);
    assert!(state.lifecycle.restart_requested);
    assert!(!state.lifecycle.shade_forced);
}

#[test]
fn an_unreadable_key_is_reported() {
    let mut state = AppState::new();
    let mut wizard = FirmwareWizard::new_with_options(Some("/res".into()), Some("/q".into()), 3);
    wizard.key_unreadable("no such file");
    assert_eq!(wizard.log, "[key] could not read key file: no such file\n");
    assert!(matches!(
        wizard.banner(),
        Banner::Failed { message } if message == "Could not read key file: no such file"
    ));
    assert_eq!(wizard.buttons(), ButtonRow::CloseAndBack);
    assert!(matches!(
        wizard.press(WizardButton::Back, &mut state),
        WizardCommand::Nothing
    ));
    assert!(matches!(wizard.banner(), Banner::Nothing));
    assert!(matches!(
        wizard.press(WizardButton::Cancel, &mut state),
        WizardCommand::Close
    ));
    assert_eq!(wizard.resources_dir.as_deref(), Some("/res"));
}

#[test]
fn resources_are_found_in_their_order() {
    let all = |a: bool, b: bool, c: bool| {
        let pick = |yes: bool, name: &str| if yes { Some(name.to_string()) } else { None };
        bundled_resources(pick(a, "given"), pick(b, "bundle"), pick(c, "beside"))
    };
    assert_eq!(all(true, true, true), "given");
    assert_eq!(all(false, true, true), "bundle");
    assert_eq!(all(false, false, true), "beside");
    assert_eq!(all(false, false, false), "resources");
}

fn job() -> ProvisionJob {
    ProvisionJob {
        upd_path: "/in/fw.UPD".into(),
        target_instance: 2,
        temp_dir: "/tmp".into(),
        app_data_dir: "/data".into(),
        qemu_img: Some("/opt/qemu-img".into()),
    }
}

#[test]
fn a_provision_run_goes_through_all_its_stages() {
    let mut state = AppState::new();
    state.current_instance_id = 2;
    let (mut run, action) = ProvisionRun::new(job());
    assert!(matches!(
        action,
        ProvisionAction::Decrypt { upd, iso }
            if upd == "/in/fw.UPD" && iso == "/tmp/cdj3k-emu-firmware-2.iso.tmp"
    ));
    let action = run.step(ProvisionEvent::Done, &mut state);
    assert!(matches!(action, ProvisionAction::ReadInfo { .. }));
    let info = FirmwareInfo {
        miniloader: None,
        release: Some("3.19".into()),
        rev_apl: None,
        rev_kernel: None,
    };
    let action = run.step(ProvisionEvent::Info(info), &mut state);
    assert!(matches!(action, ProvisionAction::CreateDir { path } if path == "/data/instance-2"));
    assert!(matches!(run.status, ProvisionStep::ExtractingKernel));
    let action = run.step(ProvisionEvent::Done, &mut state);
    assert!(matches!(action, ProvisionAction::FindResources));
    let action = run.step(ProvisionEvent::Resources("/res".into()), &mut state);
    assert!(matches!(
        action,
        ProvisionAction::Copy { from, to } if from == "/res/Image" && to == "/data/instance-2/Image"
    ));
    let action = run.step(ProvisionEvent::Done, &mut state);
    assert!(matches!(
        action,
        ProvisionAction::ExtractKernel { to, .. } if to == "/data/instance-2/Image.pioneer.tmp"
    ));
    run.note("found a kernel");
    let action = run.step(ProvisionEvent::Done, &mut state);
    assert!(matches!(action, ProvisionAction::ExtractInitramfs { .. }));
    let action = run.step(ProvisionEvent::Done, &mut state);
    assert!(matches!(action, ProvisionAction::Remove { .. }));
    let action = run.step(ProvisionEvent::Failed("gone".into()), &mut state);
    assert!(matches!(
        action,
        ProvisionAction::Patch { resources, to, .. }
            if resources == "/res" && to == "/data/instance-2/initramfs-patched.cpio.gz"
    ));
    run.step(ProvisionEvent::Done, &mut state);
    let action = run.step(ProvisionEvent::Done, &mut state);
    assert!(
        matches!(action, ProvisionAction::CheckPath { path } if path == "/data/instance-2/emmc.qcow2")
    );
    let action = run.step(ProvisionEvent::Done, &mut state);
    assert!(matches!(action, ProvisionAction::Remove { .. }));
    let action = run.step(ProvisionEvent::Done, &mut state);
    match action {
        ProvisionAction::CreateEmmc { config } => {
            assert_eq!(config.path, "/data/instance-2/emmc.qcow2");
            assert_eq!(config.instance_id, 2);
            assert_eq!(config.firmware.release.as_deref(), Some("3.19"));
            assert_eq!(config.qemu_img.as_deref(), Some("/opt/qemu-img"));
        }
        _ => panic!("no image is created"),
    }
    assert!(!state.lifecycle.qemu_boot_requested);
    run.step(ProvisionEvent::Done, &mut state);
    let action = run.step(ProvisionEvent::Done, &mut state);
    assert!(matches!(action, ProvisionAction::Finish));
    assert_eq!(run.stage, ProvisionStage::Finished);
    assert!(run.status.is_terminal());
    assert_eq!(run.status.label(), "Done");
    assert!(state.lifecycle.qemu_boot_requested);
    assert_eq!(
        run.log,
        "[slot] target = instance-2\n\
         [decrypt] opening /in/fw.UPD\n\
         [decrypt] output → /tmp/cdj3k-emu-firmware-2.iso.tmp\n\
         [decrypt] OK - ISO written\n\
         [firmware] release=3.19 rev_apl=(unknown) rev_kernel=(unknown) miniloader=(unknown)\n\
         [kernel] installing kernel /res/Image → /data/instance-2/Image\n\
         [kernel] OK\n\
         [patch] resources dir: /res\n\
         [initramfs] extracting Pioneer kernel (initramfs source) → /data/instance-2/Image.pioneer.tmp\n\
         found a kernel\n\
         [initramfs] extracting from Pioneer kernel → /data/instance-2/initramfs-orig.cpio\n\
         [initramfs] OK\n\
         [patch] OK → /data/instance-2/initramfs-patched.cpio.gz\n\
         [emmc] removing existing image → /data/instance-2/emmc.qcow2\n\
         [emmc] provisioning → /data/instance-2/emmc.qcow2\n\
         [emmc] OK\n\
         [done] all steps completed\n"
    );
}

#[test]
fn a_failed_provision_run_clears_up_and_ends() {
    let mut state = AppState::new();
    let (mut run, _) = ProvisionRun::new(job());
    run.step(ProvisionEvent::Done, &mut state);
    run.step(ProvisionEvent::Failed("bad image".into()), &mut state);
    assert!(run
        .log
        .ends_with("[firmware] could not read version info (bad image), defaulting to all-unknown\n"));
    run.step(ProvisionEvent::Done, &mut state);
    run.step(ProvisionEvent::Resources("/res".into()), &mut state);
    let action = run.step(ProvisionEvent::Failed("no space".into()), &mut state);
    assert!(matches!(
        action,
        ProvisionAction::Remove { path } if path == "/data/instance-2/Image.pioneer.tmp"
    ));
    assert!(!run.status.is_terminal());
    let action = run.step(ProvisionEvent::Failed("gone".into()), &mut state);
    assert!(matches!(
        action,
        ProvisionAction::Remove { path } if path == "/data/instance-2/initramfs-orig.cpio"
    ));
    let action = run.step(ProvisionEvent::Done, &mut state);
    assert!(matches!(
        action,
        ProvisionAction::Remove { path } if path == "/tmp/cdj3k-emu-firmware-2.iso.tmp"
    ));
    assert!(!run.status.is_terminal());
    let action = run.step(ProvisionEvent::Done, &mut state);
    assert!(matches!(action, ProvisionAction::Finish));
    assert!(matches!(
        &run.status,
        ProvisionStep::Error(m) if m == "Error while processing: see the console for details"
    ));
    assert!(run.log.ends_with("[error] copy Image: no space\n"));
    assert!(!state.lifecycle.qemu_boot_requested);
}

#[test]
fn a_failed_decryption_leaves_nothing_behind() {
    let mut state = AppState::new();
    let (mut run, _) = ProvisionRun::new(job());
    let mut action = run.step(ProvisionEvent::Failed("wrong key".into()), &mut state);
    let mut removed = Vec::new();
    while let ProvisionAction::Remove { path } = action {
        removed.push(path);
        action = run.step(ProvisionEvent::Done, &mut state);
    }
    assert!(matches!(action, ProvisionAction::Finish));
    assert!(removed.contains(&"/tmp/cdj3k-emu-firmware-2.iso.tmp".to_string()));
    assert!(removed.contains(&"/data/instance-2/Image.pioneer.tmp".to_string()));
    assert!(run.log.ends_with("[error] wrong key\n"));
}
