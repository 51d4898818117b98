use cdj3k_emu::launcher::{
    decide_start, instance_of, launch_config, ports_fit, take_settings, window_title, Args,
    InstanceSettings,
};
use cdj3k_emu::menu_state::AppState;

fn args() -> Args {
    Args {
        instance: 1,
        kernel: None,
        initramfs: None,
        qemu: None,
        qemu_img: None,
        resources: None,
        audio: false,
        no_audio: false,
        audio_device: None,
        no_network: false,
        virtual_media: false,
        no_emmc: false,
        install_firmware: false,
        profile: false,
    }
}

fn settings() -> InstanceSettings {
    InstanceSettings {
        audio_enabled: true,
        audio_device_uid: Some("sink".into()),
        usb_virtual_path: Some("/m/a.img".into()),
        mac: "0a:00:00:00:00:01".into(),
    }
}

#[test]
fn defaults_come_from_the_instance() {
    let config = launch_config(&args(), &settings(), "/data", "/run/1".into());
    assert_eq!(config.guest.kernel, "/data/instance-1/Image");
    assert_eq!(
        config.guest.initramfs,
        "/data/instance-1/initramfs-patched.cpio.gz"
    );
    assert_eq!(
        config.guest.emmc_img.as_deref(),
        Some("/data/instance-1/emmc.qcow2")
    );
    assert_eq!(config.guest.run_dir, "/run/1");
    assert_eq!(config.guest.qmp_port, 4446);
    assert_eq!(config.guest.ssh_port, 2223);
    assert_eq!(config.qemu, "qemu-system-aarch64");
    assert_eq!(config.qemu_img, "qemu-img");
    assert!(config.audio);
    assert_eq!(config.audio_device.as_deref(), Some("sink"));
    assert!(config.network);
    assert!(!config.virtual_media);
    assert!(config.serial_log.is_none() && config.qmp_socket.is_none());
}

#[test]
fn the_command_line_overrides_the_settings() {
    let mut a = args();
    a.instance = 0;
    a.kernel = Some("/k".into());
    a.qemu_img = Some("/q".into());
    a.audio = true;
    a.no_audio = true;
    a.audio_device = Some("other".into());
    a.no_network = true;
    a.no_emmc = true;
    a.virtual_media = true;
    assert_eq!(instance_of(&a), 1);
    let config = launch_config(&a, &settings(), "/data", "/run/1".into());
    assert_eq!(config.guest.kernel, "/k");
    assert_eq!(config.qemu_img, "/q");
    assert!(!config.audio);
    assert_eq!(config.audio_device.as_deref(), Some("other"));
    assert!(!config.network);
    assert!(config.guest.emmc_img.is_none());
    assert!(config.virtual_media);
}

#[test]
fn qemu_starts_only_when_everything_is_there() {
    let mut state = AppState::new();
    let a = args();
    let config = launch_config(&a, &settings(), "/data", "/run/1".into());
    assert!(decide_start(&a, &config, true, true, true, &mut state));
    assert!(!state.lifecycle.firmware_wizard_requested);
    assert!(!decide_start(&a, &config, true, true, false, &mut state));
    assert!(state.lifecycle.firmware_wizard_requested);
    let mut no_emmc = args();
    no_emmc.no_emmc = true;
    let config = launch_config(&no_emmc, &settings(), "/data", "/run/1".into());
    assert!(decide_start(&no_emmc, &config, true, true, false, &mut state));
    assert!(!decide_start(&no_emmc, &config, false, true, true, &mut state));
    no_emmc.install_firmware = true;
    assert!(!decide_start(&no_emmc, &config, true, true, true, &mut state));
}

#[test]
fn settings_reach_the_shared_state() {
    let mut state = AppState::new();
    take_settings(&mut state, 3, &settings(), false);
    assert_eq!(state.current_instance_id, 3);
    assert!(state.audio.audio_enabled);
    assert_eq!(state.audio.audio_device_uid.as_deref(), Some("sink"));
    assert!(state.usb.usb_virtual_img.is_none());
    take_settings(&mut state, 3, &settings(), true);
    assert_eq!(state.usb.usb_virtual_img.as_deref(), Some("/m/a.img"));
    assert_eq!(window_title("CDJ", 3), "CDJ - 3");
    assert!(ports_fit(61090));
    assert!(!ports_fit(61091));
    assert!(ports_fit(65536));
}
