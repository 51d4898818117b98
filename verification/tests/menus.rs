use cdj3k_emu::audio_devices_linux::enumerate_output_devices;
use cdj3k_emu::menu::{
    create_image_chosen, decode_hex_uid, encode_hex_uid, handle_event, is_selected,
    mount_image_chosen, parse_action, ActionOrigin, MenuAction,
};
use cdj3k_emu::menu_entries::{
    build_audio_device_submenu, build_net_submenu, device_checked, disk_checked, instance_entry,
    latency_label, net_checked, rebuild_phys_submenu, setup_menu, sync_audio_devices, sync_menu,
    take_alerts, MenuEntry, SeenVersions,
};
use cdj3k_emu::menu_state::{
    enumerate_interfaces, pack_latency, refresh_audio_devices, refresh_net_interfaces,
    unpack_latency, AppState, AudioOutDevice, InterfaceRecord, NetIf, PhysicalDisk, IFF_LOOPBACK,
    IFF_UP, NET_SEL_NONE, NET_SEL_VMNET_HOST,
};

fn device(uid: &str) -> AudioOutDevice {
    AudioOutDevice {
        uid: uid.into(),
        name: format!("Device {uid}"),
        is_default: false,
        sample_rate_hz: 48000,
    }
}

fn netif(name: &str) -> NetIf {
    NetIf {
        name: name.into(),
        addr: "192.168.1.42".into(),
        prefix_len: 24,
    }
}

#[test]
fn latency_survives_packing() {
    for sample in [(12u32, 5u32, 7u32), (0, 0, 0), (u32::MAX, 1, 2)] {
        let packed = pack_latency(sample.0, sample.1, sample.2);
        assert_eq!(unpack_latency(packed), Some(sample));
    }
    assert_eq!(unpack_latency(u64::MAX), None);
    assert_eq!(unpack_latency(pack_latency(1, 0x1_0002, 3)), Some((1, 2, 3)));
    assert_eq!(
        latency_label(pack_latency(9, 4, 5)),
        "Latency: 9 ms (guest 4, host 5)"
    );
    assert_eq!(latency_label(u64::MAX), "Current Latency: -- ms");
}

#[test]
fn device_ids_survive_the_menu() {
    for uid in ["BuiltIn:Output", "", "ü→x"] {
        assert_eq!(decode_hex_uid(&encode_hex_uid(uid)).as_deref(), Some(uid));
    }
    assert_eq!(encode_hex_uid("AZ"), "415a");
    assert_eq!(decode_hex_uid("4"), None);
    assert_eq!(decode_hex_uid("zz"), None);
    assert_eq!(decode_hex_uid("ff"), None);
    assert!(matches!(
        parse_action("audio_dev_uid_6162"),
        MenuAction::AudioDevice(uid) if uid == "ab"
    ));
}

#[test]
fn native_restarts_engage_the_shade_and_linux_ones_do_not() {
    for id in ["restart", "service_mode", "audio", "audio_dev_uid_6162", "net_vmnet_host"] {
        let mut native = AppState::new();
        handle_event(&mut native, id, ActionOrigin::Native);
        assert!(native.lifecycle.shade_forced, "{id}");
        let mut linux = AppState::new();
        handle_event(&mut linux, id, ActionOrigin::Linux);
        assert!(!linux.lifecycle.shade_forced, "{id}");
    }
}

#[test]
fn screen_toggles_are_independent() {
    let mut state = AppState::new();
    handle_event(&mut state, "jog_screen", ActionOrigin::Linux);
    assert!(state.view.jog_screen_popped);
    assert!(!state.view.main_screen_popped && !state.view.debug_screen_popped);
    handle_event(&mut state, "debug_screen", ActionOrigin::Native);
    assert!(state.view.jog_screen_popped && state.view.debug_screen_popped);
    handle_event(&mut state, "jog_screen", ActionOrigin::Linux);
    assert!(!state.view.jog_screen_popped && !state.view.main_screen_popped);
}

#[test]
fn unknown_actions_leave_everything_as_it_is() {
    let mut state = AppState::new();
    let request = handle_event(&mut state, "begin", ActionOrigin::Linux);
    assert!(!request.create && !request.mount && request.launch.is_none());
    assert!(!state.lifecycle.qemu_boot_requested && !state.lifecycle.restart_requested);
}

#[test]
fn the_start_entry_asks_for_a_boot() {
    let mut state = AppState::new();
    handle_event(&mut state, "start", ActionOrigin::Linux);
    assert!(state.lifecycle.qemu_boot_requested);
    assert!(!state.lifecycle.restart_requested && !state.lifecycle.shade_forced);
}

#[test]
fn images_are_asked_for_and_remembered() {
    let mut state = AppState::new();
    assert!(handle_event(&mut state, "create_virtual_usb", ActionOrigin::Linux).create);
    assert!(handle_event(&mut state, "mount_virtual_usb", ActionOrigin::Linux).mount);
    assert_eq!(
        handle_event(&mut state, "instance_3", ActionOrigin::Native).launch,
        Some(3)
    );
    create_image_chosen(&mut state, "/m/a.img".into());
    assert!(state.usb.usb_create_req);
    mount_image_chosen(&mut state, "/m/b.img".into());
    assert!(state.usb.usb_virtual_mount_req);
    assert_eq!(state.usb.usb_virtual_img.as_deref(), Some("/m/b.img"));
    assert!(is_selected(&Some("a".into()), "a"));
    assert!(!is_selected(&None, "a"));
}

#[test]
fn lists_are_refreshed_only_when_they_change() {
    let mut state = AppState::new();
    refresh_net_interfaces(&mut state, vec![netif("en0")]);
    let version = state.network.net_list_version;
    assert_eq!(state.network.net_ifaces.len(), 1);
    refresh_net_interfaces(&mut state, vec![netif("en0")]);
    assert_eq!(state.network.net_list_version, version);
    let mut wider = netif("en0");
    wider.prefix_len = 16;
    refresh_net_interfaces(&mut state, vec![wider]);
    assert_eq!(state.network.net_list_version, version + 1);
    assert_eq!(
        state.network.net_ifaces[0].label(),
        "192.168.1.42/16 (en0)"
    );
    refresh_audio_devices(&mut state, vec![device("a")]);
    let version = state.audio.audio_device_list_version;
    refresh_audio_devices(&mut state, vec![device("a")]);
    assert_eq!(state.audio.audio_device_list_version, version);
    refresh_audio_devices(&mut state, vec![device("b")]);
    assert_ne!(state.audio.audio_device_list_version, version);
    assert_eq!(netif("en0").label(), "192.168.1.42/24 (en0)");
}

#[test]
fn only_live_interfaces_are_offered() {
    let record = |name: &str, flags: u32, ipv4: Option<u32>| InterfaceRecord {
        name: name.into(),
        flags,
        ipv4,
        ipv4_mask: Some(0xffff_ff00),
    };
    let list = enumerate_interfaces(&[
        record("en0", IFF_UP, Some(0xc0a8_012a)),
        record("lo0", IFF_UP | IFF_LOOPBACK, Some(0x7f00_0001)),
        record("en1", 0, Some(0x0a00_0001)),
        record("en2", IFF_UP, None),
    ]);
    assert_eq!(list.len(), 1);
    assert_eq!(list[0].label(), "192.168.1.42/24 (en0)");
}

#[test]
fn the_menu_bar_is_complete() {
    let bar = setup_menu(&vec![netif("en0")]);
    let labels: Vec<&str> = bar.iter().map(|m| m.label.as_str()).collect();
    assert!(labels.contains(&"Emulation"));
    assert!(labels.contains(&"Storage"));
    let nets = build_net_submenu(&vec![netif("en0")]);
    assert!(nets.iter().any(|e| matches!(
        e,
        MenuEntry::Check { label, .. } if label == "192.168.1.42/24 (en0)"
    )));
    let devices = build_audio_device_submenu(&vec![device("a")], &vec!["48 kHz".to_string()]);
    assert_eq!(devices.len(), 3);
    let disks = rebuild_phys_submenu(&vec![PhysicalDisk {
        bsd_name: "disk2".into(),
        label: "PIONEER".into(),
    }]);
    assert_eq!(disks.len(), 1);
    assert_eq!(rebuild_phys_submenu(&Vec::new()).len(), 1);
}

#[test]
fn check_marks_are_exclusive() {
    assert!(net_checked("net_none", NET_SEL_NONE));
    assert!(!net_checked("net_vmnet_host", NET_SEL_NONE));
    assert!(net_checked("net_vmnet_host", NET_SEL_VMNET_HOST));
    assert!(disk_checked(1, 1));
    assert!(!disk_checked(0, -1));
    let devices = vec![device("a"), device("b")];
    assert!(device_checked("audio_dev_default", &None, &devices));
    assert!(device_checked("audio_dev_default", &Some("gone".into()), &devices));
    assert!(!device_checked("audio_dev_default", &Some("a".into()), &devices));
    assert!(device_checked("audio_dev_uid_61", &Some("a".into()), &devices));
    assert!(!device_checked("audio_dev_uid_62", &Some("a".into()), &devices));
    let own = instance_entry(2, 2, true);
    assert_eq!(own.label, "Slot 2 (this window)");
    assert!(own.checked && !own.enabled);
    let other = instance_entry(3, 2, true);
    assert_eq!(other.label, "Slot 3 — running");
    assert!(other.checked && other.enabled);
}

#[test]
fn the_menu_is_rebuilt_for_new_lists() {
    let mut state = AppState::new();
    let mut seen = SeenVersions {
        disks: 0,
        net: 0,
        audio_devices: 0,
    };
    let sync = sync_menu(&state, &mut seen);
    assert!(!sync.rebuild_disks && !sync.rebuild_net && !sync.eject_enabled);
    state.usb.usb_phys_list_version = 1;
    state.usb.usb_virtual_mounted = true;
    let sync = sync_menu(&state, &mut seen);
    assert!(sync.rebuild_disks && !sync.rebuild_net && sync.eject_enabled);
    assert!(!sync_menu(&state, &mut seen).rebuild_disks);
    assert!(!sync_audio_devices(&state, &mut seen));
    state.audio.audio_device_list_version = 4;
    assert!(sync_audio_devices(&state, &mut seen));
    state.network.net_error_message = Some("no vmnet".into());
    state.usb.usb_phys_perm_denied = true;
    let alerts = take_alerts(&mut state);
    assert!(alerts.permission_denied);
    assert_eq!(alerts.net_error.as_deref(), Some("no vmnet"));
    assert!(!take_alerts(&mut state).permission_denied);
}

#[test]
fn sinks_are_read_from_the_listing() {
    let list = enumerate_output_devices(Some("0\talsa.a\tmodule\tRUNNING\n\nodd\n1 b\n"));
    let names: Vec<&str> = list.iter().map(|d| d.uid.as_str()).collect();
    assert_eq!(names, ["alsa.a", "b"]);
    assert!(enumerate_output_devices(None).is_empty());
}
