use cdj3k_emu::config::{GuestRuntimeConfig, LinuxQemuConfig};
use cdj3k_emu::control_gate::ControlConnectionGate;
use cdj3k_emu::menu::{create_image_chosen, handle_event, mount_image_chosen, ActionOrigin};
use cdj3k_emu::menu_state::AppState;
use cdj3k_emu::runtime::{take_requests, Worker, WorkerAction, WorkerEvent};
use cdj3k_emu::text::{
    cat2, cat3, contains_text, decimal_padded_text, first_word, hex_digit, is_blank, join_path,
    parse_i32, parse_u32, path_below, signed_decimal_text, starts_with, strip_prefix, trim,
};
use cdj3k_emu::virtual_image::{
    after_command, build_command, CommandOutcome, ImageStage, ImageVerdict,
};

fn config() -> LinuxQemuConfig {
    LinuxQemuConfig {
        guest: GuestRuntimeConfig {
            instance_id: 1,
            kernel: "/k".into(),
            initramfs: "/i".into(),
            emmc_img: None,
            run_dir: "/run/1".into(),
            qmp_port: 4446,
            ssh_port: 2223,
            mac: "0a:00:00:00:00:01".into(),
            service_mode: false,
        },
        qemu: "qemu".into(),
        qemu_img: "qemu-img".into(),
        audio: false,
        audio_device: None,
        network: true,
        virtual_media: true,
        serial_log: None,
        qmp_socket: None,
    }
}

const TICK: WorkerEvent = WorkerEvent::Tick {
    refresh_devices: false,
    shutdown: false,
};

/// Performs a round whose outside work all succeeds, and returns what was done.
fn round(worker: &mut Worker, state: &mut AppState, gate: &mut ControlConnectionGate) -> Vec<String> {
    let mut done = Vec::new();
    let mut action = worker.step(state, gate, TICK);
    while !matches!(action, WorkerAction::Wait) {
        done.push(format!("{action:?}"));
        let event = match action {
            WorkerAction::QueryLatency => WorkerEvent::Latency(Some((9, 4, 5))),
            _ => WorkerEvent::Yes,
        };
        action = worker.step(state, gate, event);
        assert!(done.len() < 40);
    }
    done
}

fn started() -> (Worker, AppState, ControlConnectionGate) {
    let mut gate = ControlConnectionGate::new();
    let mut state = AppState::new();
    let (mut worker, action) = Worker::new(config(), true, &mut gate);
    assert!(matches!(action, WorkerAction::StartInstance));
    let action = worker.step(&mut state, &mut gate, WorkerEvent::Yes);
    assert!(matches!(action, WorkerAction::RefreshDevices));
    let action = worker.step(&mut state, &mut gate, WorkerEvent::Yes);
    assert!(matches!(action, WorkerAction::Wait));
    assert!(worker.has_instance);
    (worker, state, gate)
}

#[test]
fn a_quiet_round_publishes_the_state() {
    let (mut worker, mut state, mut gate) = started();
    let done = round(&mut worker, &mut state, &mut gate);
    assert!(done.iter().any(|a| a == "QueryRunning"));
    assert!(!done.iter().any(|a| a.contains("Instance")));
    assert!(state.lifecycle.qemu_running);
    assert_eq!(
        state.audio.latency_packed,
        cdj3k_emu::menu_state::pack_latency(9, 4, 5)
    );
    assert!(worker.alc_pushed_for_boot);
}

#[test]
fn a_restart_stops_before_it_starts() {
    let (mut worker, mut state, mut gate) = started();
    let before = gate.current_epoch();
    handle_event(&mut state, "restart", ActionOrigin::Linux);
    let done = round(&mut worker, &mut state, &mut gate);
    let stop = done.iter().position(|a| a == "StopInstance").unwrap();
    let start = done.iter().position(|a| a == "StartInstance").unwrap();
    assert!(stop < start);
    assert!(!gate.is_current(before));
    assert!(!state.lifecycle.restart_requested);
    assert!(worker.has_instance);
}

#[test]
fn changed_audio_restarts_with_the_new_setting() {
    let (mut worker, mut state, mut gate) = started();
    handle_event(&mut state, "audio", ActionOrigin::Linux);
    let done = round(&mut worker, &mut state, &mut gate);
    assert!(done.iter().any(|a| a == "StopInstance"));
    assert!(done.iter().any(|a| a == "StartInstance"));
    assert!(worker.config.audio);
}

#[test]
fn media_requests_are_performed_in_order() {
    let (mut worker, mut state, mut gate) = started();
    create_image_chosen(&mut state, "/m/a.img".into());
    let done = round(&mut worker, &mut state, &mut gate);
    assert!(done
        .iter()
        .any(|a| a == "CreateImage { path: \"/m/a.img\", size: 32000000000 }"));
    assert!(done.iter().any(|a| a == "AttachImage { path: \"/m/a.img\" }"));
    assert!(state.usb.usb_virtual_mounted);
    mount_image_chosen(&mut state, "/m/b.img".into());
    let done = round(&mut worker, &mut state, &mut gate);
    assert!(done.iter().any(|a| a == "CheckPath { path: \"/m/b.img\" }"));
    handle_event(&mut state, "eject_current_media", ActionOrigin::Linux);
    let done = round(&mut worker, &mut state, &mut gate);
    assert!(done
        .iter()
        .any(|a| a == "EjectMedium { placeholder: \"/run/1/usb.empty.medium\" }"));
    assert!(!state.usb.usb_virtual_mounted);
}

#[test]
fn a_failed_start_leaves_no_instance() {
    let mut gate = ControlConnectionGate::new();
    let mut state = AppState::new();
    let (mut worker, _) = Worker::new(config(), true, &mut gate);
    let epoch = gate.current_epoch();
    worker.step(&mut state, &mut gate, WorkerEvent::No);
    assert!(!worker.has_instance);
    assert!(!gate.is_current(epoch));
}

#[test]
fn shutdown_stops_the_instance_and_exits() {
    let (mut worker, mut state, mut gate) = started();
    let action = worker.step(
        &mut state,
        &mut gate,
        WorkerEvent::Tick {
            refresh_devices: false,
            shutdown: true,
        },
    );
    assert!(matches!(action, WorkerAction::StopInstance));
    let action = worker.step(&mut state, &mut gate, WorkerEvent::Yes);
    assert!(matches!(action, WorkerAction::Exit));
    assert!(!state.lifecycle.qemu_running);
}

#[test]
fn coinciding_audio_requests_are_one_request() {
    let mut state = AppState::new();
    state.audio.audio_toggle_requested = true;
    state.audio.audio_device_toggle_requested = true;
    assert!(take_requests(&mut state).audio_changed);
    assert!(!state.audio.audio_device_toggle_requested);
    assert!(!take_requests(&mut state).audio_changed);
}

#[test]
fn coinciding_audio_changes_restart_once_after_they_are_persisted() {
    let (mut worker, mut state, mut gate) = started();
    state.audio.audio_enabled = true;
    state.audio.audio_toggle_requested = true;
    state.audio.audio_device_uid = Some("hw:1".into());
    state.audio.audio_device_toggle_requested = true;
    let done = round(&mut worker, &mut state, &mut gate);
    assert_eq!(
        done[..3],
        [
            "PersistAudio { enabled: true, device: Some(\"hw:1\") }",
            "StopInstance",
            "StartInstance"
        ]
    );
    assert_eq!(worker.config.audio_device.as_deref(), Some("hw:1"));
    let done = round(&mut worker, &mut state, &mut gate);
    assert!(!done.iter().any(|a| a.contains("Audio {") || a.contains("Instance")));
}

#[test]
fn changed_haptics_are_persisted_without_a_restart() {
    let (mut worker, mut state, mut gate) = started();
    handle_event(&mut state, "haptic", ActionOrigin::Native);
    assert!(!state.haptics.haptic_enabled);
    let done = round(&mut worker, &mut state, &mut gate);
    assert!(done.iter().any(|a| a == "PersistHaptic { enabled: false }"));
    assert!(!done.iter().any(|a| a.contains("Instance")));
    assert!(!state.haptics.haptic_toggle_requested);
    let done = round(&mut worker, &mut state, &mut gate);
    assert!(!done.iter().any(|a| a.contains("Haptic")));
}

#[test]
fn a_respawned_instance_lifts_the_forced_shade() {
    for respawned in [true, false] {
        let (mut worker, mut state, mut gate) = started();
        handle_event(&mut state, "restart", ActionOrigin::Native);
        assert!(state.lifecycle.shade_forced);
        let mut action = worker.step(&mut state, &mut gate, TICK);
        while !matches!(action, WorkerAction::StartInstance) {
            assert!(state.lifecycle.shade_forced);
            action = worker.step(&mut state, &mut gate, WorkerEvent::Yes);
        }
        let event = if respawned { WorkerEvent::Yes } else { WorkerEvent::No };
        worker.step(&mut state, &mut gate, event);
        assert_eq!(state.lifecycle.shade_forced, !respawned);
    }
}

#[test]
fn the_start_entry_boots_a_stopped_instance() {
    let (mut worker, mut state, mut gate) = started();
    handle_event(&mut state, "stop", ActionOrigin::Linux);
    round(&mut worker, &mut state, &mut gate);
    assert!(!worker.has_instance && !state.lifecycle.qemu_running);
    handle_event(&mut state, "start", ActionOrigin::Linux);
    let done = round(&mut worker, &mut state, &mut gate);
    assert!(done.iter().any(|a| a == "StartInstance"));
    assert!(worker.has_instance && state.lifecycle.qemu_running);
}

#[test]
fn image_formatters_give_way_to_each_other() {
    assert_eq!(
        after_command(ImageStage::Create, CommandOutcome::Succeeded),
        ImageVerdict::Next(ImageStage::Exfat)
    );
    assert_eq!(
        after_command(ImageStage::Exfat, CommandOutcome::NotFound),
        ImageVerdict::Next(ImageStage::Vfat)
    );
    assert_eq!(
        after_command(ImageStage::Vfat, CommandOutcome::NotFound),
        ImageVerdict::NoFormatter
    );
    assert_eq!(
        after_command(ImageStage::Create, CommandOutcome::Failed { code: Some(1) }),
        ImageVerdict::CreateFailed { code: Some(1) }
    );
    assert_eq!(
        after_command(ImageStage::Exfat, CommandOutcome::Broken),
        ImageVerdict::HostError
    );
    assert_eq!(
        build_command(ImageStage::Create, "qemu-img", "/m/a.img", 32),
        ["qemu-img", "create", "-f", "raw", "/m/a.img", "32"]
    );
    assert_eq!(
        build_command(ImageStage::Vfat, "qemu-img", "/m/a.img", 32),
        ["mkfs.vfat", "-F", "32", "/m/a.img"]
    );
}

#[test]
fn texts_are_taken_apart_and_put_together() {
    assert_eq!(cat2("a", "b"), "ab");
    assert_eq!(cat3("a", "b", "c"), "abc");
    assert_eq!(join_path("/a", "b"), "/a/b");
    assert_eq!(join_path("/a/", "b"), "/a/b");
    assert_eq!(join_path("/a", "/b"), "/b");
    assert_eq!(path_below("/a//", "b"), "/a/b");
    assert_eq!(signed_decimal_text(-42), "-42");
    assert_eq!(signed_decimal_text(i32::MIN), "-2147483648");
    assert_eq!(decimal_padded_text(7, 3), "007");
    assert!(starts_with("vmnet-1", "vmnet-"));
    assert_eq!(strip_prefix("abc", "a"), Some("bc"));
    assert_eq!(strip_prefix("abc", "b"), None);
    assert_eq!(trim(" \t a b\u{2003}\n"), "a b");
    assert_eq!(trim("  "), "");
    assert_eq!(first_word("  one two").as_deref(), Some("one"));
    assert_eq!(first_word(" "), None);
    assert!(contains_text("say Permission denied!", "Permission denied"));
    assert!(!contains_text("Permission", "Permission denied"));
    assert!(contains_text("", ""));
    assert!(is_blank(" \n"));
    assert!(!is_blank(" a "));
    assert_eq!(parse_u32("+7"), Some(7));
    assert_eq!(parse_u32("4294967296"), None);
    assert_eq!(parse_i32("-2147483648"), Some(i32::MIN));
    assert_eq!(parse_i32("-"), None);
    assert_eq!(hex_digit(b'f'), Some(15));
}
