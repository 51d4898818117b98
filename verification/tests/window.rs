use cdj3k_emu::app::{
    scene_buttons, starts_shaded, stream_state_label, BootShade, BootShadeMode, CdjApp,
    CdjAppOptions, FrameInputs, ShadeTick,
};
use cdj3k_emu::lcd_texture::{
    channel_map, display_upload, jog_upload, ChannelSource, LcdSwizzle,
};
use cdj3k_emu::main_stream::{DisplayDirty, DisplayPayload, MainDisplayMode};
use cdj3k_emu::menu::{handle_event, ActionOrigin};
use cdj3k_emu::menu_state::{pack_latency, AppState, AudioOutDevice};
use cdj3k_emu::operator_bar::{operator_bar, BarEntry};

fn quiet() -> FrameInputs {
    FrameInputs {
        close_requested: false,
        worker_finished: false,
        has_gl: true,
        ctrl_held: false,
        jog_motion: false,
        frames: 0,
    }
}

#[test]
fn the_legacy_shade_waits_for_fifteen_fresh_frames() {
    let mut shade = BootShade::new(BootShadeMode::default());
    assert!(starts_shaded(BootShadeMode::LegacyFrameThreshold));
    assert!(shade.tick(false, false, 100).booting);
    assert!(shade.tick(true, false, 100).booting);
    assert!(shade.tick(true, false, 114).booting);
    assert!(!shade.tick(true, false, 115).booting);
    assert!(shade.tick(true, true, 116).booting);
    assert_eq!(
        shade.tick(false, false, 120),
        ShadeTick {
            booting: true,
            just_exited: true
        }
    );
    assert!(shade.tick(true, false, 121).booting);
    assert!(!shade.tick(true, false, 136).booting);
}

#[test]
fn the_live_shade_comes_on_request_only() {
    let mut shade = BootShade::new(BootShadeMode::LinuxLiveStatus);
    assert!(!starts_shaded(BootShadeMode::LinuxLiveStatus));
    assert!(!shade.tick(false, false, 0).booting);
    assert!(!shade.tick(true, false, 0).booting);
    assert!(shade.tick(true, true, 0).booting);
}

#[test]
fn a_new_window_is_at_rest() {
    let app = CdjApp::new(3, 2);
    assert_eq!(app.controls.jog_vel, 0xffff);
    assert_eq!(app.controls.rotary, 0xffff);
    assert_eq!(app.controls.vinyl_speed, 3);
    assert_eq!(app.wizard.target_instance, 2);
    assert!(app.lcds_blanked);
    let options = CdjAppOptions {
        boot_shade_mode: BootShadeMode::LinuxLiveStatus,
        main_display_mode: MainDisplayMode::SequencedStableSnapshot,
        virtual_media: true,
        ..CdjAppOptions::default()
    };
    let app = CdjApp::new_with_options(3, 1, options);
    assert!(!app.lcds_blanked);
    assert!(app.virtual_media);
    assert_eq!(app.wizard.boot_shade_mode, BootShadeMode::LinuxLiveStatus);
    assert!(!CdjAppOptions::default().gated);
}

#[test]
fn the_window_closes_after_the_worker() {
    let mut state = AppState::new();
    let mut app = CdjApp::new(0, 1);
    let mut inputs = quiet();
    inputs.close_requested = true;
    let plan = app.update(inputs, &mut state);
    assert!(plan.close.announce_shutdown && plan.close.cancel_close && plan.close.repaint);
    assert!(!plan.close.close);
    assert!(state.lifecycle.shade_forced);
    assert!(plan.booting);
    let plan = app.update(inputs, &mut state);
    assert!(!plan.close.announce_shutdown && plan.close.cancel_close);
    inputs.close_requested = false;
    assert!(app.update(inputs, &mut state).close.repaint);
    inputs.worker_finished = true;
    let plan = app.update(inputs, &mut state);
    assert!(plan.close.close && !plan.close.cancel_close && !plan.close.repaint);
}

#[test]
fn menu_requests_are_taken_once() {
    let mut state = AppState::new();
    let mut app = CdjApp::new(0, 1);
    handle_event(&mut state, "install_firmware", ActionOrigin::Linux);
    handle_event(&mut state, "jog_screen", ActionOrigin::Linux);
    state.lifecycle.power_off_stimuli_requested = true;
    let plan = app.update(quiet(), &mut state);
    assert!(plan.power_off);
    assert!(app.wizard.open);
    assert!(app.jog_screen_popped && !app.main_screen_popped && !app.debug_screen_popped);
    assert!(!app.update(quiet(), &mut state).power_off);
    app.mirror_view(&mut state);
    assert!(state.view.jog_screen_popped);
    app.jog_screen_popped = false;
    app.mirror_view(&mut state);
    assert!(!state.view.jog_screen_popped);
}

#[test]
fn displays_are_blanked_once_after_an_exit() {
    let mut state = AppState::new();
    let mut app = CdjApp::new(0, 1);
    state.lifecycle.qemu_running = true;
    app.update(quiet(), &mut state);
    state.lifecycle.qemu_running = false;
    app.update(quiet(), &mut state);
    assert!(app.lcd_textures_need_blank);
    let mut without_gl = quiet();
    without_gl.has_gl = false;
    assert!(!app.update(without_gl, &mut state).blank);
    assert!(app.update(quiet(), &mut state).blank);
    assert!(!app.update(quiet(), &mut state).blank);
    assert!(!app.shows_secondary_windows(true));
    app.lcds_blanked = false;
    assert!(app.shows_secondary_windows(true));
    assert!(!app.shows_secondary_windows(false));
}

#[test]
fn latched_buttons_are_released_with_the_control_key() {
    let mut state = AppState::new();
    let mut app = CdjApp::new(0, 1);
    app.controls.latched_btns.push((4, 2));
    let mut held = quiet();
    held.ctrl_held = true;
    let plan = app.update(held, &mut state);
    assert!(!plan.released && plan.animate);
    let plan = app.update(quiet(), &mut state);
    assert!(plan.released && !plan.animate);
    assert!(app.controls.latched_btns.is_empty());
    app.controls.held_btn = Some((1, 1));
    assert!(app.update(quiet(), &mut state).animate);
}

#[test]
fn the_window_settles_after_eight_frames() {
    let mut app = CdjApp::new(0, 1);
    for _ in 0..7 {
        assert!(!app.settle(true));
    }
    assert!(app.settle(true));
    assert!(!app.settle(false));
    app.stable_frames = u32::MAX;
    assert!(app.settle(true));
    app.aspect_corrected();
    assert_eq!(app.stable_frames, 0);
}

#[test]
fn scenes_compare_latched_buttons_by_their_set() {
    let a = scene_buttons(&vec![(3, 1), (1, 9), (3, 0)]);
    assert_eq!(a, [(1, 9), (3, 0), (3, 1)]);
    assert_eq!(scene_buttons(&vec![(3, 0), (3, 1), (1, 9)]), a);
    let many: Vec<(usize, u8)> = (0..40).map(|i| (39 - i, 0u8)).collect();
    let first = scene_buttons(&many);
    assert_eq!(first.len(), 32);
    assert_eq!(first[0], (8, 0));
}

#[test]
fn streams_have_three_states() {
    assert_eq!(stream_state_label(true, true, "lcd"), "lcd:OK");
    assert_eq!(stream_state_label(true, false, "jog"), "jog:conn");
    assert_eq!(stream_state_label(false, true, "jog"), "jog:wait");
}

#[test]
fn uploads_read_the_right_bytes() {
    let plan = jog_upload(10, 5, 20, 2);
    assert_eq!(plan.offset, (5 * 320 + 10) * 4);
    assert_eq!(plan.len, 320 * 4 + 20 * 4);
    assert_eq!(plan.row_length_px, 320);
    let mapped = DisplayDirty {
        x: 1,
        y: 1,
        w: 2,
        h: 1,
        stride: 20,
        payload: DisplayPayload::Mapped,
    };
    let plan = display_upload(&mapped, 64 + 40).unwrap();
    assert_eq!((plan.offset, plan.len, plan.row_length_px), (64 + 24, 8, 5));
    assert!(display_upload(&mapped, 64 + 31).is_none());
    let owned = DisplayDirty {
        stride: 8,
        h: 2,
        payload: DisplayPayload::Owned(vec![0; 16]),
        ..mapped
    };
    let plan = display_upload(&owned, 0).unwrap();
    assert_eq!((plan.offset, plan.len, plan.row_length_px), (0, 16, 2));
}

#[test]
fn the_jog_display_swaps_red_and_blue() {
    let jog = channel_map(LcdSwizzle::BgrToRgbAlphaOne);
    assert_eq!(jog.red, ChannelSource::Blue);
    assert_eq!(jog.blue, ChannelSource::Red);
    assert_eq!(jog.alpha, ChannelSource::One);
    let main = channel_map(LcdSwizzle::AlphaOnly);
    assert_eq!(main.red, ChannelSource::Red);
    assert_eq!(main.alpha, ChannelSource::One);
}

#[test]
fn the_operator_bar_follows_the_state() {
    let mut state = AppState::new();
    state.audio.audio_devices = vec![AudioOutDevice {
        uid: "sink.a".into(),
        name: "Sink A".into(),
        is_default: false,
        sample_rate_hz: 0,
    }];
    state.audio.audio_device_uid = Some("sink.a".into());
    let bar = operator_bar(&state, false);
    assert!(matches!(
        &bar.emulation[1],
        BarEntry::Button { id, enabled: true, .. } if id == "start"
    ));
    assert!(matches!(
        &bar.emulation[3],
        BarEntry::Button { id, enabled: false, .. } if id == "stop"
    ));
    assert!(matches!(&bar.storage[0], BarEntry::Button { enabled: false, .. }));
    assert!(matches!(
        &bar.audio[4],
        BarEntry::Choice { selected: false, .. }
    ));
    assert!(matches!(
        &bar.audio[5],
        BarEntry::Choice { id, label, selected: true }
            if id == "audio_dev_uid_73696e6b2e61" && label == "Sink A"
    ));
    assert_eq!(bar.status, ["QEMU: stopped", "App: booting"]);
    state.lifecycle.qemu_running = true;
    state.lifecycle.application_started = true;
    state.audio.latency_packed = pack_latency(12, 5, 7);
    let bar = operator_bar(&state, true);
    assert_eq!(
        bar.status,
        ["QEMU: running", "App: started", "Latency 12 ms (5+7)"]
    );
    assert_eq!(bar.view.len(), 3);
}

#[test]
fn every_bar_entry_changes_the_state_or_asks() {
    let state = AppState::new();
    let bar = operator_bar(&state, true);
    for list in [&bar.emulation, &bar.storage, &bar.audio, &bar.view] {
        for entry in list.iter() {
            let id = match entry {
                BarEntry::Button { id, .. } => id,
                BarEntry::Toggle { id, .. } => id,
                BarEntry::Choice { id, .. } => id,
                _ => continue,
            };
            let known = !matches!(
                cdj3k_emu::menu::parse_action(id),
                cdj3k_emu::menu::MenuAction::Unknown
            );
            assert!(known, "{id}");
        }
    }
}
