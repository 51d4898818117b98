//! The decisions of the application's window: when it is shaded, when it closes, and what
//! each frame does.

use vstd::prelude::*;

use crate::firmware_wizard::FirmwareWizard;
use crate::instance;
use crate::instance::ShutdownStage;
use crate::main_stream::MainDisplayMode;
use crate::menu_state::{AppState, LifecycleState, ViewState};
use crate::text::cat3;

verus! {

/// Fresh frames of the main display after which the boot shade clears.
pub const SHADE_FRAMES: u64 = 15;

/// Frames that the window's size must stay the same before its aspect is corrected.
pub const STABLE_FRAMES_REQUIRED: u32 = 8;

/// How long the runtime worker has to stop QEMU when the application exits, in seconds.
pub const SHUTDOWN_WATCHDOG_SECS: u64 = 35;

/// The wheel at rest; a smaller number is a greater speed.
pub const JOG_VEL_INIT: u16 = 0xffff;

/// The rotary knob at rest.
pub const ROTARY_NEUTRAL: u16 = 0xffff;

/// Latched buttons that are looked at when the scene is compared with the last one.
pub const SCENE_BUTTONS: usize = 32;

/// When the boot shade lies over the window.
#[derive(Clone, Copy, Debug, PartialEq, Eq, Structural)]
pub enum BootShadeMode {
    /// From the start until enough fresh frames of the main display have arrived.
    LegacyFrameThreshold,
    /// Only while it is asked for.
    LinuxLiveStatus,
}

impl Default for BootShadeMode {
    fn default() -> (r: Self)
        ensures
            r == BootShadeMode::LegacyFrameThreshold,
    {
        BootShadeMode::LegacyFrameThreshold
    }
}

/// What the launcher decides for the window.
#[derive(Clone, Debug)]
pub struct CdjAppOptions {
    /// Controls connect only after the readiness gate has opened.
    pub gated: bool,
    pub firmware_resources: Option<String>,
    pub qemu_img: Option<String>,
    pub virtual_media: bool,
    pub main_display_mode: MainDisplayMode,
    pub boot_shade_mode: BootShadeMode,
}

impl Default for CdjAppOptions {
    fn default() -> (r: Self)
        ensures
            r == (CdjAppOptions {
                gated: false,
                firmware_resources: None,
                qemu_img: None,
                virtual_media: false,
                main_display_mode: MainDisplayMode::LegacyPublishedGeneration,
                boot_shade_mode: BootShadeMode::LegacyFrameThreshold,
            }),
    {
        CdjAppOptions {
            gated: false,
            firmware_resources: None,
            qemu_img: None,
            virtual_media: false,
            main_display_mode: MainDisplayMode::default(),
            boot_shade_mode: BootShadeMode::default(),
        }
    }
}

/// The boot shade.
#[derive(Clone, Copy, Debug, PartialEq, Eq, Structural)]
pub struct BootShade {
    pub mode: BootShadeMode,
    pub qemu_was_running: bool,
    /// How many frames of the main display had arrived when QEMU last started or stopped.
    pub frame_baseline: u64,
}

/// What a look at the boot shade gives.
#[derive(Clone, Copy, Debug, PartialEq, Eq, Structural)]
pub struct ShadeTick {
    /// The shade lies over the window, or comes up.
    pub booting: bool,
    /// QEMU has exited since the last look.
    pub just_exited: bool,
}

/// The shade after a look at whether QEMU is running.
pub open spec fn shade_after(shade: BootShade, qemu_running: bool, frames: u64) -> BootShade {
    BootShade {
        mode: shade.mode,
        qemu_was_running: qemu_running,
        frame_baseline: if shade.qemu_was_running != qemu_running {
            frames
        } else {
            shade.frame_baseline
        },
    }
}

/// Whether the shade lies over the window.
pub open spec fn is_shaded(
    shade: BootShade,
    qemu_running: bool,
    shade_forced: bool,
    frames: u64,
) -> bool {
    match shade.mode {
        BootShadeMode::LinuxLiveStatus => shade_forced,
        BootShadeMode::LegacyFrameThreshold => shade_forced || !qemu_running || frames
            < shade_after(shade, qemu_running, frames).frame_baseline + SHADE_FRAMES,
    }
}

impl BootShade {
    /// The shade at the start.
    pub fn new(mode: BootShadeMode) -> (r: Self)
        ensures
            r == (BootShade { mode, qemu_was_running: false, frame_baseline: 0 }),
    {
        BootShade { mode, qemu_was_running: false, frame_baseline: 0 }
    }

    /// Looks at whether QEMU is running and how many frames of the main display have arrived.
    pub fn tick(&mut self, qemu_running: bool, shade_forced: bool, frames: u64) -> (r: ShadeTick)
        ensures
            *final(self) == shade_after(*old(self), qemu_running, frames),
            r.booting == is_shaded(*old(self), qemu_running, shade_forced, frames),
            r.just_exited == (old(self).qemu_was_running && !qemu_running),
    {
        let just_exited = self.qemu_was_running && !qemu_running;
        if self.qemu_was_running != qemu_running {
            self.frame_baseline = frames;
        }
        self.qemu_was_running = qemu_running;
        let booting = match self.mode {
            BootShadeMode::LinuxLiveStatus => shade_forced,
            BootShadeMode::LegacyFrameThreshold => {
                shade_forced || !qemu_running || frames < self.frame_baseline || frames
                    - self.frame_baseline < SHADE_FRAMES
            },
        };
        ShadeTick { booting, just_exited }
    }
}

/// Whether the window is shaded from the start, with blank displays.
pub fn starts_shaded(mode: BootShadeMode) -> (r: bool)
    ensures
        r == is_shaded(
            BootShade { mode, qemu_was_running: false, frame_baseline: 0 },
            false,
            false,
            0,
        ),
{
    match mode {
        BootShadeMode::LegacyFrameThreshold => true,
        BootShadeMode::LinuxLiveStatus => false,
    }
}

/// In the legacy mode the shade clears exactly when the given number of fresh frames has
/// arrived since QEMU started, unless it is asked for.
pub proof fn the_legacy_shade_clears_after_fresh_frames(
    shade: BootShade,
    start: u64,
    frames: u64,
)
    requires
        shade.mode == BootShadeMode::LegacyFrameThreshold,
        !shade.qemu_was_running,
        start <= frames,
    ensures
        is_shaded(shade, true, false, start),
        is_shaded(shade_after(shade, true, start), true, false, frames) <==> frames < start
            + SHADE_FRAMES,
        is_shaded(shade_after(shade, true, start), true, true, frames),
{
}

/// In the live-status mode the shade lies over the window if and only if it is asked for.
pub proof fn the_live_shade_is_on_request_only(
    shade: BootShade,
    qemu_running: bool,
    shade_forced: bool,
    frames: u64,
)
    requires
        shade.mode == BootShadeMode::LinuxLiveStatus,
    ensures
        is_shaded(shade, qemu_running, shade_forced, frames) == shade_forced,
{
}

/// The controls of the deck.
#[derive(Clone, Debug)]
pub struct DeckControls {
    pub jog_pos: u16,
    pub jog_vel: u16,
    pub jog_touch: u8,
    pub rotary: u16,
    pub vinyl_speed: u8,
    pub lcd_touch: Option<(u16, u16)>,
    /// The touch is frozen until the control key is released.
    pub lcd_touch_ctrl_latched: bool,
    /// The next click on the display presses the rotary knob.
    pub lcd_nav_mode: bool,
    /// The button that the pointer holds down.
    pub held_btn: Option<(usize, u8)>,
    /// The buttons that stay down until the control key is released, each once.
    pub latched_btns: Vec<(usize, u8)>,
}

impl DeckControls {
    /// No button is latched twice.
    pub open spec fn wf(&self) -> bool {
        self.latched_btns@.no_duplicates()
    }
}

/// The state of the window.
#[derive(Debug)]
pub struct CdjApp {
    pub controls: DeckControls,
    pub jog_screen_popped: bool,
    pub main_screen_popped: bool,
    pub debug_screen_popped: bool,
    pub wizard: FirmwareWizard,
    pub virtual_media: bool,
    pub shade: BootShade,
    /// The displays are blank.
    pub lcds_blanked: bool,
    /// QEMU has exited, and the displays' textures still show its last frame.
    pub lcd_textures_need_blank: bool,
    /// Frames since the window's size last changed.
    pub stable_frames: u32,
    /// The operator has asked to close the window; it closes when the worker has finished.
    pub shutdown_in_progress: bool,
}

/// What to do about closing the window.
#[derive(Clone, Copy, Debug, PartialEq, Eq, Structural)]
pub struct CloseDecision {
    /// Tell the runtime worker to shut down.
    pub announce_shutdown: bool,
    /// Keep the window open for now.
    pub cancel_close: bool,
    /// Close the window.
    pub close: bool,
    /// Paint another frame.
    pub repaint: bool,
}

/// What a frame begins with.
#[derive(Clone, Copy, Debug, PartialEq, Eq, Structural)]
pub struct FrameInputs {
    /// The operator asks to close the window.
    pub close_requested: bool,
    /// The runtime worker has finished.
    pub worker_finished: bool,
    /// There is something to paint with.
    pub has_gl: bool,
    /// The control key is down.
    pub ctrl_held: bool,
    /// The wheel moves.
    pub jog_motion: bool,
    /// How many frames of the main display have arrived.
    pub frames: u64,
}

/// What a frame does before it is painted.
#[derive(Clone, Copy, Debug, PartialEq, Eq, Structural)]
pub struct FramePlan {
    pub close: CloseDecision,
    /// Tell the deck to power off.
    pub power_off: bool,
    /// Blank the displays' textures.
    pub blank: bool,
    /// Tell the deck that the latched buttons are up.
    pub released: bool,
    /// Paint another frame soon.
    pub animate: bool,
    /// The boot shade lies over the window, or comes up.
    pub booting: bool,
}

/// What to do about closing the window. The first request to close it begins the shutdown;
/// until the worker has finished the window stays open and is painted, so that the shade can
/// come up; then it closes.
pub open spec fn close_decision(
    in_progress: bool,
    close_requested: bool,
    worker_finished: bool,
) -> CloseDecision {
    CloseDecision {
        announce_shutdown: close_requested && !in_progress,
        cancel_close: close_requested && (!in_progress || !worker_finished),
        close: (in_progress || close_requested) && worker_finished,
        repaint: (in_progress || close_requested) && !worker_finished,
    }
}

/// The window's copies of the view switches, and the wizard, as the shared state has them.
pub open spec fn follows_menu(app: CdjApp, s: AppState) -> CdjApp {
    CdjApp {
        jog_screen_popped: s.view.jog_screen_popped,
        main_screen_popped: s.view.main_screen_popped,
        debug_screen_popped: s.view.debug_screen_popped,
        wizard: FirmwareWizard {
            open: app.wizard.open || s.lifecycle.firmware_wizard_requested,
            ..app.wizard
        },
        ..app
    }
}

/// The shared state with the window's view switches.
pub open spec fn mirrored(app: CdjApp, s: AppState) -> AppState {
    AppState {
        view: ViewState {
            jog_screen_popped: app.jog_screen_popped,
            main_screen_popped: app.main_screen_popped,
            debug_screen_popped: app.debug_screen_popped,
        },
        ..s
    }
}

impl CdjApp {
    /// A window with the default options.
    pub fn new(vinyl_speed: u8, current_instance_id: u32) -> (r: Self)
        ensures
            r.is_new(
                vinyl_speed,
                current_instance_id,
                CdjAppOptions {
                    gated: false,
                    firmware_resources: None,
                    qemu_img: None,
                    virtual_media: false,
                    main_display_mode: MainDisplayMode::LegacyPublishedGeneration,
                    boot_shade_mode: BootShadeMode::LegacyFrameThreshold,
                },
            ),
            r.controls.wf(),
    {
        Self::new_with_options(vinyl_speed, current_instance_id, CdjAppOptions::default())
    }

    /// A window as it is at the start: every control at rest, nothing popped out, and shaded
    /// where the mode says so.
    pub open spec fn is_new(
        self,
        vinyl_speed: u8,
        current_instance_id: u32,
        options: CdjAppOptions,
    ) -> bool {
        let shade = BootShade {
            mode: options.boot_shade_mode,
            qemu_was_running: false,
            frame_baseline: 0,
        };
        &&& self.controls.jog_pos == 0 && self.controls.jog_vel == JOG_VEL_INIT
        &&& self.controls.jog_touch == 0 && self.controls.rotary == ROTARY_NEUTRAL
        &&& self.controls.vinyl_speed == vinyl_speed
        &&& self.controls.lcd_touch is None && !self.controls.lcd_touch_ctrl_latched
        &&& !self.controls.lcd_nav_mode && self.controls.held_btn is None
        &&& self.controls.latched_btns@.len() == 0
        &&& !self.jog_screen_popped && !self.main_screen_popped && !self.debug_screen_popped
        &&& self.wizard.is_new(
            options.firmware_resources,
            options.qemu_img,
            options.boot_shade_mode,
            current_instance_id,
        )
        &&& self.virtual_media == options.virtual_media
        &&& self.shade == shade
        &&& self.lcds_blanked == is_shaded(shade, false, false, 0)
        &&& !self.lcd_textures_need_blank && self.stable_frames == 0 && !self.shutdown_in_progress
    }

    /// A window with the given options.
    pub fn new_with_options(
        vinyl_speed: u8,
        current_instance_id: u32,
        options: CdjAppOptions,
    ) -> (r: Self)
        ensures
            r.is_new(vinyl_speed, current_instance_id, options),
            r.controls.wf(),
    {
        let mode = options.boot_shade_mode;
        CdjApp {
            controls: DeckControls {
                jog_pos: 0,
                jog_vel: JOG_VEL_INIT,
                jog_touch: 0,
                rotary: ROTARY_NEUTRAL,
                vinyl_speed,
                lcd_touch: None,
                lcd_touch_ctrl_latched: false,
                lcd_nav_mode: false,
                held_btn: None,
                latched_btns: Vec::new(),
            },
            jog_screen_popped: false,
            main_screen_popped: false,
            debug_screen_popped: false,
            wizard: FirmwareWizard::new_with_boot_shade_mode(
                options.firmware_resources,
                options.qemu_img,
                mode,
                current_instance_id,
            ),
            virtual_media: options.virtual_media,
            shade: BootShade::new(mode),
            lcds_blanked: starts_shaded(mode),
            lcd_textures_need_blank: false,
            stable_frames: 0,
            shutdown_in_progress: false,
        }
    }

    /// What to do about closing the window. Beginning the shutdown asks for the shade.
    pub fn handle_close(
        &mut self,
        close_requested: bool,
        worker_finished: bool,
        s: &mut AppState,
    ) -> (r: CloseDecision)
        ensures
            r == close_decision(old(self).shutdown_in_progress, close_requested, worker_finished),
            *final(self) == (CdjApp {
                shutdown_in_progress: old(self).shutdown_in_progress || close_requested,
                ..*old(self)
            }),
            *final(s) == (AppState {
                lifecycle: LifecycleState {
                    shade_forced: old(s).lifecycle.shade_forced || r.announce_shutdown,
                    ..old(s).lifecycle
                },
                ..*old(s)
            }),
    {
        let mut announce_shutdown = false;
        let mut cancel_close = false;
        if close_requested {
            if !self.shutdown_in_progress {
                self.shutdown_in_progress = true;
                s.lifecycle.shade_forced = true;
                announce_shutdown = true;
                cancel_close = true;
            } else if !worker_finished {
                cancel_close = true;
            }
        }
        CloseDecision {
            announce_shutdown,
            cancel_close,
            close: self.shutdown_in_progress && worker_finished,
            repaint: self.shutdown_in_progress && !worker_finished,
        }
    }

    /// Takes over what the menus ask for. Returns whether the deck is to be told to power off.
    pub fn poll_menu_state(&mut self, s: &mut AppState) -> (r: bool)
        ensures
            r == old(s).lifecycle.power_off_stimuli_requested,
            *final(self) == follows_menu(*old(self), *old(s)),
            *final(s) == (AppState {
                lifecycle: LifecycleState {
                    firmware_wizard_requested: false,
                    power_off_stimuli_requested: false,
                    ..old(s).lifecycle
                },
                ..*old(s)
            }),
    {
        self.jog_screen_popped = s.view.jog_screen_popped;
        self.main_screen_popped = s.view.main_screen_popped;
        self.debug_screen_popped = s.view.debug_screen_popped;
        if s.lifecycle.firmware_wizard_requested {
            self.wizard.open = true;
        }
        let power_off = s.lifecycle.power_off_stimuli_requested;
        s.lifecycle.firmware_wizard_requested = false;
        s.lifecycle.power_off_stimuli_requested = false;
        power_off
    }

    /// Whether the displays' textures are blanked now: once after QEMU has exited, as soon as
    /// there is something to paint with.
    pub fn take_blank(&mut self, has_gl: bool) -> (r: bool)
        ensures
            r == (old(self).lcd_textures_need_blank && has_gl),
            *final(self) == (CdjApp {
                lcd_textures_need_blank: old(self).lcd_textures_need_blank && !has_gl,
                ..*old(self)
            }),
    {
        if self.lcd_textures_need_blank && has_gl {
            self.lcd_textures_need_blank = false;
            true
        } else {
            false
        }
    }

    /// Releases the latched buttons once the control key is up. Returns whether the deck is to
    /// be told.
    pub fn release_latched(&mut self, ctrl_held: bool) -> (r: bool)
        ensures
            r == (!ctrl_held && old(self).controls.latched_btns@.len() > 0),
            !r ==> *final(self) == *old(self),
            r ==> final(self).controls.latched_btns@.len() == 0 && *final(self) == (CdjApp {
                controls: DeckControls {
                    latched_btns: final(self).controls.latched_btns,
                    ..old(self).controls
                },
                ..*old(self)
            }),
            old(self).controls.wf() ==> final(self).controls.wf(),
    {
        if !ctrl_held && self.controls.latched_btns.len() > 0 {
            self.controls.latched_btns = Vec::new();
            true
        } else {
            false
        }
    }

    /// Whether the window animates by itself: while the wheel moves or a button is down.
    pub fn wants_animation(&self, jog_motion: bool) -> (r: bool)
        ensures
            r == (jog_motion || self.controls.held_btn is Some
                || self.controls.latched_btns@.len() > 0),
    {
        jog_motion || self.controls.held_btn.is_some() || self.controls.latched_btns.len() > 0
    }

    /// Looks at the boot shade. Returns whether it lies over the window or comes up.
    pub fn tick_boot_shade(&mut self, s: &AppState, frames: u64) -> (r: bool)
        ensures
            r == is_shaded(
                old(self).shade,
                s.lifecycle.qemu_running,
                s.lifecycle.shade_forced,
                frames,
            ),
            *final(self) == (CdjApp {
                shade: shade_after(old(self).shade, s.lifecycle.qemu_running, frames),
                lcds_blanked: r,
                lcd_textures_need_blank: old(self).lcd_textures_need_blank || (
                old(self).shade.qemu_was_running && !s.lifecycle.qemu_running),
                ..*old(self)
            }),
    {
        let tick = self.shade.tick(s.lifecycle.qemu_running, s.lifecycle.shade_forced, frames);
        if tick.just_exited {
            self.lcd_textures_need_blank = true;
        }
        self.lcds_blanked = tick.booting;
        tick.booting
    }

    /// Begins a frame: what the operator asked for, what QEMU's state demands, and what is to
    /// be painted. The menus have been shown before, so that what they changed counts.
    pub fn update(&mut self, inputs: FrameInputs, s: &mut AppState) -> (r: FramePlan)
        ensures
            r.close == close_decision(
                old(self).shutdown_in_progress,
                inputs.close_requested,
                inputs.worker_finished,
            ),
            r.power_off == old(s).lifecycle.power_off_stimuli_requested,
            r.blank == (old(self).lcd_textures_need_blank && inputs.has_gl),
            r.released == (!inputs.ctrl_held && old(self).controls.latched_btns@.len() > 0),
            r.animate == (inputs.jog_motion || old(self).controls.held_btn is Some || (
            inputs.ctrl_held && old(self).controls.latched_btns@.len() > 0)),
            r.booting == is_shaded(
                old(self).shade,
                old(s).lifecycle.qemu_running,
                final(s).lifecycle.shade_forced,
                inputs.frames,
            ),
            *final(self) == (CdjApp {
                controls: final(self).controls,
                shutdown_in_progress: old(self).shutdown_in_progress || inputs.close_requested,
                shade: shade_after(
                    old(self).shade,
                    old(s).lifecycle.qemu_running,
                    inputs.frames,
                ),
                lcds_blanked: r.booting,
                lcd_textures_need_blank: (old(self).lcd_textures_need_blank && !inputs.has_gl) || (
                old(self).shade.qemu_was_running && !old(s).lifecycle.qemu_running),
                ..follows_menu(*old(self), *old(s))
            }),
            !r.released ==> final(self).controls == old(self).controls,
            r.released ==> final(self).controls.latched_btns@.len() == 0 && final(self).controls
                == (DeckControls {
                latched_btns: final(self).controls.latched_btns,
                ..old(self).controls
            }),
            old(self).controls.wf() ==> final(self).controls.wf(),
            *final(s) == (AppState {
                lifecycle: LifecycleState {
                    shade_forced: old(s).lifecycle.shade_forced || r.close.announce_shutdown,
                    firmware_wizard_requested: false,
                    power_off_stimuli_requested: false,
                    ..old(s).lifecycle
                },
                ..*old(s)
            }),
    {
        let close = self.handle_close(inputs.close_requested, inputs.worker_finished, s);
        let power_off = self.poll_menu_state(s);
        let blank = self.take_blank(inputs.has_gl);
        let released = self.release_latched(inputs.ctrl_held);
        let animate = self.wants_animation(inputs.jog_motion);
        let booting = self.tick_boot_shade(s, inputs.frames);
        FramePlan { close, power_off, blank, released, animate, booting }
    }

    /// Whether the other windows are shown: once the shade is gone and stays away.
    pub fn shows_secondary_windows(&self, shade_is_gone: bool) -> (r: bool)
        ensures
            r == (shade_is_gone && !self.lcds_blanked),
    {
        shade_is_gone && !self.lcds_blanked
    }

    /// Hands the view switches back to the shared state, so that the menus show when a window
    /// was closed.
    pub fn mirror_view(&self, s: &mut AppState)
        ensures
            *final(s) == mirrored(*self, *old(s)),
    {
        s.view.jog_screen_popped = self.jog_screen_popped;
        s.view.main_screen_popped = self.main_screen_popped;
        s.view.debug_screen_popped = self.debug_screen_popped;
    }

    /// Counts a frame in which the window's size stayed the same or did not. Returns whether
    /// it has settled.
    pub fn settle(&mut self, unchanged: bool) -> (r: bool)
        ensures
            final(self).stable_frames == (if !unchanged {
                0
            } else if old(self).stable_frames == u32::MAX {
                u32::MAX
            } else {
                (old(self).stable_frames + 1) as u32
            }),
            *final(self) == (CdjApp { stable_frames: final(self).stable_frames, ..*old(self) }),
            r == (final(self).stable_frames >= STABLE_FRAMES_REQUIRED),
            final(self).stable_frames == stable_after(old(self).stable_frames, unchanged),
            r == has_settled(final(self).stable_frames),
    {
        if unchanged {
            self.stable_frames = self.stable_frames.saturating_add(1);
        } else {
            self.stable_frames = 0;
        }
        self.stable_frames >= STABLE_FRAMES_REQUIRED
    }

    /// The window's aspect was corrected: it has to settle again.
    pub fn aspect_corrected(&mut self)
        ensures
            *final(self) == (CdjApp { stable_frames: 0, ..*old(self) }),
    {
        self.stable_frames = 0;
    }
}

/// A view switch that is turned before the window polls the menus takes effect in the same
/// frame, and the frame's end keeps it.
pub proof fn view_switches_survive_a_frame(app: CdjApp, s: AppState)
    ensures
        mirrored(follows_menu(app, s), s).view == s.view,
{
}

/// The wizard's requests to open are never lost: the wizard is open after the menus were
/// polled if it was open before or was asked for.
pub proof fn wizard_requests_open_the_wizard(app: CdjApp, s: AppState)
    ensures
        follows_menu(app, s).wizard.open == (app.wizard.open
            || s.lifecycle.firmware_wizard_requested),
{
}

/// A window that was asked to close is never closed before the worker has finished, and
/// closes as soon as it has.
pub proof fn the_window_waits_for_the_worker(
    in_progress: bool,
    close_requested: bool,
    worker_finished: bool,
)
    ensures
        close_decision(in_progress, close_requested, worker_finished).close ==> worker_finished,
        in_progress && worker_finished ==> close_decision(
            in_progress,
            close_requested,
            worker_finished,
        ).close && !close_decision(in_progress, close_requested, worker_finished).cancel_close,
        close_requested && !worker_finished ==> close_decision(
            in_progress,
            close_requested,
            worker_finished,
        ).cancel_close,
{
}

/// The worker has time for every stage of a graceful shutdown before QEMU is killed.
pub proof fn the_watchdog_outlasts_a_shutdown()
    ensures
        instance::stage_seconds(ShutdownStage::Cleanup) + instance::stage_seconds(
            ShutdownStage::Powerdown,
        ) + instance::stage_seconds(ShutdownStage::Quit) < SHUTDOWN_WATCHDOG_SECS,
{
}

/// The state of a stream as the status line shows it.
pub open spec fn stream_label(connected: bool, has_tex: bool, prefix: Seq<char>) -> Seq<char> {
    prefix + ":"@ + (if connected && has_tex {
        "OK"@
    } else if connected {
        "conn"@
    } else {
        "wait"@
    })
}

/// The state of a stream as the status line shows it.
pub fn stream_state_label(connected: bool, has_tex: bool, prefix: &str) -> (r: String)
    ensures
        r@ == stream_label(connected, has_tex, prefix@),
{
    let suffix = if connected && has_tex {
        "OK"
    } else if connected {
        "conn"
    } else {
        "wait"
    };
    cat3(prefix, ":", suffix)
}

/// The order of buttons: by their byte, then by their bit.
pub open spec fn button_order(a: (usize, u8), b: (usize, u8)) -> bool {
    a.0 < b.0 || (a.0 == b.0 && a.1 <= b.1)
}

/// A list of buttons in ascending order.
pub open spec fn buttons_sorted(list: Seq<(usize, u8)>) -> bool {
    forall|i: int, j: int|
        0 <= i <= j < list.len() ==> button_order(#[trigger] list[i], #[trigger] list[j])
}

/// The buttons that are looked at: the first ones, up to the limit.
pub open spec fn looked_at(latched: Seq<(usize, u8)>) -> Seq<(usize, u8)> {
    if latched.len() <= SCENE_BUTTONS {
        latched
    } else {
        latched.take(SCENE_BUTTONS as int)
    }
}

/// The latched buttons in ascending order, for the comparison of scenes.
pub fn scene_buttons(latched: &Vec<(usize, u8)>) -> (r: Vec<(usize, u8)>)
    ensures
        buttons_sorted(r@),
        r@.to_multiset() == looked_at(latched@).to_multiset(),
{
    let n: usize = if latched.len() <= SCENE_BUTTONS {
        latched.len()
    } else {
        SCENE_BUTTONS
    };
    let ghost all = looked_at(latched@);
    assert(latched@.take(n as int) =~= all);
    let mut list: Vec<(usize, u8)> = Vec::new();
    let mut i: usize = 0;
    assert(latched@.take(0) =~= list@);
    while i < n
        invariant
            i <= n <= latched@.len(),
            buttons_sorted(list@),
            list@.to_multiset() == latched@.take(i as int).to_multiset(),
            list@.len() == i,
        decreases n - i,
    {
        let b: (usize, u8) = latched[i];
        let mut k: usize = 0;
        while k < i && (list[k].0 < b.0 || (list[k].0 == b.0 && list[k].1 <= b.1))
            invariant
                k <= i == list@.len(),
                forall|j: int| 0 <= j < k ==> button_order(#[trigger] list@[j], b),
            decreases i - k,
        {
            k += 1;
        }
        let ghost before = list@;
        list.insert(k, b);
        proof {
            assert(list@ =~= before.insert(k as int, b));
            vstd::seq_lib::to_multiset_insert(before, k as int, b);
            let t = latched@.take(i as int);
            assert(latched@.take(i + 1) =~= t.push(b));
            vstd::seq_lib::to_multiset_build(t, b);
            assert(list@.to_multiset() =~= latched@.take(i + 1).to_multiset());
            lemma_insert_keeps_order(before, k as int, b);
        }
        i += 1;
    }
    list
}

proof fn lemma_insert_keeps_order(list: Seq<(usize, u8)>, k: int, b: (usize, u8))
    requires
        buttons_sorted(list),
        0 <= k <= list.len(),
        forall|j: int| 0 <= j < k ==> button_order(#[trigger] list[j], b),
        k < list.len() ==> !button_order(list[k], b),
    ensures
        buttons_sorted(list.insert(k, b)),
{
    let all = list.insert(k, b);
    assert forall|i: int, j: int| 0 <= i <= j < all.len() implies button_order(
        #[trigger] all[i],
        #[trigger] all[j],
    ) by {
        let i0 = if i < k {
            i
        } else {
            i - 1
        };
        let j0 = if j < k {
            j
        } else {
            j - 1
        };
        if i != k {
            assert(all[i] == list[i0]);
        }
        if j != k {
            assert(all[j] == list[j0]);
        }
        if i != k && j != k {
            assert(button_order(list[i0], list[j0]));
        } else if i == k && j > k {
            assert(button_order(list[k], list[j0]));
        }
    }
}

/// The order in which buttons were latched does not show in the comparison of scenes: there
/// is only one sorted list of given buttons.
pub proof fn scenes_do_not_depend_on_the_latching_order(
    a: Seq<(usize, u8)>,
    b: Seq<(usize, u8)>,
)
    requires
        buttons_sorted(a),
        buttons_sorted(b),
        a.to_multiset() == b.to_multiset(),
    ensures
        a == b,
{
    let order = |x: (usize, u8), y: (usize, u8)| button_order(x, y);
    assert(vstd::relations::sorted_by(a, order)) by {
        assert forall|i: int, j: int| 0 <= i < j < a.len() implies #[trigger] order(a[i], a[j]) by {
            assert(button_order(a[i], a[j]));
        }
    }
    assert(vstd::relations::sorted_by(b, order)) by {
        assert forall|i: int, j: int| 0 <= i < j < b.len() implies #[trigger] order(b[i], b[j]) by {
            assert(button_order(b[i], b[j]));
        }
    }
    assert(vstd::relations::total_ordering(order));
    vstd::seq_lib::lemma_sorted_unique(a, b, order);
}

/// The count of frames since the window's size last changed, after another frame.
pub open spec fn stable_after(count: u32, unchanged: bool) -> u32 {
    if !unchanged {
        0
    } else if count == u32::MAX {
        u32::MAX
    } else {
        (count + 1) as u32
    }
}

/// Whether the window has settled.
pub open spec fn has_settled(count: u32) -> bool {
    count >= STABLE_FRAMES_REQUIRED
}

/// The count after a number of frames without a change.
pub open spec fn stable_run(count: u32, frames: nat) -> u32
    decreases frames,
{
    if frames == 0 {
        count
    } else {
        stable_after(stable_run(count, (frames - 1) as nat), true)
    }
}

/// After a change of its size, the window has settled once eight frames have gone by without
/// another one, and it stays settled until the next change.
pub proof fn windows_settle_after_eight_frames(count: u32, frames: nat)
    ensures
        has_settled(stable_run(stable_after(count, false), frames)) <==> frames >= 8,
        frames <= u32::MAX ==> stable_run(stable_after(count, false), frames) == frames,
    decreases frames,
{
    if frames > 0 {
        windows_settle_after_eight_frames(count, (frames - 1) as nat);
        lemma_long_runs(count, frames);
    }
}

proof fn lemma_long_runs(count: u32, frames: nat)
    ensures
        stable_run(stable_after(count, false), frames) == (if frames < u32::MAX {
            frames as u32
        } else {
            u32::MAX
        }),
    decreases frames,
{
    if frames > 0 {
        lemma_long_runs(count, (frames - 1) as nat);
    }
}

/// In the legacy mode the shade lies over the window while QEMU does not run, and then until
/// fifteen frames have arrived that were not there when it started. The count begins anew
/// whenever QEMU starts or stops, and only then.
pub proof fn fifteen_fresh_frames_clear_the_shade(
    shade: BootShade,
    qemu_running: bool,
    frames: u64,
    later: u64,
)
    requires
        shade.mode == BootShadeMode::LegacyFrameThreshold,
        frames <= later,
    ensures
        is_shaded(shade, false, false, frames),
        is_shaded(shade, qemu_running, true, frames),
        shade.qemu_was_running ==> (is_shaded(shade, true, false, frames) <==> frames
            < shade.frame_baseline + 15),
        !shade.qemu_was_running ==> is_shaded(shade, true, false, frames),
        ({
            let after = shade_after(shade, qemu_running, frames);
            let more = shade_after(after, qemu_running, later);
            &&& after.mode == shade.mode
            &&& after.qemu_was_running == qemu_running
            &&& shade.qemu_was_running != qemu_running ==> after.frame_baseline == frames
            &&& shade.qemu_was_running == qemu_running ==> after == shade
            &&& more == after
        }),
{
}

/// The shutdown is announced once, by the first request to close the window; that request is
/// put off. From then on the window is painted until the worker has finished, and closes then.
/// Without a request nothing is done.
pub proof fn windows_close_in_order(
    in_progress: bool,
    close_requested: bool,
    worker_finished: bool,
    again: bool,
    finished_later: bool,
)
    ensures
        ({
            let first = close_decision(in_progress, close_requested, worker_finished);
            let next = close_decision(in_progress || close_requested, again, finished_later);
            &&& first.announce_shutdown <==> close_requested && !in_progress
            &&& first.announce_shutdown ==> first.cancel_close
            &&& first.announce_shutdown ==> !next.announce_shutdown
            &&& in_progress || close_requested ==> next.close == finished_later && next.repaint
                == !finished_later
            &&& in_progress ==> first.close == worker_finished && first.repaint
                == !worker_finished
            &&& in_progress ==> first.cancel_close == (close_requested && !worker_finished)
            &&& !in_progress && !close_requested ==> !first.announce_shutdown
                && !first.cancel_close && !first.close && !first.repaint
            &&& !(first.close && first.repaint)
        }),
{
}

/// The switches that the window takes over and hands back are the three of the view; the rest
/// of the shared state, and of the window, is left alone.
pub proof fn the_window_mirrors_the_view_only(app: CdjApp, s: AppState)
    ensures
        ({
            let followed = follows_menu(app, s);
            let back = mirrored(app, s);
            &&& followed.jog_screen_popped == s.view.jog_screen_popped
            &&& followed.main_screen_popped == s.view.main_screen_popped
            &&& followed.debug_screen_popped == s.view.debug_screen_popped
            &&& followed.controls == app.controls
            &&& followed.shade == app.shade
            &&& followed.virtual_media == app.virtual_media
            &&& followed.lcds_blanked == app.lcds_blanked
            &&& followed.lcd_textures_need_blank == app.lcd_textures_need_blank
            &&& followed.stable_frames == app.stable_frames
            &&& followed.shutdown_in_progress == app.shutdown_in_progress
            &&& followed.wizard.upd_path == app.wizard.upd_path
            &&& followed.wizard.key_path == app.wizard.key_path
            &&& followed.wizard.target_instance == app.wizard.target_instance
            &&& followed.wizard.log == app.wizard.log
            &&& followed.wizard.provision_status == app.wizard.provision_status
            &&& followed.wizard.terminal == app.wizard.terminal
            &&& back.view.jog_screen_popped == app.jog_screen_popped
            &&& back.view.main_screen_popped == app.main_screen_popped
            &&& back.view.debug_screen_popped == app.debug_screen_popped
            &&& back.current_instance_id == s.current_instance_id
            &&& back.lifecycle == s.lifecycle
            &&& back.audio == s.audio
            &&& back.haptics == s.haptics
            &&& back.network == s.network
            &&& back.usb == s.usb
        }),
{
}

/// A stream waits until it is connected, and is well once it also has something to show.
pub proof fn stream_states_are_told(connected: bool, has_tex: bool, prefix: Seq<char>)
    ensures
        !connected ==> stream_label(connected, has_tex, prefix) == prefix + ":"@ + "wait"@,
        connected && !has_tex ==> stream_label(connected, has_tex, prefix) == prefix + ":"@
            + "conn"@,
        connected && has_tex ==> stream_label(connected, has_tex, prefix) == prefix + ":"@
            + "OK"@,
{
}

/// Buttons are ordered by their byte and, within a byte, by their bit; of two buttons one comes
/// first. The first 32 latched ones are looked at.
pub proof fn buttons_are_ordered_by_byte_and_bit(
    a: (usize, u8),
    b: (usize, u8),
    latched: Seq<(usize, u8)>,
)
    ensures
        a.0 < b.0 ==> button_order(a, b) && !button_order(b, a),
        a.0 == b.0 ==> (button_order(a, b) <==> a.1 <= b.1),
        looked_at(latched).len() == (if latched.len() < 32 {
            latched.len()
        } else {
            32
        }),
        forall|i: int|
            0 <= i < latched.len() && i < 32 ==> #[trigger] looked_at(latched)[i] == latched[i],
{
}

/// A new window has every control at rest and no other window open, asks for nothing, and is
/// blank in the legacy mode only.
pub proof fn new_windows_are_at_rest(
    app: CdjApp,
    vinyl_speed: u8,
    current_instance_id: u32,
    options: CdjAppOptions,
)
    requires
        app.is_new(vinyl_speed, current_instance_id, options),
    ensures
        app.controls.jog_pos == 0,
        app.controls.jog_vel == 0xffff,
        app.controls.jog_touch == 0,
        app.controls.rotary == 0xffff,
        app.controls.vinyl_speed == vinyl_speed,
        app.controls.lcd_touch is None,
        !app.controls.lcd_touch_ctrl_latched,
        !app.controls.lcd_nav_mode,
        app.controls.held_btn is None,
        app.controls.latched_btns@.len() == 0,
        !app.jog_screen_popped && !app.main_screen_popped && !app.debug_screen_popped,
        !app.wizard.open,
        app.wizard.target_instance >= 1,
        current_instance_id >= 1 ==> app.wizard.target_instance == current_instance_id,
        app.wizard.resources_dir == options.firmware_resources,
        app.wizard.qemu_img == options.qemu_img,
        app.wizard.boot_shade_mode == options.boot_shade_mode,
        app.virtual_media == options.virtual_media,
        app.shade.mode == options.boot_shade_mode,
        !app.shade.qemu_was_running && app.shade.frame_baseline == 0,
        app.lcds_blanked <==> options.boot_shade_mode is LegacyFrameThreshold,
        !app.lcd_textures_need_blank,
        app.stable_frames == 0,
        !app.shutdown_in_progress,
{
}

} // verus!
