//! The Linux runtime worker: which outside work comes next, and what its outcome
//! changes.
//!
//! The worker never does outside work itself. [`Worker::step`] takes the outcome
//! of the last action and returns the next one; the caller performs it.

use vstd::prelude::*;

use crate::config::LinuxQemuConfig;
use crate::control_gate::{ControlConnectionGate, GateView};
use crate::menu_state;
use crate::menu_state::{
    pack_latency, AppState, AudioState, HapticState, LifecycleState, UsbState,
};
use crate::text;
use crate::text::join_path;

verus! {

/// The size of a newly created virtual USB image.
pub const DEFAULT_IMAGE_SIZE: u64 = 32_000_000_000;

/// What the operator asked for since the last round.
#[derive(Clone, Debug)]
pub struct WorkerRequests {
    pub audio_changed: bool,
    pub audio_enabled: bool,
    pub audio_device: Option<String>,
    pub service_mode: bool,
    pub alc_toggle: bool,
    pub alc_enabled: bool,
    pub haptic_toggle: bool,
    pub haptic_enabled: bool,
    pub usb_create: bool,
    pub media_mount: bool,
    pub media_eject: bool,
    pub media_path: Option<String>,
}

/// What the worker is waiting for.
#[derive(Clone, Copy, Debug, PartialEq, Eq, Structural)]
pub enum WorkerPhase {
    /// The first launch.
    InitialStart,
    /// The first device list.
    InitialRefresh,
    /// The next round.
    Idle,
    /// A fresh device list.
    DeviceRefresh,
    /// The changed audio settings, on their way to the settings.
    AudioPersist,
    /// The old instance, stopped because of changed audio.
    AudioStop,
    /// The new instance, started because of changed audio.
    AudioStart,
    /// Whether the instance is alive.
    Alive,
    /// A dead instance, being cleaned up.
    DeadStop,
    /// A new image.
    Create,
    /// The new image in the guest's slot.
    CreateAttach,
    /// The end of the create request.
    CreateDone,
    /// Whether the image to mount exists.
    MountCheck,
    /// The image in the guest's slot.
    MountAttach,
    /// The end of the mount request.
    MountDone,
    /// The empty medium in the guest's slot.
    Eject,
    /// The end of the eject request.
    EjectDone,
    /// The changed latency-control setting, on its way to the guest.
    AlcSet,
    /// The changed latency-control setting, on its way to the settings.
    AlcPersist,
    /// The changed haptics setting, on its way to the settings.
    HapticPersist,
    /// The first latency report of a boot.
    BootLatency,
    /// The latency-control setting, pushed once for each boot.
    BootSet,
    /// The latest latency report.
    Latency,
    /// The old instance, stopped for a restart.
    RestartStop,
    /// The instance, started or restarted.
    LifecycleStart,
    /// The instance, stopped.
    LifecycleStop,
    /// Whether the instance runs, for the operator to see.
    Publish,
    /// The instance, stopped at shutdown.
    ShutdownStop,
    /// Nothing: the worker has ended.
    Finished,
}

/// The outcome of an action.
#[derive(Clone, Copy, Debug, PartialEq, Eq)]
pub enum WorkerEvent {
    /// The wait is over. Says whether the device list is due for a refresh and
    /// whether the application is shutting down.
    Tick { refresh_devices: bool, shutdown: bool },
    /// The action succeeded, or the answer is yes.
    Yes,
    /// The action failed, or the answer is no.
    No,
    /// The latest latency report, if there is one: total, guest and host.
    Latency(Option<(u32, u32, u32)>),
}

/// What the caller is to do next.
#[derive(Clone, Debug)]
pub enum WorkerAction {
    /// Wait a moment.
    Wait,
    /// Enumerate the audio output devices afresh.
    RefreshDevices,
    /// Stop the instance and drop it.
    StopInstance,
    /// Start an instance; the control gate's current launch is the one it belongs to.
    StartInstance,
    /// Say whether the instance is running.
    QueryRunning,
    /// Tell the operator that virtual media is disabled for this launch.
    ReportMediaDisabled,
    /// Create and format an image.
    CreateImage { path: String, size: u64 },
    /// Say whether the path exists.
    CheckPath { path: String },
    /// Put the image into the guest's slot and announce it to the guest.
    AttachImage { path: String },
    /// Put the empty medium into the guest's slot.
    EjectMedium { placeholder: String },
    /// Persist the mounted image, and that no physical disk is mounted.
    PersistMounted { path: String },
    /// Persist that no image is mounted.
    PersistEjected,
    /// Push the latency-control setting to the guest.
    SetAudioSync { enabled: bool },
    /// Persist whether there is audio, and the output device.
    PersistAudio { enabled: bool, device: Option<String> },
    /// Persist the latency-control setting.
    PersistAlc { enabled: bool },
    /// Persist the haptics setting.
    PersistHaptic { enabled: bool },
    /// Fetch the latest latency report.
    QueryLatency,
    /// End.
    Exit,
}

/// The worker's own state.
pub struct Worker {
    pub config: LinuxQemuConfig,
    /// The empty medium of the guest's slot.
    pub placeholder: String,
    /// An instance is held, be it alive or not.
    pub has_instance: bool,
    pub alc_pushed_for_boot: bool,
    pub requests: WorkerRequests,
    pub phase: WorkerPhase,
}

/// Everything that one step decides.
pub struct Outcome {
    pub worker: Worker,
    pub state: AppState,
    pub gate: GateView,
    pub action: WorkerAction,
}

/// Takes the one-shot requests out of the shared state, and reads the settings
/// that go with them. A change of the audio device that coincides with an audio
/// toggle is the same request: both new settings are served by one restart.
pub fn take_requests(s: &mut AppState) -> (r: WorkerRequests)
    ensures
        r == requests_in(*old(s)),
        *final(s) == requests_taken(*old(s)),
{
    let requests = WorkerRequests {
        audio_changed: s.audio.audio_toggle_requested || s.audio.audio_device_toggle_requested,
        audio_enabled: s.audio.audio_enabled,
        audio_device: clone_text(&s.audio.audio_device_uid),
        service_mode: s.lifecycle.service_mode,
        alc_toggle: s.audio.alc_toggle_requested,
        alc_enabled: s.audio.alc_enabled,
        haptic_toggle: s.haptics.haptic_toggle_requested,
        haptic_enabled: s.haptics.haptic_enabled,
        usb_create: s.usb.usb_create_req,
        media_mount: s.usb.usb_virtual_mount_req,
        media_eject: s.usb.usb_eject_req,
        media_path: clone_text(&s.usb.usb_virtual_img),
    };
    s.audio.audio_toggle_requested = false;
    s.audio.audio_device_toggle_requested = false;
    s.audio.alc_toggle_requested = false;
    s.haptics.haptic_toggle_requested = false;
    s.usb.usb_create_req = false;
    s.usb.usb_virtual_mount_req = false;
    s.usb.usb_eject_req = false;
    requests
}

/// The requests that a state holds.
pub open spec fn requests_in(s: AppState) -> WorkerRequests {
    WorkerRequests {
        audio_changed: s.audio.audio_toggle_requested || s.audio.audio_device_toggle_requested,
        audio_enabled: s.audio.audio_enabled,
        audio_device: s.audio.audio_device_uid,
        service_mode: s.lifecycle.service_mode,
        alc_toggle: s.audio.alc_toggle_requested,
        alc_enabled: s.audio.alc_enabled,
        haptic_toggle: s.haptics.haptic_toggle_requested,
        haptic_enabled: s.haptics.haptic_enabled,
        usb_create: s.usb.usb_create_req,
        media_mount: s.usb.usb_virtual_mount_req,
        media_eject: s.usb.usb_eject_req,
        media_path: s.usb.usb_virtual_img,
    }
}

/// The state with its requests taken out.
pub open spec fn requests_taken(s: AppState) -> AppState {
    AppState {
        audio: AudioState {
            audio_toggle_requested: false,
            audio_device_toggle_requested: false,
            alc_toggle_requested: false,
            ..s.audio
        },
        haptics: HapticState { haptic_toggle_requested: false, ..s.haptics },
        usb: UsbState {
            usb_create_req: false,
            usb_virtual_mount_req: false,
            usb_eject_req: false,
            ..s.usb
        },
        ..s
    }
}

fn clone_text(t: &Option<String>) -> (r: Option<String>)
    ensures
        r == *t,
{
    match t {
        Some(s) => Some(s.clone()),
        None => None,
    }
}

/// The worker asks for `action` and waits for its outcome in `phase`.
pub open spec fn asks(
    w: Worker,
    s: AppState,
    g: GateView,
    phase: WorkerPhase,
    action: WorkerAction,
) -> Outcome {
    Outcome { worker: Worker { phase, ..w }, state: s, gate: g, action }
}

/// A new launch begins; its end is awaited in `phase`.
pub open spec fn launches(w: Worker, s: AppState, g: GateView, phase: WorkerPhase) -> Outcome {
    asks(w, s, g.renewed(), phase, WorkerAction::StartInstance)
}

/// The worker after a launch: on success it holds an instance.
pub open spec fn after_launch(w: Worker, started: bool) -> Worker {
    Worker { has_instance: started, alc_pushed_for_boot: false, ..w }
}

/// The state after a launch: on success QEMU counts as running, and the boot shade is no
/// longer forced.
pub open spec fn state_after_launch(s: AppState, started: bool) -> AppState {
    AppState {
        lifecycle: LifecycleState {
            qemu_running: s.lifecycle.qemu_running || started,
            shade_forced: s.lifecycle.shade_forced && !started,
            ..s.lifecycle
        },
        ..s
    }
}

/// The control gate after a launch: one that failed is over.
pub open spec fn gate_after_launch(g: GateView, started: bool) -> GateView {
    if started {
        g
    } else {
        g.renewed()
    }
}

/// The end of a round: the operator sees whether QEMU runs and whether it has
/// reached the serial milestone.
#[verifier::opaque]
pub open spec fn round_ends(w: Worker, s: AppState, g: GateView, running: bool) -> Outcome {
    asks(
        w,
        AppState {
            lifecycle: LifecycleState {
                qemu_running: running,
                application_started: g.started(),
                ..s.lifecycle
            },
            ..s
        },
        g,
        WorkerPhase::Idle,
        WorkerAction::Wait,
    )
}

/// The last stage of a round.
#[verifier::opaque]
pub open spec fn publish_stage(w: Worker, s: AppState, g: GateView) -> Outcome {
    if w.has_instance {
        asks(w, s, g, WorkerPhase::Publish, WorkerAction::QueryRunning)
    } else {
        round_ends(w, s, g, false)
    }
}

/// The lifecycle stage: a start request comes before a restart request, and that
/// before a stop request; one of them is served in a round. A start request is
/// void while an instance is held. A restart or a stop ends the current launch.
#[verifier::opaque]
pub open spec fn lifecycle_stage(w: Worker, s: AppState, g: GateView) -> Outcome {
    if s.lifecycle.qemu_boot_requested {
        let t = AppState { lifecycle: LifecycleState { qemu_boot_requested: false, ..s.lifecycle }, ..s };
        if w.has_instance {
            publish_stage(w, t, g)
        } else {
            launches(w, t, g, WorkerPhase::LifecycleStart)
        }
    } else if s.lifecycle.restart_requested {
        let t = AppState { lifecycle: LifecycleState { restart_requested: false, ..s.lifecycle }, ..s };
        if w.has_instance {
            asks(w, t, g.renewed(), WorkerPhase::RestartStop, WorkerAction::StopInstance)
        } else {
            launches(w, t, g.renewed(), WorkerPhase::LifecycleStart)
        }
    } else if s.lifecycle.stop_requested {
        let t = AppState { lifecycle: LifecycleState { stop_requested: false, ..s.lifecycle }, ..s };
        if w.has_instance {
            asks(w, t, g.renewed(), WorkerPhase::LifecycleStop, WorkerAction::StopInstance)
        } else {
            publish_stage(w, t, g.renewed())
        }
    } else {
        publish_stage(w, s, g)
    }
}

/// The stage that takes in a latency report.
#[verifier::opaque]
pub open spec fn latency_arrives(
    w: Worker,
    s: AppState,
    g: GateView,
    report: Option<(u32, u32, u32)>,
) -> Outcome {
    match report {
        Some((total, guest, host)) => lifecycle_stage(
            w,
            AppState {
                audio: AudioState {
                    latency_packed: menu_state::packed_latency(total, guest, host) as u64,
                    ..s.audio
                },
                ..s
            },
            g,
        ),
        None => lifecycle_stage(w, s, g),
    }
}

/// The stage that asks for the latency.
pub open spec fn latency_stage(w: Worker, s: AppState, g: GateView) -> Outcome {
    asks(w, s, g, WorkerPhase::Latency, WorkerAction::QueryLatency)
}

/// The stage that pushes the latency-control setting once for each boot, as soon
/// as the guest reports a latency.
#[verifier::opaque]
pub open spec fn boot_alc_stage(w: Worker, s: AppState, g: GateView) -> Outcome {
    if !w.alc_pushed_for_boot && w.has_instance {
        asks(w, s, g, WorkerPhase::BootLatency, WorkerAction::QueryLatency)
    } else {
        latency_stage(w, s, g)
    }
}

/// The stage that serves a change of the haptics setting.
#[verifier::opaque]
pub open spec fn haptic_stage(w: Worker, s: AppState, g: GateView) -> Outcome {
    if w.requests.haptic_toggle {
        asks(
            w,
            s,
            g,
            WorkerPhase::HapticPersist,
            WorkerAction::PersistHaptic { enabled: w.requests.haptic_enabled },
        )
    } else {
        boot_alc_stage(w, s, g)
    }
}

/// The stage that serves a change of the latency-control setting.
#[verifier::opaque]
pub open spec fn alc_stage(w: Worker, s: AppState, g: GateView) -> Outcome {
    if w.requests.alc_toggle {
        asks(
            w,
            s,
            g,
            WorkerPhase::AlcSet,
            WorkerAction::SetAudioSync { enabled: w.requests.alc_enabled },
        )
    } else {
        haptic_stage(w, s, g)
    }
}

/// The stage that serves an eject request.
#[verifier::opaque]
pub open spec fn eject_stage(w: Worker, s: AppState, g: GateView) -> Outcome {
    if !w.requests.media_eject {
        alc_stage(w, s, g)
    } else if !w.config.virtual_media {
        asks(w, s, g, WorkerPhase::EjectDone, WorkerAction::ReportMediaDisabled)
    } else {
        asks(w, s, g, WorkerPhase::Eject, WorkerAction::EjectMedium { placeholder: w.placeholder })
    }
}

/// The stage that serves a mount request. Without a path nothing is mounted.
#[verifier::opaque]
pub open spec fn mount_stage(w: Worker, s: AppState, g: GateView) -> Outcome {
    if !w.requests.media_mount {
        eject_stage(w, s, g)
    } else if !w.config.virtual_media {
        asks(w, s, g, WorkerPhase::MountDone, WorkerAction::ReportMediaDisabled)
    } else {
        match w.requests.media_path {
            Some(path) => asks(w, s, g, WorkerPhase::MountCheck, WorkerAction::CheckPath { path }),
            None => eject_stage(w, s, g),
        }
    }
}

/// The stage that serves a create request. Without a path nothing is created.
#[verifier::opaque]
pub open spec fn create_stage(w: Worker, s: AppState, g: GateView) -> Outcome {
    if !w.requests.usb_create {
        mount_stage(w, s, g)
    } else if !w.config.virtual_media {
        asks(w, s, g, WorkerPhase::CreateDone, WorkerAction::ReportMediaDisabled)
    } else {
        match w.requests.media_path {
            Some(path) => asks(
                w,
                s,
                g,
                WorkerPhase::Create,
                WorkerAction::CreateImage { path, size: DEFAULT_IMAGE_SIZE },
            ),
            None => mount_stage(w, s, g),
        }
    }
}

/// The stage that finds out whether the instance is still alive. Without an
/// instance there are no media to serve.
#[verifier::opaque]
pub open spec fn alive_stage(w: Worker, s: AppState, g: GateView) -> Outcome {
    if w.has_instance {
        asks(w, s, g, WorkerPhase::Alive, WorkerAction::QueryRunning)
    } else {
        alc_stage(w, s, g)
    }
}

/// The restart because of changed audio: the current launch ends, and a new one begins.
#[verifier::opaque]
pub open spec fn audio_restart(w: Worker, s: AppState, g: GateView) -> Outcome {
    if w.has_instance {
        asks(w, s, g.renewed(), WorkerPhase::AudioStop, WorkerAction::StopInstance)
    } else {
        launches(w, s, g.renewed(), WorkerPhase::AudioStart)
    }
}

/// The stage that serves a change of the audio settings: they are persisted, and the
/// instance is restarted with them.
#[verifier::opaque]
pub open spec fn audio_stage(w: Worker, s: AppState, g: GateView) -> Outcome {
    if !w.requests.audio_changed {
        alive_stage(w, s, g)
    } else {
        let config = LinuxQemuConfig {
            audio: w.requests.audio_enabled,
            audio_device: w.requests.audio_device,
            ..w.config
        };
        asks(
            Worker { config, ..w },
            s,
            g,
            WorkerPhase::AudioPersist,
            WorkerAction::PersistAudio {
                enabled: w.requests.audio_enabled,
                device: w.requests.audio_device,
            },
        )
    }
}

/// The beginning of a round.
pub open spec fn round_begins(w: Worker, s: AppState, g: GateView, refresh: bool) -> Outcome {
    let requests = requests_in(s);
    let config = LinuxQemuConfig {
        guest: crate::config::GuestRuntimeConfig {
            service_mode: requests.service_mode,
            ..w.config.guest
        },
        ..w.config
    };
    let v = Worker { requests, config, ..w };
    let t = requests_taken(s);
    if refresh {
        asks(v, t, g, WorkerPhase::DeviceRefresh, WorkerAction::RefreshDevices)
    } else {
        audio_stage(v, t, g)
    }
}

/// The end of the worker.
#[verifier::opaque]
pub open spec fn finishes(w: Worker, s: AppState, g: GateView) -> Outcome {
    asks(
        w,
        AppState {
            lifecycle: LifecycleState {
                qemu_running: false,
                application_started: false,
                ..s.lifecycle
            },
            ..s
        },
        g,
        WorkerPhase::Finished,
        WorkerAction::Exit,
    )
}

/// A launch or its preparation has ended.
#[verifier::opaque]
pub open spec fn launch_step(w: Worker, s: AppState, g: GateView, event: WorkerEvent) -> Outcome {
    let started = event == WorkerEvent::Yes;
    let dropped = Worker { has_instance: false, ..w };
    let v = after_launch(w, started);
    let t = state_after_launch(s, started);
    let h = gate_after_launch(g, started);
    match w.phase {
        WorkerPhase::InitialStart => asks(
            v,
            t,
            h,
            WorkerPhase::InitialRefresh,
            WorkerAction::RefreshDevices,
        ),
        WorkerPhase::AudioPersist => audio_restart(w, s, g),
        WorkerPhase::AudioStop => launches(dropped, s, g, WorkerPhase::AudioStart),
        WorkerPhase::AudioStart => alive_stage(v, t, h),
        WorkerPhase::RestartStop => launches(dropped, s, g, WorkerPhase::LifecycleStart),
        WorkerPhase::LifecycleStart => publish_stage(v, t, h),
        _ => publish_stage(dropped, s, g),
    }
}

/// A round begins or ends.
#[verifier::opaque]
pub open spec fn round_step(w: Worker, s: AppState, g: GateView, event: WorkerEvent) -> Outcome {
    match w.phase {
        WorkerPhase::InitialRefresh => asks(w, s, g, WorkerPhase::Idle, WorkerAction::Wait),
        WorkerPhase::Idle => match event {
            WorkerEvent::Tick { refresh_devices, shutdown } => if !shutdown {
                round_begins(w, s, g, refresh_devices)
            } else if w.has_instance {
                asks(w, s, g, WorkerPhase::ShutdownStop, WorkerAction::StopInstance)
            } else {
                finishes(w, s, g)
            },
            _ => asks(w, s, g, WorkerPhase::Idle, WorkerAction::Wait),
        },
        WorkerPhase::DeviceRefresh => audio_stage(w, s, g),
        WorkerPhase::Publish => round_ends(w, s, g, event == WorkerEvent::Yes),
        WorkerPhase::ShutdownStop => finishes(Worker { has_instance: false, ..w }, s, g),
        _ => asks(w, s, g, WorkerPhase::Finished, WorkerAction::Exit),
    }
}

/// The instance turned out to be alive or dead, or a dead one was cleaned up. A
/// dead instance ends the current launch.
#[verifier::opaque]
pub open spec fn alive_step(w: Worker, s: AppState, g: GateView, event: WorkerEvent) -> Outcome {
    if w.phase == WorkerPhase::DeadStop {
        alc_stage(Worker { has_instance: false, ..w }, s, g)
    } else if event == WorkerEvent::Yes {
        create_stage(w, s, g)
    } else {
        asks(w, s, g.renewed(), WorkerPhase::DeadStop, WorkerAction::StopInstance)
    }
}

/// A part of a create request has ended: a created image is attached, and an
/// attached image is persisted.
#[verifier::opaque]
pub open spec fn create_step(w: Worker, s: AppState, g: GateView, event: WorkerEvent) -> Outcome {
    if event == WorkerEvent::Yes && w.requests.media_path is Some && w.phase
        != WorkerPhase::CreateDone {
        let path = w.requests.media_path->0;
        if w.phase == WorkerPhase::Create {
            asks(w, s, g, WorkerPhase::CreateAttach, WorkerAction::AttachImage { path })
        } else {
            asks(
                w,
                mounted(s, true),
                g,
                WorkerPhase::CreateDone,
                WorkerAction::PersistMounted { path },
            )
        }
    } else {
        mount_stage(w, s, g)
    }
}

/// A part of a mount request has ended: an image that exists is attached, and an
/// attached image is persisted.
#[verifier::opaque]
pub open spec fn mount_step(w: Worker, s: AppState, g: GateView, event: WorkerEvent) -> Outcome {
    if event == WorkerEvent::Yes && w.requests.media_path is Some && w.phase
        != WorkerPhase::MountDone {
        let path = w.requests.media_path->0;
        if w.phase == WorkerPhase::MountCheck {
            asks(w, s, g, WorkerPhase::MountAttach, WorkerAction::AttachImage { path })
        } else {
            asks(
                w,
                mounted(s, true),
                g,
                WorkerPhase::MountDone,
                WorkerAction::PersistMounted { path },
            )
        }
    } else {
        eject_stage(w, s, g)
    }
}

/// A part of an eject request has ended.
#[verifier::opaque]
pub open spec fn eject_step(w: Worker, s: AppState, g: GateView, event: WorkerEvent) -> Outcome {
    if event == WorkerEvent::Yes && w.phase == WorkerPhase::Eject {
        asks(w, mounted(s, false), g, WorkerPhase::EjectDone, WorkerAction::PersistEjected)
    } else {
        alc_stage(w, s, g)
    }
}

/// The latency report that an event carries.
pub open spec fn report_of(event: WorkerEvent) -> Option<(u32, u32, u32)> {
    match event {
        WorkerEvent::Latency(l) => l,
        _ => None,
    }
}

/// A part of the latency work has ended. The setting counts as pushed for this
/// boot once the guest has taken it.
#[verifier::opaque]
pub open spec fn latency_step(w: Worker, s: AppState, g: GateView, event: WorkerEvent) -> Outcome {
    let enabled = w.requests.alc_enabled;
    match w.phase {
        WorkerPhase::AlcSet => asks(
            w,
            s,
            g,
            WorkerPhase::AlcPersist,
            WorkerAction::PersistAlc { enabled },
        ),
        WorkerPhase::AlcPersist => haptic_stage(w, s, g),
        WorkerPhase::HapticPersist => boot_alc_stage(w, s, g),
        WorkerPhase::BootLatency => if report_of(event) is Some {
            asks(w, s, g, WorkerPhase::BootSet, WorkerAction::SetAudioSync { enabled })
        } else {
            latency_stage(w, s, g)
        },
        WorkerPhase::BootSet => latency_stage(
            Worker {
                alc_pushed_for_boot: w.alc_pushed_for_boot || event == WorkerEvent::Yes,
                ..w
            },
            s,
            g,
        ),
        _ => latency_arrives(w, s, g, report_of(event)),
    }
}

/// What a step decides: the outcome of the last action, `event`, arrives while the
/// worker waits in its phase. An event that does not belong to the phase counts
/// as "no" or as "no report".
pub open spec fn stepped(w: Worker, s: AppState, g: GateView, event: WorkerEvent) -> Outcome {
    match w.phase {
        WorkerPhase::InitialStart | WorkerPhase::AudioPersist | WorkerPhase::AudioStop
        | WorkerPhase::AudioStart | WorkerPhase::RestartStop | WorkerPhase::LifecycleStart
        | WorkerPhase::LifecycleStop => launch_step(w, s, g, event),
        WorkerPhase::InitialRefresh | WorkerPhase::Idle | WorkerPhase::DeviceRefresh
        | WorkerPhase::Publish | WorkerPhase::ShutdownStop | WorkerPhase::Finished => round_step(
            w,
            s,
            g,
            event,
        ),
        WorkerPhase::Alive | WorkerPhase::DeadStop => alive_step(w, s, g, event),
        WorkerPhase::Create | WorkerPhase::CreateAttach | WorkerPhase::CreateDone => create_step(
            w,
            s,
            g,
            event,
        ),
        WorkerPhase::MountCheck | WorkerPhase::MountAttach | WorkerPhase::MountDone => mount_step(
            w,
            s,
            g,
            event,
        ),
        WorkerPhase::Eject | WorkerPhase::EjectDone => eject_step(w, s, g, event),
        WorkerPhase::AlcSet | WorkerPhase::AlcPersist | WorkerPhase::HapticPersist
        | WorkerPhase::BootLatency | WorkerPhase::BootSet
        | WorkerPhase::Latency => latency_step(w, s, g, event),
    }
}

/// The state with the virtual image mounted or not.
pub open spec fn mounted(s: AppState, is_mounted: bool) -> AppState {
    AppState { usb: UsbState { usb_virtual_mounted: is_mounted, ..s.usb }, ..s }
}

impl Worker {
    /// The empty medium is the placeholder file in the run directory, and only an
    /// instance that is held is asked whether it is alive.
    pub open spec fn wf(&self) -> bool {
        &&& self.placeholder@ == text::joined(self.config.guest.run_dir@, "usb.empty.medium"@)
        &&& self.phase == WorkerPhase::Alive ==> self.has_instance
    }

    /// What holds after a step: the parts add up to `o`.
    spec fn is_outcome(&self, s: AppState, g: GateView, action: WorkerAction, o: Outcome) -> bool {
        *self == o.worker && s == o.state && g == o.gate && action == o.action
    }

    /// A worker before its first action. With `start` the first launch begins at
    /// once.
    pub fn new(config: LinuxQemuConfig, start: bool, gate: &mut ControlConnectionGate) -> (r: (
        Worker,
        WorkerAction,
    ))
        requires
            old(gate)@.epoch < u64::MAX,
        ensures
            r.0.wf(),
            r.0.config == config,
            !r.0.has_instance,
            !r.0.alc_pushed_for_boot,
            start ==> r.0.phase == WorkerPhase::InitialStart && r.1 == WorkerAction::StartInstance
                && final(gate)@ == old(gate)@.renewed(),
            !start ==> r.0.phase == WorkerPhase::InitialRefresh && r.1
                == WorkerAction::RefreshDevices && final(gate)@ == old(gate)@,
    {
        let placeholder = join_path(config.guest.run_dir.as_str(), "usb.empty.medium");
        let mut worker = Worker {
            config,
            placeholder,
            has_instance: false,
            alc_pushed_for_boot: false,
            requests: WorkerRequests {
                audio_changed: false,
                audio_enabled: false,
                audio_device: None,
                service_mode: false,
                alc_toggle: false,
                alc_enabled: false,
                haptic_toggle: false,
                haptic_enabled: false,
                usb_create: false,
                media_mount: false,
                media_eject: false,
                media_path: None,
            },
            phase: WorkerPhase::InitialRefresh,
        };
        if start {
            gate.begin_launch();
            worker.phase = WorkerPhase::InitialStart;
            (worker, WorkerAction::StartInstance)
        } else {
            (worker, WorkerAction::RefreshDevices)
        }
    }

    fn launch(&mut self, gate: &mut ControlConnectionGate, phase: WorkerPhase) -> (r: WorkerAction)
        requires
            old(gate)@.epoch < u64::MAX,
        ensures
            *final(self) == (Worker { phase, ..*old(self) }),
            final(gate)@ == old(gate)@.renewed(),
            r == WorkerAction::StartInstance,
    {
        gate.begin_launch();
        self.phase = phase;
        WorkerAction::StartInstance
    }

    fn launch_ended(
        &mut self,
        s: &mut AppState,
        gate: &mut ControlConnectionGate,
        started: bool,
    )
        ensures
            *final(self) == after_launch(*old(self), started),
            *final(s) == state_after_launch(*old(s), started),
            final(gate)@ == gate_after_launch(old(gate)@, started),
    {
        self.has_instance = started;
        self.alc_pushed_for_boot = false;
        s.lifecycle.qemu_running = s.lifecycle.qemu_running || started;
        s.lifecycle.shade_forced = s.lifecycle.shade_forced && !started;
        if !started {
            gate.invalidate();
        }
    }

    fn end_round(&mut self, s: &mut AppState, gate: &ControlConnectionGate, running: bool) -> (r:
        WorkerAction)
        ensures
            final(self).is_outcome(
                *final(s),
                gate@,
                r,
                round_ends(*old(self), *old(s), gate@, running),
            ),
    {
        reveal(round_ends);
        s.lifecycle.qemu_running = running;
        s.lifecycle.application_started = gate.application_started();
        self.phase = WorkerPhase::Idle;
        WorkerAction::Wait
    }

    fn enter_publish(&mut self, s: &mut AppState, gate: &ControlConnectionGate) -> (r: WorkerAction)
        ensures
            final(self).is_outcome(
                *final(s),
                gate@,
                r,
                publish_stage(*old(self), *old(s), gate@),
            ),
    {
        reveal(publish_stage);
        if self.has_instance {
            self.phase = WorkerPhase::Publish;
            WorkerAction::QueryRunning
        } else {
            self.end_round(s, gate, false)
        }
    }

    fn enter_lifecycle(&mut self, s: &mut AppState, gate: &mut ControlConnectionGate) -> (r:
        WorkerAction)
        requires
            old(gate)@.epoch < u64::MAX - 1,
        ensures
            final(self).is_outcome(
                *final(s),
                final(gate)@,
                r,
                lifecycle_stage(*old(self), *old(s), old(gate)@),
            ),
    {
        reveal(lifecycle_stage);
        if s.lifecycle.qemu_boot_requested {
            s.lifecycle.qemu_boot_requested = false;
            if self.has_instance {
                self.enter_publish(s, gate)
            } else {
                self.launch(gate, WorkerPhase::LifecycleStart)
            }
        } else if s.lifecycle.restart_requested {
            s.lifecycle.restart_requested = false;
            gate.invalidate();
            if self.has_instance {
                self.phase = WorkerPhase::RestartStop;
                WorkerAction::StopInstance
            } else {
                self.launch(gate, WorkerPhase::LifecycleStart)
            }
        } else if s.lifecycle.stop_requested {
            s.lifecycle.stop_requested = false;
            gate.invalidate();
            if self.has_instance {
                self.phase = WorkerPhase::LifecycleStop;
                WorkerAction::StopInstance
            } else {
                self.enter_publish(s, gate)
            }
        } else {
            self.enter_publish(s, gate)
        }
    }

    fn take_latency(
        &mut self,
        s: &mut AppState,
        gate: &mut ControlConnectionGate,
        report: Option<(u32, u32, u32)>,
    ) -> (r: WorkerAction)
        requires
            old(gate)@.epoch < u64::MAX - 1,
        ensures
            final(self).is_outcome(
                *final(s),
                final(gate)@,
                r,
                latency_arrives(*old(self), *old(s), old(gate)@, report),
            ),
    {
        reveal(latency_arrives);
        if let Some((total, guest, host)) = report {
            s.audio.latency_packed = pack_latency(total, guest, host);
        }
        self.enter_lifecycle(s, gate)
    }

    fn enter_latency(&mut self) -> (r: WorkerAction)
        ensures
            *final(self) == (Worker { phase: WorkerPhase::Latency, ..*old(self) }),
            r == WorkerAction::QueryLatency,
    {
        self.phase = WorkerPhase::Latency;
        WorkerAction::QueryLatency
    }

    fn enter_boot_alc(&mut self, s: &AppState, gate: &ControlConnectionGate) -> (r: WorkerAction)
        ensures
            final(self).is_outcome(*s, gate@, r, boot_alc_stage(*old(self), *s, gate@)),
    {
        reveal(boot_alc_stage);
        if !self.alc_pushed_for_boot && self.has_instance {
            self.phase = WorkerPhase::BootLatency;
            WorkerAction::QueryLatency
        } else {
            self.enter_latency()
        }
    }

    fn enter_haptic(&mut self, s: &AppState, gate: &ControlConnectionGate) -> (r: WorkerAction)
        ensures
            final(self).is_outcome(*s, gate@, r, haptic_stage(*old(self), *s, gate@)),
    {
        reveal(haptic_stage);
        if self.requests.haptic_toggle {
            self.phase = WorkerPhase::HapticPersist;
            WorkerAction::PersistHaptic { enabled: self.requests.haptic_enabled }
        } else {
            self.enter_boot_alc(s, gate)
        }
    }

    fn enter_alc(&mut self, s: &AppState, gate: &ControlConnectionGate) -> (r: WorkerAction)
        ensures
            final(self).is_outcome(*s, gate@, r, alc_stage(*old(self), *s, gate@)),
    {
        reveal(alc_stage);
        if self.requests.alc_toggle {
            self.phase = WorkerPhase::AlcSet;
            WorkerAction::SetAudioSync { enabled: self.requests.alc_enabled }
        } else {
            self.enter_haptic(s, gate)
        }
    }

    fn enter_eject(&mut self, s: &AppState, gate: &ControlConnectionGate) -> (r: WorkerAction)
        ensures
            final(self).is_outcome(*s, gate@, r, eject_stage(*old(self), *s, gate@)),
    {
        reveal(eject_stage);
        if !self.requests.media_eject {
            self.enter_alc(s, gate)
        } else if !self.config.virtual_media {
            self.phase = WorkerPhase::EjectDone;
            WorkerAction::ReportMediaDisabled
        } else {
            self.phase = WorkerPhase::Eject;
            WorkerAction::EjectMedium { placeholder: self.placeholder.clone() }
        }
    }

    fn enter_mount(&mut self, s: &AppState, gate: &ControlConnectionGate) -> (r: WorkerAction)
        ensures
            final(self).is_outcome(*s, gate@, r, mount_stage(*old(self), *s, gate@)),
    {
        reveal(mount_stage);
        if !self.requests.media_mount {
            return self.enter_eject(s, gate);
        }
        if !self.config.virtual_media {
            self.phase = WorkerPhase::MountDone;
            return WorkerAction::ReportMediaDisabled;
        }
        match clone_text(&self.requests.media_path) {
            Some(path) => {
                self.phase = WorkerPhase::MountCheck;
                WorkerAction::CheckPath { path }
            },
            None => self.enter_eject(s, gate),
        }
    }

    fn enter_create(&mut self, s: &AppState, gate: &ControlConnectionGate) -> (r: WorkerAction)
        ensures
            final(self).is_outcome(*s, gate@, r, create_stage(*old(self), *s, gate@)),
    {
        reveal(create_stage);
        if !self.requests.usb_create {
            return self.enter_mount(s, gate);
        }
        if !self.config.virtual_media {
            self.phase = WorkerPhase::CreateDone;
            return WorkerAction::ReportMediaDisabled;
        }
        match clone_text(&self.requests.media_path) {
            Some(path) => {
                self.phase = WorkerPhase::Create;
                WorkerAction::CreateImage { path, size: DEFAULT_IMAGE_SIZE }
            },
            None => self.enter_mount(s, gate),
        }
    }

    fn enter_alive(&mut self, s: &AppState, gate: &ControlConnectionGate) -> (r: WorkerAction)
        ensures
            final(self).is_outcome(*s, gate@, r, alive_stage(*old(self), *s, gate@)),
    {
        reveal(alive_stage);
        if self.has_instance {
            self.phase = WorkerPhase::Alive;
            WorkerAction::QueryRunning
        } else {
            self.enter_alc(s, gate)
        }
    }

    fn restart_audio(&mut self, s: &AppState, gate: &mut ControlConnectionGate) -> (r: WorkerAction)
        requires
            old(gate)@.epoch < u64::MAX - 1,
        ensures
            final(self).is_outcome(*s, final(gate)@, r, audio_restart(*old(self), *s, old(gate)@)),
    {
        reveal(audio_restart);
        gate.invalidate();
        if self.has_instance {
            self.phase = WorkerPhase::AudioStop;
            WorkerAction::StopInstance
        } else {
            self.launch(gate, WorkerPhase::AudioStart)
        }
    }

    fn enter_audio(&mut self, s: &AppState, gate: &ControlConnectionGate) -> (r: WorkerAction)
        ensures
            final(self).is_outcome(*s, gate@, r, audio_stage(*old(self), *s, gate@)),
    {
        reveal(audio_stage);
        if !self.requests.audio_changed {
            return self.enter_alive(s, gate);
        }
        self.config.audio = self.requests.audio_enabled;
        self.config.audio_device = clone_text(&self.requests.audio_device);
        self.phase = WorkerPhase::AudioPersist;
        WorkerAction::PersistAudio {
            enabled: self.requests.audio_enabled,
            device: clone_text(&self.requests.audio_device),
        }
    }

    fn begin_round(
        &mut self,
        s: &mut AppState,
        gate: &mut ControlConnectionGate,
        refresh: bool,
    ) -> (r: WorkerAction)
        requires
            old(gate)@.epoch < u64::MAX - 1,
        ensures
            final(self).is_outcome(
                *final(s),
                final(gate)@,
                r,
                round_begins(*old(self), *old(s), old(gate)@, refresh),
            ),
    {
        self.requests = take_requests(s);
        self.config.guest.service_mode = self.requests.service_mode;
        if refresh {
            self.phase = WorkerPhase::DeviceRefresh;
            WorkerAction::RefreshDevices
        } else {
            self.enter_audio(s, gate)
        }
    }

    fn finish(&mut self, s: &mut AppState, gate: &ControlConnectionGate) -> (r: WorkerAction)
        ensures
            final(self).is_outcome(*final(s), gate@, r, finishes(*old(self), *old(s), gate@)),
    {
        reveal(finishes);
        s.lifecycle.qemu_running = false;
        s.lifecycle.application_started = false;
        self.phase = WorkerPhase::Finished;
        WorkerAction::Exit
    }
}

/// Whether an event says yes.
fn is_yes(event: WorkerEvent) -> (r: bool)
    ensures
        r == (event == WorkerEvent::Yes),
{
    match event {
        WorkerEvent::Yes => true,
        _ => false,
    }
}

/// The latency report that an event carries.
fn report_in(event: WorkerEvent) -> (r: Option<(u32, u32, u32)>)
    ensures
        r == report_of(event),
{
    match event {
        WorkerEvent::Latency(l) => l,
        _ => None,
    }
}

impl Worker {
    fn step_launch(
        &mut self,
        s: &mut AppState,
        gate: &mut ControlConnectionGate,
        event: WorkerEvent,
    ) -> (r: WorkerAction)
        requires
            old(gate)@.epoch < u64::MAX - 1,
            old(self).phase == WorkerPhase::InitialStart
                || old(self).phase == WorkerPhase::AudioPersist
                || old(self).phase == WorkerPhase::AudioStop
                || old(self).phase == WorkerPhase::AudioStart
                || old(self).phase == WorkerPhase::RestartStop
                || old(self).phase == WorkerPhase::LifecycleStart
                || old(self).phase == WorkerPhase::LifecycleStop,
        ensures
            final(self).is_outcome(
                *final(s),
                final(gate)@,
                r,
                launch_step(*old(self), *old(s), old(gate)@, event),
            ),
    {
        reveal(launch_step);
        let yes = is_yes(event);
        match self.phase {
            WorkerPhase::InitialStart => {
                self.launch_ended(s, gate, yes);
                self.phase = WorkerPhase::InitialRefresh;
                WorkerAction::RefreshDevices
            },
            WorkerPhase::AudioPersist => self.restart_audio(s, gate),
            WorkerPhase::AudioStop => {
                self.has_instance = false;
                self.launch(gate, WorkerPhase::AudioStart)
            },
            WorkerPhase::AudioStart => {
                self.launch_ended(s, gate, yes);
                self.enter_alive(s, gate)
            },
            WorkerPhase::RestartStop => {
                self.has_instance = false;
                self.launch(gate, WorkerPhase::LifecycleStart)
            },
            WorkerPhase::LifecycleStart => {
                self.launch_ended(s, gate, yes);
                self.enter_publish(s, gate)
            },
            _ => {
                self.has_instance = false;
                self.enter_publish(s, gate)
            },
        }
    }

    fn step_round(
        &mut self,
        s: &mut AppState,
        gate: &mut ControlConnectionGate,
        event: WorkerEvent,
    ) -> (r: WorkerAction)
        requires
            old(gate)@.epoch < u64::MAX - 1,
            old(self).phase == WorkerPhase::InitialRefresh
                || old(self).phase == WorkerPhase::Idle
                || old(self).phase == WorkerPhase::DeviceRefresh
                || old(self).phase == WorkerPhase::Publish
                || old(self).phase == WorkerPhase::ShutdownStop
                || old(self).phase == WorkerPhase::Finished,
        ensures
            final(self).is_outcome(
                *final(s),
                final(gate)@,
                r,
                round_step(*old(self), *old(s), old(gate)@, event),
            ),
    {
        reveal(round_step);
        match self.phase {
            WorkerPhase::InitialRefresh => {
                self.phase = WorkerPhase::Idle;
                WorkerAction::Wait
            },
            WorkerPhase::Idle => match event {
                WorkerEvent::Tick { refresh_devices, shutdown } => {
                    if !shutdown {
                        self.begin_round(s, gate, refresh_devices)
                    } else if self.has_instance {
                        self.phase = WorkerPhase::ShutdownStop;
                        WorkerAction::StopInstance
                    } else {
                        self.finish(s, gate)
                    }
                },
                _ => WorkerAction::Wait,
            },
            WorkerPhase::DeviceRefresh => self.enter_audio(s, gate),
            WorkerPhase::Publish => self.end_round(s, gate, is_yes(event)),
            WorkerPhase::ShutdownStop => {
                self.has_instance = false;
                self.finish(s, gate)
            },
            _ => WorkerAction::Exit,
        }
    }

    fn step_alive(
        &mut self,
        s: &mut AppState,
        gate: &mut ControlConnectionGate,
        event: WorkerEvent,
    ) -> (r: WorkerAction)
        requires
            old(gate)@.epoch < u64::MAX - 1,
            old(self).phase == WorkerPhase::Alive
                || old(self).phase == WorkerPhase::DeadStop,
        ensures
            final(self).is_outcome(
                *final(s),
                final(gate)@,
                r,
                alive_step(*old(self), *old(s), old(gate)@, event),
            ),
    {
        reveal(alive_step);
        match self.phase {
            WorkerPhase::Alive => {
                if is_yes(event) {
                    self.enter_create(s, gate)
                } else {
                    gate.invalidate();
                    self.phase = WorkerPhase::DeadStop;
                    WorkerAction::StopInstance
                }
            },
            _ => {
                self.has_instance = false;
                self.enter_alc(s, gate)
            },
        }
    }

    fn step_create(
        &mut self,
        s: &mut AppState,
        gate: &mut ControlConnectionGate,
        event: WorkerEvent,
    ) -> (r: WorkerAction)
        requires
            old(gate)@.epoch < u64::MAX - 1,
            old(self).phase == WorkerPhase::Create
                || old(self).phase == WorkerPhase::CreateAttach
                || old(self).phase == WorkerPhase::CreateDone,
        ensures
            final(self).is_outcome(
                *final(s),
                final(gate)@,
                r,
                create_step(*old(self), *old(s), old(gate)@, event),
            ),
    {
        reveal(create_step);
        if !is_yes(event) {
            return self.enter_mount(s, gate);
        }
        let path = match clone_text(&self.requests.media_path) {
            Some(path) => path,
            None => {
                return self.enter_mount(s, gate);
            },
        };
        match self.phase {
            WorkerPhase::Create => {
                self.phase = WorkerPhase::CreateAttach;
                WorkerAction::AttachImage { path }
            },
            WorkerPhase::CreateAttach => {
                s.usb.usb_virtual_mounted = true;
                self.phase = WorkerPhase::CreateDone;
                WorkerAction::PersistMounted { path }
            },
            _ => self.enter_mount(s, gate),
        }
    }

    fn step_mount(
        &mut self,
        s: &mut AppState,
        gate: &mut ControlConnectionGate,
        event: WorkerEvent,
    ) -> (r: WorkerAction)
        requires
            old(gate)@.epoch < u64::MAX - 1,
            old(self).phase == WorkerPhase::MountCheck
                || old(self).phase == WorkerPhase::MountAttach
                || old(self).phase == WorkerPhase::MountDone,
        ensures
            final(self).is_outcome(
                *final(s),
                final(gate)@,
                r,
                mount_step(*old(self), *old(s), old(gate)@, event),
            ),
    {
        reveal(mount_step);
        if !is_yes(event) {
            return self.enter_eject(s, gate);
        }
        let path = match clone_text(&self.requests.media_path) {
            Some(path) => path,
            None => {
                return self.enter_eject(s, gate);
            },
        };
        match self.phase {
            WorkerPhase::MountCheck => {
                self.phase = WorkerPhase::MountAttach;
                WorkerAction::AttachImage { path }
            },
            WorkerPhase::MountAttach => {
                s.usb.usb_virtual_mounted = true;
                self.phase = WorkerPhase::MountDone;
                WorkerAction::PersistMounted { path }
            },
            _ => self.enter_eject(s, gate),
        }
    }

    fn step_eject(
        &mut self,
        s: &mut AppState,
        gate: &mut ControlConnectionGate,
        event: WorkerEvent,
    ) -> (r: WorkerAction)
        requires
            old(gate)@.epoch < u64::MAX - 1,
            old(self).phase == WorkerPhase::Eject
                || old(self).phase == WorkerPhase::EjectDone,
        ensures
            final(self).is_outcome(
                *final(s),
                final(gate)@,
                r,
                eject_step(*old(self), *old(s), old(gate)@, event),
            ),
    {
        reveal(eject_step);
        if self.phase == WorkerPhase::Eject && is_yes(event) {
            s.usb.usb_virtual_mounted = false;
            self.phase = WorkerPhase::EjectDone;
            WorkerAction::PersistEjected
        } else {
            self.enter_alc(s, gate)
        }
    }

    fn step_latency(
        &mut self,
        s: &mut AppState,
        gate: &mut ControlConnectionGate,
        event: WorkerEvent,
    ) -> (r: WorkerAction)
        requires
            old(gate)@.epoch < u64::MAX - 1,
            old(self).phase == WorkerPhase::AlcSet
                || old(self).phase == WorkerPhase::AlcPersist
                || old(self).phase == WorkerPhase::HapticPersist
                || old(self).phase == WorkerPhase::BootLatency
                || old(self).phase == WorkerPhase::BootSet
                || old(self).phase == WorkerPhase::Latency,
        ensures
            final(self).is_outcome(
                *final(s),
                final(gate)@,
                r,
                latency_step(*old(self), *old(s), old(gate)@, event),
            ),
    {
        reveal(latency_step);
        match self.phase {
            WorkerPhase::AlcSet => {
                self.phase = WorkerPhase::AlcPersist;
                WorkerAction::PersistAlc { enabled: self.requests.alc_enabled }
            },
            WorkerPhase::AlcPersist => self.enter_haptic(s, gate),
            WorkerPhase::HapticPersist => self.enter_boot_alc(s, gate),
            WorkerPhase::BootLatency => {
                if report_in(event).is_some() {
                    self.phase = WorkerPhase::BootSet;
                    WorkerAction::SetAudioSync { enabled: self.requests.alc_enabled }
                } else {
                    self.enter_latency()
                }
            },
            WorkerPhase::BootSet => {
                self.alc_pushed_for_boot = self.alc_pushed_for_boot || is_yes(event);
                self.enter_latency()
            },
            _ => self.take_latency(s, gate, report_in(event)),
        }
    }

    /// Takes in the outcome of the last action and returns the next one.
    pub fn step(
        &mut self,
        s: &mut AppState,
        gate: &mut ControlConnectionGate,
        event: WorkerEvent,
    ) -> (r: WorkerAction)
        requires
            old(gate)@.epoch < u64::MAX - 1,
        ensures
            *final(self) == stepped(*old(self), *old(s), old(gate)@, event).worker,
            *final(s) == stepped(*old(self), *old(s), old(gate)@, event).state,
            final(gate)@ == stepped(*old(self), *old(s), old(gate)@, event).gate,
            r == stepped(*old(self), *old(s), old(gate)@, event).action,
    {
        match self.phase {
            WorkerPhase::InitialStart | WorkerPhase::AudioPersist | WorkerPhase::AudioStop
            | WorkerPhase::AudioStart | WorkerPhase::RestartStop | WorkerPhase::LifecycleStart
            | WorkerPhase::LifecycleStop => self.step_launch(s, gate, event),
            WorkerPhase::InitialRefresh | WorkerPhase::Idle | WorkerPhase::DeviceRefresh
            | WorkerPhase::Publish | WorkerPhase::ShutdownStop
            | WorkerPhase::Finished => self.step_round(s, gate, event),
            WorkerPhase::AlcSet | WorkerPhase::AlcPersist | WorkerPhase::HapticPersist
            | WorkerPhase::BootLatency | WorkerPhase::BootSet
            | WorkerPhase::Latency => self.step_latency(s, gate, event),
            WorkerPhase::Alive | WorkerPhase::DeadStop => self.step_alive(s, gate, event),
            WorkerPhase::Create | WorkerPhase::CreateAttach
            | WorkerPhase::CreateDone => self.step_create(s, gate, event),
            WorkerPhase::MountCheck | WorkerPhase::MountAttach
            | WorkerPhase::MountDone => self.step_mount(s, gate, event),
            WorkerPhase::Eject | WorkerPhase::EjectDone => self.step_eject(s, gate, event),
        }
    }
}

/// What holds of every outcome that follows from a worker `w` and a gate `g`: an
/// instance is started only while none is held, and for a new launch of which
/// nothing was observed yet; an instance is stopped only while one is held, and,
/// except at shutdown, its launch is over by then; no instance appears by itself; and
/// changed audio leads to a restart only once it has been persisted.
pub open spec fn orderly(w: Worker, g: GateView, o: Outcome) -> bool {
    &&& o.gate.epoch >= g.epoch
    &&& o.action is StartInstance ==> !o.worker.has_instance && o.gate.epoch > g.epoch
        && !o.gate.ready() && !o.gate.started()
    &&& o.action is StopInstance ==> o.worker.has_instance && (o.worker.phase
        == WorkerPhase::ShutdownStop || o.gate.epoch > g.epoch)
    &&& o.worker.has_instance ==> w.has_instance
    &&& o.worker.phase == WorkerPhase::Alive ==> o.worker.has_instance
    &&& o.worker.phase == WorkerPhase::AudioStop ==> w.phase == WorkerPhase::AudioPersist
    &&& o.worker.phase == WorkerPhase::AudioStart ==> w.phase == WorkerPhase::AudioPersist
        || w.phase == WorkerPhase::AudioStop
    &&& o.worker.placeholder == w.placeholder
    &&& o.worker.config.guest.run_dir == w.config.guest.run_dir
}

proof fn lemma_end_is_orderly(w: Worker, s: AppState, g: GateView)
    requires
        g.epoch < u64::MAX - 1,
    ensures
        forall|running: bool| orderly(w, g, #[trigger] round_ends(w, s, g, running)),
        orderly(w, g, publish_stage(w, s, g)),
        orderly(w, g, finishes(w, s, g)),
{
    reveal(round_ends);
    reveal(publish_stage);
    reveal(finishes);
}

proof fn lemma_lifecycle_is_orderly(w: Worker, s: AppState, g: GateView)
    requires
        g.epoch < u64::MAX - 1,
    ensures
        orderly(w, g, lifecycle_stage(w, s, g)),
{
    reveal(lifecycle_stage);
    reveal(publish_stage);
    reveal(round_ends);
}

proof fn lemma_latency_is_orderly(
    w: Worker,
    s: AppState,
    g: GateView,
    report: Option<(u32, u32, u32)>,
)
    requires
        g.epoch < u64::MAX - 1,
    ensures
        orderly(w, g, latency_arrives(w, s, g, report)),
        orderly(w, g, latency_stage(w, s, g)),
        orderly(w, g, boot_alc_stage(w, s, g)),
        orderly(w, g, haptic_stage(w, s, g)),
        orderly(w, g, alc_stage(w, s, g)),
{
    reveal(latency_arrives);
    reveal(boot_alc_stage);
    reveal(haptic_stage);
    reveal(alc_stage);
    match report {
        Some((total, guest, host)) => {
            let t = AppState {
                audio: AudioState {
                    latency_packed: menu_state::packed_latency(total, guest, host) as u64,
                    ..s.audio
                },
                ..s
            };
            lemma_lifecycle_is_orderly(w, t, g);
        },
        None => lemma_lifecycle_is_orderly(w, s, g),
    }
}

proof fn lemma_media_is_orderly(w: Worker, s: AppState, g: GateView)
    requires
        g.epoch < u64::MAX - 1,
    ensures
        orderly(w, g, eject_stage(w, s, g)),
        orderly(w, g, mount_stage(w, s, g)),
        orderly(w, g, create_stage(w, s, g)),
        orderly(w, g, alive_stage(w, s, g)),
{
    reveal(eject_stage);
    reveal(mount_stage);
    reveal(create_stage);
    reveal(alive_stage);
    lemma_latency_is_orderly(w, s, g, None);
}

proof fn lemma_audio_is_orderly(w: Worker, s: AppState, g: GateView)
    requires
        g.epoch < u64::MAX - 1,
    ensures
        orderly(w, g, audio_stage(w, s, g)),
{
    reveal(audio_stage);
    lemma_media_is_orderly(w, s, g);
}

/// A launch may leave the worker with an instance that it did not hold before.
spec fn after_a_launch(w: Worker, event: WorkerEvent) -> Worker {
    if event == WorkerEvent::Yes && (w.phase == WorkerPhase::InitialStart || w.phase
        == WorkerPhase::AudioStart || w.phase == WorkerPhase::LifecycleStart) {
        Worker { has_instance: true, ..w }
    } else {
        w
    }
}

proof fn lemma_launch_is_orderly(w: Worker, s: AppState, g: GateView, event: WorkerEvent)
    requires
        g.epoch < u64::MAX - 2,
    ensures
        orderly(after_a_launch(w, event), g, launch_step(w, s, g, event)),
{
    reveal(launch_step);
    reveal(audio_restart);
    let started = event == WorkerEvent::Yes;
    let v = after_launch(w, started);
    let t = state_after_launch(s, started);
    let h = gate_after_launch(g, started);
    lemma_media_is_orderly(v, t, h);
    lemma_end_is_orderly(v, t, h);
    lemma_end_is_orderly(Worker { has_instance: false, ..w }, s, g);
}

/// Whatever the outcome of the last action: an instance is started only while none
/// is held, and only for a new launch of which nothing was observed yet; an
/// instance is stopped only while one is held, and its launch is over by then,
/// except at shutdown. So a stop, a crash, a change of audio and a restart all end
/// the current launch, and a restart drops the old instance before the new launch
/// begins.
pub proof fn launches_are_orderly(w: Worker, s: AppState, g: GateView, event: WorkerEvent)
    requires
        g.epoch < u64::MAX - 2,
        w.wf(),
    ensures
        ({
            let o = stepped(w, s, g, event);
            &&& o.action is StartInstance ==> !o.worker.has_instance && o.gate.epoch > g.epoch
                && !o.gate.ready() && !o.gate.started()
            &&& o.action is StopInstance ==> o.worker.has_instance && (o.worker.phase
                == WorkerPhase::ShutdownStop || o.gate.epoch > g.epoch)
        }),
{
    lemma_step_is_orderly(w, s, g, event);
}

/// An instance is held only where one was held before or where a launch just
/// succeeded.
pub proof fn instances_come_from_launches(w: Worker, s: AppState, g: GateView, event: WorkerEvent)
    requires
        g.epoch < u64::MAX - 2,
        w.wf(),
        stepped(w, s, g, event).worker.has_instance,
    ensures
        w.has_instance || event == WorkerEvent::Yes && (w.phase == WorkerPhase::InitialStart
            || w.phase == WorkerPhase::AudioStart || w.phase == WorkerPhase::LifecycleStart),
{
    lemma_step_is_orderly(w, s, g, event);
}

/// A change of the audio settings leads to a restart, and to no more than one: a round takes
/// all the audio requests at once, has the new settings persisted, and only then is the
/// instance stopped or a new one started.
pub proof fn audio_changes_are_persisted_before_the_restart(
    w: Worker,
    s: AppState,
    g: GateView,
    event: WorkerEvent,
)
    requires
        g.epoch < u64::MAX - 2,
        w.wf(),
    ensures
        ({
            let o = stepped(w, s, g, event);
            let begins = w.phase == WorkerPhase::Idle && event == (WorkerEvent::Tick {
                refresh_devices: false,
                shutdown: false,
            });
            &&& begins ==> !o.state.audio.audio_toggle_requested
                && !o.state.audio.audio_device_toggle_requested
            &&& begins && (s.audio.audio_toggle_requested || s.audio.audio_device_toggle_requested)
                ==> o.worker.phase == WorkerPhase::AudioPersist && o.action == (
            WorkerAction::PersistAudio {
                enabled: s.audio.audio_enabled,
                device: s.audio.audio_device_uid,
            }) && o.worker.config.audio == s.audio.audio_enabled && o.worker.config.audio_device
                == s.audio.audio_device_uid
            &&& w.phase == WorkerPhase::DeviceRefresh && w.requests.audio_changed ==> o.worker.phase
                == WorkerPhase::AudioPersist
            &&& w.phase == WorkerPhase::AudioPersist ==> (if w.has_instance {
                o.action is StopInstance
            } else {
                o.action is StartInstance
            })
            &&& o.worker.phase == WorkerPhase::AudioStop ==> w.phase == WorkerPhase::AudioPersist
            &&& o.worker.phase == WorkerPhase::AudioStart ==> w.phase == WorkerPhase::AudioPersist
                || w.phase == WorkerPhase::AudioStop
        }),
{
    lemma_step_is_orderly(w, s, g, event);
    reveal(launch_step);
    reveal(round_step);
    reveal(audio_restart);
    reveal(audio_stage);
    let v = Worker {
        requests: requests_in(s),
        config: LinuxQemuConfig {
            guest: crate::config::GuestRuntimeConfig {
                service_mode: s.lifecycle.service_mode,
                ..w.config.guest
            },
            ..w.config
        },
        ..w
    };
    lemma_media_spares(v, requests_taken(s), g);
}

/// An instance that was respawned lifts the forced boot shade; nothing else in the worker
/// forces or lifts it.
pub proof fn respawned_instances_lift_the_shade(
    w: Worker,
    s: AppState,
    g: GateView,
    event: WorkerEvent,
)
    ensures
        stepped(w, s, g, event).state.lifecycle.shade_forced == (s.lifecycle.shade_forced && !(event
            == WorkerEvent::Yes && (w.phase == WorkerPhase::InitialStart || w.phase
            == WorkerPhase::AudioStart || w.phase == WorkerPhase::LifecycleStart))),
{
    lemma_launch_spares(w, s, g, event);
    lemma_round_spares(w, s, g, event);
    lemma_work_spares(w, s, g, event);
}

/// An outcome leaves the forced shade and the audio requests of a state as they are.
spec fn spares(s: AppState, o: Outcome) -> bool {
    &&& o.state.lifecycle.shade_forced == s.lifecycle.shade_forced
    &&& o.state.audio.audio_toggle_requested == s.audio.audio_toggle_requested
    &&& o.state.audio.audio_device_toggle_requested == s.audio.audio_device_toggle_requested
}

proof fn lemma_end_spares(w: Worker, s: AppState, g: GateView)
    ensures
        forall|running: bool| spares(s, #[trigger] round_ends(w, s, g, running)),
        spares(s, publish_stage(w, s, g)),
        spares(s, finishes(w, s, g)),
        spares(s, lifecycle_stage(w, s, g)),
        forall|report: Option<(u32, u32, u32)>|
            spares(s, #[trigger] latency_arrives(w, s, g, report)),
{
    reveal(round_ends);
    reveal(publish_stage);
    reveal(finishes);
    reveal(lifecycle_stage);
    reveal(latency_arrives);
}

proof fn lemma_media_spares(w: Worker, s: AppState, g: GateView)
    ensures
        spares(s, boot_alc_stage(w, s, g)),
        spares(s, haptic_stage(w, s, g)),
        spares(s, alc_stage(w, s, g)),
        spares(s, eject_stage(w, s, g)),
        spares(s, mount_stage(w, s, g)),
        spares(s, create_stage(w, s, g)),
        spares(s, alive_stage(w, s, g)),
        spares(s, audio_stage(w, s, g)),
{
    reveal(boot_alc_stage);
    reveal(haptic_stage);
    reveal(alc_stage);
    reveal(eject_stage);
    reveal(mount_stage);
    reveal(create_stage);
    reveal(alive_stage);
    reveal(audio_stage);
}

proof fn lemma_launch_spares(w: Worker, s: AppState, g: GateView, event: WorkerEvent)
    ensures
        launch_step(w, s, g, event).state.lifecycle.shade_forced == (s.lifecycle.shade_forced && !(
        event == WorkerEvent::Yes && (w.phase == WorkerPhase::InitialStart || w.phase
            == WorkerPhase::AudioStart || w.phase == WorkerPhase::LifecycleStart))),
{
    reveal(launch_step);
    reveal(audio_restart);
    let started = event == WorkerEvent::Yes;
    let v = after_launch(w, started);
    let t = state_after_launch(s, started);
    let h = gate_after_launch(g, started);
    lemma_media_spares(v, t, h);
    lemma_end_spares(v, t, h);
    lemma_end_spares(Worker { has_instance: false, ..w }, s, g);
}

proof fn lemma_round_spares(w: Worker, s: AppState, g: GateView, event: WorkerEvent)
    ensures
        round_step(w, s, g, event).state.lifecycle.shade_forced == s.lifecycle.shade_forced,
{
    reveal(round_step);
    lemma_end_spares(w, s, g);
    lemma_end_spares(Worker { has_instance: false, ..w }, s, g);
    lemma_media_spares(w, s, g);
    let v = Worker {
        requests: requests_in(s),
        config: LinuxQemuConfig {
            guest: crate::config::GuestRuntimeConfig {
                service_mode: s.lifecycle.service_mode,
                ..w.config.guest
            },
            ..w.config
        },
        ..w
    };
    lemma_media_spares(v, requests_taken(s), g);
}

proof fn lemma_work_spares(w: Worker, s: AppState, g: GateView, event: WorkerEvent)
    ensures
        spares(s, alive_step(w, s, g, event)),
        spares(s, create_step(w, s, g, event)),
        spares(s, mount_step(w, s, g, event)),
        spares(s, eject_step(w, s, g, event)),
        spares(s, latency_step(w, s, g, event)),
{
    reveal(alive_step);
    reveal(create_step);
    reveal(mount_step);
    reveal(eject_step);
    reveal(latency_step);
    lemma_media_spares(w, s, g);
    lemma_media_spares(Worker { has_instance: false, ..w }, s, g);
    lemma_end_spares(w, s, g);
}

/// A step keeps the worker well-formed.
pub proof fn steps_keep_the_worker_well_formed(
    w: Worker,
    s: AppState,
    g: GateView,
    event: WorkerEvent,
)
    requires
        g.epoch < u64::MAX - 2,
        w.wf(),
    ensures
        stepped(w, s, g, event).worker.wf(),
{
    lemma_step_is_orderly(w, s, g, event);
}

proof fn lemma_step_is_orderly(w: Worker, s: AppState, g: GateView, event: WorkerEvent)
    requires
        g.epoch < u64::MAX - 2,
        w.wf(),
    ensures
        orderly(after_a_launch(w, event), g, stepped(w, s, g, event)),
{
    lemma_launch_is_orderly(w, s, g, event);
    lemma_round_is_orderly(w, s, g, event);
    lemma_work_is_orderly(w, s, g, event);
}

proof fn lemma_round_is_orderly(w: Worker, s: AppState, g: GateView, event: WorkerEvent)
    requires
        g.epoch < u64::MAX - 2,
        w.wf(),
    ensures
        orderly(w, g, round_step(w, s, g, event)),
{
    reveal(round_step);
    lemma_end_is_orderly(w, s, g);
    lemma_end_is_orderly(Worker { has_instance: false, ..w }, s, g);
    lemma_audio_is_orderly(w, s, g);
    match event {
        WorkerEvent::Tick { refresh_devices, .. } => {
            let requests = requests_in(s);
            let config = LinuxQemuConfig {
                guest: crate::config::GuestRuntimeConfig {
                    service_mode: requests.service_mode,
                    ..w.config.guest
                },
                ..w.config
            };
            lemma_audio_is_orderly(Worker { requests, config, ..w }, requests_taken(s), g);
        },
        _ => {},
    }
}

proof fn lemma_work_is_orderly(w: Worker, s: AppState, g: GateView, event: WorkerEvent)
    requires
        g.epoch < u64::MAX - 2,
        w.wf(),
    ensures
        w.phase == WorkerPhase::Alive || w.phase == WorkerPhase::DeadStop ==> orderly(
            w,
            g,
            alive_step(w, s, g, event),
        ),
        orderly(w, g, create_step(w, s, g, event)),
        orderly(w, g, mount_step(w, s, g, event)),
        orderly(w, g, eject_step(w, s, g, event)),
        orderly(w, g, latency_step(w, s, g, event)),
{
    reveal(alive_step);
    reveal(create_step);
    reveal(mount_step);
    reveal(eject_step);
    reveal(latency_step);
    lemma_media_is_orderly(w, s, g);
    lemma_latency_is_orderly(w, s, g, report_of(event));
    lemma_latency_is_orderly(Worker { has_instance: false, ..w }, s, g, None);
    lemma_latency_is_orderly(
        Worker { alc_pushed_for_boot: w.alc_pushed_for_boot || event == WorkerEvent::Yes, ..w },
        s,
        g,
        None,
    );
}

} // verus!
