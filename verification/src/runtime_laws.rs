//! What the steps of the runtime worker amount to: which request leads to which action, what
//! an outcome changes, and what stays as it is.

use vstd::prelude::*;

use crate::control_gate::GateView;
use crate::menu_state::AppState;
use crate::runtime;
use crate::runtime::{Worker, WorkerAction, WorkerEvent, WorkerPhase};

verus! {

/// The action whose outcome a worker waits for.
pub open spec fn awaits(w: Worker, action: WorkerAction) -> bool {
    match w.phase {
        WorkerPhase::InitialStart | WorkerPhase::AudioStart
        | WorkerPhase::LifecycleStart => action is StartInstance && !w.has_instance,
        WorkerPhase::AudioStop | WorkerPhase::RestartStop | WorkerPhase::LifecycleStop
        | WorkerPhase::DeadStop | WorkerPhase::ShutdownStop => action is StopInstance
            && w.has_instance,
        WorkerPhase::InitialRefresh | WorkerPhase::DeviceRefresh => action is RefreshDevices,
        WorkerPhase::Idle => action is Wait,
        WorkerPhase::AudioPersist => action == (WorkerAction::PersistAudio {
            enabled: w.requests.audio_enabled,
            device: w.requests.audio_device,
        }),
        WorkerPhase::Alive | WorkerPhase::Publish => action is QueryRunning && w.has_instance,
        WorkerPhase::Create => w.config.virtual_media && w.requests.usb_create && w.requests.media_path
            is Some && action == (WorkerAction::CreateImage {
            path: w.requests.media_path->0,
            size: 32_000_000_000,
        }),
        WorkerPhase::MountCheck => w.config.virtual_media && w.requests.media_mount && w.requests.media_path
            is Some && action == (WorkerAction::CheckPath { path: w.requests.media_path->0 }),
        WorkerPhase::CreateAttach | WorkerPhase::MountAttach => w.requests.media_path is Some
            && action == (WorkerAction::AttachImage { path: w.requests.media_path->0 }),
        WorkerPhase::CreateDone | WorkerPhase::MountDone => action is ReportMediaDisabled || (
        w.requests.media_path is Some && action == (WorkerAction::PersistMounted {
            path: w.requests.media_path->0,
        })),
        WorkerPhase::Eject => w.config.virtual_media && w.requests.media_eject && action == (
        WorkerAction::EjectMedium { placeholder: w.placeholder }),
        WorkerPhase::EjectDone => action is ReportMediaDisabled || action is PersistEjected,
        WorkerPhase::AlcSet | WorkerPhase::BootSet => action == (WorkerAction::SetAudioSync {
            enabled: w.requests.alc_enabled,
        }),
        WorkerPhase::AlcPersist => action == (WorkerAction::PersistAlc {
            enabled: w.requests.alc_enabled,
        }),
        WorkerPhase::HapticPersist => action == (WorkerAction::PersistHaptic {
            enabled: w.requests.haptic_enabled,
        }),
        WorkerPhase::BootLatency | WorkerPhase::Latency => action is QueryLatency,
        WorkerPhase::Finished => action is Exit,
    }
}

proof fn lemma_ends_await(w: Worker, s: AppState, g: GateView)
    ensures
        forall|running: bool|
            awaits(
                (#[trigger] runtime::round_ends(w, s, g, running)).worker,
                runtime::round_ends(w, s, g, running).action,
            ),
        awaits(runtime::publish_stage(w, s, g).worker, runtime::publish_stage(w, s, g).action),
        awaits(runtime::finishes(w, s, g).worker, runtime::finishes(w, s, g).action),
{
    reveal(runtime::round_ends);
    reveal(runtime::publish_stage);
    reveal(runtime::finishes);
}

proof fn lemma_lifecycle_awaits(w: Worker, s: AppState, g: GateView)
    ensures
        awaits(runtime::lifecycle_stage(w, s, g).worker, runtime::lifecycle_stage(w, s, g).action),
{
    reveal(runtime::lifecycle_stage);
    reveal(runtime::publish_stage);
    reveal(runtime::round_ends);
}

proof fn lemma_media_awaits(w: Worker, s: AppState, g: GateView)
    ensures
        awaits(runtime::boot_alc_stage(w, s, g).worker, runtime::boot_alc_stage(w, s, g).action),
        awaits(runtime::haptic_stage(w, s, g).worker, runtime::haptic_stage(w, s, g).action),
        awaits(runtime::alc_stage(w, s, g).worker, runtime::alc_stage(w, s, g).action),
        awaits(runtime::eject_stage(w, s, g).worker, runtime::eject_stage(w, s, g).action),
        awaits(runtime::mount_stage(w, s, g).worker, runtime::mount_stage(w, s, g).action),
        awaits(runtime::create_stage(w, s, g).worker, runtime::create_stage(w, s, g).action),
        awaits(runtime::alive_stage(w, s, g).worker, runtime::alive_stage(w, s, g).action),
        awaits(runtime::audio_stage(w, s, g).worker, runtime::audio_stage(w, s, g).action),
        awaits(runtime::audio_restart(w, s, g).worker, runtime::audio_restart(w, s, g).action),
{
    reveal(runtime::boot_alc_stage);
    reveal(runtime::haptic_stage);
    reveal(runtime::alc_stage);
    reveal(runtime::eject_stage);
    reveal(runtime::mount_stage);
    reveal(runtime::create_stage);
    reveal(runtime::alive_stage);
    reveal(runtime::audio_stage);
    reveal(runtime::audio_restart);
}

/// The worker with the requests of a state, as a round begins.
spec fn with_requests(w: Worker, s: AppState) -> Worker {
    Worker {
        requests: runtime::requests_in(s),
        config: crate::config::LinuxQemuConfig {
            guest: crate::config::GuestRuntimeConfig {
                service_mode: s.lifecycle.service_mode,
                ..w.config.guest
            },
            ..w.config
        },
        ..w
    }
}

proof fn lemma_launch_awaits(w: Worker, s: AppState, g: GateView, event: WorkerEvent)
    requires
        w.wf(),
        w.phase == WorkerPhase::LifecycleStop || w.phase == WorkerPhase::InitialStart || w.phase
            == WorkerPhase::AudioPersist || w.phase == WorkerPhase::AudioStop || w.phase
            == WorkerPhase::AudioStart || w.phase == WorkerPhase::RestartStop || w.phase
            == WorkerPhase::LifecycleStart,
    ensures
        awaits(
            runtime::launch_step(w, s, g, event).worker,
            runtime::launch_step(w, s, g, event).action,
        ),
{
    reveal(runtime::launch_step);
    let started = event == WorkerEvent::Yes;
    let v = runtime::after_launch(w, started);
    let t = runtime::state_after_launch(s, started);
    let h = runtime::gate_after_launch(g, started);
    lemma_media_awaits(w, s, g);
    lemma_media_awaits(v, t, h);
    lemma_ends_await(v, t, h);
    lemma_ends_await(Worker { has_instance: false, ..w }, s, g);
}

proof fn lemma_round_awaits(w: Worker, s: AppState, g: GateView, event: WorkerEvent)
    ensures
        awaits(
            runtime::round_step(w, s, g, event).worker,
            runtime::round_step(w, s, g, event).action,
        ),
{
    reveal(runtime::round_step);
    lemma_ends_await(w, s, g);
    lemma_ends_await(Worker { has_instance: false, ..w }, s, g);
    lemma_media_awaits(w, s, g);
    lemma_media_awaits(with_requests(w, s), runtime::requests_taken(s), g);
}

proof fn lemma_work_awaits(w: Worker, s: AppState, g: GateView, event: WorkerEvent)
    requires
        w.wf(),
    ensures
        w.phase == WorkerPhase::Alive || w.phase == WorkerPhase::DeadStop ==> awaits(
            runtime::alive_step(w, s, g, event).worker,
            runtime::alive_step(w, s, g, event).action,
        ),
        w.phase == WorkerPhase::Create || w.phase == WorkerPhase::CreateAttach || w.phase
            == WorkerPhase::CreateDone ==> awaits(
            runtime::create_step(w, s, g, event).worker,
            runtime::create_step(w, s, g, event).action,
        ),
        w.phase == WorkerPhase::MountCheck || w.phase == WorkerPhase::MountAttach || w.phase
            == WorkerPhase::MountDone ==> awaits(
            runtime::mount_step(w, s, g, event).worker,
            runtime::mount_step(w, s, g, event).action,
        ),
        awaits(
            runtime::eject_step(w, s, g, event).worker,
            runtime::eject_step(w, s, g, event).action,
        ),
        awaits(
            runtime::latency_step(w, s, g, event).worker,
            runtime::latency_step(w, s, g, event).action,
        ),
{
    reveal(runtime::alive_step);
    reveal(runtime::create_step);
    reveal(runtime::mount_step);
    reveal(runtime::eject_step);
    reveal(runtime::latency_step);
    reveal(runtime::latency_arrives);
    lemma_media_awaits(w, s, g);
    lemma_media_awaits(Worker { has_instance: false, ..w }, s, g);
    lemma_lifecycle_awaits(w, s, g);
    match runtime::report_of(event) {
        Some((total, guest, host)) => {
            let t = AppState {
                audio: crate::menu_state::AudioState {
                    latency_packed: crate::menu_state::packed_latency(total, guest, host) as u64,
                    ..s.audio
                },
                ..s
            };
            lemma_lifecycle_awaits(w, t, g);
        },
        None => {},
    }
}

/// After every step the worker waits for the outcome of the very action that it asks for, and
/// that action is about the instance, the settings and the image that the requests name.
pub proof fn actions_fit_their_phases(w: Worker, s: AppState, g: GateView, event: WorkerEvent)
    requires
        w.wf(),
    ensures
        awaits(
            runtime::stepped(w, s, g, event).worker,
            runtime::stepped(w, s, g, event).action,
        ),
{
    match w.phase {
        WorkerPhase::InitialStart | WorkerPhase::AudioPersist | WorkerPhase::AudioStop
        | WorkerPhase::AudioStart | WorkerPhase::RestartStop | WorkerPhase::LifecycleStart
        | WorkerPhase::LifecycleStop => lemma_launch_awaits(w, s, g, event),
        WorkerPhase::InitialRefresh | WorkerPhase::Idle | WorkerPhase::DeviceRefresh
        | WorkerPhase::Publish | WorkerPhase::ShutdownStop
        | WorkerPhase::Finished => lemma_round_awaits(w, s, g, event),
        _ => lemma_work_awaits(w, s, g, event),
    }
}

/// A stage never reports a medium: it neither marks one as mounted nor has one persisted.
spec fn reports_nothing(s: AppState, o: runtime::Outcome) -> bool {
    &&& o.state.usb.usb_virtual_mounted == s.usb.usb_virtual_mounted
    &&& !(o.action is PersistMounted)
    &&& !(o.action is PersistEjected)
}

proof fn lemma_ends_report_nothing(w: Worker, s: AppState, g: GateView)
    ensures
        forall|running: bool|
            reports_nothing(s, #[trigger] runtime::round_ends(w, s, g, running)),
        reports_nothing(s, runtime::publish_stage(w, s, g)),
        reports_nothing(s, runtime::finishes(w, s, g)),
        reports_nothing(s, runtime::lifecycle_stage(w, s, g)),
        forall|report: Option<(u32, u32, u32)>|
            reports_nothing(s, #[trigger] runtime::latency_arrives(w, s, g, report)),
{
    reveal(runtime::round_ends);
    reveal(runtime::publish_stage);
    reveal(runtime::finishes);
    reveal(runtime::lifecycle_stage);
    reveal(runtime::latency_arrives);
}

proof fn lemma_media_reports_nothing(w: Worker, s: AppState, g: GateView)
    ensures
        reports_nothing(s, runtime::boot_alc_stage(w, s, g)),
        reports_nothing(s, runtime::haptic_stage(w, s, g)),
        reports_nothing(s, runtime::alc_stage(w, s, g)),
        reports_nothing(s, runtime::eject_stage(w, s, g)),
        reports_nothing(s, runtime::mount_stage(w, s, g)),
        reports_nothing(s, runtime::create_stage(w, s, g)),
        reports_nothing(s, runtime::alive_stage(w, s, g)),
        reports_nothing(s, runtime::audio_stage(w, s, g)),
        reports_nothing(s, runtime::audio_restart(w, s, g)),
{
    reveal(runtime::boot_alc_stage);
    reveal(runtime::haptic_stage);
    reveal(runtime::alc_stage);
    reveal(runtime::eject_stage);
    reveal(runtime::mount_stage);
    reveal(runtime::create_stage);
    reveal(runtime::alive_stage);
    reveal(runtime::audio_stage);
    reveal(runtime::audio_restart);
}

/// An image is marked as mounted, and persisted, in the step that learns that this image was
/// put into the guest's slot, and in no other; it is marked as ejected, and that is persisted,
/// in the step that learns that the empty medium was put there, and in no other.
pub proof fn media_are_reported_once_they_are_in_the_slot(
    w: Worker,
    s: AppState,
    g: GateView,
    event: WorkerEvent,
    path: String,
)
    requires
        w.wf(),
    ensures
        ({
            let o = runtime::stepped(w, s, g, event);
            &&& o.action == (WorkerAction::PersistMounted { path }) <==> event == WorkerEvent::Yes
                && (w.phase == WorkerPhase::CreateAttach || w.phase == WorkerPhase::MountAttach)
                && awaits(w, WorkerAction::AttachImage { path })
            &&& o.state.usb.usb_virtual_mounted && !s.usb.usb_virtual_mounted
                ==> o.action is PersistMounted
            &&& o.action is PersistMounted ==> o.state.usb.usb_virtual_mounted
            &&& o.action is PersistEjected <==> event == WorkerEvent::Yes && w.phase
                == WorkerPhase::Eject
            &&& !o.state.usb.usb_virtual_mounted && s.usb.usb_virtual_mounted
                ==> o.action is PersistEjected
            &&& o.action is PersistEjected ==> !o.state.usb.usb_virtual_mounted
        }),
{
    match w.phase {
        WorkerPhase::InitialStart | WorkerPhase::AudioPersist | WorkerPhase::AudioStop
        | WorkerPhase::AudioStart | WorkerPhase::RestartStop | WorkerPhase::LifecycleStart
        | WorkerPhase::LifecycleStop => lemma_launches_report_nothing(w, s, g, event),
        WorkerPhase::InitialRefresh | WorkerPhase::Idle | WorkerPhase::DeviceRefresh
        | WorkerPhase::Publish | WorkerPhase::ShutdownStop
        | WorkerPhase::Finished => lemma_rounds_report_nothing(w, s, g, event),
        WorkerPhase::Create | WorkerPhase::CreateAttach | WorkerPhase::CreateDone
        | WorkerPhase::MountCheck | WorkerPhase::MountAttach
        | WorkerPhase::MountDone | WorkerPhase::Eject | WorkerPhase::EjectDone => {
            reveal(runtime::create_step);
            reveal(runtime::mount_step);
            reveal(runtime::eject_step);
            lemma_media_reports_nothing(w, s, g);
        },
        _ => lemma_other_work_reports_nothing(w, s, g, event),
    }
}

proof fn lemma_launches_report_nothing(w: Worker, s: AppState, g: GateView, event: WorkerEvent)
    ensures
        reports_nothing(s, runtime::launch_step(w, s, g, event)),
{
    reveal(runtime::launch_step);
    let started = event == WorkerEvent::Yes;
    let v = runtime::after_launch(w, started);
    let t = runtime::state_after_launch(s, started);
    let h = runtime::gate_after_launch(g, started);
    lemma_media_reports_nothing(w, s, g);
    lemma_media_reports_nothing(v, t, h);
    lemma_ends_report_nothing(v, t, h);
    lemma_ends_report_nothing(Worker { has_instance: false, ..w }, s, g);
}

proof fn lemma_rounds_report_nothing(w: Worker, s: AppState, g: GateView, event: WorkerEvent)
    ensures
        reports_nothing(s, runtime::round_step(w, s, g, event)),
{
    reveal(runtime::round_step);
    lemma_media_reports_nothing(w, s, g);
    lemma_media_reports_nothing(with_requests(w, s), runtime::requests_taken(s), g);
    lemma_ends_report_nothing(w, s, g);
    lemma_ends_report_nothing(Worker { has_instance: false, ..w }, s, g);
}

proof fn lemma_other_work_reports_nothing(
    w: Worker,
    s: AppState,
    g: GateView,
    event: WorkerEvent,
)
    ensures
        reports_nothing(s, runtime::alive_step(w, s, g, event)),
        reports_nothing(s, runtime::latency_step(w, s, g, event)),
{
    reveal(runtime::alive_step);
    reveal(runtime::latency_step);
    lemma_media_reports_nothing(w, s, g);
    lemma_media_reports_nothing(Worker { has_instance: false, ..w }, s, g);
    lemma_ends_report_nothing(w, s, g);
}

/// A mount request is served once the instance is known to be alive and a create request has
/// been dealt with: the image is looked for, one that exists goes into the guest's slot, and
/// one that went there is persisted. Without virtual media the operator is told so.
pub proof fn mount_requests_are_served(w: Worker, s: AppState, g: GateView, path: String)
    requires
        w.wf(),
        w.requests.media_path == Some(path),
    ensures
        ({
            let yes = runtime::stepped(w, s, g, WorkerEvent::Yes);
            let no = runtime::stepped(w, s, g, WorkerEvent::No);
            let asked = w.requests.media_mount && (w.phase == WorkerPhase::CreateDone || (w.phase
                == WorkerPhase::Alive && !w.requests.usb_create));
            &&& asked && w.config.virtual_media ==> yes.action == (WorkerAction::CheckPath { path })
                && yes.worker == (Worker { phase: WorkerPhase::MountCheck, ..w })
            &&& asked && !w.config.virtual_media ==> yes.action is ReportMediaDisabled
            &&& w.phase == WorkerPhase::MountCheck ==> yes.action == (WorkerAction::AttachImage {
                path,
            }) && yes.worker == (Worker { phase: WorkerPhase::MountAttach, ..w }) && yes.state == s
            &&& w.phase == WorkerPhase::MountAttach ==> yes.action == (
            WorkerAction::PersistMounted { path }) && yes.worker == (Worker {
                phase: WorkerPhase::MountDone,
                ..w
            }) && yes.state.usb.usb_virtual_mounted
            &&& w.phase == WorkerPhase::MountCheck || w.phase == WorkerPhase::MountAttach
                ==> !(no.action is AttachImage) && !(no.action is PersistMounted) && no.state == s
        }),
{
    reveal(runtime::alive_step);
    reveal(runtime::create_step);
    reveal(runtime::mount_step);
    reveal(runtime::create_stage);
    reveal(runtime::mount_stage);
    reveal(runtime::eject_stage);
    reveal(runtime::alc_stage);
    reveal(runtime::haptic_stage);
    reveal(runtime::boot_alc_stage);
}

/// A create request is served once the instance is known to be alive: an image of 32 GB is
/// made at the path, one that was made goes into the guest's slot, and one that went there is
/// persisted. Without virtual media the operator is told so.
pub proof fn create_requests_are_served(w: Worker, s: AppState, g: GateView, path: String)
    requires
        w.wf(),
        w.requests.media_path == Some(path),
    ensures
        ({
            let yes = runtime::stepped(w, s, g, WorkerEvent::Yes);
            let no = runtime::stepped(w, s, g, WorkerEvent::No);
            let asked = w.requests.usb_create && w.phase == WorkerPhase::Alive;
            &&& asked && w.config.virtual_media ==> yes.action == (WorkerAction::CreateImage {
                path,
                size: 32_000_000_000,
            }) && yes.worker == (Worker { phase: WorkerPhase::Create, ..w })
            &&& asked && !w.config.virtual_media ==> yes.action is ReportMediaDisabled
            &&& w.phase == WorkerPhase::Create ==> yes.action == (WorkerAction::AttachImage { path })
                && yes.worker == (Worker { phase: WorkerPhase::CreateAttach, ..w }) && yes.state
                == s
            &&& w.phase == WorkerPhase::CreateAttach ==> yes.action == (
            WorkerAction::PersistMounted { path }) && yes.worker == (Worker {
                phase: WorkerPhase::CreateDone,
                ..w
            }) && yes.state.usb.usb_virtual_mounted
            &&& w.phase == WorkerPhase::Create || w.phase == WorkerPhase::CreateAttach ==> !(
            no.action is AttachImage) && !(no.action is PersistMounted) && no.state == s
        }),
{
    reveal(runtime::alive_step);
    reveal(runtime::create_step);
    reveal(runtime::create_stage);
    reveal(runtime::mount_stage);
    reveal(runtime::eject_stage);
    reveal(runtime::alc_stage);
    reveal(runtime::haptic_stage);
    reveal(runtime::boot_alc_stage);
}

/// An eject request is served after the requests to create and to mount: the empty medium goes
/// into the guest's slot, and once it did that is persisted.
pub proof fn eject_requests_are_served(w: Worker, s: AppState, g: GateView)
    requires
        w.wf(),
    ensures
        ({
            let yes = runtime::stepped(w, s, g, WorkerEvent::Yes);
            let no = runtime::stepped(w, s, g, WorkerEvent::No);
            let asked = w.requests.media_eject && (w.phase == WorkerPhase::MountDone || (w.phase
                == WorkerPhase::Alive && !w.requests.usb_create && !w.requests.media_mount));
            &&& asked && w.config.virtual_media ==> yes.action == (WorkerAction::EjectMedium {
                placeholder: w.placeholder,
            }) && yes.worker == (Worker { phase: WorkerPhase::Eject, ..w })
            &&& asked && !w.config.virtual_media ==> yes.action is ReportMediaDisabled
            &&& w.phase == WorkerPhase::Eject ==> yes.action is PersistEjected
                && !yes.state.usb.usb_virtual_mounted
            &&& w.phase == WorkerPhase::Eject ==> !(no.action is PersistEjected) && no.state == s
        }),
{
    reveal(runtime::alive_step);
    reveal(runtime::mount_step);
    reveal(runtime::eject_step);
    reveal(runtime::create_stage);
    reveal(runtime::mount_stage);
    reveal(runtime::eject_stage);
    reveal(runtime::alc_stage);
    reveal(runtime::haptic_stage);
    reveal(runtime::boot_alc_stage);
}

/// A round takes the operator's requests, with what they are about, out of the shared state:
/// each is the worker's now, none is left behind, and nothing else changes. What the operator
/// asks of the machine itself stays, for the end of the round.
pub proof fn rounds_take_the_requests(w: Worker, s: AppState, g: GateView, refresh: bool)
    requires
        w.wf(),
        w.phase == WorkerPhase::Idle,
    ensures
        ({
            let o = runtime::stepped(
                w,
                s,
                g,
                WorkerEvent::Tick { refresh_devices: refresh, shutdown: false },
            );
            let r = o.worker.requests;
            &&& r.audio_changed == (s.audio.audio_toggle_requested
                || s.audio.audio_device_toggle_requested)
            &&& r.audio_enabled == s.audio.audio_enabled && r.audio_device
                == s.audio.audio_device_uid
            &&& r.alc_toggle == s.audio.alc_toggle_requested && r.alc_enabled == s.audio.alc_enabled
            &&& r.haptic_toggle == s.haptics.haptic_toggle_requested && r.haptic_enabled
                == s.haptics.haptic_enabled
            &&& r.usb_create == s.usb.usb_create_req && r.media_mount == s.usb.usb_virtual_mount_req
            &&& r.media_eject == s.usb.usb_eject_req && r.media_path == s.usb.usb_virtual_img
            &&& o.worker.config.guest.service_mode == s.lifecycle.service_mode
            &&& o.state == (AppState {
                audio: crate::menu_state::AudioState {
                    audio_toggle_requested: false,
                    audio_device_toggle_requested: false,
                    alc_toggle_requested: false,
                    ..s.audio
                },
                haptics: crate::menu_state::HapticState {
                    haptic_toggle_requested: false,
                    ..s.haptics
                },
                usb: crate::menu_state::UsbState {
                    usb_create_req: false,
                    usb_virtual_mount_req: false,
                    usb_eject_req: false,
                    ..s.usb
                },
                ..s
            })
            &&& refresh ==> o.action is RefreshDevices
            &&& !refresh && !r.audio_changed && w.has_instance ==> o.action is QueryRunning
                && o.worker.phase == WorkerPhase::Alive
        }),
{
    reveal(runtime::round_step);
    reveal(runtime::audio_stage);
    reveal(runtime::alive_stage);
    reveal(runtime::alc_stage);
    reveal(runtime::haptic_stage);
    reveal(runtime::boot_alc_stage);
}

/// After fresh devices and after a change of audio the worker finds out whether the instance
/// that it holds is alive. A dead one is cleaned up and its launch is over; after that, and
/// where there is none, the media requests lapse.
pub proof fn dead_instances_are_cleaned_up(w: Worker, s: AppState, g: GateView)
    requires
        w.wf(),
    ensures
        ({
            let yes = runtime::stepped(w, s, g, WorkerEvent::Yes);
            let no = runtime::stepped(w, s, g, WorkerEvent::No);
            &&& w.phase == WorkerPhase::DeviceRefresh && !w.requests.audio_changed && w.has_instance
                ==> yes.action is QueryRunning && yes.worker.phase == WorkerPhase::Alive
            &&& w.phase == WorkerPhase::AudioStart ==> yes.action is QueryRunning
                && yes.worker.phase == WorkerPhase::Alive && yes.worker.has_instance
            &&& w.phase == WorkerPhase::AudioStart ==> !no.worker.has_instance && no.gate
                == g.renewed() && !(no.action is QueryRunning)
            &&& w.phase == WorkerPhase::Alive ==> no.action is StopInstance && no.worker.phase
                == WorkerPhase::DeadStop && no.gate == g.renewed() && no.state == s
            &&& w.phase == WorkerPhase::Alive ==> yes.worker.has_instance && yes.gate == g
            &&& w.phase == WorkerPhase::DeadStop ==> !yes.worker.has_instance && !(
            yes.action is CreateImage) && !(yes.action is CheckPath) && !(
            yes.action is EjectMedium)
        }),
{
    reveal(runtime::round_step);
    reveal(runtime::launch_step);
    reveal(runtime::alive_step);
    reveal(runtime::audio_stage);
    reveal(runtime::alive_stage);
    reveal(runtime::create_stage);
    reveal(runtime::mount_stage);
    reveal(runtime::eject_stage);
    reveal(runtime::alc_stage);
    reveal(runtime::haptic_stage);
    reveal(runtime::boot_alc_stage);
}

/// A change of the latency control is pushed to the guest and, whatever came of that,
/// persisted; a change of the haptics is persisted. Neither touches the instance.
pub proof fn switches_are_pushed_and_persisted(w: Worker, s: AppState, g: GateView)
    requires
        w.wf(),
    ensures
        ({
            let yes = runtime::stepped(w, s, g, WorkerEvent::Yes);
            let no = runtime::stepped(w, s, g, WorkerEvent::No);
            &&& w.requests.alc_toggle && (w.phase == WorkerPhase::EjectDone || w.phase
                == WorkerPhase::DeadStop) ==> yes.action == (WorkerAction::SetAudioSync {
                enabled: w.requests.alc_enabled,
            })
            &&& w.phase == WorkerPhase::AlcSet ==> yes == no && yes.action == (
            WorkerAction::PersistAlc { enabled: w.requests.alc_enabled })
            &&& w.requests.haptic_toggle && (w.phase == WorkerPhase::AlcPersist || ((w.phase
                == WorkerPhase::EjectDone || w.phase == WorkerPhase::DeadStop)
                && !w.requests.alc_toggle)) ==> yes.action == (WorkerAction::PersistHaptic {
                enabled: w.requests.haptic_enabled,
            })
            &&& w.phase == WorkerPhase::AlcSet || w.phase == WorkerPhase::AlcPersist || w.phase
                == WorkerPhase::HapticPersist ==> yes.worker.has_instance == w.has_instance
                && yes.gate == g && yes.state == s
        }),
{
    reveal(runtime::alive_step);
    reveal(runtime::eject_step);
    reveal(runtime::latency_step);
    reveal(runtime::alc_stage);
    reveal(runtime::haptic_stage);
    reveal(runtime::boot_alc_stage);
}

/// Once for each boot, as soon as the guest reports a latency, the latency control is pushed
/// to it; it counts as pushed when the guest took it, and a new launch begins afresh.
pub proof fn the_latency_control_is_pushed_once_for_each_boot(
    w: Worker,
    s: AppState,
    g: GateView,
    event: WorkerEvent,
    total: u32,
    guest: u32,
    host: u32,
)
    requires
        w.wf(),
    ensures
        ({
            let o = runtime::stepped(w, s, g, event);
            let reported = runtime::stepped(
                w,
                s,
                g,
                WorkerEvent::Latency(Some((total, guest, host))),
            );
            let silent = runtime::stepped(w, s, g, WorkerEvent::Latency(None));
            &&& w.phase == WorkerPhase::HapticPersist ==> o.action is QueryLatency
                && o.worker.phase == (if w.has_instance && !w.alc_pushed_for_boot {
                WorkerPhase::BootLatency
            } else {
                WorkerPhase::Latency
            })
            &&& w.phase == WorkerPhase::BootLatency ==> reported.action == (
            WorkerAction::SetAudioSync { enabled: w.requests.alc_enabled })
                && reported.worker.phase == WorkerPhase::BootSet
            &&& w.phase == WorkerPhase::BootLatency ==> silent.action is QueryLatency
                && silent.worker.phase == WorkerPhase::Latency
                && silent.worker.alc_pushed_for_boot == w.alc_pushed_for_boot
            &&& w.phase == WorkerPhase::BootSet ==> o.action is QueryLatency
                && o.worker.alc_pushed_for_boot == (w.alc_pushed_for_boot || event
                == WorkerEvent::Yes)
            &&& w.phase == WorkerPhase::InitialStart || w.phase == WorkerPhase::AudioStart || w.phase
                == WorkerPhase::LifecycleStart ==> !o.worker.alc_pushed_for_boot
        }),
{
    reveal(runtime::launch_step);
    reveal(runtime::latency_step);
    reveal(runtime::boot_alc_stage);
    reveal(runtime::haptic_stage);
    reveal(runtime::alc_stage);
    reveal(runtime::alive_stage);
    reveal(runtime::publish_stage);
    reveal(runtime::round_ends);
}

/// After the media and the switches comes what the operator asks of the machine: a start comes
/// before a restart, and that before a stop. A start launches where nothing is held and is void
/// otherwise; a restart stops what is held and launches; a stop stops it. Each is taken, and
/// the others stay. A latency report that arrived is shown.
pub proof fn lifecycle_requests_are_served(
    w: Worker,
    s: AppState,
    g: GateView,
    report: Option<(u32, u32, u32)>,
)
    requires
        w.wf(),
        w.phase == WorkerPhase::Latency,
    ensures
        ({
            let o = runtime::stepped(w, s, g, WorkerEvent::Latency(report));
            let l = s.lifecycle;
            let start = l.qemu_boot_requested;
            let restart = !start && l.restart_requested;
            let stop = !start && !restart && l.stop_requested;
            &&& start && !w.has_instance ==> o.action is StartInstance && o.gate == g.renewed()
                && o.worker.phase == WorkerPhase::LifecycleStart
            &&& start && w.has_instance ==> o.action is QueryRunning && o.gate == g
                && o.worker.phase == WorkerPhase::Publish
            &&& restart && w.has_instance ==> o.action is StopInstance && o.gate == g.renewed()
                && o.worker.phase == WorkerPhase::RestartStop
            &&& restart && !w.has_instance ==> o.action is StartInstance && o.gate
                == g.renewed().renewed() && o.worker.phase == WorkerPhase::LifecycleStart
            &&& stop && w.has_instance ==> o.action is StopInstance && o.gate == g.renewed()
                && o.worker.phase == WorkerPhase::LifecycleStop
            &&& stop && !w.has_instance ==> o.action is Wait && o.gate == g.renewed()
            &&& !start && !restart && !stop ==> o.gate == g && (if w.has_instance {
                o.action is QueryRunning && o.worker.phase == WorkerPhase::Publish
            } else {
                o.action is Wait && o.worker.phase == WorkerPhase::Idle
            })
            &&& o.state.lifecycle.qemu_boot_requested == false
            &&& o.state.lifecycle.restart_requested == (l.restart_requested && !restart)
            &&& o.state.lifecycle.stop_requested == (l.stop_requested && !stop)
            &&& o.state.audio.latency_packed == (match report {
                Some((total, guest, host)) => crate::menu_state::packed_latency(
                    total,
                    guest,
                    host,
                ) as u64,
                None => s.audio.latency_packed,
            })
            &&& o.worker.has_instance == w.has_instance && o.worker.config == w.config
        }),
{
    reveal(runtime::latency_step);
    reveal(runtime::latency_arrives);
    reveal(runtime::lifecycle_stage);
    reveal(runtime::publish_stage);
    reveal(runtime::round_ends);
}

/// What a stop or a launch leads to: an instance that was stopped for a restart or for changed
/// audio is launched again, one that was stopped for good is not; a launch that succeeded holds
/// an instance that counts as running, and one that failed is over.
pub proof fn stops_and_launches_are_followed_up(
    w: Worker,
    s: AppState,
    g: GateView,
    event: WorkerEvent,
)
    requires
        w.wf(),
    ensures
        ({
            let o = runtime::stepped(w, s, g, event);
            let started = event == WorkerEvent::Yes;
            &&& w.phase == WorkerPhase::AudioStop || w.phase == WorkerPhase::RestartStop
                ==> o.action is StartInstance && !o.worker.has_instance && o.gate == g.renewed()
                && o.worker.phase == (if w.phase == WorkerPhase::AudioStop {
                WorkerPhase::AudioStart
            } else {
                WorkerPhase::LifecycleStart
            })
            &&& w.phase == WorkerPhase::LifecycleStop ==> o.action is Wait
                && !o.worker.has_instance && !o.state.lifecycle.qemu_running && o.gate == g
            &&& w.phase == WorkerPhase::InitialStart || w.phase == WorkerPhase::AudioStart || w.phase
                == WorkerPhase::LifecycleStart ==> o.worker.has_instance == started && o.gate == (
            if started {
                g
            } else {
                g.renewed()
            })
            &&& started && (w.phase == WorkerPhase::InitialStart || w.phase
                == WorkerPhase::AudioStart || w.phase == WorkerPhase::LifecycleStart)
                ==> o.state.lifecycle.qemu_running
            &&& started && w.phase == WorkerPhase::LifecycleStart ==> o.action is QueryRunning
            &&& w.phase == WorkerPhase::InitialStart ==> o.action is RefreshDevices
        }),
{
    reveal(runtime::launch_step);
    reveal(runtime::publish_stage);
    reveal(runtime::round_ends);
    reveal(runtime::alive_stage);
    reveal(runtime::alc_stage);
    reveal(runtime::haptic_stage);
    reveal(runtime::boot_alc_stage);
}

/// A round ends by showing whether the instance runs and whether it reached its milestone. At
/// shutdown the instance is stopped, the worker ends, and nothing counts as running.
pub proof fn rounds_and_shutdowns_end(w: Worker, s: AppState, g: GateView, refresh: bool)
    requires
        w.wf(),
    ensures
        ({
            let yes = runtime::stepped(w, s, g, WorkerEvent::Yes);
            let no = runtime::stepped(w, s, g, WorkerEvent::No);
            let end = runtime::stepped(
                w,
                s,
                g,
                WorkerEvent::Tick { refresh_devices: refresh, shutdown: true },
            );
            &&& w.phase == WorkerPhase::Publish ==> yes.action is Wait
                && yes.state.lifecycle.qemu_running && yes.state.lifecycle.application_started
                == g.started()
            &&& w.phase == WorkerPhase::Publish ==> no.action is Wait
                && !no.state.lifecycle.qemu_running && no.state.lifecycle.application_started
                == g.started()
            &&& w.phase == WorkerPhase::Idle && w.has_instance ==> end.action is StopInstance
                && end.worker.phase == WorkerPhase::ShutdownStop
            &&& w.phase == WorkerPhase::Idle && !w.has_instance ==> end.action is Exit
            &&& w.phase == WorkerPhase::ShutdownStop ==> yes.action is Exit
                && !yes.worker.has_instance && !yes.state.lifecycle.qemu_running
                && !yes.state.lifecycle.application_started
            &&& end.action is Exit && w.phase == WorkerPhase::Idle
                ==> !end.state.lifecycle.qemu_running && !end.state.lifecycle.application_started
        }),
{
    reveal(runtime::round_step);
    reveal(runtime::round_ends);
    reveal(runtime::finishes);
}

} // verus!
