use cdj3k_emu::config::{GuestRuntimeConfig, LinuxQemuConfig, QemuConfig};
use cdj3k_emu::instance::{
    cleanup_linux_qemu_files_for_restart, cleanup_qemu_files, cleanup_qemu_files_for_restart,
    cleanup_runtime_files, configure_launch, first_shutdown_stage, linux_launch_steps,
    macos_launch_steps, macos_worker_args, negotiate,
    remove_stale_qmp_sockets, shutdown_wait, step_error, wait_or_kill, CleanupStep, DirEntry,
    InstanceError, LaunchStep, NegotiationAction, NegotiationEvent, ShutdownStage, StepFailure,
    WaitStep,
};
use cdj3k_emu::qmp::QmpError;

/// What is left of a directory, and which files were zeroed, after a cleanup.
fn clean(dir: &str, entries: &[DirEntry], steps: &[CleanupStep]) -> (Vec<String>, Vec<String>, bool) {
    let mut left: Vec<String> = entries.iter().map(|e| format!("{dir}/{}", e.name)).collect();
    let mut zeroed = Vec::new();
    let mut dir_exists = true;
    for step in steps {
        match step {
            CleanupStep::ZeroMagic { path } => {
                if left.contains(path) {
                    zeroed.push(path.clone());
                }
            }
            CleanupStep::RemoveTree { path } | CleanupStep::RemoveFile { path } => {
                left.retain(|p| p != path)
            }
            CleanupStep::RemoveDir { path } => {
                if path == dir && left.is_empty() {
                    dir_exists = false;
                }
            }
        }
    }
    (left, zeroed, dir_exists)
}

fn file(name: &str) -> DirEntry {
    DirEntry {
        name: name.into(),
        is_dir: Some(false),
    }
}

fn directory(name: &str) -> DirEntry {
    DirEntry {
        name: name.into(),
        is_dir: Some(true),
    }
}

fn linux_config() -> LinuxQemuConfig {
    LinuxQemuConfig {
        guest: GuestRuntimeConfig {
            instance_id: 1,
            kernel: "/data/Image".into(),
            initramfs: "/data/initramfs".into(),
            emmc_img: Some("/data/emmc.qcow2".into()),
            run_dir: "/run/cdj".into(),
            qmp_port: 4446,
            ssh_port: 2223,
            mac: "0a:00:00:00:00:01".into(),
            service_mode: false,
        },
        qemu: "qemu-system-aarch64".into(),
        qemu_img: "qemu-img".into(),
        audio: false,
        audio_device: None,
        network: true,
        virtual_media: true,
        serial_log: None,
        qmp_socket: None,
    }
}

#[test]
fn stale_linux_qmp_socket_is_removed_without_erasing_diagnostics() {
    let names = vec![
        "qmp-previous.sock".to_string(),
        "serial-previous.log".to_string(),
    ];
    assert_eq!(
        remove_stale_qmp_sockets("/run/cdj", &names),
        ["/run/cdj/qmp-previous.sock"]
    );
}

#[test]
fn macos_restart_cleanup_preserves_vmnet_and_removes_everything_else() {
    let mut entries: Vec<DirEntry> = [
        "main.shm",
        "jog.shm",
        "ram.shm",
        "ctrl.sock",
        "cfg.sock",
        "usb.empty.medium",
        "vmnet-1.sock",
        "serial-previous.log",
    ]
    .iter()
    .map(|name| file(name))
    .collect();
    entries.push(directory("nested"));
    let steps = cleanup_qemu_files_for_restart("/run/cdj", &entries);
    let (left, zeroed, dir_exists) = clean("/run/cdj", &entries, &steps);
    assert_eq!(left, ["/run/cdj/vmnet-1.sock"]);
    assert_eq!(zeroed, ["/run/cdj/main.shm", "/run/cdj/jog.shm"]);
    assert!(dir_exists);
    assert!(steps
        .iter()
        .any(|s| matches!(s, CleanupStep::RemoveTree { path } if path == "/run/cdj/nested")));
}

#[test]
fn macos_final_cleanup_removes_the_entire_runtime_directory() {
    let mut entries: Vec<DirEntry> = ["main.shm", "jog.shm", "vmnet-1.sock", "serial.log"]
        .iter()
        .map(|name| file(name))
        .collect();
    entries.push(directory("nested"));
    let steps = cleanup_qemu_files("/run/cdj", &entries);
    let (left, _, dir_exists) = clean("/run/cdj", &entries, &steps);
    assert!(left.is_empty());
    assert!(!dir_exists);
    let registered = cleanup_runtime_files(Some("/run/cdj"), &entries);
    assert_eq!(registered.len(), steps.len());
    assert!(cleanup_runtime_files(None, &entries).is_empty());
}

#[test]
fn linux_restart_cleanup_preserves_run_directory_and_diagnostics() {
    let entries: Vec<DirEntry> = [
        "main.shm",
        "jog.shm",
        "ram.shm",
        "ctrl.sock",
        "cfg.sock",
        "usb.placeholder",
        "usb.empty.medium",
        "qmp-current.sock",
        "vmnet-1.sock",
        "serial-previous.log",
        ".instance.lock",
    ]
    .iter()
    .map(|name| file(name))
    .collect();
    let steps = cleanup_linux_qemu_files_for_restart("/run/cdj");
    let (left, zeroed, dir_exists) = clean("/run/cdj", &entries, &steps);
    assert_eq!(
        left,
        [
            "/run/cdj/qmp-current.sock",
            "/run/cdj/vmnet-1.sock",
            "/run/cdj/serial-previous.log",
            "/run/cdj/.instance.lock"
        ]
    );
    assert_eq!(zeroed.len(), 3);
    assert!(dir_exists);
}

#[test]
fn an_entry_of_unknown_kind_stays() {
    let entries = vec![DirEntry {
        name: "odd".into(),
        is_dir: None,
    }];
    let steps = cleanup_qemu_files("/run/cdj", &entries);
    let (left, _, _) = clean("/run/cdj", &entries, &steps);
    assert_eq!(left, ["/run/cdj/odd"]);
}

#[test]
fn a_linux_launch_locks_before_it_touches_anything() {
    let steps = linux_launch_steps(&linux_config());
    assert_eq!(steps.len(), 7);
    assert!(matches!(&steps[0], LaunchStep::CreateDir { path } if path == "/run/cdj"));
    assert!(
        matches!(&steps[1], LaunchStep::LockInstance { path } if path == "/run/cdj/.instance.lock")
    );
    assert!(matches!(&steps[2], LaunchStep::RemoveStaleSockets { dir } if dir == "/run/cdj"));
    assert!(
        matches!(&steps[3], LaunchStep::Prefill { path, len: 8388608 } if path == "/run/cdj/main.shm")
    );
    assert!(
        matches!(&steps[4], LaunchStep::Prefill { path, len: 1048576 } if path == "/run/cdj/jog.shm")
    );
    assert!(
        matches!(&steps[5], LaunchStep::Prefill { path, len: 512 } if path == "/run/cdj/usb.empty.medium")
    );
    assert!(matches!(&steps[6], LaunchStep::LockImage { path } if path == "/data/emmc.qcow2"));
    let mut bare = linux_config();
    bare.virtual_media = false;
    bare.guest.emmc_img = None;
    assert_eq!(linux_launch_steps(&bare).len(), 5);
}

#[test]
fn a_macos_launch_recovers_from_a_stale_process_first() {
    let mut config = QemuConfig::new("/b/Image".into(), "/b/initramfs".into());
    config.shm = true;
    let steps = macos_launch_steps(&config);
    assert!(matches!(
        &steps[0],
        LaunchStep::StopStale { qmp_port: 4445, dir } if dir == "/tmp/cdj3k-emu/instance-0"
    ));
    assert!(matches!(&steps[1], LaunchStep::CreateDir { .. }));
    assert!(matches!(
        &steps[2],
        LaunchStep::Prefill { path, len: 0x6000_0000 } if path == "/tmp/cdj3k-emu/instance-0/ram.shm"
    ));
    assert!(matches!(
        steps.last().unwrap(),
        LaunchStep::PrefillMissing { path, len: 512 }
            if path == "/tmp/cdj3k-emu/instance-0/usb.placeholder"
    ));
    let args = macos_worker_args(&config);
    assert_eq!(args[0], "--qemu-worker");
    assert_eq!(args[1..], config.build_argv()[..]);
}

#[test]
fn failed_steps_are_told_apart() {
    let lock = LaunchStep::LockInstance {
        path: "/run/cdj/.instance.lock".into(),
    };
    assert!(matches!(
        step_error(lock.clone(), StepFailure::Locked),
        InstanceError::InstanceLocked(path) if path == "/run/cdj/.instance.lock"
    ));
    assert!(matches!(
        step_error(lock, StepFailure::Io("no space".into())),
        InstanceError::SockDir(message) if message == "no space"
    ));
    let image = LaunchStep::LockImage {
        path: "/data/emmc.qcow2".into(),
    };
    assert!(matches!(
        step_error(image, StepFailure::Locked),
        InstanceError::EmmcLocked(path) if path == "/data/emmc.qcow2"
    ));
}

#[test]
fn each_launch_has_its_own_socket_and_log() {
    let launched = configure_launch(linux_config(), 17, 18);
    assert_eq!(launched.qmp_socket.as_deref(), Some("/run/cdj/qmp-17.sock"));
    assert_eq!(launched.serial_log.as_deref(), Some("/run/cdj/serial-18.log"));
    let mut logged = linux_config();
    logged.serial_log = Some("/var/log/cdj.log".into());
    let launched = configure_launch(logged, 19, 20);
    assert_eq!(launched.qmp_socket.as_deref(), Some("/run/cdj/qmp-19.sock"));
    assert_eq!(launched.serial_log.as_deref(), Some("/var/log/cdj.log"));
}

#[test]
fn negotiation_ends_with_a_monitor_or_an_error() {
    assert!(matches!(
        negotiate(NegotiationEvent::ChildRunning),
        NegotiationAction::Connect
    ));
    assert!(matches!(
        negotiate(NegotiationEvent::ConnectFailed {
            error: QmpError::Timeout,
            expired: false
        }),
        NegotiationAction::Retry
    ));
    assert!(matches!(
        negotiate(NegotiationEvent::ConnectFailed {
            error: QmpError::Timeout,
            expired: true
        }),
        NegotiationAction::Abandon {
            kill: true,
            error: InstanceError::QmpConnect(QmpError::Timeout)
        }
    ));
    assert!(matches!(
        negotiate(NegotiationEvent::ChildExited { status: "exit status: 1".into() }),
        NegotiationAction::Abandon {
            kill: false,
            error: InstanceError::QmpConnect(QmpError::QemuError(reason)),
        } if reason == "QEMU exited before QMP negotiation: exit status: 1"
    ));
    assert!(matches!(
        negotiate(NegotiationEvent::ChildUnknown { error: "no child".into() }),
        NegotiationAction::Abandon { kill: true, error: InstanceError::SockDir(m) } if m == "no child"
    ));
    assert!(matches!(
        negotiate(NegotiationEvent::Connected),
        NegotiationAction::Monitor
    ));
}

#[test]
fn a_shutdown_goes_through_its_stages_while_qemu_runs() {
    assert_eq!(first_shutdown_stage(false, true, true), None);
    assert_eq!(first_shutdown_stage(true, true, false), None);
    let stage = first_shutdown_stage(true, false, false).unwrap();
    assert_eq!(stage, ShutdownStage::Cleanup);
    assert_eq!(shutdown_wait(stage), 8);
    assert_eq!(wait_or_kill(stage, false, true), WaitStep::Exited);
    assert_eq!(wait_or_kill(stage, true, false), WaitStep::Poll);
    let stage = ShutdownStage::Powerdown;
    assert_eq!(
        wait_or_kill(ShutdownStage::Cleanup, true, true),
        WaitStep::Advance { next: stage }
    );
    assert_eq!(shutdown_wait(stage), 20);
    assert_eq!(
        wait_or_kill(stage, true, true),
        WaitStep::Advance {
            next: ShutdownStage::Quit
        }
    );
    assert_eq!(shutdown_wait(ShutdownStage::Quit), 5);
    assert_eq!(
        wait_or_kill(ShutdownStage::Quit, true, true),
        WaitStep::Kill
    );
    assert_eq!(
        wait_or_kill(ShutdownStage::Quit, false, true),
        WaitStep::Exited
    );
}
