use cdj3k_emu::config::{GuestRuntimeConfig, LinuxQemuConfig, QemuConfig};

const APPEND: &str = "root=/dev/ram0 rdinit=/init loglevel=7 nowatchdog rng_core.default_quality=1024 console=ttyAMA0,115200 systemd.journald.forward_to_console=1 virtio_gpu.modeset=1";

fn linux_config() -> LinuxQemuConfig {
    LinuxQemuConfig {
        guest: GuestRuntimeConfig {
            instance_id: 2,
            kernel: "/tmp/Image".into(),
            initramfs: "/tmp/initramfs".into(),
            emmc_img: Some("/tmp/emmc.qcow2".into()),
            run_dir: "/tmp/cdj3k-instance-2".into(),
            qmp_port: 4447,
            ssh_port: 2224,
            mac: "0a:00:00:00:00:02".into(),
            service_mode: false,
        },
        qemu: "qemu-system-aarch64".into(),
        qemu_img: "qemu-img".into(),
        audio: false,
        audio_device: None,
        network: true,
        virtual_media: false,
        serial_log: None,
        qmp_socket: None,
    }
}

fn config() -> QemuConfig {
    QemuConfig::new("/build/Image".into(), "/build/initramfs".into())
}

fn has_arg(args: &[String], value: &str) -> bool {
    args.iter().any(|arg| arg == value)
}

fn arg_starting_with<'a>(args: &'a [String], prefix: &str) -> &'a str {
    args.iter()
        .find(|arg| arg.starts_with(prefix))
        .map(String::as_str)
        .unwrap_or_else(|| panic!("missing argument starting with {prefix:?}"))
}

#[test]
fn linux_defaults_use_tcg_and_two_display_outputs() {
    let args = linux_config().build_argv();
    assert_eq!(
        args,
        [
            "-machine",
            "virt,gic-version=3",
            "-global",
            "virtio-mmio.force-legacy=false",
            "-accel",
            "tcg,thread=multi",
            "-cpu",
            "cortex-a72",
            "-smp",
            "4",
            "-m",
            "4038197248B",
            "-kernel",
            "/tmp/Image",
            "-initrd",
            "/tmp/initramfs",
            "-append",
            APPEND,
            "-display",
            "shm,path=/tmp/cdj3k-instance-2/main.shm",
            "-qmp",
            "unix:/tmp/cdj3k-instance-2/qmp.sock,server=on,wait=off",
            "-serial",
            "file:/tmp/cdj3k-instance-2/serial.log",
            "-monitor",
            "none",
            "-no-reboot",
            "-object",
            "memory-backend-file,id=jogshm,mem-path=/tmp/cdj3k-instance-2/jog.shm,size=1M,share=on",
            "-device",
            "ivshmem-plain,memdev=jogshm,master=on",
            "-device",
            "virtio-gpu-device,id=virtio-gpu0,xres=1280,yres=720,max_outputs=2",
            "-device",
            "virtio-serial-device,max_ports=8",
            "-chardev",
            "socket,id=vserial_ctrl,path=/tmp/cdj3k-instance-2/ctrl.sock,server=on,wait=off",
            "-device",
            "virtserialport,chardev=vserial_ctrl,name=cdj3k.ctrl",
            "-chardev",
            "socket,id=vserial_cfg,path=/tmp/cdj3k-instance-2/cfg.sock,server=on,wait=off",
            "-device",
            "virtserialport,chardev=vserial_cfg,name=cdj3k.cfg",
            "-drive",
            "file=/tmp/emmc.qcow2,if=none,id=emmc0,format=qcow2,cache=writeback,file.locking=off",
            "-device",
            "virtio-blk-device,drive=emmc0,id=emmc0",
            "-netdev",
            "user,id=net0,hostfwd=tcp::2224-:22",
            "-device",
            "virtio-net-device,netdev=net0,mac=0a:00:00:00:00:02",
        ]
    );
}

#[test]
fn optional_audio_network_and_media_are_independent() {
    let mut config = linux_config();
    config.audio = true;
    config.network = false;
    config.virtual_media = true;
    let args = config.build_argv();
    assert!(args.iter().any(|arg| arg.contains("virtio-sound-device")));
    assert!(!args.iter().any(|arg| arg.contains("-netdev")));
    assert!(args.iter().any(|arg| arg.contains("id=usb0")));
    assert!(args.iter().any(|arg| arg.contains("id=emmc0")));
}

#[test]
fn explicit_launch_paths_and_service_mode_are_forwarded() {
    let mut config = linux_config();
    config.guest.service_mode = true;
    config.guest.emmc_img = None;
    config.serial_log = Some("/tmp/launch-42.log".into());
    config.qmp_socket = Some("/tmp/launch-42.sock".into());
    config.audio = true;
    config.audio_device = Some("sink-1".into());
    let args = config.build_argv();

    assert!(args.windows(2).any(|pair| pair
        == [
            "-append",
            "root=/dev/ram0 rdinit=/init loglevel=7 nowatchdog rng_core.default_quality=1024 console=ttyAMA0,115200 systemd.journald.forward_to_console=1 virtio_gpu.modeset=1 subucom_testmode snd-dummy.enable=0"
        ]));
    assert!(args
        .windows(2)
        .any(|pair| pair == ["-qmp", "unix:/tmp/launch-42.sock,server=on,wait=off"]));
    assert!(args
        .windows(2)
        .any(|pair| pair == ["-serial", "file:/tmp/launch-42.log"]));
    assert!(args
        .windows(2)
        .any(|pair| pair == ["-audiodev", "pa,id=audio0,out.name=sink-1"]));
    assert!(!args.iter().any(|arg| arg.contains("id=emmc0")));
}

#[test]
fn defaults_preserve_the_macos_hvf_command_shape() {
    let args = config().build_argv();

    assert_eq!(args[0], "cdj3k-emu-qemu");
    assert!(has_arg(&args, "-accel"));
    assert!(has_arg(&args, "hvf"));
    assert!(has_arg(&args, "-cpu"));
    assert!(has_arg(&args, "host"));
    assert!(has_arg(&args, "-smp"));
    assert!(has_arg(&args, "4"));
    assert!(has_arg(&args, "-kernel"));
    assert!(has_arg(&args, "/build/Image"));
    assert!(has_arg(&args, "-initrd"));
    assert!(has_arg(&args, "/build/initramfs"));
    assert!(has_arg(&args, "-display"));
    assert!(arg_starting_with(&args, "shm,path=").ends_with("/main.shm"));
    assert!(has_arg(
        &args,
        "virtio-gpu-device,id=virtio-gpu0,xres=1280,yres=720,max_outputs=1"
    ));
    assert!(has_arg(
        &args,
        "virtio-net-device,netdev=net0,mrg_rxbuf=off"
    ));
    assert!(!has_arg(&args, "-audiodev"));
    assert!(!args
        .iter()
        .any(|arg| arg.starts_with("file=/") && arg.contains("emmc")));
}

#[test]
fn tcg_mode_uses_the_explicit_portable_cpu_and_gic() {
    let mut cfg = config();
    cfg.hvf = false;

    let args = cfg.build_argv();

    assert!(has_arg(&args, "-cpu"));
    assert!(has_arg(&args, "cortex-a72"));
    assert!(!has_arg(&args, "-accel"));
    assert!(arg_starting_with(&args, "virt,gic-version=3,").ends_with("kernel-irqchip=off"));
}

#[test]
fn optional_devices_are_independent_and_use_explicit_paths() {
    let mut cfg = config();
    cfg.hvf = false;
    cfg.audio = true;
    cfg.audio_device_uid = Some("Built-in Output,uid".into());
    cfg.service_mode = true;
    cfg.emmc_img = Some("/state/emmc.qcow2".into());
    cfg.instance_id = 2;
    cfg.ssh_port = 2224;

    let args = cfg.build_argv();
    let append = arg_starting_with(&args, "root=/dev/ram0");

    assert!(append.contains("subucom_testmode"));
    assert!(append.contains("snd-dummy.enable=0"));
    assert!(has_arg(&args, "-audiodev"));
    assert!(arg_starting_with(&args, "coreaudio,").contains("out.device-uid=Built-in Output,uid"));
    assert!(has_arg(
        &args,
        "virtio-sound-device,audiodev=audio0,streams=1"
    ));
    assert!(args
        .iter()
        .any(|arg| arg.contains("file=/state/emmc.qcow2")));
    assert!(args.iter().any(|arg| arg.contains("instance-2")));
    assert!(arg_starting_with(&args, "user,id=net0,").contains("hostfwd=tcp::2224-:22"));
}

#[test]
fn serial_logging_is_opt_in() {
    let mut cfg = config();
    let quiet = cfg.build_argv();
    assert!(has_arg(&quiet, "null"));
    assert!(has_arg(&quiet, "none"));

    cfg.serial_log = true;
    let logged = cfg.build_argv();
    assert!(logged
        .iter()
        .any(|arg| arg.starts_with("file:") && arg.ends_with("/serial.log")));
}

#[test]
fn instances_have_directories_of_their_own() {
    let mut first = config();
    first.instance_id = 1;
    let mut second = config();
    second.instance_id = 12;
    assert_eq!(first.sock_dir(), "/tmp/cdj3k-emu/instance-1");
    assert_eq!(second.sock_dir(), "/tmp/cdj3k-emu/instance-12");
    assert_eq!(second.shm_path(), "/tmp/cdj3k-emu/instance-12/ram.shm");
    assert_eq!(second.jog_shm_path(), "/tmp/cdj3k-emu/instance-12/jog.shm");
    assert_eq!(
        second.usb_placeholder_path(),
        "/tmp/cdj3k-emu/instance-12/usb.placeholder"
    );
}

#[test]
fn network_choices_follow_their_precedence() {
    let mut cfg = config();
    cfg.mac = Some("02:00:00:00:00:07".into());
    cfg.net_socket_vmnet = Some("/tmp/vmnet-en0.sock".into());
    let bridged = cfg.build_argv();
    assert!(has_arg(
        &bridged,
        "stream,id=net0,server=off,addr.type=unix,addr.path=/tmp/vmnet-en0.sock"
    ));
    assert!(has_arg(
        &bridged,
        "virtio-net-device,netdev=net0,mac=02:00:00:00:00:07,mrg_rxbuf=off"
    ));
    cfg.net_tap_fd = Some(9);
    cfg.mac = None;
    cfg.instance_id = 300;
    let tapped = cfg.build_argv();
    assert!(has_arg(&tapped, "tap,id=net0,fd=9"));
    assert!(has_arg(
        &tapped,
        "virtio-net-device,netdev=net0,mac=0a:00:00:00:00:2c,mrg_rxbuf=off"
    ));
}
