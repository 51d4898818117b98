//! Guest and host configuration, and the QEMU command lines built from it.

use vstd::prelude::*;

use crate::text;
use crate::text::{
    cat2, cat3, decimal_text, join_path, push_hex_byte, push_pair, push_text, signed_decimal_text,
};

verus! {

/// Platform-neutral guest inputs shared by the macOS and Linux launchers.
/// The launcher owns the QEMU executable and the host backend choices; this
/// value only describes the guest topology and its per-instance state.
#[derive(Clone, Debug)]
pub struct GuestRuntimeConfig {
    pub instance_id: u32,
    pub kernel: String,
    pub initramfs: String,
    pub emmc_img: Option<String>,
    pub run_dir: String,
    pub qmp_port: u16,
    pub ssh_port: u16,
    pub mac: String,
    pub service_mode: bool,
}

/// Linux/WSL host-side QEMU configuration.
#[derive(Clone, Debug)]
pub struct LinuxQemuConfig {
    pub guest: GuestRuntimeConfig,
    pub qemu: String,
    pub qemu_img: String,
    pub audio: bool,
    pub audio_device: Option<String>,
    pub network: bool,
    pub virtual_media: bool,
    /// Optional launch-scoped serial log. A launch supplies a unique path when
    /// this is `None`.
    pub serial_log: Option<String>,
    /// Launch-unique QMP socket, filled in immediately before a launch.
    pub qmp_socket: Option<String>,
}

/// Configuration for a single QEMU CDJ-3000 instance on macOS.
#[derive(Clone, Debug)]
pub struct QemuConfig {
    /// Instance index - selects the /tmp/cdj3k-emu/instance-{id}/ socket directory.
    pub instance_id: u32,
    /// aarch64 kernel image.
    pub kernel: String,
    /// Initramfs image (initramfs-patched.cpio.gz).
    pub initramfs: String,
    /// Use HVF acceleration.
    pub hvf: bool,
    /// The host's HVF provides an in-kernel interrupt controller (macOS 15 and
    /// later). Only meaningful together with `hvf`.
    pub host_in_kernel_gic: bool,
    /// Back guest RAM with a shared file for host-side injection.
    pub shm: bool,
    /// Expose the virtio-sound device (CoreAudio backend).
    pub audio: bool,
    /// CoreAudio device UID to bind the output stream to. `None` means "follow
    /// the system default output". Only meaningful together with `audio`.
    pub audio_device_uid: Option<String>,
    /// Boot into EP122 service/test mode.
    pub service_mode: bool,
    /// eMMC qcow2 image.
    pub emmc_img: Option<String>,
    /// socket_vmnet Unix socket for bridged Pro DJ Link on physical interfaces.
    pub net_socket_vmnet: Option<String>,
    /// TAP interface name - informational only.
    pub net_tap_iface: Option<String>,
    /// Open file descriptor for the QEMU-side TAP device.
    pub net_tap_fd: Option<i32>,
    /// QMP TCP port. Default: 4445 + instance_id.
    pub qmp_port: u16,
    /// GDB TCP port. Default: 1235 + instance_id.
    pub gdb_port: u16,
    /// SSH port forwarded from guest :22. Default: 2222 + instance_id.
    pub ssh_port: u16,
    /// Persistent MAC for the guest virtio-net device. When `None`, falls back
    /// to the deterministic `0a:00:00:00:00:{instance_id}`.
    pub mac: Option<String>,
    /// When `true`, QEMU writes the guest serial console to
    /// `{sock_dir}/serial.log`.
    pub serial_log: bool,
}

/// An optional text that is present and not empty.
pub open spec fn nonempty(text: Option<String>) -> Option<Seq<char>> {
    match text {
        Some(t) => if t@.len() > 0 {
            Some(t@)
        } else {
            None
        },
        None => None,
    }
}

/// The kernel command line: the fixed part, then the service-mode switch, then
/// the switch that silences the dummy sound card.
pub open spec fn kernel_command_line(service_mode: bool, audio: bool) -> Seq<char> {
    KERNEL_COMMAND_LINE@ + (if service_mode {
        " subucom_testmode"@
    } else {
        Seq::empty()
    }) + (if audio {
        " snd-dummy.enable=0"@
    } else {
        Seq::empty()
    })
}

/// The directory that holds an instance's sockets and shared files.
pub open spec fn instance_dir(instance_id: u32) -> Seq<char> {
    "/tmp/cdj3k-emu/instance-"@ + text::decimal(instance_id as nat)
}

/// What the kernel is always told.
pub const KERNEL_COMMAND_LINE: &'static str = "root=/dev/ram0 rdinit=/init loglevel=7 nowatchdog rng_core.default_quality=1024 console=ttyAMA0,115200 systemd.journald.forward_to_console=1 virtio_gpu.modeset=1";

fn build_kernel_command_line(service_mode: bool, audio: bool) -> (r: String)
    ensures
        r@ == kernel_command_line(service_mode, audio),
{
    let mut cmd = KERNEL_COMMAND_LINE.to_owned();
    if service_mode {
        cmd.append(" subucom_testmode");
    }
    if audio {
        cmd.append(" snd-dummy.enable=0");
    }
    assert(cmd@ =~= kernel_command_line(service_mode, audio));
    cmd
}

impl GuestRuntimeConfig {
    /// The shared file of the main display.
    pub open spec fn spec_main_shm_path(&self) -> Seq<char> {
        text::joined(self.run_dir@, "main.shm"@)
    }

    /// The shared file of the jog display.
    pub open spec fn spec_jog_shm_path(&self) -> Seq<char> {
        text::joined(self.run_dir@, "jog.shm"@)
    }

    pub fn main_shm_path(&self) -> (r: String)
        ensures
            r@ == self.spec_main_shm_path(),
    {
        join_path(self.run_dir.as_str(), "main.shm")
    }

    pub fn jog_shm_path(&self) -> (r: String)
        ensures
            r@ == self.spec_jog_shm_path(),
    {
        join_path(self.run_dir.as_str(), "jog.shm")
    }
}

/// One bidirectional virtio-serial port, served on `{dir}/{name}.sock`.
pub open spec fn serial_port_args(dir: Seq<char>, name: Seq<char>) -> Seq<Seq<char>> {
    seq![
        "-chardev"@,
        "socket,id=vserial_"@ + name + ",path="@ + text::joined(dir, name + ".sock"@)
            + ",server=on,wait=off"@,
        "-device"@,
        "virtserialport,chardev=vserial_"@ + name + ",name=cdj3k."@ + name,
    ]
}

/// A drive that is backed by `file`, with the virtio-blk device that exposes it.
pub open spec fn drive_args(file: Seq<char>, id: Seq<char>, format: Seq<char>) -> Seq<Seq<char>> {
    seq![
        "-drive"@,
        "file="@ + file + ",if=none,id="@ + id + ",format="@ + format
            + ",cache=writeback,file.locking=off"@,
        "-device"@,
        "virtio-blk-device,drive="@ + id + ",id="@ + id,
    ]
}

/// The eMMC drive, where there is an image.
pub open spec fn emmc_args(image: Option<String>) -> Seq<Seq<char>> {
    match image {
        Some(img) => drive_args(img@, "emmc0"@, "qcow2"@),
        None => Seq::empty(),
    }
}

/// The jog display's shared-memory device.
pub open spec fn jog_shm_args(file: Seq<char>) -> Seq<Seq<char>> {
    seq![
        "-object"@,
        "memory-backend-file,id=jogshm,mem-path="@ + file + ",size=1M,share=on"@,
        "-device"@,
        "ivshmem-plain,memdev=jogshm,master=on"@,
    ]
}

/// An audio backend, and the virtio-sound device that plays through it. The
/// backend is bound to `device` where one is named.
pub open spec fn audio_args(backend: Seq<char>, key: Seq<char>, device: Option<Seq<char>>) -> Seq<
    Seq<char>,
> {
    seq![
        "-audiodev"@,
        match device {
            Some(d) => backend + key + d,
            None => backend,
        },
        "-device"@,
        "virtio-sound-device,audiodev=audio0,streams=1"@,
    ]
}

fn push_serial_port(args: &mut Vec<String>, dir: &str, name: &str)
    ensures
        text::texts(final(args)@) == text::texts(old(args)@) + serial_port_args(dir@, name@),
{
    let sock = join_path(dir, cat2(name, ".sock").as_str());
    let mut chardev = cat3("socket,id=vserial_", name, ",path=");
    chardev.append(sock.as_str());
    chardev.append(",server=on,wait=off");
    let mut device = cat3("virtserialport,chardev=vserial_", name, ",name=cdj3k.");
    device.append(name);
    push_pair(args, "-chardev", chardev.as_str());
    push_pair(args, "-device", device.as_str());
    assert(text::texts(args@) =~= text::texts(old(args)@) + serial_port_args(dir@, name@));
}

fn push_drive(args: &mut Vec<String>, file: &str, id: &str, format: &str)
    ensures
        text::texts(final(args)@) == text::texts(old(args)@) + drive_args(file@, id@, format@),
{
    let mut drive = cat3("file=", file, ",if=none,id=");
    drive.append(id);
    drive.append(",format=");
    drive.append(format);
    drive.append(",cache=writeback,file.locking=off");
    let mut device = cat3("virtio-blk-device,drive=", id, ",id=");
    device.append(id);
    push_pair(args, "-drive", drive.as_str());
    push_pair(args, "-device", device.as_str());
    assert(text::texts(args@) =~= text::texts(old(args)@) + drive_args(file@, id@, format@));
}

fn push_emmc(args: &mut Vec<String>, image: &Option<String>)
    ensures
        text::texts(final(args)@) == text::texts(old(args)@) + emmc_args(*image),
{
    match image {
        Some(img) => push_drive(args, img.as_str(), "emmc0", "qcow2"),
        None => {
            assert(text::texts(args@) =~= text::texts(old(args)@) + emmc_args(*image));
        },
    }
}

fn push_jog_shm(args: &mut Vec<String>, file: &str)
    ensures
        text::texts(final(args)@) == text::texts(old(args)@) + jog_shm_args(file@),
{
    let object = cat3("memory-backend-file,id=jogshm,mem-path=", file, ",size=1M,share=on");
    push_pair(args, "-object", object.as_str());
    push_pair(args, "-device", "ivshmem-plain,memdev=jogshm,master=on");
    assert(text::texts(args@) =~= text::texts(old(args)@) + jog_shm_args(file@));
}

fn push_audio(args: &mut Vec<String>, backend: &str, key: &str, device: &Option<String>)
    ensures
        text::texts(final(args)@) == text::texts(old(args)@) + audio_args(backend@, key@, nonempty(*device)),
{
    let mut audiodev = backend.to_owned();
    match device {
        Some(d) => {
            if d.as_str().unicode_len() > 0 {
                audiodev.append(key);
                audiodev.append(d.as_str());
            }
        },
        None => {},
    }
    push_pair(args, "-audiodev", audiodev.as_str());
    push_pair(args, "-device", "virtio-sound-device,audiodev=audio0,streams=1");
    assert(text::texts(args@) =~= text::texts(old(args)@) + audio_args(backend@, key@, nonempty(*device)));
}

/// The user-mode network backend that forwards `ssh_port` to the guest's port 22.
pub open spec fn user_netdev(ssh_port: u16) -> Seq<char> {
    "user,id=net0,hostfwd=tcp::"@ + text::decimal(ssh_port as nat) + "-:22"@
}

fn build_user_netdev(ssh_port: u16) -> (r: String)
    ensures
        r@ == user_netdev(ssh_port),
{
    cat3("user,id=net0,hostfwd=tcp::", decimal_text(ssh_port as u128).as_str(), "-:22")
}

impl LinuxQemuConfig {
    /// Where the serial console goes.
    pub open spec fn serial_log_file(&self) -> Seq<char> {
        match self.serial_log {
            Some(p) => p@,
            None => text::joined(self.guest.run_dir@, "serial.log"@),
        }
    }

    /// Where QMP listens.
    pub open spec fn qmp_socket_file(&self) -> Seq<char> {
        match self.qmp_socket {
            Some(p) => p@,
            None => text::joined(self.guest.run_dir@, "qmp.sock"@),
        }
    }

    /// Machine, processor, boot images, display, management and serial console.
    pub open spec fn machine_args(&self) -> Seq<Seq<char>> {
        seq![
            "-machine"@,
            "virt,gic-version=3"@,
            "-global"@,
            "virtio-mmio.force-legacy=false"@,
            "-accel"@,
            "tcg,thread=multi"@,
            "-cpu"@,
            "cortex-a72"@,
            "-smp"@,
            "4"@,
            "-m"@,
            "4038197248B"@,
            "-kernel"@,
            self.guest.kernel@,
            "-initrd"@,
            self.guest.initramfs@,
            "-append"@,
            kernel_command_line(self.guest.service_mode, self.audio),
            "-display"@,
            "shm,path="@ + self.guest.spec_main_shm_path(),
            "-qmp"@,
            "unix:"@ + self.qmp_socket_file() + ",server=on,wait=off"@,
            "-serial"@,
            "file:"@ + self.serial_log_file(),
            "-monitor"@,
            "none"@,
            "-no-reboot"@,
        ]
    }

    /// The graphics device with its two outputs, and the virtio-serial bus.
    pub open spec fn display_args(&self) -> Seq<Seq<char>> {
        seq![
            "-device"@,
            "virtio-gpu-device,id=virtio-gpu0,xres=1280,yres=720,max_outputs=2"@,
            "-device"@,
            "virtio-serial-device,max_ports=8"@,
        ]
    }

    /// The removable-media slot, where it is enabled.
    pub open spec fn media_args(&self) -> Seq<Seq<char>> {
        if self.virtual_media {
            drive_args(text::joined(self.guest.run_dir@, "usb.empty.medium"@), "usb0"@, "raw"@)
        } else {
            Seq::empty()
        }
    }

    /// The sound device, where audio is enabled.
    pub open spec fn sound_args(&self) -> Seq<Seq<char>> {
        if self.audio {
            audio_args("pa,id=audio0"@, ",out.name="@, nonempty(self.audio_device))
        } else {
            Seq::empty()
        }
    }

    /// The network device, where the network is enabled.
    pub open spec fn network_args(&self) -> Seq<Seq<char>> {
        if self.network {
            seq![
                "-netdev"@,
                user_netdev(self.guest.ssh_port),
                "-device"@,
                "virtio-net-device,netdev=net0,mac="@ + self.guest.mac@,
            ]
        } else {
            Seq::empty()
        }
    }

    /// The whole command line, without the program's name.
    pub open spec fn argv(&self) -> Seq<Seq<char>> {
        self.machine_args() + jog_shm_args(self.guest.spec_jog_shm_path()) + self.display_args()
            + serial_port_args(self.guest.run_dir@, "ctrl"@) + serial_port_args(
            self.guest.run_dir@,
            "cfg"@,
        ) + emmc_args(self.guest.emmc_img) + self.media_args() + self.sound_args()
            + self.network_args()
    }

    fn push_machine(&self, args: &mut Vec<String>)
        requires
            old(args)@.len() == 0,
        ensures
            text::texts(final(args)@) == self.machine_args(),
    {
        let g = &self.guest;
        let serial_log = match &self.serial_log {
            Some(p) => p.clone(),
            None => join_path(g.run_dir.as_str(), "serial.log"),
        };
        let qmp_socket = match &self.qmp_socket {
            Some(p) => p.clone(),
            None => join_path(g.run_dir.as_str(), "qmp.sock"),
        };
        push_pair(args, "-machine", "virt,gic-version=3");
        push_pair(args, "-global", "virtio-mmio.force-legacy=false");
        push_pair(args, "-accel", "tcg,thread=multi");
        push_pair(args, "-cpu", "cortex-a72");
        push_pair(args, "-smp", "4");
        push_pair(args, "-m", "4038197248B");
        push_pair(args, "-kernel", g.kernel.as_str());
        push_pair(args, "-initrd", g.initramfs.as_str());
        push_pair(
            args,
            "-append",
            build_kernel_command_line(g.service_mode, self.audio).as_str(),
        );
        push_pair(args, "-display", cat2("shm,path=", g.main_shm_path().as_str()).as_str());
        push_pair(
            args,
            "-qmp",
            cat3("unix:", qmp_socket.as_str(), ",server=on,wait=off").as_str(),
        );
        push_pair(args, "-serial", cat2("file:", serial_log.as_str()).as_str());
        push_pair(args, "-monitor", "none");
        push_text(args, "-no-reboot");
        assert(text::texts(args@) =~= self.machine_args());
    }

    /// Builds the QEMU command line.
    pub fn build_argv(&self) -> (r: Vec<String>)
        ensures
            text::texts(r@) == self.argv(),
    {
        let g = &self.guest;
        let mut args: Vec<String> = Vec::new();
        self.push_machine(&mut args);
        push_jog_shm(&mut args, g.jog_shm_path().as_str());
        let ghost before = text::texts(args@);
        push_pair(
            &mut args,
            "-device",
            "virtio-gpu-device,id=virtio-gpu0,xres=1280,yres=720,max_outputs=2",
        );
        push_pair(&mut args, "-device", "virtio-serial-device,max_ports=8");
        assert(text::texts(args@) =~= before + self.display_args());
        push_serial_port(&mut args, g.run_dir.as_str(), "ctrl");
        push_serial_port(&mut args, g.run_dir.as_str(), "cfg");
        push_emmc(&mut args, &g.emmc_img);
        let ghost before = text::texts(args@);
        if self.virtual_media {
            let placeholder = join_path(g.run_dir.as_str(), "usb.empty.medium");
            push_drive(&mut args, placeholder.as_str(), "usb0", "raw");
        }
        assert(text::texts(args@) =~= before + self.media_args());
        let ghost before = text::texts(args@);
        if self.audio {
            push_audio(&mut args, "pa,id=audio0", ",out.name=", &self.audio_device);
        }
        assert(text::texts(args@) =~= before + self.sound_args());
        let ghost before = text::texts(args@);
        if self.network {
            push_pair(&mut args, "-netdev", build_user_netdev(g.ssh_port).as_str());
            push_pair(
                &mut args,
                "-device",
                cat2("virtio-net-device,netdev=net0,mac=", g.mac.as_str()).as_str(),
            );
        }
        assert(text::texts(args@) =~= before + self.network_args());
        args
    }
}

/// The socket directory of an instance.
pub fn instance_dir_path(instance_id: u32) -> (r: String)
    ensures
        r@ == instance_dir(instance_id),
{
    cat2("/tmp/cdj3k-emu/instance-", decimal_text(instance_id as u128).as_str())
}

impl QemuConfig {
    /// Guest RAM in bytes: a multiple of 64 KiB.
    pub const MEM_BYTES: u64 = 0x6000_0000;

    /// The defaults of instance 0: HVF acceleration, no optional device, no
    /// serial log.
    pub fn new(kernel: String, initramfs: String) -> (r: Self)
        ensures
            r == (QemuConfig {
                instance_id: 0,
                kernel,
                initramfs,
                hvf: true,
                host_in_kernel_gic: false,
                shm: false,
                audio: false,
                audio_device_uid: None,
                service_mode: false,
                emmc_img: None,
                net_socket_vmnet: None,
                net_tap_iface: None,
                net_tap_fd: None,
                qmp_port: 4445,
                gdb_port: 1235,
                ssh_port: 2222,
                mac: None,
                serial_log: false,
            }),
    {
        QemuConfig {
            instance_id: 0,
            kernel,
            initramfs,
            hvf: true,
            host_in_kernel_gic: false,
            shm: false,
            audio: false,
            audio_device_uid: None,
            service_mode: false,
            emmc_img: None,
            net_socket_vmnet: None,
            net_tap_iface: None,
            net_tap_fd: None,
            qmp_port: 4445,
            gdb_port: 1235,
            ssh_port: 2222,
            mac: None,
            serial_log: false,
        }
    }

    /// The instance's socket directory.
    pub fn sock_dir(&self) -> (r: String)
        ensures
            r@ == instance_dir(self.instance_id),
    {
        instance_dir_path(self.instance_id)
    }

    /// Shared RAM file path (only used together with `shm`).
    pub fn shm_path(&self) -> (r: String)
        ensures
            r@ == text::joined(instance_dir(self.instance_id), "ram.shm"@),
    {
        join_path(self.sock_dir().as_str(), "ram.shm")
    }

    /// ivshmem-backed file for the jog display's frame buffer.
    pub fn jog_shm_path(&self) -> (r: String)
        ensures
            r@ == text::joined(instance_dir(self.instance_id), "jog.shm"@),
    {
        join_path(self.sock_dir().as_str(), "jog.shm")
    }

    /// Placeholder backing file for the always-present USB virtio-blk slot.
    pub fn usb_placeholder_path(&self) -> (r: String)
        ensures
            r@ == text::joined(instance_dir(self.instance_id), "usb.placeholder"@),
    {
        join_path(self.sock_dir().as_str(), "usb.placeholder")
    }

    /// The machine type: the interrupt controller runs in the kernel only under
    /// HVF, and only where the host's HVF provides one.
    pub open spec fn machine_base(&self) -> Seq<char> {
        if self.hvf && self.host_in_kernel_gic {
            "virt,gic-version=3,kernel-irqchip=on"@
        } else {
            "virt,gic-version=3,kernel-irqchip=off"@
        }
    }

    /// Guest memory as QEMU's size option.
    pub open spec fn memory_size(&self) -> Seq<char> {
        text::decimal(Self::MEM_BYTES as nat) + "B"@
    }

    /// The program's name, the machine and its memory.
    pub open spec fn machine_args(&self) -> Seq<Seq<char>> {
        seq!["cdj3k-emu-qemu"@, "-machine"@, self.machine_base(), "-m"@, self.memory_size()]
    }

    /// Accelerator and processor: the host's under HVF, a portable one otherwise.
    pub open spec fn cpu_args(&self) -> Seq<Seq<char>> {
        if self.hvf {
            seq!["-accel"@, "hvf"@, "-cpu"@, "host"@]
        } else {
            seq!["-cpu"@, "cortex-a72"@]
        }
    }

    /// Boot images and the kernel command line.
    pub open spec fn boot_args(&self) -> Seq<Seq<char>> {
        seq![
            "-smp"@,
            "4"@,
            "-kernel"@,
            self.kernel@,
            "-initrd"@,
            self.initramfs@,
            "-append"@,
            kernel_command_line(self.service_mode, self.audio),
        ]
    }

    /// Serial console to a file where logging is on; otherwise no console of
    /// any kind.
    pub open spec fn serial_args(&self) -> Seq<Seq<char>> {
        if self.serial_log {
            seq![
                "-serial"@,
                "file:"@ + text::joined(instance_dir(self.instance_id), "serial.log"@),
            ]
        } else {
            seq!["-serial"@, "null"@, "-monitor"@, "none"@, "-parallel"@, "none"@]
        }
    }

    /// Guest memory in a shared file, where enabled.
    pub open spec fn shared_memory_args(&self) -> Seq<Seq<char>> {
        if self.shm {
            seq![
                "-object"@,
                "memory-backend-file,id=ram0,size="@ + self.memory_size() + ",mem-path="@
                    + text::joined(instance_dir(self.instance_id), "ram.shm"@) + ",share=on"@,
                "-machine"@,
                self.machine_base() + ",memory-backend=ram0"@,
            ]
        } else {
            Seq::empty()
        }
    }

    /// Main display, management port and random-number device.
    pub open spec fn display_args(&self) -> Seq<Seq<char>> {
        seq![
            "-display"@,
            "shm,path="@ + instance_dir(self.instance_id) + "/main.shm"@,
            "-qmp"@,
            "tcp:localhost:"@ + text::decimal(self.qmp_port as nat) + ",server=on,wait=off"@,
            "-object"@,
            "rng-random,id=rng0,filename=/dev/urandom"@,
            "-device"@,
            "virtio-rng-device,rng=rng0"@,
        ]
    }

    /// The sound device, where audio is enabled.
    pub open spec fn sound_args(&self) -> Seq<Seq<char>> {
        if self.audio {
            audio_args(
                "coreaudio,id=audio0,in.voices=0,out.buffer-length=5000"@,
                ",out.device-uid="@,
                nonempty(self.audio_device_uid),
            )
        } else {
            Seq::empty()
        }
    }

    /// The guest's MAC: the given one, or one made from the low byte of the
    /// instance number.
    pub open spec fn mac_address(&self) -> Seq<char> {
        match self.mac {
            Some(m) => m@,
            None => "0a:00:00:00:00:"@ + text::hex_byte((self.instance_id % 256) as u8),
        }
    }

    /// The network: a TAP descriptor comes first, then a socket_vmnet bridge,
    /// and user-mode networking is the fallback.
    pub open spec fn network_args(&self) -> Seq<Seq<char>> {
        match (self.net_tap_fd, self.net_socket_vmnet) {
            (Some(fd), _) => seq![
                "-netdev"@,
                "tap,id=net0,fd="@ + text::signed_decimal(fd as int),
                "-device"@,
                "virtio-net-device,netdev=net0,mac="@ + self.mac_address() + ",mrg_rxbuf=off"@,
            ],
            (None, Some(sock)) => seq![
                "-netdev"@,
                "stream,id=net0,server=off,addr.type=unix,addr.path="@ + sock@,
                "-device"@,
                "virtio-net-device,netdev=net0,mac="@ + self.mac_address() + ",mrg_rxbuf=off"@,
            ],
            (None, None) => seq![
                "-netdev"@,
                user_netdev(self.ssh_port),
                "-device"@,
                "virtio-net-device,netdev=net0,mrg_rxbuf=off"@,
            ],
        }
    }

    /// The virtio-serial bus with its two ports.
    pub open spec fn port_args(&self) -> Seq<Seq<char>> {
        seq!["-device"@, "virtio-serial-device,max_ports=8"@] + serial_port_args(
            instance_dir(self.instance_id),
            "ctrl"@,
        ) + serial_port_args(instance_dir(self.instance_id), "cfg"@)
    }

    /// The USB slot and, behind it, the eMMC. The guest probes the drives in
    /// reverse order, so that the eMMC becomes its first drive.
    pub open spec fn storage_args(&self) -> Seq<Seq<char>> {
        drive_args(
            text::joined(instance_dir(self.instance_id), "usb.placeholder"@),
            "usb0"@,
            "raw"@,
        ) + emmc_args(self.emmc_img)
    }

    /// Graphics device, reboot policy and debugger port.
    pub open spec fn final_args(&self) -> Seq<Seq<char>> {
        seq![
            "-device"@,
            "virtio-gpu-device,id=virtio-gpu0,xres=1280,yres=720,max_outputs=1"@,
            "-no-reboot"@,
            "-gdb"@,
            "tcp::"@ + text::decimal(self.gdb_port as nat),
        ]
    }

    /// The whole command line, with the program's name in front.
    pub open spec fn argv(&self) -> Seq<Seq<char>> {
        self.machine_args() + self.cpu_args() + self.boot_args() + self.serial_args()
            + self.shared_memory_args() + self.display_args() + self.sound_args()
            + self.network_args() + self.port_args() + jog_shm_args(
            text::joined(instance_dir(self.instance_id), "jog.shm"@),
        ) + self.storage_args() + self.final_args()
    }

    fn machine_name(&self) -> (r: &'static str)
        ensures
            r@ == self.machine_base(),
    {
        if self.hvf && self.host_in_kernel_gic {
            "virt,gic-version=3,kernel-irqchip=on"
        } else {
            "virt,gic-version=3,kernel-irqchip=off"
        }
    }

    fn push_processor_and_boot(&self, args: &mut Vec<String>)
        ensures
            text::texts(final(args)@) == text::texts(old(args)@) + self.machine_args() + self.cpu_args()
                + self.boot_args(),
    {
        let memory = cat2(decimal_text(Self::MEM_BYTES as u128).as_str(), "B");
        push_text(args, "cdj3k-emu-qemu");
        push_pair(args, "-machine", self.machine_name());
        push_pair(args, "-m", memory.as_str());
        assert(text::texts(args@) =~= text::texts(old(args)@) + self.machine_args());
        let ghost before = text::texts(args@);
        if self.hvf {
            push_pair(args, "-accel", "hvf");
            push_pair(args, "-cpu", "host");
        } else {
            push_pair(args, "-cpu", "cortex-a72");
        }
        assert(text::texts(args@) =~= before + self.cpu_args());
        let ghost before = text::texts(args@);
        push_pair(args, "-smp", "4");
        push_pair(args, "-kernel", self.kernel.as_str());
        push_pair(args, "-initrd", self.initramfs.as_str());
        push_pair(
            args,
            "-append",
            build_kernel_command_line(self.service_mode, self.audio).as_str(),
        );
        assert(text::texts(args@) =~= before + self.boot_args());
    }

    fn push_serial_and_memory(&self, args: &mut Vec<String>)
        ensures
            text::texts(final(args)@) == text::texts(old(args)@) + self.serial_args()
                + self.shared_memory_args(),
    {
        if self.serial_log {
            let serial_log = join_path(self.sock_dir().as_str(), "serial.log");
            push_pair(args, "-serial", cat2("file:", serial_log.as_str()).as_str());
        } else {
            push_pair(args, "-serial", "null");
            push_pair(args, "-monitor", "none");
            push_pair(args, "-parallel", "none");
        }
        assert(text::texts(args@) =~= text::texts(old(args)@) + self.serial_args());
        let ghost before = text::texts(args@);
        if self.shm {
            let memory = cat2(decimal_text(Self::MEM_BYTES as u128).as_str(), "B");
            let mut object = cat3(
                "memory-backend-file,id=ram0,size=",
                memory.as_str(),
                ",mem-path=",
            );
            object.append(self.shm_path().as_str());
            object.append(",share=on");
            push_pair(args, "-object", object.as_str());
            push_pair(
                args,
                "-machine",
                cat2(self.machine_name(), ",memory-backend=ram0").as_str(),
            );
        }
        assert(text::texts(args@) =~= before + self.shared_memory_args());
    }

    fn push_display(&self, args: &mut Vec<String>)
        ensures
            text::texts(final(args)@) == text::texts(old(args)@) + self.display_args(),
    {
        push_pair(
            args,
            "-display",
            cat3("shm,path=", self.sock_dir().as_str(), "/main.shm").as_str(),
        );
        push_pair(
            args,
            "-qmp",
            cat3(
                "tcp:localhost:",
                decimal_text(self.qmp_port as u128).as_str(),
                ",server=on,wait=off",
            ).as_str(),
        );
        push_pair(args, "-object", "rng-random,id=rng0,filename=/dev/urandom");
        push_pair(args, "-device", "virtio-rng-device,rng=rng0");
        assert(text::texts(args@) =~= text::texts(old(args)@) + self.display_args());
    }

    fn guest_mac(&self) -> (r: String)
        ensures
            r@ == self.mac_address(),
    {
        match &self.mac {
            Some(m) => m.clone(),
            None => {
                let mut mac = "0a:00:00:00:00:".to_owned();
                push_hex_byte(&mut mac, (self.instance_id % 256) as u8);
                mac
            },
        }
    }

    fn push_network(&self, args: &mut Vec<String>)
        ensures
            text::texts(final(args)@) == text::texts(old(args)@) + self.network_args(),
    {
        let mac = self.guest_mac();
        let device = cat3("virtio-net-device,netdev=net0,mac=", mac.as_str(), ",mrg_rxbuf=off");
        if let Some(fd) = self.net_tap_fd {
            push_pair(
                args,
                "-netdev",
                cat2("tap,id=net0,fd=", signed_decimal_text(fd).as_str()).as_str(),
            );
            push_pair(args, "-device", device.as_str());
        } else if let Some(sock) = &self.net_socket_vmnet {
            push_pair(
                args,
                "-netdev",
                cat2(
                    "stream,id=net0,server=off,addr.type=unix,addr.path=",
                    sock.as_str(),
                ).as_str(),
            );
            push_pair(args, "-device", device.as_str());
        } else {
            push_pair(args, "-netdev", build_user_netdev(self.ssh_port).as_str());
            push_pair(args, "-device", "virtio-net-device,netdev=net0,mrg_rxbuf=off");
        }
        assert(text::texts(args@) =~= text::texts(old(args)@) + self.network_args());
    }

    fn push_ports(&self, args: &mut Vec<String>)
        ensures
            text::texts(final(args)@) == text::texts(old(args)@) + self.port_args(),
    {
        let sock = self.sock_dir();
        push_pair(args, "-device", "virtio-serial-device,max_ports=8");
        push_serial_port(args, sock.as_str(), "ctrl");
        push_serial_port(args, sock.as_str(), "cfg");
        assert(text::texts(args@) =~= text::texts(old(args)@) + self.port_args());
    }

    /// Builds the QEMU command line.
    pub fn build_argv(&self) -> (r: Vec<String>)
        ensures
            text::texts(r@) == self.argv(),
    {
        let mut args: Vec<String> = Vec::new();
        assert(text::texts(args@) =~= Seq::empty());
        self.push_processor_and_boot(&mut args);
        assert(text::texts(args@) =~= self.machine_args() + self.cpu_args() + self.boot_args());
        self.push_serial_and_memory(&mut args);
        self.push_display(&mut args);
        let ghost before = text::texts(args@);
        if self.audio {
            push_audio(
                &mut args,
                "coreaudio,id=audio0,in.voices=0,out.buffer-length=5000",
                ",out.device-uid=",
                &self.audio_device_uid,
            );
        }
        assert(text::texts(args@) =~= before + self.sound_args());
        self.push_network(&mut args);
        self.push_ports(&mut args);
        push_jog_shm(&mut args, self.jog_shm_path().as_str());
        let ghost before = text::texts(args@);
        push_drive(&mut args, self.usb_placeholder_path().as_str(), "usb0", "raw");
        push_emmc(&mut args, &self.emmc_img);
        assert(text::texts(args@) =~= before + self.storage_args());
        let ghost before = text::texts(args@);
        push_pair(
            &mut args,
            "-device",
            "virtio-gpu-device,id=virtio-gpu0,xres=1280,yres=720,max_outputs=1",
        );
        push_text(&mut args, "-no-reboot");
        push_pair(
            &mut args,
            "-gdb",
            cat2("tcp::", decimal_text(self.gdb_port as u128).as_str()).as_str(),
        );
        assert(text::texts(args@) =~= before + self.final_args());
        args
    }
}

/// Two instances never share a socket directory.
pub proof fn instances_have_separate_directories(a: u32, b: u32)
    ensures
        instance_dir(a) == instance_dir(b) <==> a == b,
{
    let base = "/tmp/cdj3k-emu/instance-"@;
    if instance_dir(a) == instance_dir(b) {
        assert(instance_dir(a).skip(base.len() as int) =~= text::decimal(a as nat));
        assert(instance_dir(b).skip(base.len() as int) =~= text::decimal(b as nat));
        text::lemma_decimal_is_injective(a as nat, b as nat);
    }
}

/// The Linux network switch decides on the network arguments and on nothing else.
pub proof fn linux_network_is_independent(a: LinuxQemuConfig, b: LinuxQemuConfig)
    requires
        b == (LinuxQemuConfig { network: b.network, ..a }),
    ensures
        exists|rest: Seq<Seq<char>>|
            a.argv() == rest + a.network_args() && b.argv() == #[trigger] (rest
                + b.network_args()),
{
    let rest = a.machine_args() + jog_shm_args(a.guest.spec_jog_shm_path()) + a.display_args()
        + serial_port_args(a.guest.run_dir@, "ctrl"@) + serial_port_args(
        a.guest.run_dir@,
        "cfg"@,
    ) + emmc_args(a.guest.emmc_img) + a.media_args() + a.sound_args();
    assert(b.argv() == rest + b.network_args());
}

/// The Linux removable-media switch decides on the media slot and on nothing else.
pub proof fn linux_media_is_independent(a: LinuxQemuConfig, b: LinuxQemuConfig)
    requires
        b == (LinuxQemuConfig { virtual_media: b.virtual_media, ..a }),
    ensures
        exists|front: Seq<Seq<char>>, back: Seq<Seq<char>>|
            a.argv() == front + a.media_args() + back && b.argv() == #[trigger] (front
                + b.media_args() + back),
{
    let front = a.machine_args() + jog_shm_args(a.guest.spec_jog_shm_path()) + a.display_args()
        + serial_port_args(a.guest.run_dir@, "ctrl"@) + serial_port_args(
        a.guest.run_dir@,
        "cfg"@,
    ) + emmc_args(a.guest.emmc_img);
    let back = a.sound_args() + a.network_args();
    assert(a.argv() =~= front + a.media_args() + back);
    assert(b.argv() =~= front + b.media_args() + back);
}

/// The position of the kernel command line among the Linux arguments.
pub const LINUX_APPEND_INDEX: usize = 17;

/// Changing the audio switch changes one machine argument, the kernel command line.
proof fn lemma_audio_in_machine_args(a: LinuxQemuConfig, b: LinuxQemuConfig)
    requires
        b == (LinuxQemuConfig { audio: b.audio, audio_device: b.audio_device, ..a }),
    ensures
        b.machine_args() == a.machine_args().update(
            LINUX_APPEND_INDEX as int,
            kernel_command_line(a.guest.service_mode, b.audio),
        ),
        a.machine_args().len() == 27,
{
    assert(b.machine_args() =~= a.machine_args().update(
        LINUX_APPEND_INDEX as int,
        kernel_command_line(a.guest.service_mode, b.audio),
    ));
}

proof fn lemma_update_in_front<T>(front: Seq<T>, tail: Seq<T>, i: int, x: T)
    requires
        0 <= i < front.len(),
    ensures
        (front + tail).update(i, x) == front.update(i, x) + tail,
{
    assert((front + tail).update(i, x) =~= front.update(i, x) + tail);
}

impl LinuxQemuConfig {
    /// What stands between the machine arguments and the sound arguments.
    pub open spec fn fixed_device_args(&self) -> Seq<Seq<char>> {
        jog_shm_args(self.guest.spec_jog_shm_path()) + self.display_args() + serial_port_args(
            self.guest.run_dir@,
            "ctrl"@,
        ) + serial_port_args(self.guest.run_dir@, "cfg"@) + emmc_args(self.guest.emmc_img)
            + self.media_args()
    }

    proof fn lemma_argv_grouped(&self)
        ensures
            self.argv() == self.machine_args() + self.fixed_device_args() + self.sound_args()
                + self.network_args(),
    {
        let m = self.machine_args();
        let j = jog_shm_args(self.guest.spec_jog_shm_path());
        let d = self.display_args();
        let c = serial_port_args(self.guest.run_dir@, "ctrl"@);
        let f = serial_port_args(self.guest.run_dir@, "cfg"@);
        let e = emmc_args(self.guest.emmc_img);
        let v = self.media_args();
        text::lemma_regroup(m, j, d);
        text::lemma_regroup(m, j + d, c);
        text::lemma_regroup(m, j + d + c, f);
        text::lemma_regroup(m, j + d + c + f, e);
        text::lemma_regroup(m, j + d + c + f + e, v);
    }
}

/// The Linux audio settings decide on the sound arguments and on the kernel
/// command line, and on nothing else.
pub proof fn linux_audio_is_independent(a: LinuxQemuConfig, b: LinuxQemuConfig)
    requires
        b == (LinuxQemuConfig { audio: b.audio, audio_device: b.audio_device, ..a }),
    ensures
        exists|front: Seq<Seq<char>>, back: Seq<Seq<char>>|
            a.argv() == front + a.sound_args() + back && b.argv() == #[trigger] (front.update(
                LINUX_APPEND_INDEX as int,
                kernel_command_line(a.guest.service_mode, b.audio),
            ) + b.sound_args() + back),
{
    let front = a.machine_args() + a.fixed_device_args();
    let back = a.network_args();
    a.lemma_argv_grouped();
    b.lemma_argv_grouped();
    lemma_audio_in_machine_args(a, b);
    lemma_update_in_front(
        a.machine_args(),
        a.fixed_device_args(),
        LINUX_APPEND_INDEX as int,
        kernel_command_line(a.guest.service_mode, b.audio),
    );
    assert(b.argv() == front.update(
        LINUX_APPEND_INDEX as int,
        kernel_command_line(a.guest.service_mode, b.audio),
    ) + b.sound_args() + back);
}

/// Without HVF the machine uses the emulated interrupt controller and the
/// portable processor, whatever the host provides.
pub proof fn tcg_is_portable(c: QemuConfig)
    requires
        !c.hvf,
    ensures
        c.machine_base() == "virt,gic-version=3,kernel-irqchip=off"@,
        c.cpu_args() == seq!["-cpu"@, "cortex-a72"@],
{
}

/// The macOS serial-log switch decides on the console arguments and on nothing else.
pub proof fn serial_logging_is_opt_in(a: QemuConfig, b: QemuConfig)
    requires
        b == (QemuConfig { serial_log: b.serial_log, ..a }),
    ensures
        exists|front: Seq<Seq<char>>, back: Seq<Seq<char>>|
            a.argv() == front + a.serial_args() + back && b.argv() == #[trigger] (front
                + b.serial_args() + back),
{
    a.lemma_argv_grouped();
    b.lemma_argv_grouped();
    let front = a.machine_args() + a.cpu_args() + a.boot_args();
    assert(b.argv() == front + b.serial_args() + a.args_after_serial());
}

impl QemuConfig {
    /// What stands behind the console arguments.
    pub open spec fn args_after_serial(&self) -> Seq<Seq<char>> {
        self.shared_memory_args() + self.display_args() + self.sound_args() + self.network_args()
            + self.port_args() + jog_shm_args(
            text::joined(instance_dir(self.instance_id), "jog.shm"@),
        ) + self.storage_args() + self.final_args()
    }

    proof fn lemma_argv_grouped(&self)
        ensures
            self.argv() == self.machine_args() + self.cpu_args() + self.boot_args()
                + self.serial_args() + self.args_after_serial(),
    {
        let front = self.machine_args() + self.cpu_args() + self.boot_args() + self.serial_args();
        let m = self.shared_memory_args();
        let d = self.display_args();
        let a = self.sound_args();
        let n = self.network_args();
        let p = self.port_args();
        let j = jog_shm_args(text::joined(instance_dir(self.instance_id), "jog.shm"@));
        let s = self.storage_args();
        let f = self.final_args();
        text::lemma_regroup(front, m, d);
        text::lemma_regroup(front, m + d, a);
        text::lemma_regroup(front, m + d + a, n);
        text::lemma_regroup(front, m + d + a + n, p);
        text::lemma_regroup(front, m + d + a + n + p, j);
        text::lemma_regroup(front, m + d + a + n + p + j, s);
        text::lemma_regroup(front, m + d + a + n + p + j + s, f);
    }
}

/// A command line gives an option this value: they stand next to each other.
pub open spec fn gives(args: Seq<Seq<char>>, option: Seq<char>, value: Seq<char>) -> bool {
    exists|i: int|
        0 <= i && i + 1 < args.len() && #[trigger] args[i] == option && args[i + 1] == value
}

proof fn lemma_gives_append(a: Seq<Seq<char>>, b: Seq<Seq<char>>)
    ensures
        forall|o: Seq<char>, v: Seq<char>|
            gives(a, o, v) || gives(b, o, v) ==> #[trigger] gives(a + b, o, v),
        forall|o: Seq<char>| a.contains(o) || b.contains(o) ==> #[trigger] (a + b).contains(o),
{
    assert forall|o: Seq<char>, v: Seq<char>| gives(a, o, v) || gives(b, o, v) implies
        #[trigger] gives(a + b, o, v) by {
        if gives(a, o, v) {
            let i = choose|i: int|
                0 <= i && i + 1 < a.len() && #[trigger] a[i] == o && a[i + 1] == v;
            assert((a + b)[i] == o && (a + b)[i + 1] == v);
        } else {
            let i = choose|i: int|
                0 <= i && i + 1 < b.len() && #[trigger] b[i] == o && b[i + 1] == v;
            assert((a + b)[a.len() + i] == o && (a + b)[a.len() + i + 1] == v);
        }
    }
    assert forall|o: Seq<char>| a.contains(o) || b.contains(o) implies #[trigger] (a
        + b).contains(o) by {
        if a.contains(o) {
            let i = choose|i: int| 0 <= i < a.len() && a[i] == o;
            assert((a + b)[i] == o);
        } else {
            let i = choose|i: int| 0 <= i < b.len() && b[i] == o;
            assert((a + b)[a.len() + i] == o);
        }
    }
}

/// A pair in a list, at its place.
proof fn lemma_pair(args: Seq<Seq<char>>, i: int)
    requires
        0 <= i,
        i + 1 < args.len(),
    ensures
        gives(args, args[i], args[i + 1]),
{
}

impl QemuConfig {
    proof fn lemma_parts_are_given(&self)
        ensures
            forall|o: Seq<char>, v: Seq<char>|
                gives(self.machine_args(), o, v) || gives(self.cpu_args(), o, v) || gives(
                    self.boot_args(),
                    o,
                    v,
                ) || gives(self.serial_args(), o, v) || gives(self.shared_memory_args(), o, v)
                    || gives(self.display_args(), o, v) || gives(self.sound_args(), o, v) || gives(
                    self.network_args(),
                    o,
                    v,
                ) || gives(self.port_args(), o, v) || gives(
                    jog_shm_args(text::joined(instance_dir(self.instance_id), "jog.shm"@)),
                    o,
                    v,
                ) || gives(self.storage_args(), o, v) || gives(self.final_args(), o, v)
                    ==> #[trigger] gives(self.argv(), o, v),
            forall|o: Seq<char>|
                self.final_args().contains(o) ==> #[trigger] self.argv().contains(o),
    {
        let j = jog_shm_args(text::joined(instance_dir(self.instance_id), "jog.shm"@));
        let a1 = self.machine_args() + self.cpu_args();
        let a2 = a1 + self.boot_args();
        let a3 = a2 + self.serial_args();
        let a4 = a3 + self.shared_memory_args();
        let a5 = a4 + self.display_args();
        let a6 = a5 + self.sound_args();
        let a7 = a6 + self.network_args();
        let a8 = a7 + self.port_args();
        let a9 = a8 + j;
        let a10 = a9 + self.storage_args();
        lemma_gives_append(self.machine_args(), self.cpu_args());
        lemma_gives_append(a1, self.boot_args());
        lemma_gives_append(a2, self.serial_args());
        lemma_gives_append(a3, self.shared_memory_args());
        lemma_gives_append(a4, self.display_args());
        lemma_gives_append(a5, self.sound_args());
        lemma_gives_append(a6, self.network_args());
        lemma_gives_append(a7, self.port_args());
        lemma_gives_append(a8, j);
        lemma_gives_append(a9, self.storage_args());
        lemma_gives_append(a10, self.final_args());
    }
}

/// On macOS QEMU serves its machine protocol on the configured port of this host, and a
/// debugger on the other one.
pub proof fn macos_serves_the_configured_ports(c: QemuConfig)
    ensures
        gives(
            c.argv(),
            "-qmp"@,
            "tcp:localhost:"@ + text::decimal(c.qmp_port as nat) + ",server=on,wait=off"@,
        ),
        gives(c.argv(), "-gdb"@, "tcp::"@ + text::decimal(c.gdb_port as nat)),
{
    c.lemma_parts_are_given();
    lemma_pair(c.display_args(), 2);
    lemma_pair(c.final_args(), 3);
}

/// Configurations of macOS that differ in the port of the machine protocol alone differ in the
/// one argument that names it, and likewise for the debugger's port.
pub proof fn macos_ports_stand_in_one_argument(a: QemuConfig, qmp_port: u16, gdb_port: u16)
    ensures
        exists|i: int|
            0 <= i < a.argv().len() && (QemuConfig { qmp_port, ..a }).argv() == #[trigger] (
            a.argv().update(
                i,
                "tcp:localhost:"@ + text::decimal(qmp_port as nat) + ",server=on,wait=off"@,
            )),
        exists|i: int|
            0 <= i < a.argv().len() && (QemuConfig { gdb_port, ..a }).argv() == #[trigger] (
            a.argv().update(i, "tcp::"@ + text::decimal(gdb_port as nat))),
{
    let b = QemuConfig { qmp_port, ..a };
    let c = QemuConfig { gdb_port, ..a };
    let front = a.machine_args() + a.cpu_args() + a.boot_args() + a.serial_args()
        + a.shared_memory_args();
    let i = front.len() + 3;
    assert(b.argv() =~= a.argv().update(
        i as int,
        "tcp:localhost:"@ + text::decimal(qmp_port as nat) + ",server=on,wait=off"@,
    ));
    let k = a.argv().len() - 1;
    assert(c.argv() =~= a.argv().update(k, "tcp::"@ + text::decimal(gdb_port as nat)));
}

/// On macOS QEMU boots the configured kernel and initramfs on four processors, with the
/// service-mode switch and the switch of the dummy sound card on the kernel's command line
/// exactly where they are due, and does not reboot.
pub proof fn macos_boots_the_configured_images(c: QemuConfig)
    ensures
        gives(c.argv(), "-kernel"@, c.kernel@),
        gives(c.argv(), "-initrd"@, c.initramfs@),
        gives(c.argv(), "-smp"@, "4"@),
        exists|line: Seq<char>|
            #[trigger] gives(c.argv(), "-append"@, line) && is_kernel_line(
                line,
                c.service_mode,
                c.audio,
            ),
        c.argv().contains("-no-reboot"@),
        c.hvf ==> gives(c.argv(), "-accel"@, "hvf"@) && gives(c.argv(), "-cpu"@, "host"@),
        !c.hvf ==> gives(c.argv(), "-cpu"@, "cortex-a72"@),
{
    c.lemma_parts_are_given();
    lemma_pair(c.boot_args(), 0);
    lemma_pair(c.boot_args(), 2);
    lemma_pair(c.boot_args(), 4);
    lemma_pair(c.boot_args(), 6);
    lemma_kernel_line(c.service_mode, c.audio);
    lemma_pair(c.cpu_args(), 0);
    if c.hvf {
        lemma_pair(c.cpu_args(), 2);
    }
    assert(c.final_args()[2] == "-no-reboot"@);
    assert(gives(c.argv(), "-append"@, kernel_command_line(c.service_mode, c.audio)));
}

/// A kernel command line: it boots from the initramfs, speaks on the serial port, and then
/// names the service mode and silences the dummy sound card where that is due.
pub open spec fn is_kernel_line(line: Seq<char>, service_mode: bool, audio: bool) -> bool {
    line == "root=/dev/ram0 rdinit=/init loglevel=7 nowatchdog rng_core.default_quality=1024 console=ttyAMA0,115200 systemd.journald.forward_to_console=1 virtio_gpu.modeset=1"@
        + (match (service_mode, audio) {
        (false, false) => Seq::empty(),
        (true, false) => " subucom_testmode"@,
        (false, true) => " snd-dummy.enable=0"@,
        (true, true) => " subucom_testmode"@ + " snd-dummy.enable=0"@,
    })
}

proof fn lemma_kernel_line(service_mode: bool, audio: bool)
    ensures
        is_kernel_line(kernel_command_line(service_mode, audio), service_mode, audio),
{
    let base = KERNEL_COMMAND_LINE@;
    assert(base + Seq::<char>::empty() =~= base);
    assert(kernel_command_line(service_mode, audio) =~= base + (match (service_mode, audio) {
        (false, false) => Seq::empty(),
        (true, false) => " subucom_testmode"@,
        (false, true) => " snd-dummy.enable=0"@,
        (true, true) => " subucom_testmode"@ + " snd-dummy.enable=0"@,
    }));
}

/// On macOS guest memory is 1.5 GiB, whether or not it is shared, and the interrupt controller
/// runs in the kernel exactly where HVF is used and offers one.
pub proof fn macos_memory_and_machine(c: QemuConfig)
    ensures
        gives(c.argv(), "-m"@, text::decimal(1_610_612_736) + "B"@),
        c.hvf && c.host_in_kernel_gic ==> gives(
            c.argv(),
            "-machine"@,
            "virt,gic-version=3,kernel-irqchip=on"@,
        ),
        !(c.hvf && c.host_in_kernel_gic) ==> gives(
            c.argv(),
            "-machine"@,
            "virt,gic-version=3,kernel-irqchip=off"@,
        ),
        c.shm ==> gives(
            c.argv(),
            "-object"@,
            "memory-backend-file,id=ram0,size="@ + (text::decimal(1_610_612_736) + "B"@)
                + ",mem-path="@ + text::joined(instance_dir(c.instance_id), "ram.shm"@)
                + ",share=on"@,
        ),
        c.shm ==> gives(
            c.argv(),
            "-machine"@,
            (if c.hvf && c.host_in_kernel_gic {
                "virt,gic-version=3,kernel-irqchip=on"@
            } else {
                "virt,gic-version=3,kernel-irqchip=off"@
            }) + ",memory-backend=ram0"@,
        ),
        c.argv()[0] == "cdj3k-emu-qemu"@,
{
    c.lemma_parts_are_given();
    lemma_pair(c.machine_args(), 1);
    lemma_pair(c.machine_args(), 3);
    if c.shm {
        lemma_pair(c.shared_memory_args(), 0);
        lemma_pair(c.shared_memory_args(), 2);
    }
    c.lemma_argv_grouped();
}

/// On macOS the displays, the control ports and the console go through files in the directory
/// of the instance, under the names by which the readers look for them.
pub proof fn macos_shares_files_with_the_application(c: QemuConfig)
    ensures
        ({
            let dir = instance_dir(c.instance_id);
            &&& gives(c.argv(), "-display"@, "shm,path="@ + dir + "/main.shm"@)
            &&& gives(
                c.argv(),
                "-object"@,
                "memory-backend-file,id=jogshm,mem-path="@ + text::joined(dir, "jog.shm"@)
                    + ",size=1M,share=on"@,
            )
            &&& gives(c.argv(), "-device"@, "ivshmem-plain,memdev=jogshm,master=on"@)
            &&& gives(
                c.argv(),
                "-chardev"@,
                "socket,id=vserial_"@ + "ctrl"@ + ",path="@ + text::joined(dir, "ctrl"@ + ".sock"@)
                    + ",server=on,wait=off"@,
            )
            &&& gives(
                c.argv(),
                "-device"@,
                "virtserialport,chardev=vserial_"@ + "ctrl"@ + ",name=cdj3k."@ + "ctrl"@,
            )
            &&& gives(
                c.argv(),
                "-chardev"@,
                "socket,id=vserial_"@ + "cfg"@ + ",path="@ + text::joined(dir, "cfg"@ + ".sock"@)
                    + ",server=on,wait=off"@,
            )
            &&& gives(
                c.argv(),
                "-device"@,
                "virtserialport,chardev=vserial_"@ + "cfg"@ + ",name=cdj3k."@ + "cfg"@,
            )
            &&& gives(c.argv(), "-device"@, "virtio-serial-device,max_ports=8"@)
            &&& c.serial_log ==> gives(
                c.argv(),
                "-serial"@,
                "file:"@ + text::joined(dir, "serial.log"@),
            )
            &&& !c.serial_log ==> gives(c.argv(), "-serial"@, "null"@) && gives(
                c.argv(),
                "-monitor"@,
                "none"@,
            ) && gives(c.argv(), "-parallel"@, "none"@)
            &&& gives(
                c.argv(),
                "-device"@,
                "virtio-gpu-device,id=virtio-gpu0,xres=1280,yres=720,max_outputs=1"@,
            )
            &&& gives(c.argv(), "-object"@, "rng-random,id=rng0,filename=/dev/urandom"@)
            &&& gives(c.argv(), "-device"@, "virtio-rng-device,rng=rng0"@)
        }),
{
    let dir = instance_dir(c.instance_id);
    let ctrl = serial_port_args(dir, "ctrl"@);
    let cfg = serial_port_args(dir, "cfg"@);
    let bus = seq!["-device"@, "virtio-serial-device,max_ports=8"@];
    let jog = jog_shm_args(text::joined(dir, "jog.shm"@));
    c.lemma_parts_are_given();
    lemma_pair(c.display_args(), 0);
    lemma_pair(c.display_args(), 4);
    lemma_pair(c.display_args(), 6);
    lemma_pair(jog, 0);
    lemma_pair(jog, 2);
    lemma_pair(ctrl, 0);
    lemma_pair(ctrl, 2);
    lemma_pair(cfg, 0);
    lemma_pair(cfg, 2);
    lemma_pair(bus, 0);
    lemma_gives_append(bus, ctrl);
    lemma_gives_append(bus + ctrl, cfg);
    lemma_pair(c.serial_args(), 0);
    if !c.serial_log {
        lemma_pair(c.serial_args(), 2);
        lemma_pair(c.serial_args(), 4);
    }
    lemma_pair(c.final_args(), 0);
}

/// A drive on a command line: a file of this format, and the device of the same name.
pub open spec fn gives_drive(
    args: Seq<Seq<char>>,
    file: Seq<char>,
    id: Seq<char>,
    format: Seq<char>,
) -> bool {
    &&& gives(
        args,
        "-drive"@,
        "file="@ + file + ",if=none,id="@ + id + ",format="@ + format
            + ",cache=writeback,file.locking=off"@,
    )
    &&& gives(args, "-device"@, "virtio-blk-device,drive="@ + id + ",id="@ + id)
}

/// On macOS the USB slot is always there, with the placeholder in it, and the eMMC is there
/// where there is an image of it, behind the slot.
pub proof fn macos_offers_its_drives(c: QemuConfig)
    ensures
        gives_drive(
            c.argv(),
            text::joined(instance_dir(c.instance_id), "usb.placeholder"@),
            "usb0"@,
            "raw"@,
        ),
        c.emmc_img matches Some(img) ==> gives_drive(c.argv(), img@, "emmc0"@, "qcow2"@),
        c.storage_args().len() == (if c.emmc_img is Some {
            8int
        } else {
            4
        }),
        c.storage_args()[1] == "file="@ + text::joined(
            instance_dir(c.instance_id),
            "usb.placeholder"@,
        ) + ",if=none,id="@ + "usb0"@ + ",format="@ + "raw"@ + ",cache=writeback,file.locking=off"@,
{
    c.lemma_parts_are_given();
    lemma_pair(c.storage_args(), 0);
    lemma_pair(c.storage_args(), 2);
    if c.emmc_img is Some {
        lemma_pair(c.storage_args(), 4);
        lemma_pair(c.storage_args(), 6);
    }
}

/// On macOS sound plays through CoreAudio, on the chosen device or else on the system's, and
/// only where audio is on.
pub proof fn macos_plays_sound_where_it_is_on(c: QemuConfig)
    ensures
        c.audio ==> gives(
            c.argv(),
            "-device"@,
            "virtio-sound-device,audiodev=audio0,streams=1"@,
        ),
        c.audio ==> gives(
            c.argv(),
            "-audiodev"@,
            match c.audio_device_uid {
                Some(uid) if uid@.len() > 0 =>
                    "coreaudio,id=audio0,in.voices=0,out.buffer-length=5000"@
                    + ",out.device-uid="@ + uid@,
                _ => "coreaudio,id=audio0,in.voices=0,out.buffer-length=5000"@,
            },
        ),
        !c.audio ==> c.sound_args().len() == 0,
{
    c.lemma_parts_are_given();
    if c.audio {
        lemma_pair(c.sound_args(), 0);
        lemma_pair(c.sound_args(), 2);
    }
}

/// On macOS a TAP descriptor comes before a bridge, and a bridge before the network of the
/// user; the first two give the guest its own address.
pub proof fn macos_networks_in_order(c: QemuConfig)
    ensures
        c.net_tap_fd matches Some(fd) ==> gives(
            c.argv(),
            "-netdev"@,
            "tap,id=net0,fd="@ + text::signed_decimal(fd as int),
        ),
        c.net_tap_fd is None ==> (c.net_socket_vmnet matches Some(sock) ==> gives(
            c.argv(),
            "-netdev"@,
            "stream,id=net0,server=off,addr.type=unix,addr.path="@ + sock@,
        )),
        c.net_tap_fd is Some || c.net_socket_vmnet is Some ==> gives(
            c.argv(),
            "-device"@,
            "virtio-net-device,netdev=net0,mac="@ + (match c.mac {
                Some(mac) => mac@,
                None => "0a:00:00:00:00:"@ + text::hex_byte((c.instance_id % 256) as u8),
            }) + ",mrg_rxbuf=off"@,
        ),
        c.net_tap_fd is None && c.net_socket_vmnet is None ==> gives(
            c.argv(),
            "-netdev"@,
            "user,id=net0,hostfwd=tcp::"@ + text::decimal(c.ssh_port as nat) + "-:22"@,
        ) && gives(c.argv(), "-device"@, "virtio-net-device,netdev=net0,mrg_rxbuf=off"@),
        c.network_args().len() == 4,
{
    c.lemma_parts_are_given();
    lemma_pair(c.network_args(), 0);
    lemma_pair(c.network_args(), 2);
}

impl LinuxQemuConfig {
    proof fn lemma_parts_are_given(&self)
        ensures
            forall|o: Seq<char>, v: Seq<char>|
                gives(self.machine_args(), o, v) || gives(
                    jog_shm_args(self.guest.spec_jog_shm_path()),
                    o,
                    v,
                ) || gives(self.display_args(), o, v) || gives(
                    serial_port_args(self.guest.run_dir@, "ctrl"@),
                    o,
                    v,
                ) || gives(serial_port_args(self.guest.run_dir@, "cfg"@), o, v) || gives(
                    emmc_args(self.guest.emmc_img),
                    o,
                    v,
                ) || gives(self.media_args(), o, v) || gives(self.sound_args(), o, v) || gives(
                    self.network_args(),
                    o,
                    v,
                ) ==> #[trigger] gives(self.argv(), o, v),
            forall|o: Seq<char>|
                self.machine_args().contains(o) ==> #[trigger] self.argv().contains(o),
    {
        let j = jog_shm_args(self.guest.spec_jog_shm_path());
        let c = serial_port_args(self.guest.run_dir@, "ctrl"@);
        let f = serial_port_args(self.guest.run_dir@, "cfg"@);
        let a1 = self.machine_args() + j;
        let a2 = a1 + self.display_args();
        let a3 = a2 + c;
        let a4 = a3 + f;
        let a5 = a4 + emmc_args(self.guest.emmc_img);
        let a6 = a5 + self.media_args();
        let a7 = a6 + self.sound_args();
        lemma_gives_append(self.machine_args(), j);
        lemma_gives_append(a1, self.display_args());
        lemma_gives_append(a2, c);
        lemma_gives_append(a3, f);
        lemma_gives_append(a4, emmc_args(self.guest.emmc_img));
        lemma_gives_append(a5, self.media_args());
        lemma_gives_append(a6, self.sound_args());
        lemma_gives_append(a7, self.network_args());
    }
}

/// On Linux QEMU boots the configured kernel and initramfs on an emulated machine, with the
/// switches that are due on the kernel's command line, and does not reboot.
pub proof fn linux_boots_the_configured_images(c: LinuxQemuConfig)
    ensures
        gives(c.argv(), "-kernel"@, c.guest.kernel@),
        gives(c.argv(), "-initrd"@, c.guest.initramfs@),
        exists|line: Seq<char>|
            #[trigger] gives(c.argv(), "-append"@, line) && is_kernel_line(
                line,
                c.guest.service_mode,
                c.audio,
            ),
        gives(c.argv(), "-machine"@, "virt,gic-version=3"@),
        gives(c.argv(), "-global"@, "virtio-mmio.force-legacy=false"@),
        gives(c.argv(), "-accel"@, "tcg,thread=multi"@),
        gives(c.argv(), "-cpu"@, "cortex-a72"@),
        gives(c.argv(), "-smp"@, "4"@),
        gives(c.argv(), "-m"@, "4038197248B"@),
        gives(c.argv(), "-monitor"@, "none"@),
        c.argv().contains("-no-reboot"@),
{
    c.lemma_parts_are_given();
    lemma_pair(c.machine_args(), 0);
    lemma_pair(c.machine_args(), 2);
    lemma_pair(c.machine_args(), 4);
    lemma_pair(c.machine_args(), 6);
    lemma_pair(c.machine_args(), 8);
    lemma_pair(c.machine_args(), 10);
    lemma_pair(c.machine_args(), 12);
    lemma_pair(c.machine_args(), 14);
    lemma_pair(c.machine_args(), 16);
    lemma_pair(c.machine_args(), 24);
    lemma_kernel_line(c.guest.service_mode, c.audio);
    assert(c.machine_args()[26] == "-no-reboot"@);
    assert(gives(c.argv(), "-append"@, kernel_command_line(c.guest.service_mode, c.audio)));
}

/// On Linux the displays, the machine protocol, the console and the control ports go through
/// files: in the directory of the run, unless a launch has its own log or socket.
pub proof fn linux_shares_files_with_the_application(c: LinuxQemuConfig)
    ensures
        ({
            let dir = c.guest.run_dir@;
            &&& gives(c.argv(), "-display"@, "shm,path="@ + text::joined(dir, "main.shm"@))
            &&& gives(
                c.argv(),
                "-qmp"@,
                "unix:"@ + (match c.qmp_socket {
                    Some(socket) => socket@,
                    None => text::joined(dir, "qmp.sock"@),
                }) + ",server=on,wait=off"@,
            )
            &&& gives(
                c.argv(),
                "-serial"@,
                "file:"@ + (match c.serial_log {
                    Some(log) => log@,
                    None => text::joined(dir, "serial.log"@),
                }),
            )
            &&& gives(
                c.argv(),
                "-object"@,
                "memory-backend-file,id=jogshm,mem-path="@ + text::joined(dir, "jog.shm"@)
                    + ",size=1M,share=on"@,
            )
            &&& gives(c.argv(), "-device"@, "ivshmem-plain,memdev=jogshm,master=on"@)
            &&& gives(
                c.argv(),
                "-device"@,
                "virtio-gpu-device,id=virtio-gpu0,xres=1280,yres=720,max_outputs=2"@,
            )
            &&& gives(c.argv(), "-device"@, "virtio-serial-device,max_ports=8"@)
            &&& gives(
                c.argv(),
                "-chardev"@,
                "socket,id=vserial_"@ + "ctrl"@ + ",path="@ + text::joined(dir, "ctrl"@ + ".sock"@)
                    + ",server=on,wait=off"@,
            )
            &&& gives(
                c.argv(),
                "-device"@,
                "virtserialport,chardev=vserial_"@ + "ctrl"@ + ",name=cdj3k."@ + "ctrl"@,
            )
            &&& gives(
                c.argv(),
                "-chardev"@,
                "socket,id=vserial_"@ + "cfg"@ + ",path="@ + text::joined(dir, "cfg"@ + ".sock"@)
                    + ",server=on,wait=off"@,
            )
            &&& gives(
                c.argv(),
                "-device"@,
                "virtserialport,chardev=vserial_"@ + "cfg"@ + ",name=cdj3k."@ + "cfg"@,
            )
        }),
{
    let jog = jog_shm_args(c.guest.spec_jog_shm_path());
    let ctrl = serial_port_args(c.guest.run_dir@, "ctrl"@);
    let cfg = serial_port_args(c.guest.run_dir@, "cfg"@);
    c.lemma_parts_are_given();
    lemma_pair(c.machine_args(), 18);
    lemma_pair(c.machine_args(), 20);
    lemma_pair(c.machine_args(), 22);
    lemma_pair(jog, 0);
    lemma_pair(jog, 2);
    lemma_pair(c.display_args(), 0);
    lemma_pair(c.display_args(), 2);
    lemma_pair(ctrl, 0);
    lemma_pair(ctrl, 2);
    lemma_pair(cfg, 0);
    lemma_pair(cfg, 2);
}

/// On Linux the eMMC is there where there is an image of it, and the slot for media, sound and
/// the network exactly where they are on.
pub proof fn linux_offers_what_is_on(c: LinuxQemuConfig)
    ensures
        c.guest.emmc_img matches Some(img) ==> gives_drive(c.argv(), img@, "emmc0"@, "qcow2"@),
        c.virtual_media ==> gives_drive(
            c.argv(),
            text::joined(c.guest.run_dir@, "usb.empty.medium"@),
            "usb0"@,
            "raw"@,
        ),
        c.audio ==> gives(
            c.argv(),
            "-audiodev"@,
            match c.audio_device {
                Some(name) if name@.len() > 0 => "pa,id=audio0"@ + ",out.name="@ + name@,
                _ => "pa,id=audio0"@,
            },
        ) && gives(c.argv(), "-device"@, "virtio-sound-device,audiodev=audio0,streams=1"@),
        c.network ==> gives(
            c.argv(),
            "-netdev"@,
            "user,id=net0,hostfwd=tcp::"@ + text::decimal(c.guest.ssh_port as nat) + "-:22"@,
        ) && gives(c.argv(), "-device"@, "virtio-net-device,netdev=net0,mac="@ + c.guest.mac@),
        c.argv().len() == 43 + (if c.guest.emmc_img is Some {
            4int
        } else {
            0
        }) + (if c.virtual_media {
            4int
        } else {
            0
        }) + (if c.audio {
            4int
        } else {
            0
        }) + (if c.network {
            4int
        } else {
            0
        }),
{
    c.lemma_parts_are_given();
    if c.guest.emmc_img is Some {
        lemma_pair(emmc_args(c.guest.emmc_img), 0);
        lemma_pair(emmc_args(c.guest.emmc_img), 2);
    }
    if c.virtual_media {
        lemma_pair(c.media_args(), 0);
        lemma_pair(c.media_args(), 2);
    }
    if c.audio {
        lemma_pair(c.sound_args(), 0);
        lemma_pair(c.sound_args(), 2);
    }
    if c.network {
        lemma_pair(c.network_args(), 0);
        lemma_pair(c.network_args(), 2);
    }
}

} // verus!
