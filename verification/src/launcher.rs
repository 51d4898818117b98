//! The launcher: from the command line and the stored settings to the configuration of the
//! first launch.

use vstd::prelude::*;

use crate::config::{GuestRuntimeConfig, LinuxQemuConfig};
use crate::emmc;
use crate::emmc::default_path;
use crate::menu_state::{AppState, AudioState, LifecycleState, UsbState};
use crate::text;
use crate::text::{cat2, cat3, decimal_text, join_path};

verus! {

/// The protocol port of instance 0.
pub const QMP_PORT_BASE: u16 = 4445;

/// The forwarded SSH port of instance 0.
pub const SSH_PORT_BASE: u16 = 2222;

/// The command line.
#[derive(Clone, Debug)]
pub struct Args {
    pub instance: u32,
    pub kernel: Option<String>,
    pub initramfs: Option<String>,
    pub qemu: Option<String>,
    pub qemu_img: Option<String>,
    pub resources: Option<String>,
    pub audio: bool,
    pub no_audio: bool,
    pub audio_device: Option<String>,
    pub no_network: bool,
    pub virtual_media: bool,
    pub no_emmc: bool,
    /// Open the firmware wizard instead of starting QEMU.
    pub install_firmware: bool,
    pub profile: bool,
}

/// What is stored for an instance.
#[derive(Clone, Debug)]
pub struct InstanceSettings {
    pub audio_enabled: bool,
    pub audio_device_uid: Option<String>,
    pub usb_virtual_path: Option<String>,
    pub mac: String,
}

/// The instance that the command line asks for: slots are counted from 1.
pub open spec fn chosen_instance(args: Args) -> u32 {
    if args.instance >= 1 {
        args.instance
    } else {
        1
    }
}

/// The directory of an instance's files.
pub open spec fn data_dir(app_data_dir: Seq<char>, instance: u32) -> Seq<char> {
    text::joined(app_data_dir, "instance-"@ + text::decimal(instance as nat))
}

/// The text, or another one where there is none.
pub open spec fn text_or(t: Option<String>, other: Seq<char>) -> Seq<char> {
    match t {
        Some(s) => s@,
        None => other,
    }
}

/// The ports of an instance are in the range of ports.
pub open spec fn has_ports(instance: u32) -> bool {
    QMP_PORT_BASE + instance % 0x1_0000 <= u16::MAX
}

/// Whether the ports of an instance are in the range of ports.
pub fn ports_fit(instance: u32) -> (r: bool)
    ensures
        r == has_ports(instance),
{
    4445 + instance % 0x1_0000 <= 0xffff
}

/// The instance that the command line asks for.
pub fn instance_of(args: &Args) -> (r: u32)
    ensures
        r == chosen_instance(*args),
{
    if args.instance >= 1 {
        args.instance
    } else {
        1
    }
}

/// Whether `g` is the guest that the command line and the settings ask for.
pub open spec fn is_guest_for(
    g: GuestRuntimeConfig,
    args: Args,
    settings: InstanceSettings,
    app_data_dir: Seq<char>,
    run_dir: Seq<char>,
) -> bool {
    let instance = chosen_instance(args);
    let dir = data_dir(app_data_dir, instance);
    &&& g.instance_id == instance
    &&& g.kernel@ == text_or(args.kernel, text::joined(dir, "Image"@))
    &&& g.initramfs@ == text_or(args.initramfs, text::joined(dir, "initramfs-patched.cpio.gz"@))
    &&& text::maybe(g.emmc_img) == (if args.no_emmc {
        None
    } else {
        Some(emmc::image_path(app_data_dir, instance))
    })
    &&& g.run_dir@ == run_dir
    &&& g.qmp_port == QMP_PORT_BASE + instance % 0x1_0000
    &&& g.ssh_port == SSH_PORT_BASE + instance % 0x1_0000
    &&& g.mac@ == settings.mac@
    &&& !g.service_mode
}

/// Whether `c` is the configuration that the command line and the settings ask for. Audio is
/// on where either asks for it, unless the command line forbids it; the device of the
/// command line comes first.
pub open spec fn is_config_for(
    c: LinuxQemuConfig,
    args: Args,
    settings: InstanceSettings,
    app_data_dir: Seq<char>,
    run_dir: Seq<char>,
) -> bool {
    &&& is_guest_for(c.guest, args, settings, app_data_dir, run_dir)
    &&& c.qemu@ == text_or(args.qemu, "qemu-system-aarch64"@)
    &&& c.qemu_img@ == text_or(args.qemu_img, "qemu-img"@)
    &&& c.audio == ((args.audio || settings.audio_enabled) && !args.no_audio)
    &&& c.audio_device == (match args.audio_device {
        Some(device) => Some(device),
        None => settings.audio_device_uid,
    })
    &&& c.network == !args.no_network
    &&& c.virtual_media == args.virtual_media
    &&& c.serial_log is None
    &&& c.qmp_socket is None
}

fn given_or(t: &Option<String>, other: String) -> (r: String)
    ensures
        r@ == text_or(*t, other@),
{
    match t {
        Some(s) => s.clone(),
        None => other,
    }
}

fn copy_text(t: &Option<String>) -> (r: Option<String>)
    ensures
        r == *t,
{
    match t {
        Some(s) => Some(s.clone()),
        None => None,
    }
}

fn port(base: u16, instance: u32) -> (r: u16)
    requires
        base <= QMP_PORT_BASE,
        has_ports(instance),
    ensures
        r == base + instance % 0x1_0000,
{
    base + (instance % 0x1_0000) as u16
}

fn guest_config(
    args: &Args,
    settings: &InstanceSettings,
    app_data_dir: &str,
    run_dir: String,
) -> (r: GuestRuntimeConfig)
    requires
        has_ports(chosen_instance(*args)),
    ensures
        is_guest_for(r, *args, *settings, app_data_dir@, run_dir@),
{
    let instance: u32 = instance_of(args);
    let dir = join_path(
        app_data_dir,
        cat2("instance-", decimal_text(instance as u128).as_str()).as_str(),
    );
    let emmc_img = if args.no_emmc {
        None
    } else {
        Some(default_path(app_data_dir, instance))
    };
    GuestRuntimeConfig {
        instance_id: instance,
        kernel: given_or(&args.kernel, join_path(dir.as_str(), "Image")),
        initramfs: given_or(
            &args.initramfs,
            join_path(dir.as_str(), "initramfs-patched.cpio.gz"),
        ),
        emmc_img,
        run_dir,
        qmp_port: port(QMP_PORT_BASE, instance),
        ssh_port: port(SSH_PORT_BASE, instance),
        mac: settings.mac.clone(),
        service_mode: false,
    }
}

/// The configuration of the first launch.
pub fn launch_config(
    args: &Args,
    settings: &InstanceSettings,
    app_data_dir: &str,
    run_dir: String,
) -> (r: LinuxQemuConfig)
    requires
        has_ports(chosen_instance(*args)),
    ensures
        is_config_for(r, *args, *settings, app_data_dir@, run_dir@),
{
    let audio_device = match &args.audio_device {
        Some(device) => Some(device.clone()),
        None => copy_text(&settings.audio_device_uid),
    };
    LinuxQemuConfig {
        guest: guest_config(args, settings, app_data_dir, run_dir),
        qemu: given_or(&args.qemu, "qemu-system-aarch64".to_owned()),
        qemu_img: given_or(&args.qemu_img, "qemu-img".to_owned()),
        audio: (args.audio || settings.audio_enabled) && !args.no_audio,
        audio_device,
        network: !args.no_network,
        virtual_media: args.virtual_media,
        serial_log: None,
        qmp_socket: None,
    }
}

/// Takes the instance and its settings over into the shared state. A virtual image is taken
/// over where it exists.
pub fn take_settings(
    s: &mut AppState,
    instance: u32,
    settings: &InstanceSettings,
    image_exists: bool,
)
    ensures
        *final(s) == (AppState {
            current_instance_id: instance,
            audio: AudioState {
                audio_enabled: settings.audio_enabled,
                audio_device_uid: settings.audio_device_uid,
                ..old(s).audio
            },
            usb: UsbState {
                usb_virtual_img: if image_exists && settings.usb_virtual_path is Some {
                    settings.usb_virtual_path
                } else {
                    old(s).usb.usb_virtual_img
                },
                ..old(s).usb
            },
            ..*old(s)
        }),
{
    s.current_instance_id = instance;
    s.audio.audio_enabled = settings.audio_enabled;
    s.audio.audio_device_uid = copy_text(&settings.audio_device_uid);
    if image_exists {
        if let Some(path) = &settings.usb_virtual_path {
            s.usb.usb_virtual_img = Some(path.clone());
        }
    }
}

/// Whether QEMU starts at once: where everything that it needs exists and no firmware is to
/// be installed. Otherwise the firmware wizard is asked for. `emmc_exists` speaks of the
/// eMMC image where the configuration has one.
pub fn decide_start(
    args: &Args,
    config: &LinuxQemuConfig,
    kernel_exists: bool,
    initramfs_exists: bool,
    emmc_exists: bool,
    s: &mut AppState,
) -> (r: bool)
    ensures
        r == (!args.install_firmware && kernel_exists && initramfs_exists && (
        config.guest.emmc_img is None || emmc_exists)),
        *final(s) == (AppState {
            lifecycle: LifecycleState {
                firmware_wizard_requested: old(s).lifecycle.firmware_wizard_requested || !r,
                ..old(s).lifecycle
            },
            ..*old(s)
        }),
{
    let start = !args.install_firmware && kernel_exists && initramfs_exists && (
    config.guest.emmc_img.is_none() || emmc_exists);
    if !start {
        s.lifecycle.firmware_wizard_requested = true;
    }
    start
}

/// The title of an instance's window.
pub fn window_title(app_name: &str, instance: u32) -> (r: String)
    ensures
        r@ == app_name@ + " - "@ + text::decimal(instance as nat),
{
    cat3(app_name, " - ", decimal_text(instance as u128).as_str())
}

/// Two instances share neither the directory of their files nor their eMMC image, unless the
/// command line names files.
pub proof fn instances_have_files_of_their_own(app_data_dir: Seq<char>, a: u32, b: u32)
    requires
        a != b,
    ensures
        data_dir(app_data_dir, a) != data_dir(app_data_dir, b),
        emmc::image_path(app_data_dir, a) != emmc::image_path(app_data_dir, b),
{
    reveal_strlit("instance-");
    reveal_strlit("emmc.qcow2");
    let x = "instance-"@ + text::decimal(a as nat);
    let y = "instance-"@ + text::decimal(b as nat);
    assert(x + Seq::<char>::empty() =~= x);
    assert(y + Seq::<char>::empty() =~= y);
    text::lemma_numbered_names_differ(
        app_data_dir,
        "instance-"@,
        a as nat,
        b as nat,
        Seq::empty(),
    );
    let p = data_dir(app_data_dir, a);
    let q = data_dir(app_data_dir, b);
    text::lemma_decimal_is_nonempty(a as nat);
    text::lemma_decimal_is_nonempty(b as nat);
    if emmc::image_path(app_data_dir, a) == emmc::image_path(app_data_dir, b) {
        lemma_no_slash_at_the_end(app_data_dir, a);
        lemma_no_slash_at_the_end(app_data_dir, b);
        let n = "emmc.qcow2"@.len();
        let whole = emmc::image_path(app_data_dir, a);
        assert(whole.take(whole.len() - n - 1) =~= p);
        assert(whole.take(whole.len() - n - 1) =~= q);
    }
}

proof fn lemma_no_slash_at_the_end(app_data_dir: Seq<char>, n: u32)
    ensures
        data_dir(app_data_dir, n).len() > 0,
        data_dir(app_data_dir, n).last() != '/',
{
    reveal_strlit("instance-");
    text::lemma_decimal_is_nonempty(n as nat);
    lemma_last_digit(n as nat);
    let name = "instance-"@ + text::decimal(n as nat);
    assert(name[0] == 'i');
    assert(data_dir(app_data_dir, n).last() == name.last());
    assert(name.last() == text::decimal(n as nat).last());
}

proof fn lemma_last_digit(n: nat)
    ensures
        text::decimal(n).len() > 0,
        text::decimal(n).last() != '/',
{
    text::lemma_decimal_is_nonempty(n);
    reveal_with_fuel(text::decimal, 2);
}

/// Without other files on the command line, an instance boots what an installation for it has
/// written: the kernel, the patched initramfs and the eMMC image.
pub proof fn installed_firmware_is_booted(
    g: GuestRuntimeConfig,
    args: Args,
    settings: InstanceSettings,
    job: crate::provision::ProvisionJob,
    run_dir: Seq<char>,
)
    requires
        is_guest_for(g, args, settings, job.app_data_dir@, run_dir),
        job.target_instance == g.instance_id,
    ensures
        args.kernel is None ==> g.kernel@ == text::joined(job.out_dir(), "Image"@),
        args.initramfs is None ==> g.initramfs@ == text::joined(
            job.out_dir(),
            "initramfs-patched.cpio.gz"@,
        ),
        !args.no_emmc ==> g.emmc_img is Some && g.emmc_img->0@ == job.emmc(),
        args.no_emmc ==> g.emmc_img is None,
        args.kernel matches Some(k) ==> g.kernel@ == k@,
        args.initramfs matches Some(i) ==> g.initramfs@ == i@,
{
}

/// The ports of an instance: 4445 and 2222 and the low half of its number, so that different
/// small numbers have different ports; instance 0 counts as 1.
pub proof fn instances_have_ports_of_their_own(
    g: GuestRuntimeConfig,
    args: Args,
    settings: InstanceSettings,
    app_data_dir: Seq<char>,
    run_dir: Seq<char>,
)
    requires
        is_guest_for(g, args, settings, app_data_dir, run_dir),
    ensures
        g.instance_id == (if args.instance == 0 {
            1
        } else {
            args.instance
        }),
        g.instance_id < 0x1_0000 ==> g.qmp_port == 4445 + g.instance_id && g.ssh_port == 2222
            + g.instance_id,
        has_ports(g.instance_id) <==> 4445 + g.instance_id % 0x1_0000 <= 65535,
        g.mac@ == settings.mac@,
        g.run_dir@ == run_dir,
        !g.service_mode,
{
}

/// The command line decides over the settings: it can turn audio on and, before all, off, and
/// names another device; the network is there unless it is turned off, and virtual media only
/// where they are asked for.
pub proof fn the_command_line_decides(
    c: LinuxQemuConfig,
    args: Args,
    settings: InstanceSettings,
    app_data_dir: Seq<char>,
    run_dir: Seq<char>,
)
    requires
        is_config_for(c, args, settings, app_data_dir, run_dir),
    ensures
        args.no_audio ==> !c.audio,
        !args.no_audio && args.audio ==> c.audio,
        !args.no_audio && !args.audio ==> c.audio == settings.audio_enabled,
        args.audio_device is Some ==> c.audio_device == args.audio_device,
        args.audio_device is None ==> c.audio_device == settings.audio_device_uid,
        c.network <==> !args.no_network,
        c.virtual_media <==> args.virtual_media,
        args.qemu matches Some(q) ==> c.qemu@ == q@,
        args.qemu is None ==> c.qemu@ == "qemu-system-aarch64"@,
        args.qemu_img matches Some(q) ==> c.qemu_img@ == q@,
        args.qemu_img is None ==> c.qemu_img@ == "qemu-img"@,
        c.serial_log is None && c.qmp_socket is None,
{
}

/// The image of an instance stands in the instance's own directory.
pub proof fn images_stand_with_their_instance(app_data_dir: Seq<char>, instance: u32)
    ensures
        emmc::image_path(app_data_dir, instance) == text::joined(
            data_dir(app_data_dir, instance),
            "emmc.qcow2"@,
        ),
        data_dir(app_data_dir, instance) == text::joined(
            app_data_dir,
            "instance-"@ + text::decimal(instance as nat),
        ),
{
}

} // verus!
