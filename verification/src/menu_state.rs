//! Operator state shared between the menu, the UI and the runtime worker.

use vstd::prelude::*;

use crate::text;
use crate::text::{cat2, cat3, decimal_text, starts_with, str_eq};

verus! {

/// Maximum instance count (slots are 1..=MAX_INSTANCES).
pub const MAX_INSTANCES: u32 = 4;

/// "No physical disk", for [`UsbState::usb_phys_mounted_idx`] and
/// [`UsbState::usb_phys_toggle_idx`].
pub const NO_USB_MOUNTED: i32 = -1;

/// "No network interface picked": user-mode NAT.
pub const NET_SEL_NONE: u32 = 0xffff_ffff;

/// "vmnet host-only network".
pub const NET_SEL_VMNET_HOST: u32 = 0xffff_fffe;

/// Persisted name of the vmnet-host mode. Not a valid BSD interface name, so it
/// can never collide with a real interface.
pub const NET_IFACE_VMNET_HOST_TOKEN: &'static str = "__vmnet_host__";

/// A single discovered network interface.
#[derive(Clone, Debug, PartialEq)]
pub struct NetIf {
    /// e.g. "en0"
    pub name: String,
    /// IPv4 address, e.g. "192.168.1.42"
    pub addr: String,
    /// CIDR prefix length, e.g. 24
    pub prefix_len: u8,
}

/// What a [`NetIf`] holds.
pub struct NetIfView {
    pub name: Seq<char>,
    pub addr: Seq<char>,
    pub prefix_len: u8,
}

impl View for NetIf {
    type V = NetIfView;

    open spec fn view(&self) -> NetIfView {
        NetIfView { name: self.name@, addr: self.addr@, prefix_len: self.prefix_len }
    }
}

impl NetIf {
    /// Menu label: "192.168.1.42/24 (en0)"
    pub fn label(&self) -> (r: String)
        ensures
            r@ == self.addr@ + "/"@ + text::decimal(self.prefix_len as nat) + " ("@ + self.name@
                + ")"@,
    {
        let mut s = cat3(
            self.addr.as_str(),
            "/",
            decimal_text(self.prefix_len as u128).as_str(),
        );
        s.append(" (");
        s.append(self.name.as_str());
        s.append(")");
        s
    }
}

/// A removable physical disk entry of the storage menu.
#[derive(Clone, Debug, PartialEq)]
pub struct PhysicalDisk {
    pub bsd_name: String,
    pub label: String,
}

/// An audio output device of the "Output Device" picker.
#[derive(Clone, Debug, PartialEq)]
pub struct AudioOutDevice {
    pub uid: String,
    pub name: String,
    pub is_default: bool,
    /// Current nominal sample rate in Hz, or 0 if unavailable.
    pub sample_rate_hz: u32,
}

/// What an [`AudioOutDevice`] holds.
pub struct AudioOutDeviceView {
    pub uid: Seq<char>,
    pub name: Seq<char>,
    pub is_default: bool,
    pub sample_rate_hz: u32,
}

impl View for AudioOutDevice {
    type V = AudioOutDeviceView;

    open spec fn view(&self) -> AudioOutDeviceView {
        AudioOutDeviceView {
            uid: self.uid@,
            name: self.name@,
            is_default: self.is_default,
            sample_rate_hz: self.sample_rate_hz,
        }
    }
}

/// Which screens are shown in windows of their own.
pub struct ViewState {
    pub jog_screen_popped: bool,
    pub main_screen_popped: bool,
    pub debug_screen_popped: bool,
}

/// What QEMU does, and what it was asked to do.
pub struct LifecycleState {
    /// Fires once; the consumer clears it after acting.
    pub stop_requested: bool,
    /// `true` while QEMU is running; updated by the runtime worker.
    pub qemu_running: bool,
    /// The current launch has reported "Application Started"; updated by the
    /// runtime worker.
    pub application_started: bool,
    /// Fires once to open the firmware install wizard.
    pub firmware_wizard_requested: bool,
    /// Fires once after provisioning completes to (re)start QEMU.
    pub qemu_boot_requested: bool,
    /// Fires once to stop and immediately restart QEMU.
    pub restart_requested: bool,
    /// Set by menu actions that require a restart so that the boot shade engages
    /// immediately. Cleared by the runtime worker once QEMU has respawned.
    pub shade_forced: bool,
    /// Set on graceful shutdown; the UI injects a power-off stimulus and clears it.
    pub power_off_stimuli_requested: bool,
    pub service_mode: bool,
}

/// Audio settings, devices and latency.
pub struct AudioState {
    /// Toggled by "Enable Audio"; `audio_toggle_requested` makes the worker
    /// persist the value and restart QEMU.
    pub audio_enabled: bool,
    pub audio_toggle_requested: bool,
    /// Selected output device, or `None` for "system default output".
    pub audio_device_uid: Option<String>,
    /// Cached enumeration of host output devices.
    pub audio_devices: Vec<AudioOutDevice>,
    /// Bumped when `audio_devices` changes.
    pub audio_device_list_version: u32,
    /// Fires once when the user picks a different device.
    pub audio_device_toggle_requested: bool,
    /// "Enable ALC (Experimental)".
    pub alc_enabled: bool,
    pub alc_toggle_requested: bool,
    /// Latest audio pipeline depth; see [`pack_latency`]. `u64::MAX` means "no
    /// data yet".
    pub latency_packed: u64,
}

/// Trackpad haptics.
pub struct HapticState {
    /// "Jog Haptics".
    pub haptic_enabled: bool,
    pub haptic_toggle_requested: bool,
}

/// Network interfaces and the one in use.
pub struct NetworkState {
    /// Index into `net_ifaces`, or [`NET_SEL_NONE`] or [`NET_SEL_VMNET_HOST`].
    pub selected_interface: u32,
    /// Cached interface list.
    pub net_ifaces: Vec<NetIf>,
    /// Bumped whenever `net_ifaces` changes.
    pub net_list_version: u32,
    /// Set when network setup fails; the menu shows it once and clears it.
    pub net_error_message: Option<String>,
}

/// Virtual and physical USB media.
pub struct UsbState {
    /// Path of the user-selected virtual USB image.
    pub usb_virtual_img: Option<String>,
    /// True while the virtual USB image is mounted in the guest.
    pub usb_virtual_mounted: bool,
    /// Menu-to-worker one-shot requests.
    pub usb_virtual_mount_req: bool,
    pub usb_create_req: bool,
    /// Unified eject for both virtual and physical mounts.
    pub usb_eject_req: bool,
    pub usb_phys_disks: Vec<PhysicalDisk>,
    /// Index of the physical disk currently mounted in the guest, or
    /// [`NO_USB_MOUNTED`].
    pub usb_phys_mounted_idx: i32,
    /// Disk index whose toggle was requested by the menu, or [`NO_USB_MOUNTED`].
    pub usb_phys_toggle_idx: i32,
    /// Bumped whenever the disk list changes.
    pub usb_phys_list_version: u32,
    /// Set when attaching a physical disk was not permitted; the menu shows an
    /// alert once.
    pub usb_phys_perm_denied: bool,
    /// Set by the alert's "Retry" button.
    pub usb_phys_retry_req: bool,
}

/// All UI and runtime state that crosses threads.
pub struct AppState {
    /// 1..=MAX_INSTANCES. Set once at startup.
    pub current_instance_id: u32,
    pub view: ViewState,
    pub lifecycle: LifecycleState,
    pub audio: AudioState,
    pub haptics: HapticState,
    pub network: NetworkState,
    pub usb: UsbState,
}

impl AppState {
    /// No request is pending.
    pub open spec fn idle(&self) -> bool {
        &&& !self.lifecycle.stop_requested
        &&& !self.lifecycle.firmware_wizard_requested
        &&& !self.lifecycle.qemu_boot_requested
        &&& !self.lifecycle.restart_requested
        &&& !self.lifecycle.power_off_stimuli_requested
        &&& !self.audio.audio_toggle_requested
        &&& !self.audio.audio_device_toggle_requested
        &&& !self.audio.alc_toggle_requested
        &&& !self.haptics.haptic_toggle_requested
        &&& self.network.net_error_message is None
        &&& !self.usb.usb_virtual_mount_req
        &&& !self.usb.usb_create_req
        &&& !self.usb.usb_eject_req
        &&& self.usb.usb_phys_toggle_idx == NO_USB_MOUNTED
        &&& !self.usb.usb_phys_perm_denied
        &&& !self.usb.usb_phys_retry_req
    }

    /// The state at startup.
    pub fn new() -> (r: Self)
        ensures
            r.idle(),
            r.current_instance_id == 1,
            !r.view.jog_screen_popped && !r.view.main_screen_popped && !r.view.debug_screen_popped,
            !r.lifecycle.qemu_running && !r.lifecycle.application_started,
            !r.lifecycle.shade_forced && !r.lifecycle.service_mode,
            !r.audio.audio_enabled && r.audio.audio_device_uid is None,
            r.audio.audio_devices@.len() == 0 && r.audio.audio_device_list_version == 0,
            !r.audio.alc_enabled && r.haptics.haptic_enabled,
            r.audio.latency_packed == u64::MAX,
            r.network.selected_interface == NET_SEL_NONE,
            r.network.net_ifaces@.len() == 0 && r.network.net_list_version == 0,
            r.usb.usb_virtual_img is None && !r.usb.usb_virtual_mounted,
            r.usb.usb_phys_disks@.len() == 0 && r.usb.usb_phys_mounted_idx == NO_USB_MOUNTED,
            r.usb.usb_phys_list_version == 0,
    {
        AppState {
            current_instance_id: 1,
            view: ViewState {
                jog_screen_popped: false,
                main_screen_popped: false,
                debug_screen_popped: false,
            },
            lifecycle: LifecycleState {
                stop_requested: false,
                qemu_running: false,
                application_started: false,
                firmware_wizard_requested: false,
                qemu_boot_requested: false,
                restart_requested: false,
                shade_forced: false,
                power_off_stimuli_requested: false,
                service_mode: false,
            },
            audio: AudioState {
                audio_enabled: false,
                audio_toggle_requested: false,
                audio_device_uid: None,
                audio_devices: Vec::new(),
                audio_device_list_version: 0,
                audio_device_toggle_requested: false,
                alc_enabled: false,
                alc_toggle_requested: false,
                latency_packed: u64::MAX,
            },
            haptics: HapticState {
                haptic_enabled: true,
                haptic_toggle_requested: false,
            },
            network: NetworkState {
                selected_interface: NET_SEL_NONE,
                net_ifaces: Vec::new(),
                net_list_version: 0,
                net_error_message: None,
            },
            usb: UsbState {
                usb_virtual_img: None,
                usb_virtual_mounted: false,
                usb_virtual_mount_req: false,
                usb_create_req: false,
                usb_eject_req: false,
                usb_phys_disks: Vec::new(),
                usb_phys_mounted_idx: NO_USB_MOUNTED,
                usb_phys_toggle_idx: NO_USB_MOUNTED,
                usb_phys_list_version: 0,
                usb_phys_perm_denied: false,
                usb_phys_retry_req: false,
            },
        }
    }
}

/// The packed form of a latency sample: the total in the upper half, the low 16
/// bits of the guest's and the host's part in the lower half.
pub open spec fn packed_latency(total_ms: u32, guest_ms: u32, host_ms: u32) -> int {
    total_ms * 0x1_0000_0000 + (guest_ms % 0x1_0000) * 0x1_0000 + host_ms % 0x1_0000
}

/// The sample that a packed latency stands for, if it is one.
pub open spec fn unpacked_latency(packed: u64) -> Option<(u32, u32, u32)> {
    if packed == u64::MAX {
        None
    } else {
        Some(
            (
                (packed / 0x1_0000_0000) as u32,
                (packed / 0x1_0000 % 0x1_0000) as u32,
                (packed % 0x1_0000) as u32,
            ),
        )
    }
}

/// Packs a (total, guest, host) triple of milliseconds into the
/// [`AudioState::latency_packed`] encoding.
pub fn pack_latency(total_ms: u32, guest_ms: u32, host_ms: u32) -> (r: u64)
    ensures
        r == packed_latency(total_ms, guest_ms, host_ms),
{
    let t: u64 = total_ms as u64;
    let g: u64 = (guest_ms % 0x1_0000) as u64;
    let h: u64 = (host_ms % 0x1_0000) as u64;
    t * 0x1_0000_0000 + g * 0x1_0000 + h
}

/// Decodes [`AudioState::latency_packed`]. Returns `None` if no sample has been
/// published yet.
pub fn unpack_latency(packed: u64) -> (r: Option<(u32, u32, u32)>)
    ensures
        r == unpacked_latency(packed),
{
    if packed == u64::MAX {
        return None;
    }
    let total: u32 = (packed / 0x1_0000_0000) as u32;
    let guest: u32 = (packed / 0x1_0000 % 0x1_0000) as u32;
    let host: u32 = (packed % 0x1_0000) as u32;
    Some((total, guest, host))
}

/// A packed sample unpacks to what was packed, with the guest's and the host's
/// part reduced to 16 bits. The one sample that packs to the "no data" value is
/// left out.
pub proof fn latency_round_trip(total_ms: u32, guest_ms: u32, host_ms: u32)
    requires
        !(total_ms == u32::MAX && guest_ms % 0x1_0000 == 0xffff && host_ms % 0x1_0000 == 0xffff),
    ensures
        unpacked_latency(packed_latency(total_ms, guest_ms, host_ms) as u64) == Some(
            (total_ms, (guest_ms % 0x1_0000) as u32, (host_ms % 0x1_0000) as u32),
        ),
{
}

/// The interface is something QEMU can be plugged into: `en*` is Ethernet or
/// Wi-Fi, `tap*` a user-mode TAP.
pub open spec fn bridgeable(name: Seq<char>) -> bool {
    text::has_prefix(name, "en"@) || text::has_prefix(name, "tap"@)
}

fn is_bridgeable(name: &str) -> (r: bool)
    ensures
        r == bridgeable(name@),
{
    starts_with(name, "en") || starts_with(name, "tap")
}

/// The "interface is up" flag of an address record.
pub const IFF_UP: u32 = 0x1;

/// The "interface is a loopback" flag of an address record.
pub const IFF_LOOPBACK: u32 = 0x8;

/// One entry of the host's interface address list.
#[derive(Clone, Debug)]
pub struct InterfaceRecord {
    pub name: String,
    pub flags: u32,
    /// The IPv4 address as a number, most significant byte first; `None` for an
    /// entry without an IPv4 address.
    pub ipv4: Option<u32>,
    /// The IPv4 netmask, where the entry has one.
    pub ipv4_mask: Option<u32>,
}

/// The number of one bits.
pub open spec fn ones(n: nat) -> nat
    decreases n,
{
    if n == 0 {
        0
    } else {
        n % 2 + ones(n / 2)
    }
}

/// An IPv4 address in dotted notation.
pub open spec fn dotted(ip: u32) -> Seq<char> {
    text::decimal((ip / 0x100_0000) as nat) + "."@ + text::decimal(
        (ip / 0x1_0000 % 0x100) as nat,
    ) + "."@ + text::decimal((ip / 0x100 % 0x100) as nat) + "."@ + text::decimal(
        (ip % 0x100) as nat,
    )
}

impl InterfaceRecord {
    /// The interface that the menu offers for this entry: it has an IPv4
    /// address, is up, is no loopback and can be bridged.
    pub open spec fn offered(&self) -> Option<NetIfView> {
        match self.ipv4 {
            Some(ip) => if self.flags & IFF_LOOPBACK == 0 && self.flags & IFF_UP != 0
                && bridgeable(self.name@) {
                Some(
                    NetIfView {
                        name: self.name@,
                        addr: dotted(ip),
                        prefix_len: match self.ipv4_mask {
                            Some(mask) => ones(mask as nat) as u8,
                            None => 0,
                        },
                    },
                )
            } else {
                None
            },
            None => None,
        }
    }
}

/// The interfaces that the menu offers, in the order of the entries.
pub open spec fn offered_interfaces(records: Seq<InterfaceRecord>) -> Seq<NetIfView>
    decreases records.len(),
{
    if records.len() == 0 {
        Seq::empty()
    } else {
        let rest = offered_interfaces(records.drop_last());
        match records.last().offered() {
            Some(i) => rest.push(i),
            None => rest,
        }
    }
}

/// The interfaces that a list holds.
pub open spec fn net_views(list: Seq<NetIf>) -> Seq<NetIfView> {
    list.map_values(|i: NetIf| i@)
}

fn count_ones(n: u32) -> (r: u8)
    ensures
        r == ones(n as nat),
        r <= 32,
{
    let mut rest: u32 = n;
    let mut count: u8 = 0;
    let mut steps: u8 = 0;
    let ghost mut bound: nat = 0x1_0000_0000;
    proof {
        vstd::arithmetic::power2::lemma2_to64();
    }
    while rest > 0
        invariant
            steps <= 32,
            count <= steps,
            rest < bound,
            bound == vstd::arithmetic::power2::pow2((32 - steps) as nat),
            count + ones(rest as nat) == ones(n as nat),
        decreases rest,
    {
        proof {
            if steps == 32 {
                vstd::arithmetic::power2::lemma2_to64();
                assert(false);
            }
            vstd::arithmetic::power2::lemma_pow2_unfold((32 - steps) as nat);
            bound = vstd::arithmetic::power2::pow2((31 - steps) as nat);
        }
        count = count + (rest % 2) as u8;
        rest = rest / 2;
        steps = steps + 1;
    }
    count
}

fn dotted_text(ip: u32) -> (r: String)
    ensures
        r@ == dotted(ip),
{
    let mut s = decimal_text((ip / 0x100_0000) as u128);
    s.append(".");
    s.append(decimal_text((ip / 0x1_0000 % 0x100) as u128).as_str());
    s.append(".");
    s.append(decimal_text((ip / 0x100 % 0x100) as u128).as_str());
    s.append(".");
    s.append(decimal_text((ip % 0x100) as u128).as_str());
    s
}

/// The interfaces that the menu offers, made from the host's address list.
pub fn enumerate_interfaces(records: &[InterfaceRecord]) -> (r: Vec<NetIf>)
    ensures
        net_views(r@) == offered_interfaces(records@),
{
    let mut out: Vec<NetIf> = Vec::new();
    let mut i: usize = 0;
    assert(net_views(out@) =~= offered_interfaces(records@.take(0)));
    while i < records.len()
        invariant
            0 <= i <= records@.len(),
            net_views(out@) == offered_interfaces(records@.take(i as int)),
        decreases records@.len() - i,
    {
        let rec = &records[i];
        let ghost before = out@;
        assert(records@.take(i + 1).drop_last() =~= records@.take(i as int));
        assert(records@.take(i + 1).last() == *rec);
        if let Some(ip) = rec.ipv4 {
            if rec.flags & IFF_LOOPBACK == 0 && rec.flags & IFF_UP != 0 && is_bridgeable(
                rec.name.as_str(),
            ) {
                let prefix_len: u8 = match rec.ipv4_mask {
                    Some(mask) => count_ones(mask),
                    None => 0,
                };
                out.push(NetIf { name: rec.name.clone(), addr: dotted_text(ip), prefix_len });
                assert(net_views(out@) =~= net_views(before).push(rec.offered()->0));
            }
        }
        i = i + 1;
    }
    assert(records@.take(records@.len() as int) =~= records@);
    out
}

/// Two interface lists that hold the same interfaces.
pub open spec fn same_interfaces(a: Seq<NetIf>, b: Seq<NetIf>) -> bool {
    net_views(a) == net_views(b)
}

/// Two device lists that hold the same devices.
pub open spec fn same_devices(a: Seq<AudioOutDevice>, b: Seq<AudioOutDevice>) -> bool {
    a.len() == b.len() && forall|i: int| 0 <= i < a.len() ==> (#[trigger] a[i])@ == b[i]@
}

/// The list version that follows `v`.
pub open spec fn next_version(v: u32) -> u32 {
    if v == u32::MAX {
        0
    } else {
        (v + 1) as u32
    }
}

fn interfaces_match(a: &Vec<NetIf>, b: &Vec<NetIf>) -> (r: bool)
    ensures
        r == same_interfaces(a@, b@),
{
    if a.len() != b.len() {
        assert(net_views(a@).len() != net_views(b@).len());
        return false;
    }
    let mut i: usize = 0;
    while i < a.len()
        invariant
            0 <= i <= a@.len(),
            a@.len() == b@.len(),
            forall|j: int| 0 <= j < i ==> (#[trigger] a@[j])@ == b@[j]@,
        decreases a@.len() - i,
    {
        if !str_eq(a[i].name.as_str(), b[i].name.as_str()) || !str_eq(
            a[i].addr.as_str(),
            b[i].addr.as_str(),
        ) || a[i].prefix_len != b[i].prefix_len {
            assert(net_views(a@)[i as int] != net_views(b@)[i as int]);
            return false;
        }
        i = i + 1;
    }
    assert(net_views(a@) =~= net_views(b@));
    true
}

fn devices_match(a: &Vec<AudioOutDevice>, b: &Vec<AudioOutDevice>) -> (r: bool)
    ensures
        r == same_devices(a@, b@),
{
    if a.len() != b.len() {
        return false;
    }
    let mut i: usize = 0;
    while i < a.len()
        invariant
            0 <= i <= a@.len(),
            a@.len() == b@.len(),
            forall|j: int| 0 <= j < i ==> (#[trigger] a@[j])@ == b@[j]@,
        decreases a@.len() - i,
    {
        if !str_eq(a[i].uid.as_str(), b[i].uid.as_str()) || !str_eq(
            a[i].name.as_str(),
            b[i].name.as_str(),
        ) || a[i].is_default != b[i].is_default || a[i].sample_rate_hz != b[i].sample_rate_hz {
            return false;
        }
        i = i + 1;
    }
    true
}

/// Takes in a fresh interface list. The list version is bumped only when the list
/// changed.
pub fn refresh_net_interfaces(s: &mut AppState, fresh: Vec<NetIf>)
    ensures
        same_interfaces(old(s).network.net_ifaces@, fresh@) ==> *final(s) == *old(s),
        !same_interfaces(old(s).network.net_ifaces@, fresh@) ==> *final(s) == (AppState {
            network: NetworkState {
                net_ifaces: fresh,
                net_list_version: next_version(old(s).network.net_list_version),
                ..old(s).network
            },
            ..*old(s)
        }),
{
    if !interfaces_match(&s.network.net_ifaces, &fresh) {
        s.network.net_ifaces = fresh;
        s.network.net_list_version = s.network.net_list_version.wrapping_add(1);
    }
}

/// Takes in a fresh list of output devices. The list version is bumped only when
/// the list changed.
pub fn refresh_audio_devices(s: &mut AppState, fresh: Vec<AudioOutDevice>)
    ensures
        same_devices(old(s).audio.audio_devices@, fresh@) ==> *final(s) == *old(s),
        !same_devices(old(s).audio.audio_devices@, fresh@) ==> *final(s) == (AppState {
            audio: AudioState {
                audio_devices: fresh,
                audio_device_list_version: next_version(old(s).audio.audio_device_list_version),
                ..old(s).audio
            },
            ..*old(s)
        }),
{
    if !devices_match(&s.audio.audio_devices, &fresh) {
        s.audio.audio_devices = fresh;
        s.audio.audio_device_list_version = s.audio.audio_device_list_version.wrapping_add(1);
    }
}

/// A name that QEMU can be plugged into begins with "en" or with "tap".
proof fn lemma_bridgeable(name: Seq<char>)
    ensures
        bridgeable(name) <==> {
            ||| name.len() >= 2 && name[0] == 'e' && name[1] == 'n'
            ||| name.len() >= 3 && name[0] == 't' && name[1] == 'a' && name[2] == 'p'
        },
{
    reveal_strlit("en");
    reveal_strlit("tap");
    if name.len() >= 2 && name[0] == 'e' && name[1] == 'n' {
        assert(name.take(2) =~= "en"@);
    }
    if name.len() >= 3 && name[0] == 't' && name[1] == 'a' && name[2] == 'p' {
        assert(name.take(3) =~= "tap"@);
    }
    if text::has_prefix(name, "en"@) {
        assert(name.take(2)[0] == 'e' && name.take(2)[1] == 'n');
    }
    if text::has_prefix(name, "tap"@) {
        assert(name.take(3)[0] == 't' && name.take(3)[1] == 'a' && name.take(3)[2] == 'p');
    }
}

/// Each entry of the host's list is looked at by itself: it is offered where it has an
/// address, is up and no loopback, and its name is that of an Ethernet or TAP interface. It is
/// offered under its name, and the entries keep their order.
pub proof fn interfaces_are_offered_one_by_one(
    records: Seq<InterfaceRecord>,
    entry: InterfaceRecord,
)
    ensures
        ({
            let name = entry.name@;
            let named = (name.len() >= 2 && name[0] == 'e' && name[1] == 'n') || (name.len() >= 3
                && name[0] == 't' && name[1] == 'a' && name[2] == 'p');
            let usable = entry.ipv4 is Some && entry.flags & 1 != 0 && entry.flags & 8 == 0
                && named;
            let before = offered_interfaces(records);
            let after = offered_interfaces(records.push(entry));
            &&& !usable ==> after == before
            &&& usable ==> {
                &&& after.len() == before.len() + 1
                &&& after.drop_last() == before
                &&& after.last().name == name
                &&& after.last().addr == dotted(entry.ipv4->0)
                &&& entry.ipv4_mask is None ==> after.last().prefix_len == 0
                &&& entry.ipv4_mask matches Some(mask) ==> after.last().prefix_len == ones(
                    mask as nat,
                )
            }
        }),
        offered_interfaces(Seq::empty()) == Seq::<NetIfView>::empty(),
{
    assert(records.push(entry).drop_last() =~= records);
    lemma_bridgeable(entry.name@);
    if let Some(mask) = entry.ipv4_mask {
        vstd::arithmetic::power2::lemma2_to64();
        lemma_ones_bound(mask as nat, 32);
    }
    let before = offered_interfaces(records);
    if let Some(i) = entry.offered() {
        assert(before.push(i).drop_last() =~= before);
    }
}

proof fn lemma_ones_bound(n: nat, k: nat)
    requires
        n < vstd::arithmetic::power2::pow2(k),
    ensures
        ones(n) <= k,
    decreases k,
{
    if n > 0 {
        if k == 0 {
            vstd::arithmetic::power2::lemma2_to64();
        } else {
            vstd::arithmetic::power2::lemma_pow2_unfold(k);
            lemma_ones_bound(n / 2, (k - 1) as nat);
        }
    }
}

/// An address is written byte by byte, the most significant one first.
pub proof fn addresses_are_written_byte_by_byte(a: u8, b: u8, c: u8, d: u8)
    ensures
        dotted((a * 0x100_0000 + b * 0x1_0000 + c * 0x100 + d) as u32) == text::decimal(a as nat)
            + "."@ + text::decimal(b as nat) + "."@ + text::decimal(c as nat) + "."@
            + text::decimal(d as nat),
{
    lemma_bytes_of(a as int, b as int, c as int, d as int);
}

proof fn lemma_bytes_of(a: int, b: int, c: int, d: int)
    requires
        0 <= a < 0x100,
        0 <= b < 0x100,
        0 <= c < 0x100,
        0 <= d < 0x100,
    ensures
        ({
            let ip = (a * 0x100_0000 + b * 0x1_0000 + c * 0x100 + d) as u32;
            &&& ip / 0x100_0000 == a
            &&& ip / 0x1_0000 % 0x100 == b
            &&& ip / 0x100 % 0x100 == c
            &&& ip % 0x100 == d
        }),
{
    let ip = a * 0x100_0000 + b * 0x1_0000 + c * 0x100 + d;
    let top = b * 0x1_0000 + c * 0x100 + d;
    let low = c * 0x100 + d;
    vstd::arithmetic::div_mod::lemma_fundamental_div_mod_converse(ip, 0x100_0000, a, top);
    vstd::arithmetic::div_mod::lemma_fundamental_div_mod_converse(
        ip,
        0x1_0000,
        a * 0x100 + b,
        low,
    );
    vstd::arithmetic::div_mod::lemma_fundamental_div_mod_converse(a * 0x100 + b, 0x100, a, b);
    vstd::arithmetic::div_mod::lemma_fundamental_div_mod_converse(
        ip,
        0x100,
        a * 0x1_0000 + b * 0x100 + c,
        d,
    );
    vstd::arithmetic::div_mod::lemma_fundamental_div_mod_converse(
        a * 0x1_0000 + b * 0x100 + c,
        0x100,
        a * 0x100 + b,
        c,
    );
}

/// The prefix length of a netmask is the number of its leading ones: a mask of `k` ones in
/// front gives `k`.
pub proof fn netmasks_give_their_prefix_length(k: nat)
    requires
        k <= 32,
    ensures
        ones((0x1_0000_0000 - vstd::arithmetic::power2::pow2((32 - k) as nat)) as nat) == k,
{
    let j = (32 - k) as nat;
    let full = vstd::arithmetic::power2::pow2(k);
    let low = vstd::arithmetic::power2::pow2(j);
    vstd::arithmetic::power2::lemma2_to64();
    vstd::arithmetic::power2::lemma_pow2_adds(k, j);
    vstd::arithmetic::power2::lemma_pow2_pos(k);
    assert((full - 1) * low == full * low - low) by (nonlinear_arith);
    lemma_ones_shifted((full - 1) as nat, j);
    lemma_ones_full(k);
}

proof fn lemma_ones_full(k: nat)
    ensures
        ones((vstd::arithmetic::power2::pow2(k) - 1) as nat) == k,
    decreases k,
{
    vstd::arithmetic::power2::lemma2_to64();
    if k > 0 {
        vstd::arithmetic::power2::lemma_pow2_unfold(k);
        vstd::arithmetic::power2::lemma_pow2_pos((k - 1) as nat);
        lemma_ones_full((k - 1) as nat);
    }
}

proof fn lemma_ones_shifted(n: nat, j: nat)
    ensures
        ones(n * vstd::arithmetic::power2::pow2(j)) == ones(n),
    decreases j,
{
    vstd::arithmetic::power2::lemma2_to64();
    if j == 0 {
        assert(n * vstd::arithmetic::power2::pow2(j) == n);
    } else {
        let half = vstd::arithmetic::power2::pow2((j - 1) as nat);
        vstd::arithmetic::power2::lemma_pow2_unfold(j);
        assert(n * (2 * half) == 2 * (n * half)) by (nonlinear_arith);
        lemma_ones_shifted(n, (j - 1) as nat);
        let x = (n * half) as nat;
        assert(n * vstd::arithmetic::power2::pow2(j) == 2 * x);
        assert(ones(2 * x) == ones(x));
    }
}

/// Two lists are the same where they hold the same interfaces, or devices, in the same order;
/// each of what is shown counts.
pub proof fn lists_differ_where_an_item_does(
    a: Seq<NetIf>,
    b: Seq<NetIf>,
    c: Seq<AudioOutDevice>,
    d: Seq<AudioOutDevice>,
)
    ensures
        same_interfaces(a, b) <==> a.len() == b.len() && forall|i: int|
            0 <= i < a.len() ==> (#[trigger] a[i]).name@ == b[i].name@ && a[i].addr@ == b[i].addr@
                && a[i].prefix_len == b[i].prefix_len,
        same_devices(c, d) <==> c.len() == d.len() && forall|i: int|
            0 <= i < c.len() ==> (#[trigger] c[i]).uid@ == d[i].uid@ && c[i].name@ == d[i].name@
                && c[i].is_default == d[i].is_default && c[i].sample_rate_hz
                == d[i].sample_rate_hz,
{
    if same_interfaces(a, b) {
        assert(net_views(a).len() == net_views(b).len());
        assert forall|i: int| 0 <= i < a.len() implies (#[trigger] a[i])@ == b[i]@ by {
            assert(net_views(a)[i] == net_views(b)[i]);
        }
    } else if a.len() == b.len() && (forall|i: int|
        0 <= i < a.len() ==> (#[trigger] a[i]).name@ == b[i].name@ && a[i].addr@ == b[i].addr@
            && a[i].prefix_len == b[i].prefix_len) {
        assert forall|i: int| 0 <= i < a.len() implies net_views(a)[i] == net_views(b)[i] by {
            assert(a[i].name@ == b[i].name@);
        }
        assert(net_views(a) =~= net_views(b));
    }
    if same_devices(c, d) {
        assert forall|i: int| 0 <= i < c.len() implies (#[trigger] c[i]).uid@ == d[i].uid@
            && c[i].name@ == d[i].name@ && c[i].is_default == d[i].is_default
            && c[i].sample_rate_hz == d[i].sample_rate_hz by {
            assert(c[i]@ == d[i]@);
        }
    }
}

/// A list that changed has another version than before: the number that follows, and after the
/// greatest one the smallest.
pub proof fn versions_go_round(v: u32)
    ensures
        next_version(v) != v,
        next_version(v) as int == (v + 1) % 0x1_0000_0000,
{
}

/// The value with all bits set stands for no data, and no other value does. The total is in
/// the upper half, and the parts are in the lower half.
pub proof fn latencies_are_read_by_halves(packed: u64)
    ensures
        unpacked_latency(packed) is None <==> packed == 0xffff_ffff_ffff_ffff,
        unpacked_latency(packed) matches Some((total, guest, host)) ==> packed == total
            * 0x1_0000_0000 + guest * 0x1_0000 + host && guest < 0x1_0000 && host < 0x1_0000,
{
}

} // verus!
