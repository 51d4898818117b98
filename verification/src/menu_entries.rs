//! What the operator menu shows: its entries, their labels and check marks.

use vstd::prelude::*;

use crate::menu;
use crate::menu::{decode_hex_uid, encode_hex_uid, is_selected};
use crate::menu_state;
use crate::menu_state::{
    unpack_latency, AppState, AudioOutDevice, NetIf, NetworkState, PhysicalDisk, UsbState,
    MAX_INSTANCES, NET_SEL_NONE, NET_SEL_VMNET_HOST,
};
use crate::text;
use crate::text::{cat2, cat3, decimal_text, parse_u32, str_eq, strip_prefix};

verus! {

/// A submenu whose entries follow the state of the host.
#[derive(Clone, Copy, Debug, PartialEq, Eq, Structural)]
pub enum LiveSubmenu {
    /// "Devices": the removable disks of the host.
    PhysicalDisks,
    /// "Output Device": the audio output devices of the host.
    OutputDevices,
}

/// One entry of a menu.
#[allow(inconsistent_fields)]
#[derive(Clone, Debug)]
pub enum MenuEntry {
    /// A plain entry; a header has no id.
    Item { id: Option<String>, label: String, enabled: bool },
    /// An entry with a check mark.
    Check { id: String, label: String, enabled: bool, checked: bool },
    Separator,
    /// The platform's quit entry.
    Quit,
    /// A nested menu.
    Nested { label: String, content: LiveSubmenu },
}

/// What a [`MenuEntry`] holds.
#[allow(inconsistent_fields)]
pub enum EntryView {
    Item { id: Option<Seq<char>>, label: Seq<char>, enabled: bool },
    Check { id: Seq<char>, label: Seq<char>, enabled: bool, checked: bool },
    Separator,
    Quit,
    Nested { label: Seq<char>, content: LiveSubmenu },
}

impl View for MenuEntry {
    type V = EntryView;

    open spec fn view(&self) -> EntryView {
        match *self {
            MenuEntry::Item { id, label, enabled } => EntryView::Item {
                id: match id {
                    Some(i) => Some(i@),
                    None => None,
                },
                label: label@,
                enabled,
            },
            MenuEntry::Check { id, label, enabled, checked } => EntryView::Check {
                id: id@,
                label: label@,
                enabled,
                checked,
            },
            MenuEntry::Separator => EntryView::Separator,
            MenuEntry::Quit => EntryView::Quit,
            MenuEntry::Nested { label, content } => EntryView::Nested { label: label@, content },
        }
    }
}

/// A top-level menu.
#[derive(Clone, Debug)]
pub struct Submenu {
    pub label: String,
    pub entries: Vec<MenuEntry>,
}

/// What a [`Submenu`] holds.
pub struct SubmenuView {
    pub label: Seq<char>,
    pub entries: Seq<EntryView>,
}

impl View for Submenu {
    type V = SubmenuView;

    open spec fn view(&self) -> SubmenuView {
        SubmenuView { label: self.label@, entries: entry_views(self.entries@) }
    }
}

/// The entries that a list holds.
pub open spec fn entry_views(list: Seq<MenuEntry>) -> Seq<EntryView> {
    list.map_values(|e: MenuEntry| e@)
}

/// The menus that a list holds.
pub open spec fn submenu_views(list: Seq<Submenu>) -> Seq<SubmenuView> {
    list.map_values(|m: Submenu| m@)
}

/// An enabled plain entry.
pub open spec fn item(id: Seq<char>, label: Seq<char>) -> EntryView {
    EntryView::Item { id: Some(id), label, enabled: true }
}

/// A disabled entry without an id.
pub open spec fn header(label: Seq<char>) -> EntryView {
    EntryView::Item { id: None, label, enabled: false }
}

/// An enabled entry with a check mark.
pub open spec fn check(id: Seq<char>, label: Seq<char>, checked: bool) -> EntryView {
    EntryView::Check { id, label, enabled: true, checked }
}

/// The entries of the "Emulation" menu.
pub open spec fn emulation_entries() -> Seq<EntryView> {
    seq![
        item("install_firmware"@, "Install Firmware…"@),
        EntryView::Separator,
        item("restart"@, "Restart Emulation"@),
        check("service_mode"@, "Service Mode"@, false),
        check("haptic"@, "Jog Haptics"@, true),
        EntryView::Separator,
        EntryView::Quit,
    ]
}

/// The entries of the "Storage" menu. One eject entry serves virtual and physical
/// media; it starts out disabled.
pub open spec fn storage_entries() -> Seq<EntryView> {
    seq![
        EntryView::Item {
            id: Some("eject_current_media"@),
            label: "Eject Current Media"@,
            enabled: false,
        },
        EntryView::Separator,
        header("Virtual (.img file)"@),
        item("mount_virtual_usb"@, "Mount Image…"@),
        item("create_virtual_usb"@, "Create New…"@),
        EntryView::Separator,
        header("Physical"@),
        EntryView::Nested { label: "Devices"@, content: LiveSubmenu::PhysicalDisks },
    ]
}

/// The entry of one network interface.
pub open spec fn net_entry(i: int, iface: NetIf) -> EntryView {
    check(
        "net_if_"@ + text::decimal(i as nat),
        iface.addr@ + "/"@ + text::decimal(iface.prefix_len as nat) + " ("@ + iface.name@ + ")"@,
        false,
    )
}

/// The entries of the "Network" menu.
pub open spec fn net_entries(ifaces: Seq<NetIf>) -> Seq<EntryView> {
    seq![
        check("net_none"@, "Default (NAT)"@, true),
        check("net_vmnet_host"@, "Host-only (vmnet)"@, false),
    ] + (if ifaces.len() > 0 {
        seq![EntryView::Separator]
    } else {
        Seq::empty()
    }) + ifaces.map(|i: int, iface: NetIf| net_entry(i, iface))
}

/// The entries of the "Audio" menu.
pub open spec fn audio_entries() -> Seq<EntryView> {
    seq![
        header("Current Latency: -- ms"@),
        EntryView::Separator,
        check("audio"@, "Enable Audio"@, true),
        check("alc"@, "Enable ALC (Experimental)"@, false),
        EntryView::Separator,
        EntryView::Nested { label: "Output Device"@, content: LiveSubmenu::OutputDevices },
    ]
}

/// The entries of the "View" menu.
pub open spec fn view_entries() -> Seq<EntryView> {
    seq![
        check("jog_screen"@, "External Jog Screen"@, false),
        check("main_screen"@, "External Main Screen"@, false),
        check("debug_screen"@, "Debug Panel"@, false),
    ]
}

/// The entries of the "Instances" menu, one for each slot from 1 on.
pub open spec fn instance_entries(count: nat) -> Seq<EntryView> {
    Seq::new(
        count,
        |i: int|
            check(
                "instance_"@ + text::decimal((i + 1) as nat),
                "Slot "@ + text::decimal((i + 1) as nat),
                false,
            ),
    )
}

/// The whole menu bar.
pub open spec fn menu_bar(ifaces: Seq<NetIf>) -> Seq<SubmenuView> {
    seq![
        SubmenuView { label: "Emulation"@, entries: emulation_entries() },
        SubmenuView { label: "Storage"@, entries: storage_entries() },
        SubmenuView { label: "Network"@, entries: net_entries(ifaces) },
        SubmenuView { label: "Audio"@, entries: audio_entries() },
        SubmenuView { label: "View"@, entries: view_entries() },
        SubmenuView { label: "Instances"@, entries: instance_entries(MAX_INSTANCES as nat) },
    ]
}

fn push_entry(list: &mut Vec<MenuEntry>, e: MenuEntry)
    ensures
        entry_views(final(list)@) == entry_views(old(list)@).push(e@),
{
    list.push(e);
    assert(entry_views(list@) =~= entry_views(old(list)@).push(e@));
}

fn new_item(id: &str, label: &str, enabled: bool) -> (r: MenuEntry)
    ensures
        r@ == (EntryView::Item { id: Some(id@), label: label@, enabled }),
{
    MenuEntry::Item { id: Some(id.to_owned()), label: label.to_owned(), enabled }
}

fn new_header(label: &str) -> (r: MenuEntry)
    ensures
        r@ == header(label@),
{
    MenuEntry::Item { id: None, label: label.to_owned(), enabled: false }
}

fn new_check(id: &str, label: &str, checked: bool) -> (r: MenuEntry)
    ensures
        r@ == check(id@, label@, checked),
{
    MenuEntry::Check { id: id.to_owned(), label: label.to_owned(), enabled: true, checked }
}

fn build_emulation_menu() -> (r: Vec<MenuEntry>)
    ensures
        entry_views(r@) == emulation_entries(),
{
    let mut list: Vec<MenuEntry> = Vec::new();
    push_entry(&mut list, new_item("install_firmware", "Install Firmware…", true));
    push_entry(&mut list, MenuEntry::Separator);
    push_entry(&mut list, new_item("restart", "Restart Emulation", true));
    push_entry(&mut list, new_check("service_mode", "Service Mode", false));
    push_entry(&mut list, new_check("haptic", "Jog Haptics", true));
    push_entry(&mut list, MenuEntry::Separator);
    push_entry(&mut list, MenuEntry::Quit);
    assert(entry_views(list@) =~= emulation_entries());
    list
}

fn build_storage_menu() -> (r: Vec<MenuEntry>)
    ensures
        entry_views(r@) == storage_entries(),
{
    let mut list: Vec<MenuEntry> = Vec::new();
    push_entry(&mut list, new_item("eject_current_media", "Eject Current Media", false));
    push_entry(&mut list, MenuEntry::Separator);
    push_entry(&mut list, new_header("Virtual (.img file)"));
    push_entry(&mut list, new_item("mount_virtual_usb", "Mount Image…", true));
    push_entry(&mut list, new_item("create_virtual_usb", "Create New…", true));
    push_entry(&mut list, MenuEntry::Separator);
    push_entry(&mut list, new_header("Physical"));
    push_entry(
        &mut list,
        MenuEntry::Nested { label: "Devices".to_owned(), content: LiveSubmenu::PhysicalDisks },
    );
    assert(entry_views(list@) =~= storage_entries());
    list
}

fn build_audio_menu() -> (r: Vec<MenuEntry>)
    ensures
        entry_views(r@) == audio_entries(),
{
    let mut list: Vec<MenuEntry> = Vec::new();
    push_entry(&mut list, new_header("Current Latency: -- ms"));
    push_entry(&mut list, MenuEntry::Separator);
    push_entry(&mut list, new_check("audio", "Enable Audio", true));
    push_entry(&mut list, new_check("alc", "Enable ALC (Experimental)", false));
    push_entry(&mut list, MenuEntry::Separator);
    push_entry(
        &mut list,
        MenuEntry::Nested {
            label: "Output Device".to_owned(),
            content: LiveSubmenu::OutputDevices,
        },
    );
    assert(entry_views(list@) =~= audio_entries());
    list
}

fn build_view_menu() -> (r: Vec<MenuEntry>)
    ensures
        entry_views(r@) == view_entries(),
{
    let mut list: Vec<MenuEntry> = Vec::new();
    push_entry(&mut list, new_check("jog_screen", "External Jog Screen", false));
    push_entry(&mut list, new_check("main_screen", "External Main Screen", false));
    push_entry(&mut list, new_check("debug_screen", "Debug Panel", false));
    assert(entry_views(list@) =~= view_entries());
    list
}

fn build_instance_menu() -> (r: Vec<MenuEntry>)
    ensures
        entry_views(r@) == instance_entries(MAX_INSTANCES as nat),
{
    let mut list: Vec<MenuEntry> = Vec::new();
    let mut n: u32 = 0;
    assert(entry_views(list@) =~= instance_entries(0));
    while n < MAX_INSTANCES
        invariant
            n <= MAX_INSTANCES,
            entry_views(list@) == instance_entries(n as nat),
        decreases MAX_INSTANCES - n,
    {
        n = n + 1;
        let number = decimal_text(n as u128);
        push_entry(
            &mut list,
            new_check(
                cat2("instance_", number.as_str()).as_str(),
                cat2("Slot ", number.as_str()).as_str(),
                false,
            ),
        );
        assert(entry_views(list@) =~= instance_entries(n as nat));
    }
    list
}

/// The entries of the "Network" menu.
pub fn build_net_submenu(ifaces: &Vec<NetIf>) -> (r: Vec<MenuEntry>)
    ensures
        entry_views(r@) == net_entries(ifaces@),
{
    let mut list: Vec<MenuEntry> = Vec::new();
    push_entry(&mut list, new_check("net_none", "Default (NAT)", true));
    push_entry(&mut list, new_check("net_vmnet_host", "Host-only (vmnet)", false));
    if ifaces.len() > 0 {
        push_entry(&mut list, MenuEntry::Separator);
    }
    let ghost front = entry_views(list@);
    let ghost all = ifaces@.map(|i: int, iface: NetIf| net_entry(i, iface));
    assert(front =~= net_entries(ifaces@).take(front.len() as int));
    let mut i: usize = 0;
    assert(all.take(0) =~= Seq::empty());
    assert(front + all.take(0) =~= front);
    while i < ifaces.len()
        invariant
            0 <= i <= ifaces@.len(),
            all == ifaces@.map(|i: int, iface: NetIf| net_entry(i, iface)),
            entry_views(list@) == front + all.take(i as int),
        decreases ifaces@.len() - i,
    {
        let number = decimal_text(i as u128);
        push_entry(
            &mut list,
            new_check(
                cat2("net_if_", number.as_str()).as_str(),
                ifaces[i].label().as_str(),
                false,
            ),
        );
        assert(all[i as int] == net_entry(i as int, ifaces@[i as int]));
        i = i + 1;
        assert(entry_views(list@) =~= front + all.take(i as int));
    }
    assert(all.take(all.len() as int) =~= all);
    assert(entry_views(list@) =~= net_entries(ifaces@));
    list
}

fn push_submenu(list: &mut Vec<Submenu>, label: &str, entries: Vec<MenuEntry>)
    ensures
        submenu_views(final(list)@) == submenu_views(old(list)@).push(
            SubmenuView { label: label@, entries: entry_views(entries@) },
        ),
{
    list.push(Submenu { label: label.to_owned(), entries });
    assert(submenu_views(list@) =~= submenu_views(old(list)@).push(
        SubmenuView { label: label@, entries: entry_views(entries@) },
    ));
}

/// Builds the menu bar.
pub fn setup_menu(ifaces: &Vec<NetIf>) -> (r: Vec<Submenu>)
    ensures
        submenu_views(r@) == menu_bar(ifaces@),
{
    let mut bar: Vec<Submenu> = Vec::new();
    push_submenu(&mut bar, "Emulation", build_emulation_menu());
    push_submenu(&mut bar, "Storage", build_storage_menu());
    push_submenu(&mut bar, "Network", build_net_submenu(ifaces));
    push_submenu(&mut bar, "Audio", build_audio_menu());
    push_submenu(&mut bar, "View", build_view_menu());
    push_submenu(&mut bar, "Instances", build_instance_menu());
    assert(submenu_views(bar@) =~= menu_bar(ifaces@));
    bar
}

/// The label of an output device: its name, its sample rate where that is known,
/// and whether it is the system default.
pub open spec fn device_label(dev: AudioOutDevice, rate: Seq<char>) -> Seq<char> {
    dev.name@ + (if rate.len() > 0 {
        " ("@ + rate + ")"@
    } else {
        Seq::empty()
    }) + (if dev.is_default {
        " (system default)"@
    } else {
        Seq::empty()
    })
}

/// The entry of one output device.
pub open spec fn device_entry(dev: AudioOutDevice, rate: Seq<char>) -> EntryView {
    check("audio_dev_uid_"@ + menu::encoded_uid(dev.uid@), device_label(dev, rate), false)
}

/// The entries of the "Output Device" menu; `rates` holds a label for each
/// device's sample rate, empty where it is unknown.
pub open spec fn device_entries(devs: Seq<AudioOutDevice>, rates: Seq<String>) -> Seq<EntryView> {
    seq![check("audio_dev_default"@, "Default System Output"@, true)] + (if devs.len() > 0 {
        seq![EntryView::Separator]
    } else {
        Seq::empty()
    }) + devs.map(|i: int, dev: AudioOutDevice| device_entry(dev, rates[i]@))
}

fn build_device_label(dev: &AudioOutDevice, rate: &str) -> (r: String)
    ensures
        r@ == device_label(*dev, rate@),
{
    let mut label = dev.name.clone();
    if rate.unicode_len() > 0 {
        label.append(cat3(" (", rate, ")").as_str());
    }
    if dev.is_default {
        label.append(" (system default)");
    }
    assert(label@ =~= device_label(*dev, rate@));
    label
}

/// The entries of the "Output Device" menu.
pub fn build_audio_device_submenu(devs: &Vec<AudioOutDevice>, rates: &Vec<String>) -> (r: Vec<
    MenuEntry,
>)
    requires
        rates@.len() == devs@.len(),
    ensures
        entry_views(r@) == device_entries(devs@, rates@),
{
    let mut list: Vec<MenuEntry> = Vec::new();
    push_entry(&mut list, new_check("audio_dev_default", "Default System Output", true));
    if devs.len() > 0 {
        push_entry(&mut list, MenuEntry::Separator);
    }
    let ghost front = entry_views(list@);
    let ghost all = devs@.map(|i: int, dev: AudioOutDevice| device_entry(dev, rates@[i]@));
    assert(front =~= device_entries(devs@, rates@).take(front.len() as int));
    let mut i: usize = 0;
    assert(front + all.take(0) =~= front);
    while i < devs.len()
        invariant
            0 <= i <= devs@.len(),
            rates@.len() == devs@.len(),
            all == devs@.map(|i: int, dev: AudioOutDevice| device_entry(dev, rates@[i]@)),
            entry_views(list@) == front + all.take(i as int),
        decreases devs@.len() - i,
    {
        push_entry(
            &mut list,
            new_check(
                cat2("audio_dev_uid_", encode_hex_uid(devs[i].uid.as_str()).as_str()).as_str(),
                build_device_label(&devs[i], rates[i].as_str()).as_str(),
                false,
            ),
        );
        assert(all[i as int] == device_entry(devs@[i as int], rates@[i as int]@));
        i = i + 1;
        assert(entry_views(list@) =~= front + all.take(i as int));
    }
    assert(all.take(all.len() as int) =~= all);
    assert(entry_views(list@) =~= device_entries(devs@, rates@));
    list
}

/// The entries of the "Devices" menu.
pub open spec fn disk_entries(disks: Seq<PhysicalDisk>) -> Seq<EntryView> {
    if disks.len() == 0 {
        seq![header("No removable disks"@)]
    } else {
        disks.map(
            |i: int, disk: PhysicalDisk|
                check("phys_select_"@ + text::decimal(i as nat), disk.label@, false),
        )
    }
}

/// The entries of the "Devices" menu.
pub fn rebuild_phys_submenu(disks: &Vec<PhysicalDisk>) -> (r: Vec<MenuEntry>)
    ensures
        entry_views(r@) == disk_entries(disks@),
{
    let mut list: Vec<MenuEntry> = Vec::new();
    if disks.len() == 0 {
        push_entry(&mut list, new_header("No removable disks"));
        assert(entry_views(list@) =~= disk_entries(disks@));
        return list;
    }
    let mut i: usize = 0;
    assert(entry_views(list@) =~= disk_entries(disks@).take(0));
    while i < disks.len()
        invariant
            0 <= i <= disks@.len(),
            disks@.len() > 0,
            entry_views(list@) == disk_entries(disks@).take(i as int),
        decreases disks@.len() - i,
    {
        push_entry(
            &mut list,
            new_check(
                cat2("phys_select_", decimal_text(i as u128).as_str()).as_str(),
                disks[i].label.as_str(),
                false,
            ),
        );
        i = i + 1;
        assert(entry_views(list@) =~= disk_entries(disks@).take(i as int));
    }
    assert(disk_entries(disks@).take(disks@.len() as int) =~= disk_entries(disks@));
    list
}

/// Messages that the operator is shown once.
#[derive(Clone, Debug)]
pub struct Alerts {
    /// A physical disk could not be attached for want of permission.
    pub permission_denied: bool,
    /// Network setup failed.
    pub net_error: Option<String>,
}

/// Takes the pending alerts out of the state.
pub fn take_alerts(s: &mut AppState) -> (r: Alerts)
    ensures
        r.permission_denied == old(s).usb.usb_phys_perm_denied,
        r.net_error == old(s).network.net_error_message,
        *final(s) == (AppState {
            usb: UsbState { usb_phys_perm_denied: false, ..old(s).usb },
            network: NetworkState { net_error_message: None, ..old(s).network },
            ..*old(s)
        }),
{
    let permission_denied = s.usb.usb_phys_perm_denied;
    s.usb.usb_phys_perm_denied = false;
    let net_error = s.network.net_error_message.take();
    Alerts { permission_denied, net_error }
}

/// The text of the latency entry.
pub open spec fn latency_text(packed: u64) -> Seq<char> {
    match menu_state::unpacked_latency(packed) {
        Some((total, guest, host)) => "Latency: "@ + text::decimal(total as nat) + " ms (guest "@
            + text::decimal(guest as nat) + ", host "@ + text::decimal(host as nat) + ")"@,
        None => "Current Latency: -- ms"@,
    }
}

/// The text of the latency entry.
pub fn latency_label(packed: u64) -> (r: String)
    ensures
        r@ == latency_text(packed),
{
    match unpack_latency(packed) {
        Some((total, guest, host)) => {
            let mut s = cat3("Latency: ", decimal_text(total as u128).as_str(), " ms (guest ");
            s.append(decimal_text(guest as u128).as_str());
            s.append(", host ");
            s.append(decimal_text(host as u128).as_str());
            s.append(")");
            s
        },
        None => "Current Latency: -- ms".to_owned(),
    }
}

/// The list versions that the menu was last built for.
#[derive(Clone, Copy, Debug, PartialEq, Eq, Structural)]
pub struct SeenVersions {
    pub disks: u32,
    pub net: u32,
    pub audio_devices: u32,
}

/// What the fixed entries of the menu show, and which lists have to be rebuilt.
#[derive(Clone, Debug)]
pub struct MenuSync {
    pub jog_checked: bool,
    pub main_checked: bool,
    pub debug_checked: bool,
    pub service_checked: bool,
    pub haptic_checked: bool,
    pub audio_checked: bool,
    pub alc_checked: bool,
    pub latency_label: String,
    /// Something is mounted, be it a virtual image or a physical disk.
    pub eject_enabled: bool,
    pub rebuild_disks: bool,
    pub rebuild_net: bool,
}

/// Brings the fixed entries up to date. A list is rebuilt when its version is not
/// the one that was seen last.
pub fn sync_menu(s: &AppState, seen: &mut SeenVersions) -> (r: MenuSync)
    ensures
        r.jog_checked == s.view.jog_screen_popped,
        r.main_checked == s.view.main_screen_popped,
        r.debug_checked == s.view.debug_screen_popped,
        r.service_checked == s.lifecycle.service_mode,
        r.haptic_checked == s.haptics.haptic_enabled,
        r.audio_checked == s.audio.audio_enabled,
        r.alc_checked == s.audio.alc_enabled,
        r.latency_label@ == latency_text(s.audio.latency_packed),
        r.eject_enabled == (s.usb.usb_virtual_mounted || s.usb.usb_phys_mounted_idx >= 0),
        r.rebuild_disks == (old(seen).disks != s.usb.usb_phys_list_version),
        r.rebuild_net == (old(seen).net != s.network.net_list_version),
        *final(seen) == (SeenVersions {
            disks: s.usb.usb_phys_list_version,
            net: s.network.net_list_version,
            audio_devices: old(seen).audio_devices,
        }),
{
    let rebuild_disks = seen.disks != s.usb.usb_phys_list_version;
    let rebuild_net = seen.net != s.network.net_list_version;
    seen.disks = s.usb.usb_phys_list_version;
    seen.net = s.network.net_list_version;
    MenuSync {
        jog_checked: s.view.jog_screen_popped,
        main_checked: s.view.main_screen_popped,
        debug_checked: s.view.debug_screen_popped,
        service_checked: s.lifecycle.service_mode,
        haptic_checked: s.haptics.haptic_enabled,
        audio_checked: s.audio.audio_enabled,
        alc_checked: s.audio.alc_enabled,
        latency_label: latency_label(s.audio.latency_packed),
        eject_enabled: s.usb.usb_virtual_mounted || s.usb.usb_phys_mounted_idx >= 0,
        rebuild_disks,
        rebuild_net,
    }
}

/// Whether the output-device list has to be rebuilt; its version counts as seen
/// from then on.
pub fn sync_audio_devices(s: &AppState, seen: &mut SeenVersions) -> (r: bool)
    ensures
        r == (old(seen).audio_devices != s.audio.audio_device_list_version),
        *final(seen) == (SeenVersions {
            audio_devices: s.audio.audio_device_list_version,
            ..*old(seen)
        }),
{
    let rebuild = seen.audio_devices != s.audio.audio_device_list_version;
    seen.audio_devices = s.audio.audio_device_list_version;
    rebuild
}

/// Whether the entry of disk number `index` is checked.
pub fn disk_checked(index: usize, mounted: i32) -> (r: bool)
    ensures
        r == (index as int == mounted as int),
{
    mounted >= 0 && index as u128 == mounted as u128
}

/// Whether the network entry `id` is checked for a selection.
pub open spec fn net_marked(id: Seq<char>, selected: u32) -> bool {
    if id == "net_none"@ {
        selected == NET_SEL_NONE
    } else if id == "net_vmnet_host"@ {
        selected == NET_SEL_VMNET_HOST
    } else if text::has_prefix(id, "net_if_"@) {
        text::parsed_unsigned(text::without_prefix(id, "net_if_"@), u32::MAX as nat) == Some(
            selected as nat,
        )
    } else {
        false
    }
}

/// Whether the network entry `id` is checked for a selection.
pub fn net_checked(id: &str, selected: u32) -> (r: bool)
    ensures
        r == net_marked(id@, selected),
{
    if str_eq(id, "net_none") {
        selected == NET_SEL_NONE
    } else if str_eq(id, "net_vmnet_host") {
        selected == NET_SEL_VMNET_HOST
    } else if let Some(rest) = strip_prefix(id, "net_if_") {
        match parse_u32(rest) {
            Some(n) => n == selected,
            None => false,
        }
    } else {
        false
    }
}

/// The selected device is among the present ones.
pub open spec fn selection_present(
    selected: Option<String>,
    devices: Seq<AudioOutDevice>,
) -> bool {
    exists|i: int| 0 <= i < devices.len() && menu::selects(selected, (#[trigger] devices[i]).uid@)
}

/// Whether the output-device entry `id` is checked. A selected device that is not
/// present counts as the system default.
pub open spec fn device_marked(
    id: Seq<char>,
    selected: Option<String>,
    devices: Seq<AudioOutDevice>,
) -> bool {
    if id == "audio_dev_default"@ {
        !selection_present(selected, devices)
    } else if text::has_prefix(id, "audio_dev_uid_"@) {
        match menu::decoded_uid(text::without_prefix(id, "audio_dev_uid_"@)) {
            Some(uid) => menu::selects(selected, uid),
            None => false,
        }
    } else {
        false
    }
}

fn is_selection_present(selected: &Option<String>, devices: &Vec<AudioOutDevice>) -> (r: bool)
    ensures
        r == selection_present(*selected, devices@),
{
    let mut i: usize = 0;
    while i < devices.len()
        invariant
            0 <= i <= devices@.len(),
            forall|j: int|
                0 <= j < i ==> !menu::selects(*selected, (#[trigger] devices@[j]).uid@),
        decreases devices@.len() - i,
    {
        if is_selected(selected, devices[i].uid.as_str()) {
            return true;
        }
        i = i + 1;
    }
    false
}

/// Whether the output-device entry `id` is checked.
pub fn device_checked(id: &str, selected: &Option<String>, devices: &Vec<AudioOutDevice>) -> (r:
    bool)
    ensures
        r == device_marked(id@, *selected, devices@),
{
    if str_eq(id, "audio_dev_default") {
        !is_selection_present(selected, devices)
    } else if let Some(rest) = strip_prefix(id, "audio_dev_uid_") {
        match decode_hex_uid(rest) {
            Some(uid) => is_selected(selected, uid.as_str()),
            None => false,
        }
    } else {
        false
    }
}

/// What the entry of a slot shows.
#[derive(Clone, Debug)]
pub struct InstanceEntry {
    pub label: String,
    pub checked: bool,
    pub enabled: bool,
}

/// What the entry of slot `n` shows. This window's own slot is checked and cannot
/// be launched; another slot is checked while it runs.
pub fn instance_entry(n: u32, current: u32, running: bool) -> (r: InstanceEntry)
    ensures
        r.checked == (n == current || running),
        r.enabled == (n != current),
        r.label@ == "Slot "@ + text::decimal(n as nat) + (if n == current {
            " (this window)"@
        } else if running {
            " — running"@
        } else {
            Seq::empty()
        }),
{
    let mut label = cat2("Slot ", decimal_text(n as u128).as_str());
    if n == current {
        label.append(" (this window)");
    } else if running {
        label.append(" — running");
    }
    assert(label@ =~= "Slot "@ + text::decimal(n as nat) + (if n == current {
        " (this window)"@
    } else if running {
        " — running"@
    } else {
        Seq::empty()
    }));
    InstanceEntry { label, checked: n == current || running, enabled: n != current }
}

/// Of the entries of the network menu, the one that stands for the selection is
/// checked, and no other one.
pub proof fn network_entries_are_exclusive(i: u32, selected: u32)
    ensures
        net_marked("net_none"@, selected) <==> selected == NET_SEL_NONE,
        net_marked("net_vmnet_host"@, selected) <==> selected == NET_SEL_VMNET_HOST,
        net_marked("net_if_"@ + text::decimal(i as nat), selected) <==> selected == i,
{
    reveal_strlit("net_none");
    reveal_strlit("net_vmnet_host");
    reveal_strlit("net_if_");
    let id = "net_if_"@ + text::decimal(i as nat);
    assert("net_none"@[4] != "net_vmnet_host"@[4]);
    assert(id[4] == 'i');
    menu::lemma_differ(id, "net_none"@, 4);
    menu::lemma_differ(id, "net_vmnet_host"@, 4);
    menu::lemma_prefix("net_if_"@, text::decimal(i as nat));
    text::decimal_round_trip(i as nat, u32::MAX as nat);
}

/// Of the entries of the output-device menu, those of the selected device are
/// checked; the default entry is checked exactly when none of them is. So one is
/// always checked, also when the selected device was unplugged.
pub proof fn device_entries_are_never_all_unchecked(
    selected: Option<String>,
    devices: Seq<AudioOutDevice>,
)
    ensures
        forall|i: int|
            0 <= i < devices.len() ==> device_marked(
                "audio_dev_uid_"@ + menu::encoded_uid((#[trigger] devices[i]).uid@),
                selected,
                devices,
            ) == menu::selects(selected, devices[i].uid@),
        device_marked("audio_dev_default"@, selected, devices) <==> forall|i: int|
            0 <= i < devices.len() ==> !device_marked(
                "audio_dev_uid_"@ + menu::encoded_uid((#[trigger] devices[i]).uid@),
                selected,
                devices,
            ),
{
    reveal_strlit("audio_dev_default");
    reveal_strlit("audio_dev_uid_");
    assert forall|i: int| 0 <= i < devices.len() implies device_marked(
        "audio_dev_uid_"@ + menu::encoded_uid((#[trigger] devices[i]).uid@),
        selected,
        devices,
    ) == menu::selects(selected, devices[i].uid@) by {
        let uid = devices[i].uid@;
        let id = "audio_dev_uid_"@ + menu::encoded_uid(uid);
        assert(id[10] == 'u');
        menu::lemma_differ(id, "audio_dev_default"@, 10);
        menu::lemma_prefix("audio_dev_uid_"@, menu::encoded_uid(uid));
        menu::uid_round_trip(uid);
    }
}

/// The id of an entry that can be chosen.
pub open spec fn entry_id(e: EntryView) -> Option<Seq<char>> {
    match e {
        EntryView::Item { id, .. } => id,
        EntryView::Check { id, .. } => Some(id),
        _ => None,
    }
}

/// Every id names an action.
pub open spec fn all_ids_act(entries: Seq<EntryView>) -> bool {
    forall|i: int|
        0 <= i < entries.len() && entry_id(#[trigger] entries[i]) is Some ==> !(menu::action_of(
            entry_id(entries[i])->0,
        ) is Unknown)
}

proof fn lemma_fixed_entries_act()
    ensures
        all_ids_act(emulation_entries()),
        all_ids_act(storage_entries()),
        all_ids_act(audio_entries()),
        all_ids_act(view_entries()),
{
}

proof fn lemma_net_entries_act(ifaces: Seq<NetIf>)
    requires
        ifaces.len() <= u32::MAX,
    ensures
        all_ids_act(net_entries(ifaces)),
{
    let nets = net_entries(ifaces);
    assert forall|i: int| 0 <= i < nets.len() && entry_id(#[trigger] nets[i]) is Some implies !(
    menu::action_of(entry_id(nets[i])->0) is Unknown) by {
        if i >= 3 {
            menu::interface_entry_selects_it((i - 3) as u32);
            assert(nets[i] == net_entry(i - 3, ifaces[i - 3]));
        }
    }
}

proof fn lemma_instance_entries_act(count: nat)
    requires
        count < u32::MAX,
    ensures
        all_ids_act(instance_entries(count)),
{
    let slots = instance_entries(count);
    assert forall|i: int| 0 <= i < slots.len() && entry_id(#[trigger] slots[i]) is Some implies !(
    menu::action_of(entry_id(slots[i])->0) is Unknown) by {
        menu::instance_entry_launches_it((i + 1) as u32);
    }
}

/// Every entry of the menu bar that has an id names an action.
pub proof fn every_bar_entry_acts(ifaces: Seq<NetIf>, bar: int)
    requires
        ifaces.len() <= u32::MAX,
        0 <= bar < menu_bar(ifaces).len(),
    ensures
        all_ids_act(menu_bar(ifaces)[bar].entries),
{
    lemma_fixed_entries_act();
    lemma_net_entries_act(ifaces);
    lemma_instance_entries_act(MAX_INSTANCES as nat);
}

/// Every entry of the output-device menu that has an id names an action.
pub proof fn every_device_entry_acts(devices: Seq<AudioOutDevice>, rates: Seq<String>)
    ensures
        all_ids_act(device_entries(devices, rates)),
{
    let devs = device_entries(devices, rates);
    assert forall|i: int| 0 <= i < devs.len() && entry_id(#[trigger] devs[i]) is Some implies !(
    menu::action_of(entry_id(devs[i])->0) is Unknown) by {
        if i >= 2 {
            menu::device_entry_selects_it(devices[i - 2].uid@);
            assert(devs[i] == device_entry(devices[i - 2], rates[i - 2]@));
        }
    }
}

/// Every entry of the disk menu that has an id names an action.
pub proof fn every_disk_entry_acts(disks: Seq<PhysicalDisk>)
    requires
        disks.len() <= i32::MAX,
    ensures
        all_ids_act(disk_entries(disks)),
{
    let ds = disk_entries(disks);
    assert forall|i: int| 0 <= i < ds.len() && entry_id(#[trigger] ds[i]) is Some implies !(
    menu::action_of(entry_id(ds[i])->0) is Unknown) by {
        if disks.len() > 0 {
            menu::disk_entry_selects_it(i as i32);
        }
    }
}

/// The entry can be chosen, has this label, and names this action.
pub open spec fn offers(e: EntryView, label: Seq<char>, action: menu::ActionView) -> bool {
    match e {
        EntryView::Item { id, label: l, enabled } => enabled && l == label && id is Some
            && menu::action_of(id->0) == action,
        EntryView::Check { id, label: l, enabled, .. } => enabled && l == label
            && menu::action_of(id) == action,
        _ => false,
    }
}

/// The fixed entries of the menu bar: each label stands for its action, in the menu where it
/// is looked for.
pub proof fn the_bar_offers_the_actions(ifaces: Seq<NetIf>)
    ensures
        ({
            let bar = menu_bar(ifaces);
            let emulation = bar[0].entries;
            let storage = bar[1].entries;
            let network = bar[2].entries;
            let audio = bar[3].entries;
            let view = bar[4].entries;
            &&& bar.len() == 6
            &&& bar[0].label == "Emulation"@ && emulation.len() == 7
            &&& bar[1].label == "Storage"@ && storage.len() == 8
            &&& bar[2].label == "Network"@
            &&& bar[3].label == "Audio"@ && audio.len() == 6
            &&& bar[4].label == "View"@ && view.len() == 3
            &&& bar[5].label == "Instances"@ && bar[5].entries.len() == 4
            &&& offers(emulation[0], "Install Firmware…"@, menu::ActionView::InstallFirmware)
            &&& offers(emulation[2], "Restart Emulation"@, menu::ActionView::Restart)
            &&& offers(emulation[3], "Service Mode"@, menu::ActionView::ServiceMode)
            &&& offers(emulation[4], "Jog Haptics"@, menu::ActionView::Haptic)
            &&& emulation[6] is Quit
            &&& storage[0] matches EntryView::Item { id, label, enabled } && !enabled && label
                == "Eject Current Media"@ && id is Some && menu::action_of(id->0)
                == menu::ActionView::EjectCurrentMedia
            &&& offers(storage[3], "Mount Image…"@, menu::ActionView::MountVirtualUsb)
            &&& offers(storage[4], "Create New…"@, menu::ActionView::CreateVirtualUsb)
            &&& storage[7] matches EntryView::Nested { label, content } && label == "Devices"@
                && content is PhysicalDisks
            &&& offers(network[0], "Default (NAT)"@, menu::ActionView::NetNone)
            &&& offers(network[1], "Host-only (vmnet)"@, menu::ActionView::NetVmnetHost)
            &&& offers(audio[2], "Enable Audio"@, menu::ActionView::Audio)
            &&& offers(audio[3], "Enable ALC (Experimental)"@, menu::ActionView::Alc)
            &&& audio[5] matches EntryView::Nested { label, content } && label
                == "Output Device"@ && content is OutputDevices
            &&& offers(view[0], "External Jog Screen"@, menu::ActionView::JogScreen)
            &&& offers(view[1], "External Main Screen"@, menu::ActionView::MainScreen)
            &&& offers(view[2], "Debug Panel"@, menu::ActionView::DebugScreen)
        }),
{
    menu::fixed_ids_name_their_actions("install_firmware"@);
    menu::fixed_ids_name_their_actions("restart"@);
    menu::fixed_ids_name_their_actions("service_mode"@);
    menu::fixed_ids_name_their_actions("haptic"@);
    menu::fixed_ids_name_their_actions("eject_current_media"@);
    menu::fixed_ids_name_their_actions("mount_virtual_usb"@);
    menu::fixed_ids_name_their_actions("create_virtual_usb"@);
    menu::fixed_ids_name_their_actions("net_none"@);
    menu::fixed_ids_name_their_actions("net_vmnet_host"@);
    menu::fixed_ids_name_their_actions("audio"@);
    menu::fixed_ids_name_their_actions("alc"@);
    menu::fixed_ids_name_their_actions("jog_screen"@);
    menu::fixed_ids_name_their_actions("main_screen"@);
    menu::fixed_ids_name_their_actions("debug_screen"@);
}

/// Every interface has its entry, with its address, prefix length and name, and choosing it
/// selects that interface.
pub proof fn interfaces_have_their_entries(ifaces: Seq<NetIf>, i: int)
    requires
        0 <= i < ifaces.len() <= u32::MAX,
    ensures
        net_entries(ifaces).len() == ifaces.len() + 3,
        net_entries(ifaces)[2] is Separator,
        offers(
            net_entries(ifaces)[3 + i],
            ifaces[i].addr@ + "/"@ + text::decimal(ifaces[i].prefix_len as nat) + " ("@
                + ifaces[i].name@ + ")"@,
            menu::ActionView::NetInterface(i as u32),
        ),
{
    menu::interface_entry_selects_it(i as u32);
    assert(net_entries(ifaces)[3 + i] == net_entry(i, ifaces[i]));
}

/// Every slot has its entry, under its number, and choosing it launches that instance.
pub proof fn slots_have_their_entries(count: nat, i: int)
    requires
        0 <= i < count,
        count < u32::MAX,
    ensures
        instance_entries(count).len() == count,
        offers(
            instance_entries(count)[i],
            "Slot "@ + text::decimal((i + 1) as nat),
            menu::ActionView::Instance((i + 1) as u32),
        ),
{
    menu::instance_entry_launches_it((i + 1) as u32);
}

/// Every disk has its entry, with its label, and choosing it asks for that disk. Without disks
/// there is a remark that cannot be chosen.
pub proof fn disks_have_their_entries(disks: Seq<PhysicalDisk>, i: int)
    requires
        disks.len() <= i32::MAX,
    ensures
        0 <= i < disks.len() ==> disk_entries(disks).len() == disks.len() && offers(
            disk_entries(disks)[i],
            disks[i].label@,
            menu::ActionView::PhysicalDisk(i as i32),
        ),
        disks.len() == 0 ==> disk_entries(disks).len() == 1 && entry_id(disk_entries(disks)[0])
            is None,
{
    if 0 <= i < disks.len() {
        menu::disk_entry_selects_it(i as i32);
    }
}

/// Every output device has its entry, after the one of the system's default, and choosing it
/// selects that device. The entry shows the name, then the rate where one is known, and at
/// last whether the device is the default.
pub proof fn devices_have_their_entries(devs: Seq<AudioOutDevice>, rates: Seq<String>, i: int)
    requires
        0 <= i < devs.len() == rates.len(),
    ensures
        device_entries(devs, rates).len() == devs.len() + 2,
        offers(
            device_entries(devs, rates)[0],
            "Default System Output"@,
            menu::ActionView::AudioDeviceDefault,
        ),
        offers(
            device_entries(devs, rates)[2 + i],
            device_label(devs[i], rates[i]@),
            menu::ActionView::AudioDevice(devs[i].uid@),
        ),
        ({
            let label = device_label(devs[i], rates[i]@);
            let (name, rate) = (devs[i].name@, rates[i]@);
            &&& rate.len() == 0 && !devs[i].is_default ==> label == name
            &&& rate.len() > 0 && !devs[i].is_default ==> label == name + (" ("@ + rate + ")"@)
            &&& rate.len() == 0 && devs[i].is_default ==> label == name + " (system default)"@
            &&& rate.len() > 0 && devs[i].is_default ==> label == name + (" ("@ + rate + ")"@)
                + " (system default)"@
        }),
{
    menu::device_entry_selects_it(devs[i].uid@);
    menu::fixed_ids_name_their_actions("audio_dev_default"@);
    assert(device_entries(devs, rates)[2 + i] == device_entry(devs[i], rates[i]@));
    let (name, rate) = (devs[i].name@, rates[i]@);
    let none = Seq::<char>::empty();
    assert(name + none =~= name);
    assert(name + (" ("@ + rate + ")"@) + none =~= name + (" ("@ + rate + ")"@));
}

/// A latency that was published is shown with the guest's and the host's part.
pub proof fn published_latencies_are_shown(total_ms: u32, guest_ms: u32, host_ms: u32)
    requires
        guest_ms < 0x1_0000,
        host_ms < 0x1_0000,
        total_ms < u32::MAX,
    ensures
        latency_text(menu_state::packed_latency(total_ms, guest_ms, host_ms) as u64)
            == "Latency: "@ + text::decimal(total_ms as nat) + " ms (guest "@ + text::decimal(
            guest_ms as nat,
        ) + ", host "@ + text::decimal(host_ms as nat) + ")"@,
        latency_text(u64::MAX) == "Current Latency: -- ms"@,
{
    menu_state::latency_round_trip(total_ms, guest_ms, host_ms);
}

/// An entry of the network menu is checked where its own action would leave the selection as
/// it is, and an entry of another kind never is.
pub proof fn checked_networks_are_the_selected_ones(id: Seq<char>, selected: u32)
    ensures
        net_marked(id, selected) <==> (match menu::action_of(id) {
            menu::ActionView::NetNone => selected == 0xffff_ffff,
            menu::ActionView::NetVmnetHost => selected == 0xffff_fffe,
            menu::ActionView::NetInterface(n) => selected == n,
            _ => false,
        }),
{
    menu::fixed_ids_name_their_actions(id);
    reveal_strlit("net_if_");
    reveal_strlit("audio_dev_uid_");
    if text::has_prefix(id, "net_if_"@) {
        assert(id.take(7)[0] == 'n' && id.take(7)[4] == 'i');
        menu::lemma_not_a_fixed_id(id);
        if text::has_prefix(id, "audio_dev_uid_"@) {
            assert(id.take(14)[0] == 'a');
        }
    }
}

/// An entry of the output-device menu is checked where its own action would leave the
/// selection as it is; the default's also where the selected device is not there.
pub proof fn checked_devices_are_the_selected_ones(
    id: Seq<char>,
    selected: Option<String>,
    devices: Seq<AudioOutDevice>,
)
    ensures
        device_marked(id, selected, devices) <==> (match menu::action_of(id) {
            menu::ActionView::AudioDeviceDefault => forall|i: int|
                0 <= i < devices.len() ==> text::maybe(selected) != Some(
                    (#[trigger] devices[i]).uid@,
                ),
            menu::ActionView::AudioDevice(uid) => text::maybe(selected) == Some(uid),
            _ => false,
        }),
{
    menu::fixed_ids_name_their_actions(id);
    reveal_strlit("audio_dev_uid_");
    if text::has_prefix(id, "audio_dev_uid_"@) {
        assert(id.take(14)[0] == 'a' && id.take(14)[1] == 'u' && id.take(14)[10] == 'u');
        menu::lemma_not_a_fixed_id(id);
    }
    if selection_present(selected, devices) {
        let i = choose|i: int|
            0 <= i < devices.len() && menu::selects(selected, (#[trigger] devices[i]).uid@);
        assert(text::maybe(selected) == Some(devices[i].uid@));
    } else {
        assert forall|i: int| 0 <= i < devices.len() implies text::maybe(selected) != Some(
            (#[trigger] devices[i]).uid@,
        ) by {
            assert(!menu::selects(selected, devices[i].uid@));
        }
    }
}

/// The mark of an entry; none where it has none.
pub open spec fn mark_of(e: EntryView) -> Option<bool> {
    match e {
        EntryView::Check { checked, .. } => Some(checked),
        _ => None,
    }
}

/// The marks that a menu is built with: haptics, audio, the plain network and the default
/// device are marked, and nothing else is.
pub proof fn menus_begin_with_the_defaults(
    ifaces: Seq<NetIf>,
    devs: Seq<AudioOutDevice>,
    rates: Seq<String>,
    disks: Seq<PhysicalDisk>,
    count: nat,
    i: int,
)
    ensures
        ({
            &&& mark_of(emulation_entries()[3]) == Some(false)
            &&& mark_of(emulation_entries()[4]) == Some(true)
            &&& mark_of(audio_entries()[2]) == Some(true)
            &&& mark_of(audio_entries()[3]) == Some(false)
            &&& 0 <= i < 3 ==> mark_of(view_entries()[i]) == Some(false)
            &&& mark_of(net_entries(ifaces)[0]) == Some(true)
            &&& mark_of(net_entries(ifaces)[1]) == Some(false)
            &&& 0 <= i < ifaces.len() ==> mark_of(net_entries(ifaces)[3 + i]) == Some(false)
            &&& mark_of(device_entries(devs, rates)[0]) == Some(true)
            &&& 0 <= i < devs.len() ==> mark_of(device_entries(devs, rates)[2 + i]) == Some(false)
            &&& 0 <= i < disks.len() ==> mark_of(disk_entries(disks)[i]) == Some(false)
            &&& 0 <= i < count ==> mark_of(instance_entries(count)[i]) == Some(false)
        }),
{
    if 0 <= i < ifaces.len() {
        assert(net_entries(ifaces)[3 + i] == net_entry(i, ifaces[i]));
    }
    if 0 <= i < devs.len() {
        assert(device_entries(devs, rates)[2 + i] == device_entry(devs[i], rates[i]@));
    }
}

} // verus!
