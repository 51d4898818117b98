//! The operator menu: its entries, what each action does to the shared state,
//! and what the menu shows for a state.

use vstd::prelude::*;

use crate::menu_state::{
    AppState, AudioState, HapticState, LifecycleState, NetworkState, UsbState, ViewState,
    NET_SEL_NONE, NET_SEL_VMNET_HOST,
};
use crate::text;
use crate::text::{
    decode_hex, encode_hex, parse_i32, parse_u32, str_eq, strip_prefix, utf8_text,
};

verus! {

/// Where an operator action comes from. Native menu actions engage the boot
/// shade when they require a restart; Linux operator-bar actions never do.
#[derive(Clone, Copy, Debug, PartialEq, Eq, Structural)]
pub enum ActionOrigin {
    Native,
    Linux,
}

/// An operator action.
#[derive(Clone, Debug)]
pub enum MenuAction {
    InstallFirmware,
    Start,
    Restart,
    Stop,
    ServiceMode,
    Audio,
    Alc,
    Haptic,
    JogScreen,
    MainScreen,
    DebugScreen,
    NetNone,
    NetVmnetHost,
    CreateVirtualUsb,
    MountVirtualUsb,
    EjectCurrentMedia,
    AudioDeviceDefault,
    AudioDevice(String),
    NetInterface(u32),
    PhysicalDisk(i32),
    Instance(u32),
    Unknown,
}

/// What a [`MenuAction`] means.
pub enum ActionView {
    InstallFirmware,
    Start,
    Restart,
    Stop,
    ServiceMode,
    Audio,
    Alc,
    Haptic,
    JogScreen,
    MainScreen,
    DebugScreen,
    NetNone,
    NetVmnetHost,
    CreateVirtualUsb,
    MountVirtualUsb,
    EjectCurrentMedia,
    AudioDeviceDefault,
    AudioDevice(Seq<char>),
    NetInterface(u32),
    PhysicalDisk(i32),
    Instance(u32),
    Unknown,
}

impl View for MenuAction {
    type V = ActionView;

    open spec fn view(&self) -> ActionView {
        match *self {
            MenuAction::InstallFirmware => ActionView::InstallFirmware,
            MenuAction::Start => ActionView::Start,
            MenuAction::Restart => ActionView::Restart,
            MenuAction::Stop => ActionView::Stop,
            MenuAction::ServiceMode => ActionView::ServiceMode,
            MenuAction::Audio => ActionView::Audio,
            MenuAction::Alc => ActionView::Alc,
            MenuAction::Haptic => ActionView::Haptic,
            MenuAction::JogScreen => ActionView::JogScreen,
            MenuAction::MainScreen => ActionView::MainScreen,
            MenuAction::DebugScreen => ActionView::DebugScreen,
            MenuAction::NetNone => ActionView::NetNone,
            MenuAction::NetVmnetHost => ActionView::NetVmnetHost,
            MenuAction::CreateVirtualUsb => ActionView::CreateVirtualUsb,
            MenuAction::MountVirtualUsb => ActionView::MountVirtualUsb,
            MenuAction::EjectCurrentMedia => ActionView::EjectCurrentMedia,
            MenuAction::AudioDeviceDefault => ActionView::AudioDeviceDefault,
            MenuAction::AudioDevice(uid) => ActionView::AudioDevice(uid@),
            MenuAction::NetInterface(n) => ActionView::NetInterface(n),
            MenuAction::PhysicalDisk(n) => ActionView::PhysicalDisk(n),
            MenuAction::Instance(n) => ActionView::Instance(n),
            MenuAction::Unknown => ActionView::Unknown,
        }
    }
}

/// A device UID as it stands in a menu id.
pub open spec fn encoded_uid(uid: Seq<char>) -> Seq<char> {
    text::hex_encoded(vstd::utf8::encode_utf8(uid))
}

/// The device UID that a part of a menu id stands for.
pub open spec fn decoded_uid(s: Seq<char>) -> Option<Seq<char>> {
    match text::hex_decoded(vstd::utf8::encode_utf8(s)) {
        Some(bytes) => if vstd::utf8::valid_utf8(bytes) {
            Some(vstd::utf8::decode_utf8(bytes))
        } else {
            None
        },
        None => None,
    }
}

/// The action that a menu id with a variable part names.
pub open spec fn indexed_action(id: Seq<char>) -> ActionView {
    if text::has_prefix(id, "audio_dev_uid_"@) {
        match decoded_uid(text::without_prefix(id, "audio_dev_uid_"@)) {
            Some(uid) => ActionView::AudioDevice(uid),
            None => ActionView::Unknown,
        }
    } else if text::has_prefix(id, "net_if_"@) {
        match text::parsed_unsigned(text::without_prefix(id, "net_if_"@), u32::MAX as nat) {
            Some(n) => ActionView::NetInterface(n as u32),
            None => ActionView::Unknown,
        }
    } else if text::has_prefix(id, "phys_select_"@) {
        match text::parsed_signed(text::without_prefix(id, "phys_select_"@), i32::MAX as nat) {
            Some(n) => ActionView::PhysicalDisk(n as i32),
            None => ActionView::Unknown,
        }
    } else if text::has_prefix(id, "instance_"@) {
        match text::parsed_unsigned(text::without_prefix(id, "instance_"@), u32::MAX as nat) {
            Some(n) => ActionView::Instance(n as u32),
            None => ActionView::Unknown,
        }
    } else {
        ActionView::Unknown
    }
}

/// The action that a menu id names.
pub open spec fn action_of(id: Seq<char>) -> ActionView {
    if id == "install_firmware"@ {
        ActionView::InstallFirmware
    } else if id == "start"@ {
        ActionView::Start
    } else if id == "restart"@ {
        ActionView::Restart
    } else if id == "stop"@ {
        ActionView::Stop
    } else if id == "service_mode"@ {
        ActionView::ServiceMode
    } else if id == "audio"@ {
        ActionView::Audio
    } else if id == "alc"@ {
        ActionView::Alc
    } else if id == "haptic"@ {
        ActionView::Haptic
    } else if id == "jog_screen"@ {
        ActionView::JogScreen
    } else if id == "main_screen"@ {
        ActionView::MainScreen
    } else if id == "debug_screen"@ {
        ActionView::DebugScreen
    } else if id == "net_none"@ {
        ActionView::NetNone
    } else if id == "net_vmnet_host"@ {
        ActionView::NetVmnetHost
    } else if id == "create_virtual_usb"@ {
        ActionView::CreateVirtualUsb
    } else if id == "mount_virtual_usb"@ {
        ActionView::MountVirtualUsb
    } else if id == "eject_current_media"@ {
        ActionView::EjectCurrentMedia
    } else if id == "audio_dev_default"@ {
        ActionView::AudioDeviceDefault
    } else {
        indexed_action(id)
    }
}

/// Writes a device UID for a menu id.
pub fn encode_hex_uid(uid: &str) -> (r: String)
    ensures
        r@ == encoded_uid(uid@),
{
    encode_hex(uid.as_bytes())
}

/// Reads a device UID from a part of a menu id.
pub fn decode_hex_uid(s: &str) -> (r: Option<String>)
    ensures
        r is Some <==> decoded_uid(s@) is Some,
        r matches Some(uid) ==> decoded_uid(s@) == Some(uid@),
{
    match decode_hex(s.as_bytes()) {
        Some(bytes) => utf8_text(bytes),
        None => None,
    }
}

fn parse_indexed_action(id: &str) -> (r: MenuAction)
    ensures
        r@ == indexed_action(id@),
{
    if let Some(rest) = strip_prefix(id, "audio_dev_uid_") {
        match decode_hex_uid(rest) {
            Some(uid) => MenuAction::AudioDevice(uid),
            None => MenuAction::Unknown,
        }
    } else if let Some(rest) = strip_prefix(id, "net_if_") {
        match parse_u32(rest) {
            Some(n) => MenuAction::NetInterface(n),
            None => MenuAction::Unknown,
        }
    } else if let Some(rest) = strip_prefix(id, "phys_select_") {
        match parse_i32(rest) {
            Some(n) => MenuAction::PhysicalDisk(n),
            None => MenuAction::Unknown,
        }
    } else if let Some(rest) = strip_prefix(id, "instance_") {
        match parse_u32(rest) {
            Some(n) => MenuAction::Instance(n),
            None => MenuAction::Unknown,
        }
    } else {
        MenuAction::Unknown
    }
}

/// The action that a menu id names.
pub fn parse_action(id: &str) -> (r: MenuAction)
    ensures
        r@ == action_of(id@),
{
    if str_eq(id, "install_firmware") {
        MenuAction::InstallFirmware
    } else if str_eq(id, "start") {
        MenuAction::Start
    } else if str_eq(id, "restart") {
        MenuAction::Restart
    } else if str_eq(id, "stop") {
        MenuAction::Stop
    } else if str_eq(id, "service_mode") {
        MenuAction::ServiceMode
    } else if str_eq(id, "audio") {
        MenuAction::Audio
    } else if str_eq(id, "alc") {
        MenuAction::Alc
    } else if str_eq(id, "haptic") {
        MenuAction::Haptic
    } else if str_eq(id, "jog_screen") {
        MenuAction::JogScreen
    } else if str_eq(id, "main_screen") {
        MenuAction::MainScreen
    } else if str_eq(id, "debug_screen") {
        MenuAction::DebugScreen
    } else if str_eq(id, "net_none") {
        MenuAction::NetNone
    } else if str_eq(id, "net_vmnet_host") {
        MenuAction::NetVmnetHost
    } else if str_eq(id, "create_virtual_usb") {
        MenuAction::CreateVirtualUsb
    } else if str_eq(id, "mount_virtual_usb") {
        MenuAction::MountVirtualUsb
    } else if str_eq(id, "eject_current_media") {
        MenuAction::EjectCurrentMedia
    } else if str_eq(id, "audio_dev_default") {
        MenuAction::AudioDeviceDefault
    } else {
        parse_indexed_action(id)
    }
}

/// What an action leaves for the caller to do: ask for the path of a new image,
/// ask for an existing image, launch another instance.
#[derive(Clone, Copy, Debug, PartialEq, Eq, Structural)]
pub struct MenuRequest {
    pub create: bool,
    pub mount: bool,
    pub launch: Option<u32>,
}

/// The separate screens after an action.
pub open spec fn view_after(v: ViewState, action: MenuAction) -> ViewState {
    match action {
        MenuAction::JogScreen => ViewState { jog_screen_popped: !v.jog_screen_popped, ..v },
        MenuAction::MainScreen => ViewState { main_screen_popped: !v.main_screen_popped, ..v },
        MenuAction::DebugScreen => ViewState { debug_screen_popped: !v.debug_screen_popped, ..v },
        _ => v,
    }
}

/// The lifecycle after an action, the boot shade apart.
pub open spec fn lifecycle_after(l: LifecycleState, action: MenuAction) -> LifecycleState {
    match action {
        MenuAction::InstallFirmware => LifecycleState { firmware_wizard_requested: true, ..l },
        MenuAction::Start => LifecycleState { qemu_boot_requested: true, ..l },
        MenuAction::Restart => LifecycleState { restart_requested: true, ..l },
        MenuAction::Stop => LifecycleState { stop_requested: true, ..l },
        MenuAction::ServiceMode => LifecycleState {
            service_mode: !l.service_mode,
            restart_requested: true,
            ..l
        },
        _ => l,
    }
}

/// The audio settings after an action. Selecting the device that is selected
/// already is a no-op.
pub open spec fn audio_after(a: AudioState, action: MenuAction) -> AudioState {
    match action {
        MenuAction::Audio => AudioState {
            audio_enabled: !a.audio_enabled,
            audio_toggle_requested: true,
            ..a
        },
        MenuAction::Alc => AudioState {
            alc_enabled: !a.alc_enabled,
            alc_toggle_requested: true,
            ..a
        },
        MenuAction::AudioDeviceDefault => if a.audio_device_uid is Some {
            AudioState { audio_device_uid: None, audio_device_toggle_requested: true, ..a }
        } else {
            a
        },
        MenuAction::AudioDevice(uid) => if selects(a.audio_device_uid, uid@) {
            a
        } else {
            AudioState { audio_device_uid: Some(uid), audio_device_toggle_requested: true, ..a }
        },
        _ => a,
    }
}

/// The haptics after an action.
pub open spec fn haptics_after(h: HapticState, action: MenuAction) -> HapticState {
    match action {
        MenuAction::Haptic => HapticState {
            haptic_enabled: !h.haptic_enabled,
            haptic_toggle_requested: true,
        },
        _ => h,
    }
}

/// The network selection after an action.
pub open spec fn network_after(n: NetworkState, action: MenuAction) -> NetworkState {
    match action {
        MenuAction::NetNone => NetworkState { selected_interface: NET_SEL_NONE, ..n },
        MenuAction::NetVmnetHost => NetworkState { selected_interface: NET_SEL_VMNET_HOST, ..n },
        MenuAction::NetInterface(i) => NetworkState { selected_interface: i, ..n },
        _ => n,
    }
}

/// The media requests after an action. Re-selecting the mounted disk is a no-op;
/// ejecting has its own entry.
pub open spec fn usb_after(u: UsbState, action: MenuAction) -> UsbState {
    match action {
        MenuAction::EjectCurrentMedia => UsbState { usb_eject_req: true, ..u },
        MenuAction::PhysicalDisk(n) => if u.usb_phys_mounted_idx != n {
            UsbState { usb_phys_toggle_idx: n, ..u }
        } else {
            u
        },
        _ => u,
    }
}

/// The state after an action, the boot shade apart.
pub open spec fn performed(s: AppState, action: MenuAction) -> AppState {
    AppState {
        current_instance_id: s.current_instance_id,
        view: view_after(s.view, action),
        lifecycle: lifecycle_after(s.lifecycle, action),
        audio: audio_after(s.audio, action),
        haptics: haptics_after(s.haptics, action),
        network: network_after(s.network, action),
        usb: usb_after(s.usb, action),
    }
}

/// The action makes QEMU restart: a restart, or a change of service mode, of
/// audio, of the output device or of the network.
pub open spec fn requires_restart(s: AppState, action: MenuAction) -> bool {
    match action {
        MenuAction::Restart | MenuAction::ServiceMode | MenuAction::Audio => true,
        MenuAction::AudioDeviceDefault => s.audio.audio_device_uid is Some,
        MenuAction::AudioDevice(uid) => !selects(s.audio.audio_device_uid, uid@),
        MenuAction::NetNone => s.network.selected_interface != NET_SEL_NONE,
        MenuAction::NetVmnetHost => s.network.selected_interface != NET_SEL_VMNET_HOST,
        MenuAction::NetInterface(n) => s.network.selected_interface != n,
        _ => false,
    }
}

/// The state with the boot shade engaged.
pub open spec fn with_shade(s: AppState) -> AppState {
    AppState { lifecycle: LifecycleState { shade_forced: true, ..s.lifecycle }, ..s }
}

/// The state after an action. A native action that makes QEMU restart engages
/// the boot shade.
pub open spec fn after_action(s: AppState, action: MenuAction, origin: ActionOrigin) -> AppState {
    if origin == ActionOrigin::Native && requires_restart(s, action) {
        with_shade(performed(s, action))
    } else {
        performed(s, action)
    }
}

/// `selected` names the device `uid`.
pub open spec fn selects(selected: Option<String>, uid: Seq<char>) -> bool {
    selected is Some && selected->0@ == uid
}

/// What an action leaves for the caller to do.
pub open spec fn left_to_do(action: MenuAction) -> MenuRequest {
    MenuRequest {
        create: action is CreateVirtualUsb,
        mount: action is MountVirtualUsb,
        launch: match action {
            MenuAction::Instance(n) => Some(n),
            _ => None,
        },
    }
}

/// Whether `selected` names the device `uid`.
pub fn is_selected(selected: &Option<String>, uid: &str) -> (r: bool)
    ensures
        r == selects(*selected, uid@),
{
    match selected {
        Some(s) => str_eq(s.as_str(), uid),
        None => false,
    }
}

fn needs_restart(s: &AppState, action: &MenuAction) -> (r: bool)
    ensures
        r == requires_restart(*s, *action),
{
    match action {
        MenuAction::Restart | MenuAction::ServiceMode | MenuAction::Audio => true,
        MenuAction::AudioDeviceDefault => s.audio.audio_device_uid.is_some(),
        MenuAction::AudioDevice(uid) => !is_selected(&s.audio.audio_device_uid, uid.as_str()),
        MenuAction::NetNone => s.network.selected_interface != NET_SEL_NONE,
        MenuAction::NetVmnetHost => s.network.selected_interface != NET_SEL_VMNET_HOST,
        MenuAction::NetInterface(n) => s.network.selected_interface != *n,
        _ => false,
    }
}

fn perform_on_view(v: &mut ViewState, action: &MenuAction)
    ensures
        *final(v) == view_after(*old(v), *action),
{
    match action {
        MenuAction::JogScreen => {
            v.jog_screen_popped = !v.jog_screen_popped;
        },
        MenuAction::MainScreen => {
            v.main_screen_popped = !v.main_screen_popped;
        },
        MenuAction::DebugScreen => {
            v.debug_screen_popped = !v.debug_screen_popped;
        },
        _ => {},
    }
}

fn perform_on_lifecycle(l: &mut LifecycleState, action: &MenuAction)
    ensures
        *final(l) == lifecycle_after(*old(l), *action),
{
    match action {
        MenuAction::InstallFirmware => {
            l.firmware_wizard_requested = true;
        },
        MenuAction::Start => {
            l.qemu_boot_requested = true;
        },
        MenuAction::Restart => {
            l.restart_requested = true;
        },
        MenuAction::Stop => {
            l.stop_requested = true;
        },
        MenuAction::ServiceMode => {
            l.service_mode = !l.service_mode;
            l.restart_requested = true;
        },
        _ => {},
    }
}

fn perform_on_audio(a: &mut AudioState, action: &MenuAction)
    ensures
        *final(a) == audio_after(*old(a), *action),
{
    match action {
        MenuAction::Audio => {
            a.audio_enabled = !a.audio_enabled;
            a.audio_toggle_requested = true;
        },
        MenuAction::Alc => {
            a.alc_enabled = !a.alc_enabled;
            a.alc_toggle_requested = true;
        },
        MenuAction::AudioDeviceDefault => {
            if a.audio_device_uid.is_some() {
                a.audio_device_uid = None;
                a.audio_device_toggle_requested = true;
            }
        },
        MenuAction::AudioDevice(uid) => {
            if !is_selected(&a.audio_device_uid, uid.as_str()) {
                a.audio_device_uid = Some(uid.clone());
                a.audio_device_toggle_requested = true;
            }
        },
        _ => {},
    }
}

fn perform_on_haptics(h: &mut HapticState, action: &MenuAction)
    ensures
        *final(h) == haptics_after(*old(h), *action),
{
    match action {
        MenuAction::Haptic => {
            h.haptic_enabled = !h.haptic_enabled;
            h.haptic_toggle_requested = true;
        },
        _ => {},
    }
}

fn perform_on_network(n: &mut NetworkState, action: &MenuAction)
    ensures
        *final(n) == network_after(*old(n), *action),
{
    match action {
        MenuAction::NetNone => {
            n.selected_interface = NET_SEL_NONE;
        },
        MenuAction::NetVmnetHost => {
            n.selected_interface = NET_SEL_VMNET_HOST;
        },
        MenuAction::NetInterface(i) => {
            n.selected_interface = *i;
        },
        _ => {},
    }
}

fn perform_on_usb(u: &mut UsbState, action: &MenuAction)
    ensures
        *final(u) == usb_after(*old(u), *action),
{
    match action {
        MenuAction::EjectCurrentMedia => {
            u.usb_eject_req = true;
        },
        MenuAction::PhysicalDisk(n) => {
            if u.usb_phys_mounted_idx != *n {
                u.usb_phys_toggle_idx = *n;
            }
        },
        _ => {},
    }
}

fn perform(s: &mut AppState, action: &MenuAction)
    ensures
        *final(s) == performed(*old(s), *action),
{
    perform_on_view(&mut s.view, action);
    perform_on_lifecycle(&mut s.lifecycle, action);
    perform_on_audio(&mut s.audio, action);
    perform_on_haptics(&mut s.haptics, action);
    perform_on_network(&mut s.network, action);
    perform_on_usb(&mut s.usb, action);
}

fn request_of(action: &MenuAction) -> (r: MenuRequest)
    ensures
        r == left_to_do(*action),
{
    match action {
        MenuAction::CreateVirtualUsb => MenuRequest { create: true, mount: false, launch: None },
        MenuAction::MountVirtualUsb => MenuRequest { create: false, mount: true, launch: None },
        MenuAction::Instance(n) => MenuRequest { create: false, mount: false, launch: Some(*n) },
        _ => MenuRequest { create: false, mount: false, launch: None },
    }
}

/// Performs an action on the shared state.
pub fn apply_action(s: &mut AppState, action: MenuAction, origin: ActionOrigin) -> (r: MenuRequest)
    ensures
        *final(s) == after_action(*old(s), action, origin),
        r == left_to_do(action),
{
    let request = request_of(&action);
    let engage = origin == ActionOrigin::Native && needs_restart(s, &action);
    perform(s, &action);
    if engage {
        s.lifecycle.shade_forced = true;
    }
    request
}

/// Performs the action that a menu id names. An id that names none changes
/// nothing.
pub fn handle_event(s: &mut AppState, id: &str, origin: ActionOrigin) -> (r: MenuRequest)
    ensures
        exists|action: MenuAction|
            #[trigger] action@ == action_of(id@) && *final(s) == after_action(
                *old(s),
                action,
                origin,
            ) && r == left_to_do(action),
{
    let action = parse_action(id);
    let ghost performed = action;
    let request = apply_action(s, action, origin);
    assert(performed@ == action_of(id@));
    request
}

/// Takes in the path that the operator chose for a new image.
pub fn create_image_chosen(s: &mut AppState, path: String)
    ensures
        *final(s) == (AppState {
            usb: UsbState { usb_virtual_img: Some(path), usb_create_req: true, ..old(s).usb },
            ..*old(s)
        }),
{
    s.usb.usb_virtual_img = Some(path);
    s.usb.usb_create_req = true;
}

/// Takes in the image that the operator chose to mount.
pub fn mount_image_chosen(s: &mut AppState, path: String)
    ensures
        *final(s) == (AppState {
            usb: UsbState {
                usb_virtual_img: Some(path),
                usb_virtual_mount_req: true,
                ..old(s).usb
            },
            ..*old(s)
        }),
{
    s.usb.usb_virtual_img = Some(path);
    s.usb.usb_virtual_mount_req = true;
}

/// A device UID survives the way through a menu id, whatever characters it has.
pub proof fn uid_round_trip(uid: Seq<char>)
    ensures
        decoded_uid(encoded_uid(uid)) == Some(uid),
{
    text::hex_round_trip(vstd::utf8::encode_utf8(uid));
    vstd::utf8::encode_utf8_valid_utf8(uid);
    vstd::utf8::encode_utf8_decode_utf8(uid);
}

/// A text begins with what it was built from.
pub proof fn lemma_prefix(prefix: Seq<char>, rest: Seq<char>)
    ensures
        text::has_prefix(prefix + rest, prefix),
        text::without_prefix(prefix + rest, prefix) == rest,
{
    assert((prefix + rest).take(prefix.len() as int) =~= prefix);
    assert((prefix + rest).skip(prefix.len() as int) =~= rest);
}

/// Two texts that differ in a character before either ends are different, and
/// neither begins with the other.
pub proof fn lemma_differ(a: Seq<char>, b: Seq<char>, i: int)
    requires
        0 <= i < a.len(),
        i < b.len(),
        a[i] != b[i],
    ensures
        a != b,
        !text::has_prefix(a, b),
        !text::has_prefix(b, a),
{
    if text::has_prefix(a, b) {
        assert(a.take(b.len() as int)[i] == a[i]);
    }
    if text::has_prefix(b, a) {
        assert(b.take(a.len() as int)[i] == b[i]);
    }
}

/// Ids with a variable part are none of the fixed ids.
pub proof fn lemma_not_a_fixed_id(id: Seq<char>)
    requires
        id.len() >= 6,
        ({
            ||| id[0] == 'n' && id[4] == 'i'
            ||| id[0] == 'p'
            ||| id[0] == 'i' && id[5] == 'n'
            ||| id[0] == 'a' && id[1] == 'u' && id.len() >= 11 && id[10] == 'u'
        }),
    ensures
        id != "install_firmware"@,
        id != "start"@,
        id != "restart"@,
        id != "stop"@,
        id != "service_mode"@,
        id != "audio"@,
        id != "alc"@,
        id != "haptic"@,
        id != "jog_screen"@,
        id != "main_screen"@,
        id != "debug_screen"@,
        id != "net_none"@,
        id != "net_vmnet_host"@,
        id != "create_virtual_usb"@,
        id != "mount_virtual_usb"@,
        id != "eject_current_media"@,
        id != "audio_dev_default"@,
{
    reveal_strlit("install_firmware");
    reveal_strlit("start");
    reveal_strlit("restart");
    reveal_strlit("stop");
    reveal_strlit("service_mode");
    reveal_strlit("audio");
    reveal_strlit("alc");
    reveal_strlit("haptic");
    reveal_strlit("jog_screen");
    reveal_strlit("main_screen");
    reveal_strlit("debug_screen");
    reveal_strlit("net_none");
    reveal_strlit("net_vmnet_host");
    reveal_strlit("create_virtual_usb");
    reveal_strlit("mount_virtual_usb");
    reveal_strlit("eject_current_media");
    reveal_strlit("audio_dev_default");
}

/// The id of the menu entry of interface number `n` selects that interface.
pub proof fn interface_entry_selects_it(n: u32)
    ensures
        action_of("net_if_"@ + text::decimal(n as nat)) == ActionView::NetInterface(n),
{
    let id = "net_if_"@ + text::decimal(n as nat);
    lemma_prefix("net_if_"@, text::decimal(n as nat));
    text::decimal_round_trip(n as nat, u32::MAX as nat);
    reveal_strlit("net_if_");
    reveal_strlit("audio_dev_uid_");
    assert(id[0] == 'n' && id[4] == 'i');
    lemma_not_a_fixed_id(id);
    lemma_differ(id, "audio_dev_uid_"@, 0);
}

/// The id of the menu entry of disk number `n` selects that disk.
pub proof fn disk_entry_selects_it(n: i32)
    requires
        0 <= n,
    ensures
        action_of("phys_select_"@ + text::decimal(n as nat)) == ActionView::PhysicalDisk(n),
{
    let id = "phys_select_"@ + text::decimal(n as nat);
    lemma_prefix("phys_select_"@, text::decimal(n as nat));
    text::decimal_round_trip(n as nat, i32::MAX as nat);
    reveal_strlit("phys_select_");
    reveal_strlit("audio_dev_uid_");
    reveal_strlit("net_if_");
    assert(id[0] == 'p');
    lemma_not_a_fixed_id(id);
    lemma_differ(id, "audio_dev_uid_"@, 0);
    lemma_differ(id, "net_if_"@, 0);
}

/// The id of the menu entry of instance number `n` launches that instance.
pub proof fn instance_entry_launches_it(n: u32)
    ensures
        action_of("instance_"@ + text::decimal(n as nat)) == ActionView::Instance(n),
{
    let id = "instance_"@ + text::decimal(n as nat);
    lemma_prefix("instance_"@, text::decimal(n as nat));
    text::decimal_round_trip(n as nat, u32::MAX as nat);
    reveal_strlit("instance_");
    reveal_strlit("audio_dev_uid_");
    reveal_strlit("net_if_");
    reveal_strlit("phys_select_");
    assert(id[0] == 'i' && id[5] == 'n');
    lemma_not_a_fixed_id(id);
    lemma_differ(id, "audio_dev_uid_"@, 0);
    lemma_differ(id, "net_if_"@, 0);
    lemma_differ(id, "phys_select_"@, 0);
}

/// The id of the menu entry of an output device selects that device.
pub proof fn device_entry_selects_it(uid: Seq<char>)
    ensures
        action_of("audio_dev_uid_"@ + encoded_uid(uid)) == ActionView::AudioDevice(uid),
{
    let id = "audio_dev_uid_"@ + encoded_uid(uid);
    lemma_prefix("audio_dev_uid_"@, encoded_uid(uid));
    uid_round_trip(uid);
    reveal_strlit("audio_dev_uid_");
    assert(id[0] == 'a' && id[1] == 'u' && id[10] == 'u');
    lemma_not_a_fixed_id(id);
}

/// No action by itself touches the boot shade.
proof fn lemma_performed_keeps_the_shade(s: AppState, action: MenuAction)
    ensures
        performed(s, action).lifecycle.shade_forced == s.lifecycle.shade_forced,
{
}

/// An action from the Linux operator bar never touches the boot shade.
pub proof fn linux_actions_are_shade_neutral(s: AppState, action: MenuAction)
    ensures
        after_action(s, action, ActionOrigin::Linux).lifecycle.shade_forced == s.lifecycle.shade_forced,
{
    lemma_performed_keeps_the_shade(s, action);
}

/// A native action engages the boot shade exactly when it makes QEMU restart. It
/// never releases the shade.
pub proof fn native_restarts_engage_the_shade(s: AppState, action: MenuAction)
    ensures
        after_action(s, action, ActionOrigin::Native).lifecycle.shade_forced <==> s.lifecycle.shade_forced
            || requires_restart(s, action),
{
    lemma_performed_keeps_the_shade(s, action);
}

/// The jog-screen toggle changes nothing else, and undoes itself.
pub proof fn jog_screen_toggle_is_independent(s: AppState, origin: ActionOrigin)
    ensures
        after_action(s, MenuAction::JogScreen, origin) == (AppState {
            view: ViewState { jog_screen_popped: !s.view.jog_screen_popped, ..s.view },
            ..s
        }),
        after_action(
            after_action(s, MenuAction::JogScreen, origin),
            MenuAction::JogScreen,
            origin,
        ) == s,
{
}

/// The main-screen toggle changes nothing else, and undoes itself.
pub proof fn main_screen_toggle_is_independent(s: AppState, origin: ActionOrigin)
    ensures
        after_action(s, MenuAction::MainScreen, origin) == (AppState {
            view: ViewState { main_screen_popped: !s.view.main_screen_popped, ..s.view },
            ..s
        }),
        after_action(
            after_action(s, MenuAction::MainScreen, origin),
            MenuAction::MainScreen,
            origin,
        ) == s,
{
}

/// The debug-panel toggle changes nothing else, and undoes itself.
pub proof fn debug_screen_toggle_is_independent(s: AppState, origin: ActionOrigin)
    ensures
        after_action(s, MenuAction::DebugScreen, origin) == (AppState {
            view: ViewState { debug_screen_popped: !s.view.debug_screen_popped, ..s.view },
            ..s
        }),
        after_action(
            after_action(s, MenuAction::DebugScreen, origin),
            MenuAction::DebugScreen,
            origin,
        ) == s,
{
}

/// An id that names no action changes nothing.
pub proof fn unknown_actions_change_nothing(s: AppState, action: MenuAction, origin: ActionOrigin)
    requires
        action is Unknown,
    ensures
        after_action(s, action, origin) == s,
        left_to_do(action) == (MenuRequest { create: false, mount: false, launch: None }),
{
}

/// Each entry without a variable part has an id of its own, and that id alone names its
/// action.
pub proof fn fixed_ids_name_their_actions(id: Seq<char>)
    ensures
        action_of(id) is InstallFirmware <==> id == "install_firmware"@,
        action_of(id) is Start <==> id == "start"@,
        action_of(id) is Restart <==> id == "restart"@,
        action_of(id) is Stop <==> id == "stop"@,
        action_of(id) is ServiceMode <==> id == "service_mode"@,
        action_of(id) is Audio <==> id == "audio"@,
        action_of(id) is Alc <==> id == "alc"@,
        action_of(id) is Haptic <==> id == "haptic"@,
        action_of(id) is JogScreen <==> id == "jog_screen"@,
        action_of(id) is MainScreen <==> id == "main_screen"@,
        action_of(id) is DebugScreen <==> id == "debug_screen"@,
        action_of(id) is NetNone <==> id == "net_none"@,
        action_of(id) is NetVmnetHost <==> id == "net_vmnet_host"@,
        action_of(id) is CreateVirtualUsb <==> id == "create_virtual_usb"@,
        action_of(id) is MountVirtualUsb <==> id == "mount_virtual_usb"@,
        action_of(id) is EjectCurrentMedia <==> id == "eject_current_media"@,
        action_of(id) is AudioDeviceDefault <==> id == "audio_dev_default"@,
{
    reveal_strlit("install_firmware");
    reveal_strlit("start");
    reveal_strlit("restart");
    reveal_strlit("stop");
    reveal_strlit("service_mode");
    reveal_strlit("audio");
    reveal_strlit("alc");
    reveal_strlit("haptic");
    reveal_strlit("jog_screen");
    reveal_strlit("main_screen");
    reveal_strlit("debug_screen");
    reveal_strlit("net_none");
    reveal_strlit("net_vmnet_host");
    reveal_strlit("create_virtual_usb");
    reveal_strlit("mount_virtual_usb");
    reveal_strlit("eject_current_media");
    reveal_strlit("audio_dev_default");
    lemma_differ("audio"@, "start"@, 0);
    lemma_differ("debug_screen"@, "service_mode"@, 0);
    lemma_differ("audio_dev_default"@, "mount_virtual_usb"@, 0);
}

/// The screens and the switches change with their own action only, and doing it again changes
/// them back.
pub proof fn switches_follow_their_actions(s: AppState, action: MenuAction, origin: ActionOrigin)
    ensures
        ({
            let r = after_action(s, action, origin);
            let again = after_action(r, action, origin);
            &&& r.view.jog_screen_popped != s.view.jog_screen_popped <==> action is JogScreen
            &&& r.view.main_screen_popped != s.view.main_screen_popped <==> action is MainScreen
            &&& r.view.debug_screen_popped != s.view.debug_screen_popped <==> action is DebugScreen
            &&& r.lifecycle.service_mode != s.lifecycle.service_mode <==> action is ServiceMode
            &&& r.audio.audio_enabled != s.audio.audio_enabled <==> action is Audio
            &&& r.audio.alc_enabled != s.audio.alc_enabled <==> action is Alc
            &&& r.haptics.haptic_enabled != s.haptics.haptic_enabled <==> action is Haptic
            &&& again.view.jog_screen_popped == s.view.jog_screen_popped
            &&& again.view.main_screen_popped == s.view.main_screen_popped
            &&& again.view.debug_screen_popped == s.view.debug_screen_popped
            &&& again.lifecycle.service_mode == s.lifecycle.service_mode
            &&& again.audio.audio_enabled == s.audio.audio_enabled
            &&& again.audio.alc_enabled == s.audio.alc_enabled
            &&& again.haptics.haptic_enabled == s.haptics.haptic_enabled
        }),
{
    let r = after_action(s, action, origin);
    lemma_after_action(s, action, origin);
    lemma_after_action(r, action, origin);
    lemma_screens_flip_back(s.view, action);
    lemma_switches_flip_back(s, action);
}

proof fn lemma_screens_flip_back(v: ViewState, action: MenuAction)
    ensures
        ({
            let r = view_after(v, action);
            &&& r.jog_screen_popped != v.jog_screen_popped <==> action is JogScreen
            &&& r.main_screen_popped != v.main_screen_popped <==> action is MainScreen
            &&& r.debug_screen_popped != v.debug_screen_popped <==> action is DebugScreen
            &&& view_after(r, action) == v
        }),
{
}

proof fn lemma_switches_flip_back(s: AppState, action: MenuAction)
    ensures
        forall|l: LifecycleState|
            #[trigger] lifecycle_after(l, action).service_mode == if action is ServiceMode {
                !l.service_mode
            } else {
                l.service_mode
            },
        forall|a: AudioState| #[trigger] audio_after(a, action).audio_enabled == if action is Audio {
            !a.audio_enabled
        } else {
            a.audio_enabled
        },
        forall|a: AudioState| #[trigger] audio_after(a, action).alc_enabled == if action is Alc {
            !a.alc_enabled
        } else {
            a.alc_enabled
        },
        forall|h: HapticState|
            #[trigger] haptics_after(h, action).haptic_enabled == if action is Haptic {
                !h.haptic_enabled
            } else {
                h.haptic_enabled
            },
{
}

/// The shade apart, an action does what it does whatever its origin.
proof fn lemma_after_action(s: AppState, action: MenuAction, origin: ActionOrigin)
    ensures
        ({
            let r = after_action(s, action, origin);
            let p = performed(s, action);
            &&& r.current_instance_id == s.current_instance_id
            &&& r.view == p.view
            &&& r.audio == p.audio
            &&& r.haptics == p.haptics
            &&& r.network == p.network
            &&& r.usb == p.usb
            &&& r.lifecycle == (LifecycleState {
                shade_forced: r.lifecycle.shade_forced,
                ..p.lifecycle
            })
        }),
{
}

/// A request that is pending stays pending; an action adds the requests that are its own. A
/// changed switch is a request for the worker to take it over.
pub proof fn requests_are_added_by_their_actions(
    s: AppState,
    action: MenuAction,
    origin: ActionOrigin,
)
    ensures
        ({
            let r = after_action(s, action, origin);
            let (l, m) = (s.lifecycle, r.lifecycle);
            &&& m.firmware_wizard_requested == (l.firmware_wizard_requested
                || action is InstallFirmware)
            &&& m.qemu_boot_requested == (l.qemu_boot_requested || action is Start)
            &&& m.restart_requested == (l.restart_requested || action is Restart
                || action is ServiceMode)
            &&& m.stop_requested == (l.stop_requested || action is Stop)
            &&& r.audio.audio_toggle_requested == (s.audio.audio_toggle_requested
                || r.audio.audio_enabled != s.audio.audio_enabled)
            &&& r.audio.alc_toggle_requested == (s.audio.alc_toggle_requested
                || r.audio.alc_enabled != s.audio.alc_enabled)
            &&& r.haptics.haptic_toggle_requested == (s.haptics.haptic_toggle_requested
                || r.haptics.haptic_enabled != s.haptics.haptic_enabled)
            &&& r.audio.audio_device_toggle_requested == (s.audio.audio_device_toggle_requested
                || text::maybe(r.audio.audio_device_uid) != text::maybe(s.audio.audio_device_uid))
            &&& r.usb.usb_eject_req == (s.usb.usb_eject_req || action is EjectCurrentMedia)
            &&& left_to_do(action).create <==> action is CreateVirtualUsb
            &&& left_to_do(action).mount <==> action is MountVirtualUsb
            &&& forall|n: u32|
                left_to_do(action).launch == Some(n) <==> action == MenuAction::Instance(n)
        }),
{
    lemma_after_action(s, action, origin);
}

/// A choice takes effect: the output device, the network and the disk to mount are the ones
/// that were picked, and they change by being picked only. A disk that is mounted already is
/// not asked for again.
pub proof fn choices_take_effect(s: AppState, action: MenuAction, origin: ActionOrigin)
    ensures
        ({
            let r = after_action(s, action, origin);
            &&& action is AudioDeviceDefault ==> r.audio.audio_device_uid is None
            &&& action matches MenuAction::AudioDevice(uid) ==> text::maybe(
                r.audio.audio_device_uid,
            ) == Some(uid@)
            &&& !(action is AudioDeviceDefault) && !(action is AudioDevice)
                ==> r.audio.audio_device_uid == s.audio.audio_device_uid
            &&& action is NetNone ==> r.network.selected_interface == 0xffff_ffff
            &&& action is NetVmnetHost ==> r.network.selected_interface == 0xffff_fffe
            &&& action matches MenuAction::NetInterface(n) ==> r.network.selected_interface == n
            &&& !(action is NetNone) && !(action is NetVmnetHost) && !(action is NetInterface)
                ==> r.network.selected_interface == s.network.selected_interface
            &&& action matches MenuAction::PhysicalDisk(n) ==> s.usb.usb_phys_mounted_idx != n
                ==> r.usb.usb_phys_toggle_idx == n
            &&& action matches MenuAction::PhysicalDisk(n) ==> s.usb.usb_phys_mounted_idx == n
                ==> r == s
            &&& !(action is PhysicalDisk) ==> r.usb.usb_phys_toggle_idx
                == s.usb.usb_phys_toggle_idx
        }),
{
    lemma_after_action(s, action, origin);
}

/// The lists, what is mounted, what QEMU does and the messages are none of the menu's: no
/// action changes them.
pub proof fn actions_leave_the_workers_part_alone(
    s: AppState,
    action: MenuAction,
    origin: ActionOrigin,
)
    ensures
        ({
            let r = after_action(s, action, origin);
            &&& r.current_instance_id == s.current_instance_id
            &&& r.lifecycle.qemu_running == s.lifecycle.qemu_running
            &&& r.lifecycle.application_started == s.lifecycle.application_started
            &&& r.lifecycle.power_off_stimuli_requested == s.lifecycle.power_off_stimuli_requested
            &&& r.audio.audio_devices == s.audio.audio_devices
            &&& r.audio.audio_device_list_version == s.audio.audio_device_list_version
            &&& r.audio.latency_packed == s.audio.latency_packed
            &&& r.network.net_ifaces == s.network.net_ifaces
            &&& r.network.net_list_version == s.network.net_list_version
            &&& r.network.net_error_message == s.network.net_error_message
            &&& r.usb.usb_virtual_img == s.usb.usb_virtual_img
            &&& r.usb.usb_virtual_mounted == s.usb.usb_virtual_mounted
            &&& r.usb.usb_virtual_mount_req == s.usb.usb_virtual_mount_req
            &&& r.usb.usb_create_req == s.usb.usb_create_req
            &&& r.usb.usb_phys_disks == s.usb.usb_phys_disks
            &&& r.usb.usb_phys_mounted_idx == s.usb.usb_phys_mounted_idx
            &&& r.usb.usb_phys_list_version == s.usb.usb_phys_list_version
            &&& r.usb.usb_phys_perm_denied == s.usb.usb_phys_perm_denied
            &&& r.usb.usb_phys_retry_req == s.usb.usb_phys_retry_req
        }),
{
    lemma_after_action(s, action, origin);
}

/// A native action engages the boot shade where QEMU has to start anew for it: on a restart,
/// and where the service mode, the audio, the output device or the network is not what it was.
/// No other action does, and no action releases the shade.
pub proof fn the_shade_covers_what_needs_a_new_start(
    s: AppState,
    action: MenuAction,
    origin: ActionOrigin,
)
    ensures
        ({
            let r = after_action(s, action, origin);
            r.lifecycle.shade_forced == (s.lifecycle.shade_forced || (origin is Native && (
            action is Restart || r.lifecycle.service_mode != s.lifecycle.service_mode
                || r.audio.audio_enabled != s.audio.audio_enabled || text::maybe(
                r.audio.audio_device_uid,
            ) != text::maybe(s.audio.audio_device_uid) || r.network.selected_interface
                != s.network.selected_interface)))
        }),
{
    lemma_after_action(s, action, origin);
}

} // verus!
