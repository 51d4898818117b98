//! The operator bar in the window on Linux: its menus, and the status that it shows.

use vstd::prelude::*;

use crate::menu;
use crate::menu::{encode_hex_uid, is_selected};
use crate::menu_state;
use crate::menu_state::{unpack_latency, AppState, AudioOutDevice};
use crate::text;
use crate::text::{cat2, cat3, decimal_text, push_text};

verus! {

/// One entry of a menu. The id is the action that it triggers.
#[allow(inconsistent_fields)]
#[derive(Clone, Debug)]
pub enum BarEntry {
    /// Closes the menu when it is picked.
    Button { id: String, label: String, enabled: bool },
    Toggle { id: String, label: String, checked: bool },
    Choice { id: String, label: String, selected: bool },
    Separator,
    Caption { label: String },
}

/// What a [`BarEntry`] holds.
#[allow(inconsistent_fields)]
pub enum BarEntryView {
    Button { id: Seq<char>, label: Seq<char>, enabled: bool },
    Toggle { id: Seq<char>, label: Seq<char>, checked: bool },
    Choice { id: Seq<char>, label: Seq<char>, selected: bool },
    Separator,
    Caption { label: Seq<char> },
}

impl View for BarEntry {
    type V = BarEntryView;

    open spec fn view(&self) -> BarEntryView {
        match *self {
            BarEntry::Button { id, label, enabled } => BarEntryView::Button {
                id: id@,
                label: label@,
                enabled,
            },
            BarEntry::Toggle { id, label, checked } => BarEntryView::Toggle {
                id: id@,
                label: label@,
                checked,
            },
            BarEntry::Choice { id, label, selected } => BarEntryView::Choice {
                id: id@,
                label: label@,
                selected,
            },
            BarEntry::Separator => BarEntryView::Separator,
            BarEntry::Caption { label } => BarEntryView::Caption { label: label@ },
        }
    }
}

/// The contents of a list of entries.
pub open spec fn bar_views(list: Seq<BarEntry>) -> Seq<BarEntryView> {
    list.map_values(|e: BarEntry| e@)
}

/// The bar: its four menus, and the texts behind them.
#[derive(Clone, Debug)]
pub struct OperatorBar {
    pub emulation: Vec<BarEntry>,
    pub storage: Vec<BarEntry>,
    pub audio: Vec<BarEntry>,
    pub view: Vec<BarEntry>,
    pub status: Vec<String>,
}

/// The entries of the menu "Emulation".
pub open spec fn emulation_entries(s: AppState) -> Seq<BarEntryView> {
    let running = s.lifecycle.qemu_running;
    seq![
        BarEntryView::Button {
            id: "install_firmware"@,
            label: "Install Firmware…"@,
            enabled: true,
        },
        BarEntryView::Button { id: "start"@, label: "Start Emulation"@, enabled: !running },
        BarEntryView::Button { id: "restart"@, label: "Restart Emulation"@, enabled: running },
        BarEntryView::Button { id: "stop"@, label: "Stop Emulation"@, enabled: running },
        BarEntryView::Toggle {
            id: "service_mode"@,
            label: "Service Mode"@,
            checked: s.lifecycle.service_mode,
        },
    ]
}

/// The entries of the menu "Storage".
pub open spec fn storage_entries(s: AppState, virtual_media: bool) -> Seq<BarEntryView> {
    seq![
        BarEntryView::Button {
            id: "mount_virtual_usb"@,
            label: "Mount Image…"@,
            enabled: virtual_media,
        },
        BarEntryView::Button {
            id: "create_virtual_usb"@,
            label: "Create Image…"@,
            enabled: virtual_media,
        },
        BarEntryView::Button {
            id: "eject_current_media"@,
            label: "Eject Current Media"@,
            enabled: s.usb.usb_virtual_mounted,
        },
    ]
}

/// The entry of an output device.
pub open spec fn device_choice(selected: Option<String>, device: AudioOutDevice) -> BarEntryView {
    BarEntryView::Choice {
        id: "audio_dev_uid_"@ + menu::encoded_uid(device.uid@),
        label: device.name@,
        selected: menu::selects(selected, device.uid@),
    }
}

/// The entries of the menu "Audio" above the devices.
pub open spec fn audio_switches(s: AppState) -> Seq<BarEntryView> {
    seq![
        BarEntryView::Toggle {
            id: "audio"@,
            label: "Enable Audio"@,
            checked: s.audio.audio_enabled,
        },
        BarEntryView::Toggle { id: "alc"@, label: "Enable ALC"@, checked: s.audio.alc_enabled },
        BarEntryView::Separator,
        BarEntryView::Caption { label: "Output Device"@ },
        BarEntryView::Choice {
            id: "audio_dev_default"@,
            label: "System Default"@,
            selected: s.audio.audio_device_uid is None,
        },
    ]
}

/// The entries of the menu "Audio".
pub open spec fn audio_entries(s: AppState) -> Seq<BarEntryView> {
    audio_switches(s) + s.audio.audio_devices@.map_values(
        |d: AudioOutDevice| device_choice(s.audio.audio_device_uid, d),
    )
}

/// The entries of the menu "View".
pub open spec fn view_entries(s: AppState) -> Seq<BarEntryView> {
    seq![
        BarEntryView::Toggle {
            id: "jog_screen"@,
            label: "External Jog Screen"@,
            checked: s.view.jog_screen_popped,
        },
        BarEntryView::Toggle {
            id: "main_screen"@,
            label: "External Main Screen"@,
            checked: s.view.main_screen_popped,
        },
        BarEntryView::Toggle {
            id: "debug_screen"@,
            label: "Debug Panel"@,
            checked: s.view.debug_screen_popped,
        },
    ]
}

/// The latency as the bar shows it.
pub open spec fn shown_latency(total: u32, guest: u32, host: u32) -> Seq<char> {
    "Latency "@ + text::decimal(total as nat) + " ms ("@ + text::decimal(guest as nat) + "+"@
        + text::decimal(host as nat) + ")"@
}

/// The texts behind the menus.
pub open spec fn status_texts(s: AppState) -> Seq<Seq<char>> {
    seq![
        if s.lifecycle.qemu_running {
            "QEMU: running"@
        } else {
            "QEMU: stopped"@
        },
        if s.lifecycle.application_started {
            "App: started"@
        } else {
            "App: booting"@
        },
    ] + (match menu_state::unpacked_latency(s.audio.latency_packed) {
        Some((total, guest, host)) => seq![shown_latency(total, guest, host)],
        None => Seq::empty(),
    })
}

fn add(list: &mut Vec<BarEntry>, entry: BarEntry)
    ensures
        bar_views(final(list)@) == bar_views(old(list)@).push(entry@),
{
    list.push(entry);
    assert(bar_views(list@) =~= bar_views(old(list)@).push(entry@));
}

fn add_button(list: &mut Vec<BarEntry>, id: &str, label: &str, enabled: bool)
    ensures
        bar_views(final(list)@) == bar_views(old(list)@).push(
            BarEntryView::Button { id: id@, label: label@, enabled },
        ),
{
    self::add(list, BarEntry::Button { id: id.to_owned(), label: label.to_owned(), enabled });
}

fn add_toggle(list: &mut Vec<BarEntry>, id: &str, label: &str, checked: bool)
    ensures
        bar_views(final(list)@) == bar_views(old(list)@).push(
            BarEntryView::Toggle { id: id@, label: label@, checked },
        ),
{
    self::add(list, BarEntry::Toggle { id: id.to_owned(), label: label.to_owned(), checked });
}

fn add_choice(list: &mut Vec<BarEntry>, id: &str, label: &str, selected: bool)
    ensures
        bar_views(final(list)@) == bar_views(old(list)@).push(
            BarEntryView::Choice { id: id@, label: label@, selected },
        ),
{
    self::add(list, BarEntry::Choice { id: id.to_owned(), label: label.to_owned(), selected });
}

fn build_emulation(s: &AppState) -> (r: Vec<BarEntry>)
    ensures
        bar_views(r@) == emulation_entries(*s),
{
    let running = s.lifecycle.qemu_running;
    let mut list: Vec<BarEntry> = Vec::new();
    add_button(&mut list, "install_firmware", "Install Firmware…", true);
    add_button(&mut list, "start", "Start Emulation", !running);
    add_button(&mut list, "restart", "Restart Emulation", running);
    add_button(&mut list, "stop", "Stop Emulation", running);
    add_toggle(&mut list, "service_mode", "Service Mode", s.lifecycle.service_mode);
    assert(bar_views(list@) =~= emulation_entries(*s));
    list
}

fn build_storage(s: &AppState, virtual_media: bool) -> (r: Vec<BarEntry>)
    ensures
        bar_views(r@) == storage_entries(*s, virtual_media),
{
    let mut list: Vec<BarEntry> = Vec::new();
    add_button(&mut list, "mount_virtual_usb", "Mount Image…", virtual_media);
    add_button(&mut list, "create_virtual_usb", "Create Image…", virtual_media);
    add_button(
        &mut list,
        "eject_current_media",
        "Eject Current Media",
        s.usb.usb_virtual_mounted,
    );
    assert(bar_views(list@) =~= storage_entries(*s, virtual_media));
    list
}

fn build_audio(s: &AppState) -> (r: Vec<BarEntry>)
    ensures
        bar_views(r@) == audio_entries(*s),
{
    let selected = &s.audio.audio_device_uid;
    let devices = &s.audio.audio_devices;
    let mut list: Vec<BarEntry> = Vec::new();
    add_toggle(&mut list, "audio", "Enable Audio", s.audio.audio_enabled);
    add_toggle(&mut list, "alc", "Enable ALC", s.audio.alc_enabled);
    self::add(&mut list, BarEntry::Separator);
    self::add(&mut list, BarEntry::Caption { label: "Output Device".to_owned() });
    add_choice(&mut list, "audio_dev_default", "System Default", selected.is_none());
    let ghost front = audio_switches(*s);
    let ghost all = devices@.map_values(|d: AudioOutDevice| device_choice(*selected, d));
    assert(bar_views(list@) =~= front + all.take(0));
    let len: usize = devices.len();
    let mut i: usize = 0;
    while i < len
        invariant
            i <= len == devices@.len(),
            all == devices@.map_values(|d: AudioOutDevice| device_choice(*selected, d)),
            bar_views(list@) == front + all.take(i as int),
        decreases len - i,
    {
        let device = &devices[i];
        let id = cat2("audio_dev_uid_", encode_hex_uid(device.uid.as_str()).as_str());
        add_choice(
            &mut list,
            id.as_str(),
            device.name.as_str(),
            is_selected(selected, device.uid.as_str()),
        );
        assert(all.take(i + 1) =~= all.take(i as int).push(device_choice(*selected, *device)));
        assert(bar_views(list@) =~= front + all.take(i + 1));
        i += 1;
    }
    assert(all.take(len as int) =~= all);
    list
}

fn build_view(s: &AppState) -> (r: Vec<BarEntry>)
    ensures
        bar_views(r@) == view_entries(*s),
{
    let mut list: Vec<BarEntry> = Vec::new();
    add_toggle(&mut list, "jog_screen", "External Jog Screen", s.view.jog_screen_popped);
    add_toggle(&mut list, "main_screen", "External Main Screen", s.view.main_screen_popped);
    add_toggle(&mut list, "debug_screen", "Debug Panel", s.view.debug_screen_popped);
    assert(bar_views(list@) =~= view_entries(*s));
    list
}

fn latency_text(total: u32, guest: u32, host: u32) -> (r: String)
    ensures
        r@ == shown_latency(total, guest, host),
{
    let a = cat3("Latency ", decimal_text(total as u128).as_str(), " ms (");
    let b = cat3(a.as_str(), decimal_text(guest as u128).as_str(), "+");
    cat3(b.as_str(), decimal_text(host as u128).as_str(), ")")
}

fn build_status(s: &AppState) -> (r: Vec<String>)
    ensures
        text::texts(r@) == status_texts(*s),
{
    let mut list: Vec<String> = Vec::new();
    if s.lifecycle.qemu_running {
        push_text(&mut list, "QEMU: running");
    } else {
        push_text(&mut list, "QEMU: stopped");
    }
    if s.lifecycle.application_started {
        push_text(&mut list, "App: started");
    } else {
        push_text(&mut list, "App: booting");
    }
    if let Some((total, guest, host)) = unpack_latency(s.audio.latency_packed) {
        push_text(&mut list, latency_text(total, guest, host).as_str());
    }
    assert(text::texts(list@) =~= status_texts(*s));
    list
}

/// The operator bar for a state. `virtual_media` says whether this launch has a slot for
/// virtual media.
pub fn operator_bar(s: &AppState, virtual_media: bool) -> (r: OperatorBar)
    ensures
        bar_views(r.emulation@) == emulation_entries(*s),
        bar_views(r.storage@) == storage_entries(*s, virtual_media),
        bar_views(r.audio@) == audio_entries(*s),
        bar_views(r.view@) == view_entries(*s),
        text::texts(r.status@) == status_texts(*s),
{
    OperatorBar {
        emulation: build_emulation(s),
        storage: build_storage(s, virtual_media),
        audio: build_audio(s),
        view: build_view(s),
        status: build_status(s),
    }
}

/// The action that an entry triggers.
pub open spec fn entry_id(e: BarEntryView) -> Option<Seq<char>> {
    match e {
        BarEntryView::Button { id, .. } => Some(id),
        BarEntryView::Toggle { id, .. } => Some(id),
        BarEntryView::Choice { id, .. } => Some(id),
        _ => None,
    }
}

/// Every entry that has an id names an action.
pub open spec fn all_act(list: Seq<BarEntryView>) -> bool {
    forall|i: int|
        0 <= i < list.len() && entry_id(#[trigger] list[i]) is Some ==> !(menu::action_of(
            entry_id(list[i])->0,
        ) is Unknown)
}

/// Every entry of the bar that has an id names an action.
pub proof fn operator_entries_act(s: AppState, virtual_media: bool)
    ensures
        all_act(emulation_entries(s)),
        all_act(storage_entries(s, virtual_media)),
        all_act(audio_entries(s)),
        all_act(view_entries(s)),
{
    let list = audio_entries(s);
    assert forall|i: int|
        0 <= i < list.len() && entry_id(#[trigger] list[i]) is Some implies !(menu::action_of(
        entry_id(list[i])->0,
    ) is Unknown) by {
        if i >= 5 {
            let device = s.audio.audio_devices@[i - 5];
            assert(list[i] == device_choice(s.audio.audio_device_uid, device));
            menu::device_entry_selects_it(device.uid@);
        }
    }
}

/// At most one output device is shown as selected where their ids differ, and the system's
/// default is selected if and only if none is chosen.
pub proof fn device_choices_are_exclusive(s: AppState, i: int, j: int)
    requires
        0 <= i < s.audio.audio_devices@.len(),
        0 <= j < s.audio.audio_devices@.len(),
        s.audio.audio_devices@[i].uid@ != s.audio.audio_devices@[j].uid@,
    ensures
        !(audio_entries(s)[i + 5]->selected && audio_entries(s)[j + 5]->selected),
        audio_entries(s)[4]->selected ==> !audio_entries(s)[i + 5]->selected,
{
    let uid = s.audio.audio_device_uid;
    assert(audio_entries(s)[i + 5] == device_choice(uid, s.audio.audio_devices@[i]));
    assert(audio_entries(s)[j + 5] == device_choice(uid, s.audio.audio_devices@[j]));
    assert(audio_entries(s)[4] == audio_switches(s)[4]);
}

/// The buttons fit what goes on: QEMU can be started while it does not run, and restarted and
/// stopped while it does; a medium can be ejected while an image is mounted, and images can be
/// mounted and made where there is a slot for them. Each has its own action.
pub proof fn buttons_fit_what_goes_on(s: AppState, virtual_media: bool)
    ensures
        ({
            let emulation = emulation_entries(s);
            let storage = storage_entries(s, virtual_media);
            &&& emulation.len() == 5 && storage.len() == 3
            &&& emulation[0] matches BarEntryView::Button { id, label, enabled } && enabled && label
                == "Install Firmware…"@ && menu::action_of(id) is InstallFirmware
            &&& emulation[1] matches BarEntryView::Button { id, label, enabled } && enabled
                == !s.lifecycle.qemu_running && label == "Start Emulation"@ && menu::action_of(
                id,
            ) is Start
            &&& emulation[2] matches BarEntryView::Button { id, label, enabled } && enabled
                == s.lifecycle.qemu_running && label == "Restart Emulation"@ && menu::action_of(
                id,
            ) is Restart
            &&& emulation[3] matches BarEntryView::Button { id, label, enabled } && enabled
                == s.lifecycle.qemu_running && label == "Stop Emulation"@ && menu::action_of(
                id,
            ) is Stop
            &&& storage[0] matches BarEntryView::Button { id, label, enabled } && enabled
                == virtual_media && label == "Mount Image…"@ && menu::action_of(
                id,
            ) is MountVirtualUsb
            &&& storage[1] matches BarEntryView::Button { id, label, enabled } && enabled
                == virtual_media && label == "Create Image…"@ && menu::action_of(
                id,
            ) is CreateVirtualUsb
            &&& storage[2] matches BarEntryView::Button { id, label, enabled } && enabled
                == s.usb.usb_virtual_mounted && label == "Eject Current Media"@
                && menu::action_of(id) is EjectCurrentMedia
        }),
{
    menu::fixed_ids_name_their_actions("install_firmware"@);
    menu::fixed_ids_name_their_actions("start"@);
    menu::fixed_ids_name_their_actions("restart"@);
    menu::fixed_ids_name_their_actions("stop"@);
    menu::fixed_ids_name_their_actions("mount_virtual_usb"@);
    menu::fixed_ids_name_their_actions("create_virtual_usb"@);
    menu::fixed_ids_name_their_actions("eject_current_media"@);
}

/// A toggle with this label: the mark of `before` shows `switch`, and it is another one in
/// `after` exactly where the action is the one that the toggle names.
pub open spec fn is_flipped_by(
    before: BarEntryView,
    after: BarEntryView,
    label: Seq<char>,
    switch: bool,
    action: menu::ActionView,
) -> bool {
    match (before, after) {
        (
            BarEntryView::Toggle { id, label: l, checked },
            BarEntryView::Toggle { id: i, label: m, checked: c },
        ) => {
            &&& l == label && m == label && i == id
            &&& checked == switch
            &&& checked != c <==> action == menu::action_of(id)
        },
        _ => false,
    }
}

/// A toggle shows the switch that its own action flips: where the action that its id names is
/// performed, its mark changes, and under every other action it stays.
pub proof fn toggles_show_what_they_flip(s: AppState, action: menu::MenuAction)
    ensures
        ({
            let r = menu::after_action(s, action, menu::ActionOrigin::Linux);
            &&& is_flipped_by(
                emulation_entries(s)[4],
                emulation_entries(r)[4],
                "Service Mode"@,
                s.lifecycle.service_mode,
                action@,
            )
            &&& is_flipped_by(
                audio_entries(s)[0],
                audio_entries(r)[0],
                "Enable Audio"@,
                s.audio.audio_enabled,
                action@,
            )
            &&& is_flipped_by(
                audio_entries(s)[1],
                audio_entries(r)[1],
                "Enable ALC"@,
                s.audio.alc_enabled,
                action@,
            )
            &&& is_flipped_by(
                view_entries(s)[0],
                view_entries(r)[0],
                "External Jog Screen"@,
                s.view.jog_screen_popped,
                action@,
            )
            &&& is_flipped_by(
                view_entries(s)[1],
                view_entries(r)[1],
                "External Main Screen"@,
                s.view.main_screen_popped,
                action@,
            )
            &&& is_flipped_by(
                view_entries(s)[2],
                view_entries(r)[2],
                "Debug Panel"@,
                s.view.debug_screen_popped,
                action@,
            )
        }),
{
    let r = menu::after_action(s, action, menu::ActionOrigin::Linux);
    lemma_switches(s, r, action);
    lemma_flips(s, r, action);
}

/// What the six switches do under an action.
spec fn switches_follow(s: AppState, r: AppState, action: menu::MenuAction) -> bool {
    &&& r.view.jog_screen_popped != s.view.jog_screen_popped <==> action is JogScreen
    &&& r.view.main_screen_popped != s.view.main_screen_popped <==> action is MainScreen
    &&& r.view.debug_screen_popped != s.view.debug_screen_popped <==> action is DebugScreen
    &&& r.lifecycle.service_mode != s.lifecycle.service_mode <==> action is ServiceMode
    &&& r.audio.audio_enabled != s.audio.audio_enabled <==> action is Audio
    &&& r.audio.alc_enabled != s.audio.alc_enabled <==> action is Alc
}

proof fn lemma_switches(s: AppState, r: AppState, action: menu::MenuAction)
    requires
        r == menu::after_action(s, action, menu::ActionOrigin::Linux),
    ensures
        switches_follow(s, r, action),
{
    menu::switches_follow_their_actions(s, action, menu::ActionOrigin::Linux);
}

proof fn lemma_flips(s: AppState, r: AppState, action: menu::MenuAction)
    requires
        switches_follow(s, r, action),
    ensures
        is_flipped_by(
            emulation_entries(s)[4],
            emulation_entries(r)[4],
            "Service Mode"@,
            s.lifecycle.service_mode,
            action@,
        ),
        is_flipped_by(
            audio_entries(s)[0],
            audio_entries(r)[0],
            "Enable Audio"@,
            s.audio.audio_enabled,
            action@,
        ),
        is_flipped_by(
            audio_entries(s)[1],
            audio_entries(r)[1],
            "Enable ALC"@,
            s.audio.alc_enabled,
            action@,
        ),
        is_flipped_by(
            view_entries(s)[0],
            view_entries(r)[0],
            "External Jog Screen"@,
            s.view.jog_screen_popped,
            action@,
        ),
        is_flipped_by(
            view_entries(s)[1],
            view_entries(r)[1],
            "External Main Screen"@,
            s.view.main_screen_popped,
            action@,
        ),
        is_flipped_by(
            view_entries(s)[2],
            view_entries(r)[2],
            "Debug Panel"@,
            s.view.debug_screen_popped,
            action@,
        ),
{
    menu::fixed_ids_name_their_actions("service_mode"@);
    menu::fixed_ids_name_their_actions("audio"@);
    menu::fixed_ids_name_their_actions("alc"@);
    menu::fixed_ids_name_their_actions("jog_screen"@);
    menu::fixed_ids_name_their_actions("main_screen"@);
    menu::fixed_ids_name_their_actions("debug_screen"@);
    assert(audio_entries(s)[0] == audio_switches(s)[0]);
    assert(audio_entries(s)[1] == audio_switches(s)[1]);
    assert(audio_entries(r)[0] == audio_switches(r)[0]);
    assert(audio_entries(r)[1] == audio_switches(r)[1]);
}

/// An output device that is picked is the one that is shown as selected afterwards, and so is
/// the system's default. Each device has its entry, under its name.
pub proof fn picked_devices_are_shown(s: AppState, action: menu::MenuAction, i: int)
    requires
        0 <= i < s.audio.audio_devices@.len(),
    ensures
        ({
            let r = menu::after_action(s, action, menu::ActionOrigin::Linux);
            let device = s.audio.audio_devices@[i];
            let entry = audio_entries(s)[i + 5];
            &&& audio_entries(s).len() == s.audio.audio_devices@.len() + 5
            &&& entry matches BarEntryView::Choice { id, label, selected } && label
                == device.name@ && menu::action_of(id) == menu::ActionView::AudioDevice(
                device.uid@,
            ) && (selected <==> text::maybe(s.audio.audio_device_uid) == Some(device.uid@))
            &&& audio_entries(s)[4] matches BarEntryView::Choice { id, label, selected } && label
                == "System Default"@ && menu::action_of(id) is AudioDeviceDefault && (selected
                <==> s.audio.audio_device_uid is None)
            &&& action@ == menu::action_of(entry->Choice_id) ==> audio_entries(r)[i + 5]->selected
                && !audio_entries(r)[4]->selected
            &&& action is AudioDeviceDefault ==> audio_entries(r)[4]->selected && !audio_entries(
                r,
            )[i + 5]->selected
        }),
{
    let r = menu::after_action(s, action, menu::ActionOrigin::Linux);
    let device = s.audio.audio_devices@[i];
    menu::choices_take_effect(s, action, menu::ActionOrigin::Linux);
    menu::actions_leave_the_workers_part_alone(s, action, menu::ActionOrigin::Linux);
    menu::device_entry_selects_it(device.uid@);
    menu::fixed_ids_name_their_actions("audio_dev_default"@);
    assert(audio_entries(s)[i + 5] == device_choice(s.audio.audio_device_uid, device));
    assert(audio_entries(r)[i + 5] == device_choice(r.audio.audio_device_uid, device));
    assert(audio_entries(s)[4] == audio_switches(s)[4]);
    assert(audio_entries(r)[4] == audio_switches(r)[4]);
}

/// The bar tells whether QEMU runs and whether the application has started, and the latency
/// once there is one.
pub proof fn the_status_is_told(s: AppState)
    ensures
        ({
            let texts = status_texts(s);
            &&& s.lifecycle.qemu_running ==> texts[0] == "QEMU: running"@
            &&& !s.lifecycle.qemu_running ==> texts[0] == "QEMU: stopped"@
            &&& s.lifecycle.application_started ==> texts[1] == "App: started"@
            &&& !s.lifecycle.application_started ==> texts[1] == "App: booting"@
            &&& s.audio.latency_packed == u64::MAX ==> texts.len() == 2
            &&& s.audio.latency_packed != u64::MAX ==> texts.len() == 3 && texts[2] == "Latency "@
                + text::decimal((s.audio.latency_packed / 0x1_0000_0000) as nat) + " ms ("@
                + text::decimal((s.audio.latency_packed / 0x1_0000 % 0x1_0000) as nat) + "+"@
                + text::decimal((s.audio.latency_packed % 0x1_0000) as nat) + ")"@
        }),
{
}

} // verus!
