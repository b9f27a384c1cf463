//! What the configuration gives back, said of what was put into it.

use vstd::prelude::*;
use crate::action_ring::{
    default_layout, with_action, with_icon, ActionRingIcon, ActionRingSlot, LayoutModel, RingEntry,
    RingModel,
};
use crate::binding::{
    default_binding_for_spec, default_binding_spec, filled_gesture_map, Action, BindingModel,
    ButtonId, GestureDirection,
};
use crate::config::gestures::{bound, gesture_mode_off, gesture_mode_on};
use crate::config::identity::{IdentityModel, ModelInfoModel};
use crate::config::links::{first_linked, hex_bytes, resolved_key, LinkAddress, UnitIdentity};
use crate::config::per_app::{
    effective, effective_settings, exe_selector, last_component, overridden,
    overrides_at, with_override, without_profile,
};
use crate::config::{device_at, DeviceModel};
use crate::presenter::default_settings_spec;
use crate::text::{ascii_lowercase, decimal, hex_char, hex_word};

verus! {

/// In an application with a profile of its own, a button does what the profile says
/// where the profile names it, and else exactly what it does on the device.
pub proof fn law_a_profile_overrides_the_buttons_it_names(
    device: DeviceModel,
    app: Seq<char>,
    button: ButtonId,
)
    requires
        device.per_app_bindings.dom().contains(app),
    ensures
        ({
            let profile = device.per_app_bindings[app];
            let now = effective(device, Some(app));
            &&& profile.dom().contains(button) ==> now.dom().contains(button) && now[button]
                == BindingModel::Single(profile[button])
            &&& !profile.dom().contains(button) ==> now.dom().contains(button)
                == device.bindings.dom().contains(button)
            &&& !profile.dom().contains(button) && device.bindings.dom().contains(button)
                ==> now[button] == device.bindings[button]
        }),
{
}

/// Without an application, and in one that has no profile under its own name nor
/// under the name of its executable, the device's own bindings and settings hold.
pub proof fn law_without_a_profile_the_device_holds(device: DeviceModel, app: Seq<char>)
    ensures
        effective(device, None) == device.bindings,
        effective_settings(device, None) == device.presenter,
        !device.per_app_bindings.dom().contains(app) && exe_selector(app) is None ==> effective(
            device,
            Some(app),
        ) == device.bindings,
        !device.per_app_presenter.dom().contains(app) && exe_selector(app) is None
            ==> effective_settings(device, Some(app)) == device.presenter,
        exe_selector(app) matches Some(name) ==> {
            &&& !device.per_app_bindings.dom().contains(app)
                && !device.per_app_bindings.dom().contains(name) ==> effective(device, Some(app))
                == device.bindings
            &&& !device.per_app_presenter.dom().contains(app)
                && !device.per_app_presenter.dom().contains(name) ==> effective_settings(
                device,
                Some(app),
            ) == device.presenter
        },
{
}

/// A profile under the name of an executable holds wherever that executable is
/// installed, unless the very path has a profile.
pub proof fn law_a_profile_by_file_name_holds(device: DeviceModel, app: Seq<char>)
    requires
        exe_selector(app) is Some,
    ensures
        ({
            let name = exe_selector(app)->0;
            &&& !device.per_app_bindings.dom().contains(app)
                && device.per_app_bindings.dom().contains(name) ==> effective(device, Some(app))
                == effective(device, Some(name))
            &&& !device.per_app_presenter.dom().contains(app)
                && device.per_app_presenter.dom().contains(name) ==> effective_settings(
                device,
                Some(app),
            ) == device.per_app_presenter[name]
            &&& !device.per_app_bindings.dom().contains(app)
                && device.per_app_bindings.dom().contains(name) ==> overridden(device, app) == (
            device.per_app_bindings[name] != Map::<ButtonId, Action>::empty())
        }),
{
}

proof fn lemma_last_component(front: Seq<char>, name: Seq<char>)
    requires
        forall|i: int| 0 <= i < name.len() ==> #[trigger] name[i] != '/' && name[i] != '\\',
        front.len() > 0 ==> front.last() == '/' || front.last() == '\\',
    ensures
        last_component(front + name) == name,
    decreases name.len(),
{
    let all = front + name;
    if name.len() == 0 {
        assert(all =~= front);
        assert(name =~= Seq::empty());
    } else {
        let rest = name.drop_last();
        assert forall|i: int| 0 <= i < rest.len() implies #[trigger] rest[i] != '/' && rest[i]
            != '\\' by {
            assert(rest[i] == name[i]);
        }
        lemma_last_component(front, rest);
        assert(all.drop_last() =~= front + rest);
        assert(all.last() == name.last());
        assert(name[name.len() - 1] != '/' && name[name.len() - 1] != '\\');
        assert(rest.push(name.last()) =~= name);
    }
}

/// An executable is named by its file name in small letters behind `exe:`, whatever
/// directory it is in and whichever way the directory is written; a file of another
/// kind, and one that is nothing but the ending, has no such name.
pub proof fn law_an_executable_is_named_by_its_file(directory: Seq<char>, file: Seq<char>)
    requires
        forall|i: int| 0 <= i < file.len() ==> #[trigger] file[i] != '/' && file[i] != '\\',
        directory.len() > 0 ==> directory.last() == '/' || directory.last() == '\\',
    ensures
        ({
            let n = file.len() as int;
            let ends = n >= 4 && file[n - 4] == '.' && (file[n - 3] == 'e' || file[n - 3] == 'E')
                && (file[n - 2] == 'x' || file[n - 2] == 'X') && (file[n - 1] == 'e' || file[n - 1]
                == 'E');
            &&& ends && n > 4 ==> exe_selector(directory + file) == Some(
                seq!['e', 'x', 'e', ':'] + ascii_lowercase(file),
            )
            &&& !ends || n == 4 ==> exe_selector(directory + file) is None
        }),
{
    lemma_last_component(directory, file);
}

/// An override changes the overrides of its own application alone: the button is
/// bound there, or no longer, and the other buttons of that application, the other
/// applications and everything else of the device stay.
pub proof fn law_an_override_changes_one_button(
    device: DeviceModel,
    app: Seq<char>,
    button: ButtonId,
    action: Action,
    other: ButtonId,
)
    ensures
        ({
            let set = with_override(device, app, button, Some(action));
            let cleared = with_override(device, app, button, None);
            let before = overrides_at(device.per_app_bindings, app);
            let bound_now = overrides_at(set.per_app_bindings, app);
            let left = overrides_at(cleared.per_app_bindings, app);
            &&& bound_now.dom().contains(button) && bound_now[button] == action
            &&& !left.dom().contains(button)
            &&& other != button ==> bound_now.dom().contains(other) == before.dom().contains(other)
                && left.dom().contains(other) == before.dom().contains(other)
            &&& other != button && before.dom().contains(other) ==> bound_now[other]
                == before[other] && left[other] == before[other]
            &&& set == (DeviceModel { per_app_bindings: set.per_app_bindings, ..device })
            &&& cleared == (DeviceModel { per_app_bindings: cleared.per_app_bindings, ..device })
        }),
{
    let before = overrides_at(device.per_app_bindings, app);
    let stored = before.insert(button, action);
    assert(stored.dom().contains(button));
    assert(stored != Map::<ButtonId, Action>::empty()) by {
        assert(!Map::<ButtonId, Action>::empty().dom().contains(button));
    }
    let rest = before.remove(button);
    if other != button && before.dom().contains(other) {
        assert(rest.dom().contains(other));
        assert(rest != Map::<ButtonId, Action>::empty()) by {
            assert(!Map::<ButtonId, Action>::empty().dom().contains(other));
        }
    }
}

/// Removing a profile forgets both its bindings and its presenter settings, and
/// nothing else.
pub proof fn law_removing_a_profile_forgets_all_of_it(
    device: DeviceModel,
    app: Seq<char>,
    other: Seq<char>,
)
    ensures
        ({
            let after = without_profile(device, app);
            &&& !after.per_app_bindings.dom().contains(app)
            &&& !after.per_app_presenter.dom().contains(app)
            &&& other != app ==> {
                &&& after.per_app_bindings.dom().contains(other)
                    == device.per_app_bindings.dom().contains(other)
                &&& after.per_app_presenter.dom().contains(other)
                    == device.per_app_presenter.dom().contains(other)
                &&& after.per_app_bindings.dom().contains(other) ==> after.per_app_bindings[other]
                    == device.per_app_bindings[other]
                &&& after.per_app_presenter.dom().contains(other)
                    ==> after.per_app_presenter[other] == device.per_app_presenter[other]
            }
            &&& after == (DeviceModel {
                per_app_bindings: after.per_app_bindings,
                per_app_presenter: after.per_app_presenter,
                ..device
            })
        }),
{
}

/// A device that was never configured has no bindings, profiles, identity, links or
/// resolution of its own, and the settings that devices start with.
pub proof fn law_an_unknown_device_is_blank(
    devices: Map<Seq<char>, DeviceModel>,
    key: Seq<char>,
    device: DeviceModel,
    button: ButtonId,
)
    ensures
        device_at(devices.insert(key, device), key) == device,
        !devices.dom().contains(key) ==> {
            let blank = device_at(devices, key);
            &&& blank.bindings == Map::<ButtonId, BindingModel>::empty()
            &&& blank.per_app_bindings.dom().is_empty()
            &&& blank.per_app_presenter.dom().is_empty()
            &&& blank.presenter == default_settings_spec()
            &&& blank.action_ring.layout(None) == default_layout()
            &&& blank.identity is None
            &&& blank.dpi is None
            &&& blank.links.dom().is_empty()
            &&& bound(blank, button) == default_binding_for_spec(button)
        },
{
}

/// Turning gestures on brings back what was parked for the button, and takes it out
/// of the park; without anything parked the press keeps its action and the other
/// directions get their defaults. Other buttons, and everything else, stay.
pub proof fn law_turning_gestures_on(device: DeviceModel, button: ButtonId, direction: GestureDirection)
    ensures
        ({
            let after = gesture_mode_on(device, button);
            let now = bound(after, button);
            &&& now is Gesture
            &&& device.disabled_gestures.dom().contains(button) ==> now->Gesture_0
                == device.disabled_gestures[button] && after.disabled_gestures
                == device.disabled_gestures.remove(button)
            &&& !device.disabled_gestures.dom().contains(button) ==> {
                &&& after.disabled_gestures == device.disabled_gestures
                &&& now->Gesture_0.dom().contains(direction)
                &&& bound(device, button) is Gesture && bound(
                    device,
                    button,
                )->Gesture_0.dom().contains(direction) ==> now->Gesture_0[direction] == bound(
                    device,
                    button,
                )->Gesture_0[direction]
                &&& bound(device, button) matches BindingModel::Single(action)
                    ==> now->Gesture_0[GestureDirection::Click] == action
                &&& !(bound(device, button) is Gesture) && direction == GestureDirection::Up
                    ==> now->Gesture_0[direction] == Action::MissionControl
                &&& !(bound(device, button) is Gesture) && direction == GestureDirection::Down
                    ==> now->Gesture_0[direction] == Action::ShowDesktop
                &&& !(bound(device, button) is Gesture) && direction == GestureDirection::Left
                    ==> now->Gesture_0[direction] == Action::PreviousDesktop
                &&& !(bound(device, button) is Gesture) && direction == GestureDirection::Right
                    ==> now->Gesture_0[direction] == Action::NextDesktop
            }
            &&& after == (DeviceModel {
                bindings: after.bindings,
                disabled_gestures: after.disabled_gestures,
                ..device
            })
        }),
{
}

/// Turning gestures off parks the gestures of a button and leaves its press with
/// what it did, or with its default where it did nothing of its own; a button that
/// has no gestures stays as it is, and so does everything else.
pub proof fn law_turning_gestures_off(device: DeviceModel, button: ButtonId)
    ensures
        ({
            let before = bound(device, button);
            let after = gesture_mode_off(device, button);
            let now = bound(after, button);
            &&& !(before is Gesture) ==> now == before && after.disabled_gestures
                == device.disabled_gestures
            &&& before matches BindingModel::Gesture(map) ==> {
                &&& now == BindingModel::Single(
                    if map.dom().contains(GestureDirection::Click) && device.bindings.dom().contains(
                        button,
                    ) {
                        map[GestureDirection::Click]
                    } else {
                        default_binding_spec(button)
                    },
                )
                &&& after.disabled_gestures.dom().contains(button)
                    && after.disabled_gestures[button] == map
            }
            &&& after == (DeviceModel {
                bindings: after.bindings,
                disabled_gestures: after.disabled_gestures,
                ..device
            })
        }),
{
    let after = gesture_mode_off(device, button);
    if device.bindings.dom().contains(button) && !(device.bindings[button] is Gesture) {
        assert(after.bindings[button] == device.bindings[button]);
    }
}

/// A map of gestures is filled up with the defaults of the directions it lacks; what
/// it holds stays.
pub proof fn law_missing_directions_are_filled(
    map: Map<GestureDirection, Action>,
    direction: GestureDirection,
)
    ensures
        filled_gesture_map(map).dom().contains(direction),
        map.dom().contains(direction) ==> filled_gesture_map(map)[direction] == map[direction],
        !map.dom().contains(direction) ==> filled_gesture_map(map)[direction]
            == filled_gesture_map(Map::empty())[direction],
{
}

/// A press does its one action, the short one of a long press, or what a gesture
/// button does without a swipe; as gestures, a binding without any is its press.
pub proof fn law_a_press_of_a_binding(binding: BindingModel, fallback: Action)
    ensures
        match binding {
            BindingModel::Single(action) => {
                &&& binding.click_action() == action
                &&& binding.demoted(fallback) == binding
                &&& binding.gesture_map().dom() =~= set![GestureDirection::Click]
                &&& binding.gesture_map()[GestureDirection::Click] == action
            },
            BindingModel::LongPress(press) => {
                &&& binding.click_action() == press.short_spec()
                &&& binding.demoted(fallback) == binding
                &&& binding.gesture_map().dom() =~= set![GestureDirection::Click]
                &&& binding.gesture_map()[GestureDirection::Click] == press.short_spec()
            },
            BindingModel::Gesture(map) => {
                &&& binding.gesture_map() == map
                &&& map.dom().contains(GestureDirection::Click) ==> binding.click_action()
                    == map[GestureDirection::Click] && binding.demoted(fallback)
                    == BindingModel::Single(map[GestureDirection::Click])
                &&& !map.dom().contains(GestureDirection::Click) ==> binding.click_action()
                    == Action::NoOp && binding.demoted(fallback) == BindingModel::Single(fallback)
            },
        },
{
}

/// Every button has its place in the list of all buttons, and only the gesture
/// button gestures by default.
pub proof fn law_buttons_are_listed_in_their_order(button: ButtonId, direction: GestureDirection)
    ensures
        ButtonId::all_spec().len() == 17,
        ButtonId::all_spec()[button.rank_spec() as int] == button,
        GestureDirection::all_spec().len() == 5,
        GestureDirection::all_spec()[direction.rank_spec() as int] == direction,
        (default_binding_for_spec(button) is Gesture) == (button == ButtonId::GestureButton),
        button != ButtonId::GestureButton ==> default_binding_for_spec(button).click_action()
            == default_binding_spec(button),
        default_binding_for_spec(ButtonId::GestureButton).click_action() == default_binding_spec(
            ButtonId::GestureButton,
        ),
{
}

/// What is remembered of a device is everything but which unit it was.
pub proof fn law_what_is_remembered_names_no_unit(identity: IdentityModel)
    ensures
        ({
            let kept = identity.without_unit();
            &&& kept == (IdentityModel { model_info: kept.model_info, ..identity })
            &&& (kept.model_info is Some) == (identity.model_info is Some)
            &&& kept.model_info matches Some(info) ==> {
                &&& info.serial_number is None
                &&& info.unit_id.len() == 4
                &&& forall|i: int| 0 <= i < 4 ==> #[trigger] info.unit_id[i] == 0
                &&& info == (ModelInfoModel {
                    serial_number: info.serial_number,
                    unit_id: info.unit_id,
                    ..identity.model_info->0
                })
            }
            &&& kept.without_unit() == kept
        }),
{
}

proof fn lemma_hex_bytes(bytes: Seq<u8>)
    ensures
        hex_bytes(bytes).len() == 2 * bytes.len(),
        forall|i: int|
            0 <= i < bytes.len() ==> hex_bytes(bytes)[2 * i] == hex_char(
                (#[trigger] bytes[i]) as int / 16,
            ) && hex_bytes(bytes)[2 * i + 1] == hex_char(bytes[i] as int % 16),
    decreases bytes.len(),
{
    if bytes.len() > 0 {
        let front = bytes.drop_last();
        lemma_hex_bytes(front);
        assert forall|i: int| 0 <= i < bytes.len() implies hex_bytes(bytes)[2 * i] == hex_char(
            (#[trigger] bytes[i]) as int / 16,
        ) && hex_bytes(bytes)[2 * i + 1] == hex_char(bytes[i] as int % 16) by {
            if i < front.len() {
                assert(front[i] == bytes[i]);
            }
        }
    }
}

/// Bytes are spelled as two hexadecimal digits each, the higher first, so different
/// bytes are spelled differently.
pub proof fn law_bytes_are_spelled_by_two_digits(a: Seq<u8>, b: Seq<u8>, i: int)
    requires
        0 <= i < a.len(),
    ensures
        hex_bytes(a).len() == 2 * a.len(),
        hex_bytes(a)[2 * i] == hex_char(a[i] as int / 16),
        hex_bytes(a)[2 * i + 1] == hex_char(a[i] as int % 16),
        hex_bytes(a) == hex_bytes(b) ==> a == b,
{
    lemma_hex_bytes(a);
    lemma_hex_bytes(b);
    assert(a[i] == a[i]);
    if hex_bytes(a) == hex_bytes(b) {
        assert forall|k: int| 0 <= k < a.len() implies a[k] == b[k] by {
            assert(hex_char(a[k] as int / 16) == hex_char(b[k] as int / 16));
            assert(hex_char(a[k] as int % 16) == hex_char(b[k] as int % 16));
        }
        assert(a =~= b);
    }
}

/// A unit is named by its serial number where it has one, letter case aside, else by
/// its unit number where that is not zero, and else not at all.
pub proof fn law_a_unit_is_named_by_what_it_has(unit: UnitIdentity, other: UnitIdentity)
    ensures
        unit.serial_number matches Some(serial) ==> unit.key_spec() == Some(
            "serial:"@ + ascii_lowercase(serial@),
        ),
        unit.serial_number is None ==> (unit.key_spec() is None) == (forall|i: int|
            0 <= i < 4 ==> #[trigger] unit.unit_id@[i] == 0),
        unit.serial_number is None && other.serial_number is None && unit.key_spec() is Some
            && unit.key_spec() == other.key_spec() ==> unit.unit_id@ == other.unit_id@,
        unit.serial_number is None && other.serial_number is Some && unit.key_spec() is Some
            ==> unit.key_spec() != other.key_spec(),
{
    reveal_strlit("serial:");
    reveal_strlit("unit:");
    let zero = seq![0u8, 0u8, 0u8, 0u8];
    assert(unit.unit_id@.len() == 4);
    assert(other.unit_id@.len() == 4);
    if unit.serial_number is None {
        if forall|i: int| 0 <= i < 4 ==> #[trigger] unit.unit_id@[i] == 0 {
            assert(unit.unit_id@ =~= zero);
        } else {
            let i = choose|i: int| 0 <= i < 4 && #[trigger] unit.unit_id@[i] != 0;
            assert(zero[i] == 0);
        }
        if unit.key_spec() is Some {
            let mine = "unit:"@ + hex_bytes(unit.unit_id@);
            assert(mine[0] == 'u');
            if other.serial_number is Some {
                let theirs = "serial:"@ + ascii_lowercase(other.serial_number->0@);
                assert(theirs[0] == 's');
                assert(mine != theirs);
            } else if unit.key_spec() == other.key_spec() {
                let theirs = "unit:"@ + hex_bytes(other.unit_id@);
                assert(mine.skip(5) =~= hex_bytes(unit.unit_id@));
                assert(theirs.skip(5) =~= hex_bytes(other.unit_id@));
                law_bytes_are_spelled_by_two_digits(unit.unit_id@, other.unit_id@, 0);
            }
        }
    }
}

/// A link is named by the two numbers of a direct one, or by the receiver and the
/// slot.
pub proof fn law_a_link_is_named_by_its_address(address: LinkAddress)
    ensures
        address matches LinkAddress::Direct { vendor_id, product_id } ==> address.key_spec()
            == "direct:"@ + hex_word(vendor_id) + ":"@ + hex_word(product_id),
        address matches LinkAddress::Receiver { uid, slot } ==> address.key_spec() == "receiver:"@
            + uid@ + ":slot:"@ + decimal(slot as nat),
{
}

/// Where the settings of a unit are: under its own name where some are stored there;
/// else with the first device that lists the link; else under the link where some
/// are stored there; else under its own name, or under the link of a receiver.
pub proof fn law_settings_are_looked_for_in_order(
    keys: Seq<Seq<char>>,
    devices: Map<Seq<char>, DeviceModel>,
    own: Option<Seq<char>>,
    route: Seq<char>,
    receiver: bool,
    i: int,
)
    ensures
        ({
            let found = resolved_key(keys, devices, own, route, receiver);
            let owned = own is Some && devices.dom().contains(own->0);
            let first = 0 <= i < keys.len() && devices[keys[i]].links.dom().contains(route)
                && forall|k: int|
                0 <= k < i ==> !devices[#[trigger] keys[k]].links.dom().contains(route);
            let none = forall|k: int|
                0 <= k < keys.len() ==> !devices[#[trigger] keys[k]].links.dom().contains(route);
            &&& owned ==> found == own
            &&& !owned && first ==> found == Some(keys[i])
            &&& !owned && none && devices.dom().contains(route) ==> found == Some(route)
            &&& !owned && none && !devices.dom().contains(route) && own is Some ==> found == own
            &&& !owned && none && !devices.dom().contains(route) && own is None ==> found
                == if receiver {
                Some(route)
            } else {
                None
            }
        }),
{
    lemma_first_link(keys, devices, route, i);
}

proof fn lemma_first_link(
    keys: Seq<Seq<char>>,
    devices: Map<Seq<char>, DeviceModel>,
    route: Seq<char>,
    i: int,
)
    ensures
        0 <= i < keys.len() && devices[keys[i]].links.dom().contains(route) && (forall|k: int|
            0 <= k < i ==> !devices[#[trigger] keys[k]].links.dom().contains(route))
            ==> first_linked(keys, devices, route) == Some(keys[i]),
        (forall|k: int|
            0 <= k < keys.len() ==> !devices[#[trigger] keys[k]].links.dom().contains(route))
            ==> first_linked(keys, devices, route) is None,
    decreases keys.len(),
{
    if keys.len() > 0 {
        let rest = keys.skip(1);
        lemma_first_link(rest, devices, route, i - 1);
        if forall|k: int|
            0 <= k < keys.len() ==> !devices[#[trigger] keys[k]].links.dom().contains(route) {
            assert(!devices[keys[0]].links.dom().contains(route));
            assert forall|k: int| 0 <= k < rest.len() implies !devices[
                #[trigger] rest[k]
            ].links.dom().contains(route) by {
                assert(rest[k] == keys[k + 1]);
            }
        }
        if 0 < i < keys.len() && devices[keys[i]].links.dom().contains(route) && (forall|k: int|
            0 <= k < i ==> !devices[#[trigger] keys[k]].links.dom().contains(route)) {
            assert(!devices[keys[0]].links.dom().contains(route));
            assert(rest[i - 1] == keys[i]);
            assert forall|k: int| 0 <= k < i - 1 implies !devices[
                #[trigger] rest[k]
            ].links.dom().contains(route) by {
                assert(rest[k] == keys[k + 1]);
            }
        }
    }
}

/// A slot of a ring does what was put there, without an icon, or nothing once it was
/// cleared; an icon goes on the slot that has an action, and its action stays. No
/// other slot changes.
pub proof fn law_a_ring_slot_holds_what_was_put_there(
    layout: LayoutModel,
    slot: ActionRingSlot,
    other: ActionRingSlot,
    action: Action,
    icon: Option<ActionRingIcon>,
)
    requires
        other != slot,
    ensures
        ({
            let put = with_action(layout, slot, Some(action));
            let cleared = with_action(layout, slot, None);
            let marked = with_icon(layout, slot, icon);
            &&& put.dom().contains(slot) && put[slot] == (RingEntry { action, icon: None })
            &&& !cleared.dom().contains(slot)
            &&& marked.dom() == layout.dom()
            &&& layout.dom().contains(slot) ==> marked[slot].icon == icon && marked[slot].action
                == layout[slot].action
            &&& put.dom().contains(other) == layout.dom().contains(other)
            &&& cleared.dom().contains(other) == layout.dom().contains(other)
            &&& layout.dom().contains(other) ==> put[other] == layout[other] && cleared[other]
                == layout[other] && marked[other] == layout[other]
        }),
{
    assert(with_icon(layout, slot, icon).dom() =~= layout.dom());
}

/// A layout of an application is the one that was stored for it, the default one
/// where none was; storing one changes no other, and forgetting one neither.
pub proof fn law_a_layout_is_stored_for_its_application(
    ring: RingModel,
    app: Seq<char>,
    other: Seq<char>,
    layout: LayoutModel,
)
    requires
        other != app,
    ensures
        ring.with_layout(Some(app), layout).layout(Some(app)) == layout,
        ring.with_layout(Some(app), layout).layout(Some(other)) == ring.layout(Some(other)),
        ring.with_layout(Some(app), layout).layout(None) == ring.layout(None),
        ring.with_layout(None, layout).layout(None) == layout,
        ring.with_layout(None, layout).per_app == ring.per_app,
        ring.without_layout(app).layout(Some(app)) == ring.layout(None),
        ring.without_layout(app).layout(Some(other)) == ring.layout(Some(other)),
        ring.without_layout(app).layout(None) == ring.layout(None),
        ring.layout(None) == ring.default,
{
}

/// The default ring has an action in each of its eight slots and no icons; opposite
/// slots belong together.
pub proof fn law_the_default_ring_is_full(slot: ActionRingSlot)
    ensures
        default_layout().dom().contains(slot),
        default_layout()[slot].icon is None,
        default_layout()[ActionRingSlot::Right].action == Action::NextDesktop,
        default_layout()[ActionRingSlot::Left].action == Action::PreviousDesktop,
        default_layout()[ActionRingSlot::Top].action == Action::MissionControl,
        default_layout()[ActionRingSlot::Bottom].action == Action::ShowDesktop,
        default_layout()[ActionRingSlot::TopRight].action == Action::Copy,
        default_layout()[ActionRingSlot::BottomRight].action == Action::Paste,
        default_layout()[ActionRingSlot::BottomLeft].action == Action::Undo,
        default_layout()[ActionRingSlot::TopLeft].action == Action::Redo,
        RingModel::fresh().layout(None) == default_layout(),
        RingModel::fresh().per_app.dom().is_empty(),
{
}

} // verus!
