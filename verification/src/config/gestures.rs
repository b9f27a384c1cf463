//! Gesture mode: which buttons of a device dispatch a direction map, and the
//! edits that take a button into and out of that mode.
//!
//! The mode is a per-button fact read from the shape of the binding, never a
//! separate flag. Leaving it stashes the button's map, so entering it again
//! restores what the user had.

use vstd::prelude::*;
use crate::binding::{
    default_binding, default_binding_for, default_binding_for_spec, default_binding_spec,
    default_gesture_map, default_gesture_table, filled_gesture_map, Action, Binding, BindingModel,
    ButtonId, GestureDirection,
};
use crate::config::{device_at, lemma_put_back, Config, DeviceConfig, DeviceModel};
use crate::order::Duplicate;

verus! {

/// What `button` is bound to, its default when nothing is stored.
pub open spec fn bound(device: DeviceModel, button: ButtonId) -> BindingModel {
    if device.bindings.dom().contains(button) {
        device.bindings[button]
    } else {
        default_binding_for_spec(button)
    }
}

/// `device` with `button` bound to the direction map `map`.
pub open spec fn with_gesture(
    device: DeviceModel,
    button: ButtonId,
    map: Map<GestureDirection, Action>,
) -> DeviceModel {
    DeviceModel {
        bindings: device.bindings.insert(button, BindingModel::Gesture(map)),
        ..device
    }
}

/// `device` after gesture mode was turned on for `button`: the stashed map comes
/// back when there is one, else the binding is promoted and its unbound
/// directions are seeded.
pub open spec fn gesture_mode_on(device: DeviceModel, button: ButtonId) -> DeviceModel {
    if device.disabled_gestures.dom().contains(button) {
        DeviceModel {
            disabled_gestures: device.disabled_gestures.remove(button),
            ..with_gesture(device, button, device.disabled_gestures[button])
        }
    } else {
        with_gesture(device, button, filled_gesture_map(bound(device, button).gesture_map()))
    }
}

/// `device` after gesture mode was turned off for `button`: a live map is
/// stashed and the button keeps its click; a button that gestures only by
/// default is pinned to its default action; any other button stays as it is.
pub open spec fn gesture_mode_off(device: DeviceModel, button: ButtonId) -> DeviceModel {
    if device.bindings.dom().contains(button) {
        let stored = device.bindings[button];
        DeviceModel {
            bindings: device.bindings.insert(button, stored.demoted(default_binding_spec(button))),
            disabled_gestures: if stored is Gesture {
                device.disabled_gestures.insert(button, stored->Gesture_0)
            } else {
                device.disabled_gestures
            },
            ..device
        }
    } else if default_binding_for_spec(button).is_gesture() {
        DeviceModel {
            bindings: device.bindings.insert(
                button,
                BindingModel::Single(default_binding_spec(button)),
            ),
            disabled_gestures: device.disabled_gestures.insert(button, default_gesture_map()),
            ..device
        }
    } else {
        device
    }
}

/// Takes out what `button` is bound to, its default when nothing is stored.
fn take_binding(device: &mut DeviceConfig, button: ButtonId) -> (binding: Binding)
    ensures
        binding@ == bound(old(device)@, button),
        final(device)@ == (DeviceModel {
            bindings: old(device)@.bindings.remove(button),
            ..old(device)@
        }),
{
    match device.bindings.remove(&button) {
        Some(binding) => binding,
        None => default_binding_for(button),
    }
}

impl Config {
    /// Records `action` for one `direction` of the gesture binding of `button`,
    /// creating the device if needed. A button with no binding starts from its
    /// default; a plain press is kept as the click.
    pub fn set_gesture_direction(
        &mut self,
        device_key: &str,
        button: ButtonId,
        direction: GestureDirection,
        action: Action,
    )
        ensures
            final(self)@ == old(self)@.insert(
                device_key@,
                with_gesture(
                    device_at(old(self)@, device_key@),
                    button,
                    bound(device_at(old(self)@, device_key@), button).gesture_map().insert(
                        direction,
                        action,
                    ),
                ),
            ),
    {
        let mut device = self.take_device(device_key);
        let ghost before = device@;
        let mut map = take_binding(&mut device, button).into_gesture_map();
        map.insert(direction, action);
        let ghost map_view = map@;
        device.bindings.insert(button, Binding::Gesture(map));
        proof {
            lemma_put_back(before.bindings, button, BindingModel::Gesture(map_view));
            lemma_put_back(old(self)@, device_key@, device@);
        }
        self.put_device(device_key, device);
    }

    /// Whether `button` of `device_key` is in gesture mode: a stored direction
    /// map, or nothing stored on a button whose default is one.
    pub fn is_gesture_mode(&self, device_key: &str, button: ButtonId) -> (gesture: bool)
        ensures
            gesture == bound(device_at(self@, device_key@), button).is_gesture(),
    {
        match self.device(device_key) {
            Some(device) => match device.bindings.get(&button) {
                Some(binding) => binding.is_gesture(),
                None => default_binding_for(button).is_gesture(),
            },
            None => default_binding_for(button).is_gesture(),
        }
    }

    /// Every button of `device_key` in gesture mode, in declaration order.
    pub fn gesture_mode_buttons(&self, device_key: &str) -> (buttons: Vec<ButtonId>)
        ensures
            buttons@ == ButtonId::all_spec().filter(
                |b: ButtonId| bound(device_at(self@, device_key@), b).is_gesture(),
            ),
    {
        let ghost wanted = |b: ButtonId| bound(device_at(self@, device_key@), b).is_gesture();
        let all = ButtonId::all();
        let mut buttons: Vec<ButtonId> = Vec::new();
        let mut i: usize = 0;
        while i < all.len()
            invariant
                i <= all.len(),
                all@ == ButtonId::all_spec(),
                wanted == (|b: ButtonId| bound(device_at(self@, device_key@), b).is_gesture()),
                buttons@ == all@.take(i as int).filter(wanted),
            decreases all.len() - i,
        {
            let button = all[i];
            assert(all@.take(i + 1).drop_last() =~= all@.take(i as int));
            reveal(Seq::filter);
            if self.is_gesture_mode(device_key, button) {
                buttons.push(button);
            }
            i = i + 1;
        }
        assert(all@.take(i as int) =~= all@);
        buttons
    }

    /// Turns gesture mode on or off for one button, independently of every other.
    pub fn set_gesture_mode(&mut self, device_key: &str, button: ButtonId, enabled: bool)
        ensures
            final(self)@ == old(self)@.insert(
                device_key@,
                if enabled {
                    gesture_mode_on(device_at(old(self)@, device_key@), button)
                } else {
                    gesture_mode_off(device_at(old(self)@, device_key@), button)
                },
            ),
    {
        let mut device = self.take_device(device_key);
        let ghost before = device@;
        if enabled {
            match device.disabled_gestures.remove(&button) {
                Some(map) => {
                    device.bindings.insert(button, Binding::Gesture(map));
                },
                None => {
                    assert(before.disabled_gestures.remove(button) =~= before.disabled_gestures);
                    let binding = take_binding(&mut device, button).upgrade_to_gesture().fill_gesture_defaults();
                    let ghost promoted = binding@;
                    device.bindings.insert(button, binding);
                    proof {
                        lemma_put_back(before.bindings, button, promoted);
                    }
                },
            }
        } else {
            match device.bindings.remove(&button) {
                Some(binding) => {
                    if let Binding::Gesture(map) = &binding {
                        device.disabled_gestures.insert(button, map.duplicate());
                    }
                    let demoted = binding.demote_to_single(default_binding(button));
                    let ghost kept = demoted@;
                    device.bindings.insert(button, demoted);
                    proof {
                        lemma_put_back(before.bindings, button, kept);
                    }
                },
                None => {
                    assert(before.bindings.remove(button) =~= before.bindings);
                    if default_binding_for(button).is_gesture() {
                        device.disabled_gestures.insert(button, default_gesture_table());
                        device.bindings.insert(button, Binding::Single(default_binding(button)));
                    }
                },
            }
        }
        proof {
            lemma_put_back(old(self)@, device_key@, device@);
        }
        self.put_device(device_key, device);
    }
}

/// Turning gesture mode off and on again hands back the direction map the
/// button had, and everything else the device remembers.
pub proof fn law_gesture_round_trip(device: DeviceModel, button: ButtonId)
    requires
        bound(device, button).is_gesture(),
    ensures
        bound(gesture_mode_on(gesture_mode_off(device, button), button), button) == bound(
            device,
            button,
        ),
        forall|other: ButtonId|
            other != button ==> bound(
                gesture_mode_on(gesture_mode_off(device, button), button),
                other,
            ) == bound(device, other),
        gesture_mode_on(gesture_mode_off(device, button), button).disabled_gestures
            == device.disabled_gestures.remove(button),
        gesture_mode_on(gesture_mode_off(device, button), button).per_app_bindings
            == device.per_app_bindings,
{
    let off = gesture_mode_off(device, button);
    let on = gesture_mode_on(off, button);
    assert(on.disabled_gestures =~= device.disabled_gestures.remove(button));
}

/// After gesture mode was turned on the button gestures; after it was turned off
/// it does not. Other buttons keep their mode.
pub proof fn law_gesture_mode_is_per_button(device: DeviceModel, button: ButtonId, other: ButtonId)
    ensures
        bound(gesture_mode_on(device, button), button).is_gesture(),
        !bound(gesture_mode_off(device, button), button).is_gesture(),
        other != button ==> bound(gesture_mode_on(device, button), other) == bound(device, other),
        other != button ==> bound(gesture_mode_off(device, button), other) == bound(device, other),
{
}

/// A button whose gesture mode is turned on without a stash answers every
/// direction, and keeps its press as the click.
pub proof fn law_promotion_keeps_the_press(device: DeviceModel, button: ButtonId)
    requires
        !device.disabled_gestures.dom().contains(button),
        !bound(device, button).is_gesture(),
    ensures
        bound(gesture_mode_on(device, button), button).click_action() == bound(
            device,
            button,
        ).click_action(),
        forall|d: GestureDirection| #[trigger]
            bound(gesture_mode_on(device, button), button)->Gesture_0.dom().contains(d),
{
}

} // verus!
