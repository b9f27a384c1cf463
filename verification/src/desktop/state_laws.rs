//! What the window's edits do to what it shows afterwards.

use vstd::prelude::*;
use crate::action_ring::LayoutModel;
use crate::binding::{Action, BindingModel, ButtonId, GestureDirection};
use crate::config::gestures::bound;
use crate::config::per_app::{effective, overlay_key, overrides_at};
use crate::config::settings::AppSettings;
use crate::config::{device_at, DeviceModel};
use crate::desktop::bindings::{
    can_gesture, directions_below, dispatched, gesture_maps, pressed, with_button, ThumbwheelPair,
    ThumbwheelPreset,
};
use crate::desktop::presenter_state::load_at;
use crate::desktop::profile_edits::{stores_sections, without_sections, Sections};
use crate::desktop::profiles::ProfileCommand;
use crate::desktop::state::{
    entry, lemma_closing_touches_only_editors, ClosingModel, CommandModel, LoadModel,
    RecordModel, StateModel,
};
use crate::presenter::{PointerSpeed, PresenterSettings};

verus! {

/// The device on screen is the selected one of those that are listed; only one that
/// is remembered has a configuration, and each of them keeps the profile that is open
/// in each editor.
pub proof fn law_the_selected_device_is_on_screen(state: StateModel)
    ensures
        state.selected < state.records.len() ==> state.current() == Some(
            state.records[state.selected as int],
        ),
        state.selected >= state.records.len() ==> state.current() is None && state.key() is None,
        state.key() matches Some(key) ==> {
            let record = state.records[state.selected as int];
            &&& record.persistent && record.config_key == key
            &&& state.button_apps.dom().contains(key) ==> state.editing() == Some(
                state.button_apps[key],
            )
            &&& !state.button_apps.dom().contains(key) ==> state.editing() is None
            &&& state.ring_apps.dom().contains(key) ==> state.editing_ring() == Some(
                state.ring_apps[key],
            )
            &&& !state.ring_apps.dom().contains(key) ==> state.editing_ring() is None
        },
        state.current() matches Some(record) && record.persistent ==> state.key() == Some(
            state.records[state.selected as int].config_key,
        ),
        state.current() matches Some(record) && !record.persistent ==> state.key() is None
            && state.editing() is None && state.editing_ring() is None,
{
}

/// Whether a closing names an editor: of the buttons, or of the ring.
pub open spec fn names_editor(
    closing: ClosingModel,
    ring: bool,
    key: Seq<char>,
    app: Seq<char>,
) -> bool {
    &&& closing.key == key
    &&& closing.app == app
    &&& if ring {
        closing.ring
    } else {
        closing.buttons
    }
}

/// Once a save went through, what is saved is what is edited, nothing is owed, the
/// agent was told exactly where it is owed a reload, and of the open editors exactly
/// those closed that were named to close.
pub proof fn law_a_save_that_went_through(state: StateModel, key: Seq<char>)
    ensures
        ({
            let after = state.save_done();
            &&& after.saved == state.live && after.live == state.live
            &&& after.saved_settings == state.settings && after.settings == state.settings
            &&& after.refused is None
            &&& !after.unsaved && !after.reload_owed
            &&& after.closings.len() == 0
            &&& after.outbox == if state.reload_owed {
                state.outbox.push(CommandModel::Reload)
            } else {
                state.outbox
            }
            &&& state.button_apps.dom().contains(key) ==> {
                let named = exists|i: int|
                    0 <= i < state.closings.len() && names_editor(
                        #[trigger] state.closings[i],
                        false,
                        key,
                        state.button_apps[key],
                    );
                after.button_apps.dom().contains(key) == !named && (!named
                    ==> after.button_apps[key] == state.button_apps[key])
            }
            &&& !state.button_apps.dom().contains(key) ==> !after.button_apps.dom().contains(key)
            &&& state.ring_apps.dom().contains(key) ==> {
                let named = exists|i: int|
                    0 <= i < state.closings.len() && names_editor(
                        #[trigger] state.closings[i],
                        true,
                        key,
                        state.ring_apps[key],
                    );
                after.ring_apps.dom().contains(key) == !named && (!named ==> after.ring_apps[key]
                    == state.ring_apps[key])
            }
            &&& !state.ring_apps.dom().contains(key) ==> !after.ring_apps.dom().contains(key)
            &&& after.records == state.records && after.selected == state.selected
            &&& after.transient == state.transient && after.speeds == state.speeds
            &&& after.current_app == state.current_app && after.recent == state.recent
            &&& after.persistence == state.persistence && after.rejected == state.rejected
        }),
{
    lemma_closing_touches_only_editors(state.marked_saved(), state.closings);
    let after = state.save_done();
    assert(entry(after.button_apps, key) == entry(after.button_apps, key));
    assert(entry(after.ring_apps, key) == entry(after.ring_apps, key));
    if state.button_apps.dom().contains(key) {
        let app = state.button_apps[key];
        assert(entry(state.button_apps, key) == Some(app));
        if crate::desktop::state::closes_buttons(state.closings, key, app) {
            let i = choose|i: int|
                0 <= i < state.closings.len() && (#[trigger] state.closings[i]).buttons
                    && state.closings[i].key == key && state.closings[i].app == app;
            assert(names_editor(state.closings[i], false, key, app));
        }
    }
    if state.ring_apps.dom().contains(key) {
        let app = state.ring_apps[key];
        assert(entry(state.ring_apps, key) == Some(app));
        if crate::desktop::state::closes_ring(state.closings, key, app) {
            let i = choose|i: int|
                0 <= i < state.closings.len() && (#[trigger] state.closings[i]).ring
                    && state.closings[i].key == key && state.closings[i].app == app;
            assert(names_editor(state.closings[i], true, key, app));
        }
    }
}

/// A save that failed takes the edits back, tells why, and forgets what was owed and
/// to be closed; nothing is sent and no editor closes.
pub proof fn law_a_save_that_failed(state: StateModel, reason: Seq<char>)
    ensures
        ({
            let after = state.save_failed(reason);
            &&& after.live == state.saved && after.saved == state.saved
            &&& after.settings == state.saved_settings && after.saved_settings
                == state.saved_settings
            &&& after.refused == Some(reason)
            &&& !after.unsaved && !after.reload_owed
            &&& after.closings.len() == 0
            &&& after.outbox == state.outbox
            &&& after.button_apps == state.button_apps && after.ring_apps == state.ring_apps
            &&& after.records == state.records && after.selected == state.selected
            &&& after.transient == state.transient && after.speeds == state.speeds
            &&& after.persistence == state.persistence
        }),
{
}

/// A change to a configuration file waits to be saved: it is kept with what the agent
/// is owed and what is to be closed, nothing of what is saved changes, and nothing is
/// sent. Without a file it counts as saved at once.
pub proof fn law_a_change_waits_for_its_save(
    state: StateModel,
    reload: bool,
    closing: Option<ClosingModel>,
)
    ensures
        ({
            let after = state.saving(reload, closing);
            &&& state.persistence is UserFile ==> {
                &&& after.unsaved
                &&& after.reload_owed == (state.reload_owed || reload)
                &&& after.live == state.live && after.saved == state.saved
                &&& after.settings == state.settings && after.saved_settings
                    == state.saved_settings
                &&& after.outbox == state.outbox
                &&& after.button_apps == state.button_apps && after.ring_apps == state.ring_apps
                &&& closing is None ==> after.closings == state.closings
                &&& closing is Some ==> after.closings == state.closings.push(closing->0)
            }
            &&& state.persistence is MemoryOnly ==> {
                &&& !after.unsaved
                &&& after.live == state.live && after.saved == state.live
                &&& after.settings == state.settings && after.saved_settings == state.settings
                &&& after.outbox == if state.reload_owed || reload {
                    state.outbox.push(CommandModel::Reload)
                } else {
                    state.outbox
                }
            }
        }),
{
    let changed = StateModel {
        unsaved: true,
        reload_owed: state.reload_owed || reload,
        closings: match closing {
            Some(closing) => state.closings.push(closing),
            None => state.closings,
        },
        ..state
    };
    lemma_closing_touches_only_editors(changed.marked_saved(), changed.closings);
}

/// What a device with settings of a button for an application, or for none, then does.
proof fn lemma_button_bound(
    device: DeviceModel,
    app: Option<Seq<char>>,
    button: ButtonId,
    action: Action,
    other: ButtonId,
)
    ensures
        ({
            let after = with_button(device, app, button, action);
            &&& pressed(effective(after, app))[button] == action
            &&& other != button && (app is None || device.per_app_bindings.dom().contains(app->0)
                || overlay_key(device.per_app_bindings, app->0) is None) ==> pressed(
                effective(after, app),
            )[other] == pressed(effective(device, app))[other]
        }),
{
    if let Some(name) = app {
        let after = with_button(device, app, button, action);
        let before = overrides_at(device.per_app_bindings, name);
        let stored = before.insert(button, action);
        assert(stored.dom().contains(button));
        assert(stored != Map::<ButtonId, Action>::empty()) by {
            assert(!Map::<ButtonId, Action>::empty().dom().contains(button));
        }
        assert(after.per_app_bindings.dom().contains(name));
        assert(after.per_app_bindings[name] == stored);
    }
}

/// A button that was bound does its new action from then on, in the profile that is
/// open, or on the device, or for as long as the device is there where nothing of it
/// is remembered. The other buttons do what they did, unless the profile that is open
/// held only by the name of the executable and now has one of its own.
pub proof fn law_a_bound_button_does_its_action(
    state: StateModel,
    button: ButtonId,
    action: Action,
    other: ButtonId,
)
    requires
        state.current() is Some,
        state.persistence is UserFile || (state.persistence is MemoryOnly && state.closings.len()
            == 0),
    ensures
        ({
            let after = state.button_committed(button, action);
            let own = state.key() is None || state.editing() is None
                || state.device().per_app_bindings.dom().contains(state.editing()->0)
                || overlay_key(state.device().per_app_bindings, state.editing()->0) is None;
            &&& after.button_actions()[button] == action
            &&& other != button && own ==> after.button_actions()[other]
                == state.button_actions()[other]
            &&& state.key() is None ==> after.live == state.live && after.outbox == state.outbox
            &&& state.key() matches Some(key) ==> after.transient == state.transient
                && forall|k: Seq<char>|
                k != key ==> #[trigger] device_at(after.live, k) == device_at(state.live, k)
        }),
{
    if state.key() is Some {
        lemma_button_bound(state.device(), state.editing(), button, action, other);
        let key = state.key()->0;
        let edited = state.with_device(
            key,
            with_button(state.device(), state.editing(), button, action),
        );
        let waiting = StateModel { unsaved: true, reload_owed: true, ..edited };
        lemma_closing_touches_only_editors(waiting.marked_saved(), waiting.closings);
        let done = waiting.marked_saved().all_closed(waiting.closings);
        if state.persistence is MemoryOnly {
            assert(done == waiting.marked_saved());
        }
    }
}

/// A wheel that was bound does its two actions, each in its direction.
pub proof fn law_a_bound_wheel_does_its_actions(state: StateModel, pair: ThumbwheelPair)
    requires
        state.current() is Some,
        state.persistence is UserFile || (state.persistence is MemoryOnly && state.closings.len()
            == 0),
    ensures
        ({
            let after = state.wheel_committed(pair);
            &&& after.button_actions()[ButtonId::ThumbwheelScrollDown] == pair.down
            &&& after.button_actions()[ButtonId::ThumbwheelScrollUp] == pair.up
        }),
{
    if state.key() is Some {
        let device = state.device();
        let app = state.editing();
        let half = with_button(device, app, ButtonId::ThumbwheelScrollDown, pair.down);
        lemma_button_bound(
            device,
            app,
            ButtonId::ThumbwheelScrollDown,
            pair.down,
            ButtonId::ThumbwheelScrollUp,
        );
        if let Some(name) = app {
            let stored = overrides_at(device.per_app_bindings, name).insert(
                ButtonId::ThumbwheelScrollDown,
                pair.down,
            );
            assert(stored.dom().contains(ButtonId::ThumbwheelScrollDown));
            assert(stored != Map::<ButtonId, Action>::empty()) by {
                assert(!Map::<ButtonId, Action>::empty().dom().contains(
                    ButtonId::ThumbwheelScrollDown,
                ));
            }
            assert(half.per_app_bindings.dom().contains(name));
        }
        lemma_button_bound(
            half,
            app,
            ButtonId::ThumbwheelScrollUp,
            pair.up,
            ButtonId::ThumbwheelScrollDown,
        );
        let key = state.key()->0;
        let edited = state.with_device(
            key,
            with_button(half, app, ButtonId::ThumbwheelScrollUp, pair.up),
        );
        let waiting = StateModel { unsaved: true, reload_owed: true, ..edited };
        if state.persistence is MemoryOnly {
            assert(waiting.marked_saved().all_closed(waiting.closings) == waiting.marked_saved());
        }
    }
}

/// What the state of the window is after an edit that is not refused.
proof fn lemma_edited(state: StateModel, device: DeviceModel)
    requires
        state.key() is Some,
        state.persistence is UserFile || (state.persistence is MemoryOnly && state.closings.len()
            == 0),
    ensures
        ({
            let after = state.edited(device);
            &&& after.device() == device
            &&& after.key() == state.key() && after.current() == state.current()
            &&& after.editing() == state.editing() && after.editing_ring() == state.editing_ring()
            &&& forall|k: Seq<char>|
                Some(k) != state.key() ==> #[trigger] device_at(after.live, k) == device_at(
                    state.live,
                    k,
                )
        }),
{
    let edited = state.with_device(state.key()->0, device);
    let waiting = StateModel { unsaved: true, reload_owed: true, ..edited };
    if state.persistence is MemoryOnly {
        assert(waiting.marked_saved().all_closed(waiting.closings) == waiting.marked_saved());
    }
}

/// The profile that was opened is the one that is edited, in its own editor only, and
/// for the device on screen only; opening one stores and sends nothing.
pub proof fn law_the_opened_profile_is_edited(state: StateModel, app: Option<Seq<char>>)
    requires
        state.key() is Some,
    ensures
        state.profile_opened(app).editing() == app,
        state.profile_opened(app).editing_ring() == state.editing_ring(),
        state.ring_opened(app).editing_ring() == app,
        state.ring_opened(app).editing() == state.editing(),
        state.profile_opened(app) == (StateModel {
            button_apps: state.profile_opened(app).button_apps,
            ..state
        }),
        state.ring_opened(app) == (StateModel {
            ring_apps: state.ring_opened(app).ring_apps,
            ..state
        }),
        forall|k: Seq<char>|
            Some(k) != state.key() ==> #[trigger] entry(state.profile_opened(app).button_apps, k)
                == entry(state.button_apps, k) && entry(state.ring_opened(app).ring_apps, k)
                == entry(state.ring_apps, k),
{
}

/// A button whose override was taken back does in the open profile what it does on the
/// device; nothing else of the profile, and nothing of the device, changes.
pub proof fn law_a_cleared_button_follows_the_device(
    state: StateModel,
    button: ButtonId,
    other: ButtonId,
)
    requires
        state.key() is Some,
        state.editing() is Some,
        overlay_key(state.device().per_app_bindings.remove(state.editing()->0), state.editing()->0)
            is None,
        state.persistence is UserFile || (state.persistence is MemoryOnly && state.closings.len()
            == 0),
    ensures
        ({
            let after = state.override_cleared(button);
            &&& after.button_actions()[button] == pressed(state.device().bindings)[button]
            &&& other != button ==> after.button_actions()[other] == state.button_actions()[other]
            &&& after.device().bindings == state.device().bindings
        }),
        state.profile_opened(None).override_cleared(button) == state.profile_opened(None),
{
    let app = state.editing()->0;
    let device = state.device();
    let before = overrides_at(device.per_app_bindings, app);
    let cleared = crate::config::per_app::with_override(device, app, button, None);
    lemma_edited(state, cleared);
    let rest = before.remove(button);
    if rest == Map::<ButtonId, Action>::empty() {
        if other != button {
            assert(!rest.dom().contains(other));
        }
    } else {
        assert(cleared.per_app_bindings.dom().contains(app));
    }
    law_the_opened_profile_is_edited(state, None);
}

/// Switching gesture mode on makes the button gesture and switching it off makes it
/// press, on the device; inside a profile nothing is switched, nor is a button switched
/// on that cannot gesture.
pub proof fn law_gesture_mode_is_switched(state: StateModel, button: ButtonId, enabled: bool)
    requires
        state.persistence is UserFile || (state.persistence is MemoryOnly && state.closings.len()
            == 0),
    ensures
        ({
            let after = state.gesture_switched(button, enabled);
            let allowed = state.key() is Some && state.editing() is None && (!enabled
                || can_gesture(state.current()->0, button));
            &&& !allowed ==> after == state
            &&& allowed ==> (bound(after.device(), button) is Gesture) == enabled
        }),
{
    if state.can_switch_gesture(button, enabled) {
        lemma_edited(
            state,
            if enabled {
                crate::config::gestures::gesture_mode_on(state.device(), button)
            } else {
                crate::config::gestures::gesture_mode_off(state.device(), button)
            },
        );
    }
}

/// A direction that was bound does its action, the other directions of the button do
/// what they did, and so do the other buttons; inside a profile none is bound.
pub proof fn law_a_bound_direction_does_its_action(
    state: StateModel,
    button: ButtonId,
    direction: GestureDirection,
    action: Action,
    other: GestureDirection,
)
    requires
        state.key() is Some,
        state.persistence is UserFile || (state.persistence is MemoryOnly && state.closings.len()
            == 0),
    ensures
        ({
            let after = state.gesture_committed(button, direction, action);
            let before = bound(state.device(), button).gesture_map();
            let now = gesture_maps(after.device())[button];
            &&& state.editing() is Some ==> after == state
            &&& state.editing() is None ==> {
                &&& gesture_maps(after.device()).dom().contains(button)
                &&& now.dom().contains(direction) && now[direction] == action
                &&& other != direction && before.dom().contains(other) ==> now.dom().contains(other)
                    && now[other] == before[other]
                &&& forall|b: ButtonId|
                    b != button ==> #[trigger] bound(after.device(), b) == bound(state.device(), b)
            }
        }),
{
    if state.editing() is None {
        lemma_edited(
            state,
            crate::config::gestures::with_gesture(
                state.device(),
                button,
                bound(state.device(), button).gesture_map().insert(direction, action),
            ),
        );
    }
}

/// A layout that was stored is what the ring editor shows from then on; the layouts of
/// other applications stay, and so does the default one under an application's edit.
pub proof fn law_a_stored_layout_is_shown(
    state: StateModel,
    layout: LayoutModel,
    other: Option<Seq<char>>,
)
    requires
        state.key() is Some,
        state.persistence is UserFile || (state.persistence is MemoryOnly && state.closings.len()
            == 0),
    ensures
        ({
            let after = state.layout_committed(layout);
            &&& after.shown_layout() == layout
            &&& other != state.editing_ring() && (other is None
                || state.device().action_ring.per_app.dom().contains(other->0))
                ==> after.device().action_ring.layout(other) == state.device().action_ring.layout(
                other,
            )
            &&& after.device() == (DeviceModel {
                action_ring: after.device().action_ring,
                ..state.device()
            })
        }),
        state.shown_layout() == state.device().action_ring.layout(state.editing_ring()),
{
    lemma_edited(
        state,
        DeviceModel {
            action_ring: state.device().action_ring.with_layout(state.editing_ring(), layout),
            ..state.device()
        },
    );
}

/// Showing a listed device shows it and changes nothing else; one that is not listed is
/// not shown.
pub proof fn law_a_listed_device_can_be_shown(state: StateModel, index: usize)
    ensures
        index < state.records.len() ==> state.device_shown(index).current() == Some(
            state.records[index as int],
        ) && state.device_shown(index) == (StateModel { selected: index, ..state }),
        index >= state.records.len() ==> state.device_shown(index) == state,
{
}

/// Preferences that were changed hold and are saved with a reload owed, or are what they
/// were where nothing can be written; the same ones again change nothing.
pub proof fn law_changed_preferences_are_saved(state: StateModel, settings: AppSettings)
    ensures
        settings == state.settings ==> state.preferring(settings) == state,
        settings != state.settings ==> {
            let after = state.preferring(settings);
            &&& state.persistence is UserFile ==> after.settings == settings && after.unsaved
                && after.reload_owed && after.saved_settings == state.saved_settings
            &&& state.persistence is MemoryOnly ==> after.settings == settings
                && after.saved_settings == settings && after.outbox == state.outbox.push(
                CommandModel::Reload,
            )
            &&& state.persistence is ReadOnly ==> after.settings == state.saved_settings
                && after.outbox == state.outbox
        },
{
    let changed = StateModel { settings, ..state };
    let waiting = StateModel { unsaved: true, reload_owed: true, ..changed };
    lemma_closing_touches_only_editors(waiting.marked_saved(), waiting.closings);
}

/// A speed is asked for once: the first time it is asked over the device's own route
/// under the given ticket, and then it counts as being read. A speed that is applied
/// shows at once and is written over that route. A device without a route is neither
/// asked nor written to.
pub proof fn law_a_speed_is_asked_once_and_applied_at_once(
    state: StateModel,
    ticket: u64,
    later: u64,
    speed: PointerSpeed,
)
    ensures
        ({
            let asked = state.speed_asked(ticket);
            let applied = state.speed_applied(speed);
            &&& state.current() is None || state.current()->0.route is None ==> asked == state
                && applied == state
            &&& state.current() is Some && state.current()->0.route is Some ==> {
                let key = state.current()->0.config_key;
                let route = state.current()->0.route->0;
                &&& load_at(state.speeds, key) is Unknown ==> asked.outbox == state.outbox.push(
                    CommandModel::ReadPointerSpeed { route, ticket },
                ) && load_at(asked.speeds, key) is Loading
                &&& !(load_at(state.speeds, key) is Unknown) ==> asked == state
                &&& asked.speed_asked(later) == asked
                &&& load_at(applied.speeds, key) == LoadModel::Ready(speed)
                &&& applied.outbox == state.outbox.push(
                    CommandModel::SetPointerSpeed { route, speed },
                )
                &&& applied.live == state.live && asked.live == state.live
            }
        }),
{
}

/// Without a device on screen nothing is bound.
pub proof fn law_nothing_is_bound_without_a_device(
    state: StateModel,
    button: ButtonId,
    action: Action,
    pair: ThumbwheelPair,
    device: DeviceModel,
)
    ensures
        state.current() is None ==> state.button_committed(button, action) == state
            && state.wheel_committed(pair) == state,
        state.key() is None ==> state.edited(device) == state,
{
}

/// The presets of the wheel turn the same thing one way and the other.
pub proof fn law_wheel_presets_go_both_ways(preset: ThumbwheelPreset)
    ensures
        preset.pair_spec().down != preset.pair_spec().up,
        ThumbwheelPreset::HorizontalScroll.pair_spec() == (ThumbwheelPair {
            down: crate::binding::default_binding_spec(ButtonId::ThumbwheelScrollDown),
            up: crate::binding::default_binding_spec(ButtonId::ThumbwheelScrollUp),
        }),
        ThumbwheelPreset::Volume.pair_spec().down == Action::VolumeDown,
        ThumbwheelPreset::Volume.pair_spec().up == Action::VolumeUp,
        ThumbwheelPreset::CycleDpi.pair_spec().up == Action::CycleDpiPresets,
        ThumbwheelPreset::CycleDpi.pair_spec().down == Action::CycleDpiPresetsBack,
{
}

/// A button dispatches gestures exactly while it is bound to some. The gesture button
/// and the DPI button then answer to every direction; any other one to those it is
/// bound in, each with what it is bound to.
pub proof fn law_gestures_are_dispatched_as_bound(
    device: DeviceModel,
    button: ButtonId,
    direction: GestureDirection,
    record: RecordModel,
)
    ensures
        gesture_maps(device).dom().contains(button) == (bound(device, button) is Gesture),
        bound(device, button) matches BindingModel::Gesture(map) ==> {
            let shown = gesture_maps(device)[button];
            &&& map.dom().contains(direction) ==> shown.dom().contains(direction)
                && shown[direction] == map[direction]
            &&& button == ButtonId::GestureButton || button == ButtonId::DpiToggle
                ==> shown.dom().contains(direction)
            &&& button != ButtonId::GestureButton && button != ButtonId::DpiToggle ==> shown == map
        },
        can_gesture(record, button) ==> button == ButtonId::GestureButton || button
            == ButtonId::Back || button == ButtonId::Forward || button == ButtonId::DpiToggle,
        can_gesture(record, ButtonId::GestureButton) && can_gesture(record, ButtonId::Back)
            && can_gesture(record, ButtonId::Forward),
        can_gesture(record, ButtonId::DpiToggle) == (record.capabilities is Some
            && record.capabilities->0.dpi_gestures),
        bound(device, button) is Gesture ==> dispatched(device, button)
            == gesture_maps(device)[button],
{
}

/// The directions of the gesture buttons are counted button by button.
pub proof fn law_directions_are_counted_by_button(
    maps: Map<ButtonId, Map<GestureDirection, Action>>,
    button: ButtonId,
)
    ensures
        directions_below(maps, 0) == 0,
        ({
            let rank = button.rank_spec() as int;
            directions_below(maps, rank + 1) - directions_below(maps, rank)
                == if maps.dom().contains(button) {
                maps[button].dom().len() as int
            } else {
                0
            }
        }),
{
}

/// Presenter settings that were edited in a profile, or on the device, are what that
/// profile then shows; those of the device stay under a profile's edit.
pub proof fn law_edited_presenter_settings_are_shown(
    state: StateModel,
    app: Seq<char>,
    settings: PresenterSettings,
)
    requires
        state.key() is Some,
        state.persistence is UserFile || (state.persistence is MemoryOnly && state.closings.len()
            == 0),
    ensures
        ({
            let in_app = state.edited(
                StateModel::with_presenter(state.device(), Some(app), settings),
            );
            let on_device = state.edited(
                StateModel::with_presenter(state.device(), None, settings),
            );
            &&& in_app.presenter(Some(app)) == settings
            &&& in_app.presenter(None) == state.presenter(None)
            &&& on_device.presenter(None) == settings
            &&& state.device().per_app_presenter.dom().contains(app) ==> on_device.presenter(
                Some(app),
            ) == state.presenter(Some(app))
            &&& in_app.device().bindings == state.device().bindings
            &&& in_app.device().per_app_bindings == state.device().per_app_bindings
        }),
{
    let a = state.with_device(
        state.key()->0,
        StateModel::with_presenter(state.device(), Some(app), settings),
    );
    let b = state.with_device(
        state.key()->0,
        StateModel::with_presenter(state.device(), None, settings),
    );
    let waiting_a = StateModel { unsaved: true, reload_owed: true, ..a };
    let waiting_b = StateModel { unsaved: true, reload_owed: true, ..b };
    if state.persistence is MemoryOnly {
        assert(waiting_a.marked_saved().all_closed(waiting_a.closings)
            == waiting_a.marked_saved());
        assert(waiting_b.marked_saved().all_closed(waiting_b.closings)
            == waiting_b.marked_saved());
    }
}

/// The presenter's four buttons, and no others, are shown with what a press of them
/// does in the profile, or by default where the device is not remembered.
pub proof fn law_presenter_buttons_do_what_a_press_does(
    state: StateModel,
    profile: Option<Seq<char>>,
    button: ButtonId,
)
    ensures
        state.presenter_actions(profile).dom().contains(button) == (button
            == ButtonId::PresenterNext || button == ButtonId::PresenterNextHold || button
            == ButtonId::PresenterBack || button == ButtonId::PresenterBackHold),
        state.key() is Some && state.presenter_actions(profile).dom().contains(button)
            ==> state.presenter_actions(profile)[button] == pressed(
            effective(state.device(), profile),
        )[button],
        state.key() is None ==> state.presenter_actions(profile).dom().contains(
            ButtonId::PresenterNext,
        ) && state.presenter_actions(profile)[ButtonId::PresenterNext] == Action::PresenterNext,
{
}

/// A device can be reached exactly when the one on screen has a route, under its key
/// and by that route; a speed that was never asked for is unknown.
pub proof fn law_a_device_is_reached_by_its_route(
    state: StateModel,
    speeds: Map<Seq<char>, LoadModel>,
    key: Seq<char>,
)
    ensures
        (state.reachable() is Some) == (state.current() is Some && state.current()->0.route is Some),
        state.reachable() matches Some((key, route)) ==> key == state.current()->0.config_key
            && state.current()->0.route == Some(route),
        speeds.dom().contains(key) ==> load_at(speeds, key) == speeds[key],
        !speeds.dom().contains(key) ==> load_at(speeds, key) == LoadModel::Unknown,
{
}

/// What a press of a button does: what it is bound to, or its default.
pub proof fn law_an_unbound_button_does_its_default(
    bindings: Map<ButtonId, BindingModel>,
    button: ButtonId,
)
    ensures
        bindings.dom().contains(button) ==> pressed(bindings)[button]
            == bindings[button].click_action(),
        !bindings.dom().contains(button) ==> pressed(bindings)[button]
            == crate::binding::default_binding_spec(button),
        pressed(bindings).dom().contains(button),
{
}

/// Removing a profile takes what resetting it takes, and closes its editors too;
/// removing all of it takes the buttons and the ring.
pub proof fn law_removing_is_resetting_and_closing()
    ensures
        ProfileCommand::RemoveButtons.sections_spec() == (Sections {
            close: true,
            ..ProfileCommand::ResetButtons.sections_spec()
        }),
        ProfileCommand::RemoveRing.sections_spec() == (Sections {
            close: true,
            ..ProfileCommand::ResetRing.sections_spec()
        }),
        !ProfileCommand::ResetButtons.sections_spec().close,
        !ProfileCommand::ResetRing.sections_spec().close,
        ProfileCommand::ResetButtons.sections_spec().buttons,
        !ProfileCommand::ResetButtons.sections_spec().ring,
        ProfileCommand::ResetRing.sections_spec().ring,
        !ProfileCommand::ResetRing.sections_spec().buttons,
        ProfileCommand::RemoveAll.sections_spec() == (Sections {
            buttons: true,
            ring: true,
            close: true,
        }),
{
}

/// Of a device, the sections of a profile that are to go are gone afterwards, those of
/// every other profile stay, and so does everything that belongs to no profile. There
/// is something to go exactly where one of those sections is stored.
pub proof fn law_the_sections_of_a_profile_go(
    device: DeviceModel,
    app: Seq<char>,
    other: Seq<char>,
    sections: Sections,
)
    requires
        other != app,
    ensures
        ({
            let after = without_sections(device, app, sections);
            &&& sections.buttons ==> !after.per_app_bindings.dom().contains(app)
                && !after.per_app_presenter.dom().contains(app)
            &&& sections.ring ==> !after.action_ring.per_app.dom().contains(app)
            &&& !sections.buttons ==> after.per_app_bindings == device.per_app_bindings
                && after.per_app_presenter == device.per_app_presenter
            &&& !sections.ring ==> after.action_ring == device.action_ring
            &&& after.per_app_bindings.dom().contains(other)
                == device.per_app_bindings.dom().contains(other)
            &&& after.per_app_presenter.dom().contains(other)
                == device.per_app_presenter.dom().contains(other)
            &&& after.action_ring.per_app.dom().contains(other)
                == device.action_ring.per_app.dom().contains(other)
            &&& after.bindings == device.bindings && after.presenter == device.presenter
                && after.action_ring.default == device.action_ring.default && after.links
                == device.links && after.identity == device.identity && after.dpi == device.dpi
                && after.disabled_gestures == device.disabled_gestures
            &&& !stores_sections(after, app, sections)
            &&& stores_sections(device, app, sections) == ((sections.buttons
                && device.per_app_bindings.dom().contains(app)) || (sections.buttons
                && device.per_app_presenter.dom().contains(app)) || (sections.ring
                && device.action_ring.per_app.dom().contains(app)))
        }),
{
}

/// A profile of a remembered device is forgotten as asked, unless the configuration
/// cannot be written; of a device that is not listed nothing is.
pub proof fn law_a_profile_is_forgotten(
    state: StateModel,
    key: Seq<char>,
    app: Seq<char>,
    sections: Sections,
)
    ensures
        ({
            let after = state.forgotten(key, app, sections);
            let device = device_at(after.live, key);
            let listed = exists|i: int|
                0 <= i < state.records.len() && (#[trigger] state.records[i]).config_key == key
                    && state.records[i].persistent;
            &&& !listed ==> after == state
            &&& listed && !(state.persistence is ReadOnly) ==> {
                &&& sections.buttons ==> !device.per_app_bindings.dom().contains(app)
                    && !device.per_app_presenter.dom().contains(app)
                &&& sections.ring ==> !device.action_ring.per_app.dom().contains(app)
            }
        }),
{
    let changed = state.with_device(
        key,
        without_sections(device_at(state.live, key), app, sections),
    );
    let waiting = StateModel {
        unsaved: true,
        reload_owed: true,
        closings: state.closings.push(
            crate::desktop::profile_edits::closing_for(key, app, sections),
        ),
        ..changed
    };
    lemma_closing_touches_only_editors(waiting.marked_saved(), waiting.closings);
}

} // verus!
