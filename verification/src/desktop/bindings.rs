//! Edits of buttons, gestures and the ring of the device on screen.

use vstd::prelude::*;
use crate::action_ring::{
    with_action, with_icon, ActionRing, ActionRingIcon, ActionRingLayout, ActionRingSlot,
    LayoutModel, RingAction,
};
use crate::binding::{
    default_binding, default_binding_for, default_binding_spec, filled_gesture_map, Action, Binding,
    BindingModel, ButtonId, GestureDirection,
};
use crate::config::gestures::{bound, gesture_mode_off, gesture_mode_on, with_gesture};
use crate::config::per_app::{effective, overrides_at, with_override};
use crate::config::{device_at, Config, DeviceModel};
use crate::desktop::events::{Event, EventModel, StateEvents};
use crate::desktop::profiles::text_view;
use crate::desktop::state::{AppState, RecordModel, StateModel};
use crate::order::{Duplicate, Key};
use crate::table::Table;

verus! {

/// The views of a text that may be missing.
pub open spec fn str_view(text: Option<&str>) -> Option<Seq<char>> {
    match text {
        Some(text) => Some(text@),
        None => None,
    }
}

/// `device` with a button bound: in an application's profile, or for itself.
pub open spec fn with_button(
    device: DeviceModel,
    app: Option<Seq<char>>,
    button: ButtonId,
    action: Action,
) -> DeviceModel {
    match app {
        Some(app) => with_override(device, app, button, Some(action)),
        None => DeviceModel {
            bindings: device.bindings.insert(button, BindingModel::Single(action)),
            ..device
        },
    }
}

/// Binds a button in an application's profile, or for the device itself.
fn bind_button(
    config: &mut Config,
    key: &str,
    app: Option<&str>,
    button: ButtonId,
    action: Action,
)
    ensures
        final(config)@ == old(config)@.insert(
            key@,
            with_button(device_at(old(config)@, key@), str_view(app), button, action),
        ),
{
    match app {
        Some(app) => config.set_per_app_binding(key, app, button, Some(action)),
        None => config.set_binding(key, button, Binding::Single(action)),
    }
}

/// What the two directions of the thumb wheel do.
#[derive(Clone, Copy, Debug, PartialEq, Eq, Structural)]
pub struct ThumbwheelPair {
    /// Rotated down.
    pub down: Action,
    /// Rotated up.
    pub up: Action,
}

/// A pair of thumb wheel actions that belong together.
#[derive(Clone, Copy, Debug, PartialEq, Eq, Structural)]
pub enum ThumbwheelPreset {
    /// Scroll sideways.
    HorizontalScroll,
    /// Change the volume.
    Volume,
    /// Step through the DPI presets.
    CycleDpi,
}

impl ThumbwheelPreset {
    /// What the two directions do.
    pub open spec fn pair_spec(self) -> ThumbwheelPair {
        match self {
            ThumbwheelPreset::HorizontalScroll => ThumbwheelPair {
                down: Action::HorizontalScrollLeft,
                up: Action::HorizontalScrollRight,
            },
            ThumbwheelPreset::Volume => ThumbwheelPair {
                down: Action::VolumeDown,
                up: Action::VolumeUp,
            },
            ThumbwheelPreset::CycleDpi => ThumbwheelPair {
                down: Action::CycleDpiPresetsBack,
                up: Action::CycleDpiPresets,
            },
        }
    }

    /// What the two directions do.
    pub fn pair(self) -> (pair: ThumbwheelPair)
        ensures
            pair == self.pair_spec(),
    {
        match self {
            ThumbwheelPreset::HorizontalScroll => ThumbwheelPair {
                down: Action::HorizontalScrollLeft,
                up: Action::HorizontalScrollRight,
            },
            ThumbwheelPreset::Volume => ThumbwheelPair {
                down: Action::VolumeDown,
                up: Action::VolumeUp,
            },
            ThumbwheelPreset::CycleDpi => ThumbwheelPair {
                down: Action::CycleDpiPresetsBack,
                up: Action::CycleDpiPresets,
            },
        }
    }
}

/// `device` with both directions of the thumb wheel bound.
pub open spec fn with_wheel(
    device: DeviceModel,
    app: Option<Seq<char>>,
    pair: ThumbwheelPair,
) -> DeviceModel {
    with_button(
        with_button(device, app, ButtonId::ThumbwheelScrollDown, pair.down),
        app,
        ButtonId::ThumbwheelScrollUp,
        pair.up,
    )
}

/// Binds both directions of the thumb wheel, in memory and, for a device that
/// can carry it, in the configuration. Says whether there is something to save.
pub fn apply_thumbwheel_pair(
    bindings: &mut Table<ButtonId, Action>,
    config: &mut Config,
    key: Option<&str>,
    app: Option<&str>,
    pair: ThumbwheelPair,
) -> (persisted: bool)
    ensures
        persisted == key is Some,
        final(bindings)@ == old(bindings)@.insert(ButtonId::ThumbwheelScrollDown, pair.down).insert(
            ButtonId::ThumbwheelScrollUp,
            pair.up,
        ),
        final(config)@ == match key {
            Some(key) => old(config)@.insert(
                key@,
                with_wheel(device_at(old(config)@, key@), str_view(app), pair),
            ),
            None => old(config)@,
        },
{
    bindings.insert(ButtonId::ThumbwheelScrollDown, pair.down);
    bindings.insert(ButtonId::ThumbwheelScrollUp, pair.up);
    match key {
        Some(key) => {
            let ghost start = config@;
            bind_button(config, key, app, ButtonId::ThumbwheelScrollDown, pair.down);
            let ghost first = config@[key@];
            bind_button(config, key, app, ButtonId::ThumbwheelScrollUp, pair.up);
            assert(config@ =~= start.insert(key@, with_wheel(device_at(start, key@), str_view(app), pair)));
            true
        },
        None => false,
    }
}

/// What each button does on a plain press, given what is bound: its default
/// where nothing is.
pub open spec fn pressed(bindings: Map<ButtonId, BindingModel>) -> Map<ButtonId, Action> {
    Map::new(
        |button: ButtonId| true,
        |button: ButtonId|
            if bindings.dom().contains(button) {
                bindings[button].click_action()
            } else {
                default_binding_spec(button)
            },
    )
}

/// Actions as bindings of one action each.
pub open spec fn single(actions: Map<ButtonId, Action>) -> Map<ButtonId, BindingModel> {
    Map::new(
        |button: ButtonId| actions.dom().contains(button),
        |button: ButtonId| BindingModel::Single(actions[button]),
    )
}

/// What each button does on a plain press.
fn press_actions(bindings: &Table<ButtonId, Binding>) -> (actions: Table<ButtonId, Action>)
    ensures
        actions@ == pressed(bindings@),
{
    let all = ButtonId::all();
    let mut actions: Table<ButtonId, Action> = Table::new();
    let mut i: usize = 0;
    while i < all.len()
        invariant
            i <= all.len(),
            all@ == ButtonId::all_spec(),
            forall|b: ButtonId| #[trigger] actions@.dom().contains(b) <==> b.rank_spec() < i,
            forall|b: ButtonId| #[trigger]
                actions@.dom().contains(b) ==> actions@[b] == pressed(bindings@)[b],
        decreases all.len() - i,
    {
        let button = all[i];
        assert(button.rank_spec() == i);
        assert forall|b: ButtonId| b.rank_spec() == i implies b == button by {
            ButtonId::before_total(b, button);
        }
        let action = match bindings.get(&button) {
            Some(binding) => binding.click_action(),
            None => default_binding(button),
        };
        actions.insert(button, action);
        i = i + 1;
    }
    assert(actions@ =~= pressed(bindings@));
    actions
}

/// Whether a device can take a button into gesture mode: the dedicated button
/// and the thumb buttons always, the button behind the wheel only when it is known
/// to report movement, and no other.
pub open spec fn can_gesture(record: RecordModel, button: ButtonId) -> bool {
    match button {
        ButtonId::GestureButton => true,
        ButtonId::Back => true,
        ButtonId::Forward => true,
        ButtonId::DpiToggle => record.capabilities matches Some(known) && known.dpi_gestures,
        _ => false,
    }
}

/// Whether the directions of a button are dispatched by the device, with unbound
/// ones at their default.
pub open spec fn seeded(button: ButtonId) -> bool {
    button == ButtonId::GestureButton || button == ButtonId::DpiToggle
}

/// The direction map of a button in gesture mode, as it is dispatched.
pub open spec fn dispatched(device: DeviceModel, button: ButtonId) -> Map<GestureDirection, Action> {
    if seeded(button) {
        filled_gesture_map(bound(device, button).gesture_map())
    } else {
        bound(device, button).gesture_map()
    }
}

/// The direction maps of every button in gesture mode.
pub open spec fn gesture_maps(device: DeviceModel) -> Map<ButtonId, Map<GestureDirection, Action>> {
    Map::new(
        |button: ButtonId| bound(device, button).is_gesture(),
        |button: ButtonId| dispatched(device, button),
    )
}

/// How many directions are bound over the buttons of lower rank than `rank`.
pub open spec fn directions_below(
    maps: Map<ButtonId, Map<GestureDirection, Action>>,
    rank: int,
) -> int
    decreases rank,
{
    if rank <= 0 {
        0
    } else {
        let button = ButtonId::all_spec()[rank - 1];
        directions_below(maps, rank - 1) + if maps.dom().contains(button) {
            maps[button].dom().len() as int
        } else {
            0
        }
    }
}

impl StateModel {
    /// What the buttons of the open profile do on a plain press.
    pub open spec fn button_actions(self) -> Map<ButtonId, Action> {
        match self.key() {
            Some(key) => pressed(effective(device_at(self.live, key), self.editing())),
            None => pressed(single(self.transient)),
        }
    }

    /// The state after the device on screen was edited and saved.
    pub open spec fn edited(self, device: DeviceModel) -> StateModel {
        match self.key() {
            Some(key) => self.with_device(key, device).saving(true, None),
            None => self,
        }
    }

    /// What the configuration holds of the device on screen.
    pub open spec fn device(self) -> DeviceModel {
        match self.key() {
            Some(key) => device_at(self.live, key),
            None => crate::config::blank_device(),
        }
    }

    /// The state after a button was bound in the open profile.
    pub open spec fn button_committed(self, button: ButtonId, action: Action) -> StateModel {
        if self.current() is None {
            self
        } else if self.key() is None {
            StateModel { transient: self.transient.insert(button, action), ..self }
        } else {
            self.edited(with_button(self.device(), self.editing(), button, action))
        }
    }

    /// The state after both directions of the thumb wheel were bound.
    pub open spec fn wheel_committed(self, pair: ThumbwheelPair) -> StateModel {
        if self.current() is None {
            self
        } else if self.key() is None {
            StateModel {
                transient: self.transient.insert(ButtonId::ThumbwheelScrollDown, pair.down).insert(
                    ButtonId::ThumbwheelScrollUp,
                    pair.up,
                ),
                ..self
            }
        } else {
            self.edited(with_wheel(self.device(), self.editing(), pair))
        }
    }

    /// The state once a profile was opened in the buttons editor.
    pub open spec fn profile_opened(self, app: Option<Seq<char>>) -> StateModel {
        match self.key() {
            Some(key) => StateModel {
                button_apps: match app {
                    Some(app) => self.button_apps.insert(key, app),
                    None => self.button_apps.remove(key),
                },
                ..self
            },
            None => self,
        }
    }

    /// The state once a profile was opened in the ring editor.
    pub open spec fn ring_opened(self, app: Option<Seq<char>>) -> StateModel {
        match self.key() {
            Some(key) => StateModel {
                ring_apps: match app {
                    Some(app) => self.ring_apps.insert(key, app),
                    None => self.ring_apps.remove(key),
                },
                ..self
            },
            None => self,
        }
    }

    /// The state once the open profile gave up its override of a button.
    pub open spec fn override_cleared(self, button: ButtonId) -> StateModel {
        match self.editing() {
            Some(app) => self.edited(with_override(self.device(), app, button, None)),
            None => self,
        }
    }

    /// The state once a button was taken into or out of gesture mode, where it can be.
    pub open spec fn gesture_switched(self, button: ButtonId, enabled: bool) -> StateModel {
        if self.can_switch_gesture(button, enabled) {
            self.edited(
                if enabled {
                    gesture_mode_on(self.device(), button)
                } else {
                    gesture_mode_off(self.device(), button)
                },
            )
        } else {
            self
        }
    }

    /// The state once a direction of a button was bound.
    pub open spec fn gesture_committed(
        self,
        button: ButtonId,
        direction: GestureDirection,
        action: Action,
    ) -> StateModel {
        if self.editing() is None {
            self.edited(
                with_gesture(
                    self.device(),
                    button,
                    bound(self.device(), button).gesture_map().insert(direction, action),
                ),
            )
        } else {
            self
        }
    }

    /// The state once a layout was stored for the profile open in the ring editor.
    pub open spec fn layout_committed(self, layout: LayoutModel) -> StateModel {
        self.edited(
            DeviceModel {
                action_ring: self.device().action_ring.with_layout(self.editing_ring(), layout),
                ..self.device()
            },
        )
    }

    /// The layout that the ring editor shows.
    pub open spec fn shown_layout(self) -> LayoutModel {
        self.device().action_ring.layout(self.editing_ring())
    }

    /// Whether gesture mode of a button can be switched from here.
    pub open spec fn can_switch_gesture(self, button: ButtonId, enabled: bool) -> bool {
        &&& self.key() is Some
        &&& self.editing() is None
        &&& !enabled || can_gesture(self.current()->0, button)
    }

    /// What the bindings of the device on screen are announced as.
    pub open spec fn bindings_event(self) -> Seq<EventModel> {
        self.announced(|key: Seq<char>| EventModel::BindingsChanged(key))
    }
}

impl AppState {
    /// Announces that the bindings of the device on screen changed.
    pub(crate) fn bindings_changed(&self) -> (events: StateEvents)
        ensures
            events@ == self@.bindings_event(),
    {
        match self.current_record() {
            Some(record) => StateEvents::of(Event::BindingsChanged(record.device_key())),
            None => StateEvents::none(),
        }
    }

    /// The profile open in the buttons editor, none for the device's own.
    pub fn editing_app(&self) -> (app: Option<String>)
        ensures
            text_view(app) == self@.editing(),
    {
        match self.current_config_key() {
            Some(key) => match self.button_apps.get(&key) {
                Some(app) => Some(app.clone()),
                None => None,
            },
            None => None,
        }
    }

    /// Opens a profile in the buttons editor of the device on screen.
    pub fn set_editing_app(&mut self, app: Option<String>) -> (events: StateEvents)
        ensures
            final(self)@ == old(self)@.profile_opened(text_view(app)),
            final(self)@ == match old(self)@.key() {
                Some(key) => StateModel {
                    button_apps: match text_view(app) {
                        Some(app) => old(self)@.button_apps.insert(key, app),
                        None => old(self)@.button_apps.remove(key),
                    },
                    ..old(self)@
                },
                None => old(self)@,
            },
            events@ == if old(self)@.key() is Some {
                old(self)@.bindings_event()
            } else {
                Seq::empty()
            },
    {
        let key = match self.current_config_key() {
            Some(key) => key,
            None => {
                return StateEvents::none();
            },
        };
        let events = self.bindings_changed();
        match app {
            Some(app) => {
                self.button_apps.insert(key, app);
            },
            None => {
                let _ = self.button_apps.remove(&key);
            },
        }
        events
    }

    /// The overrides of the open profile, none when it has none.
    pub fn editing_app_overrides(&self) -> (overrides: Option<&Table<ButtonId, Action>>)
        ensures
            match overrides {
                Some(overrides) => self@.editing() is Some && overrides@ == overrides_at(
                    self@.device().per_app_bindings,
                    self@.editing()->0,
                ) && overrides@ != Map::<ButtonId, Action>::empty(),
                None => self@.editing() is None || overrides_at(
                    self@.device().per_app_bindings,
                    self@.editing()->0,
                ) == Map::<ButtonId, Action>::empty(),
            },
    {
        let key = match self.current_config_key() {
            Some(key) => key,
            None => {
                return None;
            },
        };
        match self.editing_app() {
            Some(app) => self.live.per_app_overrides(key.as_str(), app.as_str()),
            None => None,
        }
    }

    /// What the buttons of the open profile do on a plain press.
    pub fn button_bindings(&self) -> (actions: Table<ButtonId, Action>)
        ensures
            actions@ == self@.button_actions(),
    {
        match self.current_config_key() {
            Some(key) => {
                let app = self.editing_app();
                let bindings = match &app {
                    Some(app) => self.live.effective_bindings(key.as_str(), Some(app.as_str())),
                    None => self.live.effective_bindings(key.as_str(), None),
                };
                press_actions(&bindings)
            },
            None => {
                let all = ButtonId::all();
                let mut bindings: Table<ButtonId, Binding> = Table::new();
                let mut i: usize = 0;
                while i < all.len()
                    invariant
                        i <= all.len(),
                        all@ == ButtonId::all_spec(),
                        forall|b: ButtonId| #[trigger]
                            bindings@.dom().contains(b) <==> b.rank_spec() < i
                                && self@.transient.dom().contains(b),
                        forall|b: ButtonId| #[trigger]
                            bindings@.dom().contains(b) ==> bindings@[b] == BindingModel::Single(
                                self@.transient[b],
                            ),
                    decreases all.len() - i,
                {
                    let button = all[i];
                    assert(button.rank_spec() == i);
                    assert forall|b: ButtonId| b.rank_spec() == i implies b == button by {
                        ButtonId::before_total(b, button);
                    }
                    if let Some(action) = self.transient.get(&button) {
                        bindings.insert(button, Binding::Single(*action));
                    }
                    i = i + 1;
                }
                assert(bindings@ =~= single(self@.transient));
                press_actions(&bindings)
            },
        }
    }

    /// Binds a button in the open profile and saves it.
    pub fn commit_binding(&mut self, button: ButtonId, action: Action) -> (events: StateEvents)
        ensures
            final(self)@ == old(self)@.button_committed(button, action),
            events@ == old(self)@.bindings_event(),
    {
        let events = self.bindings_changed();
        if self.current_record().is_none() {
            return events;
        }
        match self.current_config_key() {
            Some(key) => {
                let app = self.editing_app();
                match &app {
                    Some(app) => bind_button(
                        &mut self.live,
                        key.as_str(),
                        Some(app.as_str()),
                        button,
                        action,
                    ),
                    None => bind_button(&mut self.live, key.as_str(), None, button, action),
                }
                self.save(true, None);
            },
            None => {
                self.transient.insert(button, action);
            },
        }
        events
    }

    /// Takes back the override of a button in the open profile, so that the
    /// device's own binding shows again.
    pub fn clear_app_binding(&mut self, button: ButtonId) -> (events: StateEvents)
        ensures
            final(self)@ == old(self)@.override_cleared(button),
            final(self)@ == match old(self)@.editing() {
                Some(app) => old(self)@.edited(
                    with_override(old(self)@.device(), app, button, None),
                ),
                None => old(self)@,
            },
            events@ == if old(self)@.editing() is Some {
                old(self)@.bindings_event()
            } else {
                Seq::empty()
            },
    {
        let (key, app) = match (self.current_config_key(), self.editing_app()) {
            (Some(key), Some(app)) => (key, app),
            _ => {
                return StateEvents::none();
            },
        };
        let events = self.bindings_changed();
        self.live.set_per_app_binding(key.as_str(), app.as_str(), button, None);
        self.save(true, None);
        events
    }

    /// Binds both directions of the thumb wheel in the open profile.
    pub fn commit_thumbwheel_preset(&mut self, preset: ThumbwheelPreset) -> (events: StateEvents)
        ensures
            final(self)@ == old(self)@.wheel_committed(preset.pair_spec()),
            events@ == old(self)@.bindings_event(),
    {
        let events = self.bindings_changed();
        if self.current_record().is_none() {
            return events;
        }
        let key = self.current_config_key();
        let app = self.editing_app();
        let app = match &app {
            Some(app) => Some(app.as_str()),
            None => None,
        };
        match &key {
            Some(key) => {
                let mut memory: Table<ButtonId, Action> = Table::new();
                let _ = apply_thumbwheel_pair(
                    &mut memory,
                    &mut self.live,
                    Some(key.as_str()),
                    app,
                    preset.pair(),
                );
                self.save(true, None);
            },
            None => {
                let _ = apply_thumbwheel_pair(
                    &mut self.transient,
                    &mut self.live,
                    None,
                    app,
                    preset.pair(),
                );
            },
        }
        events
    }

    /// Takes back both thumb wheel overrides of the open profile at once.
    pub fn clear_app_thumbwheel(&mut self) -> (events: StateEvents)
        ensures
            final(self)@ == match old(self)@.editing() {
                Some(app) => old(self)@.edited(
                    with_override(
                        with_override(
                            old(self)@.device(),
                            app,
                            ButtonId::ThumbwheelScrollDown,
                            None,
                        ),
                        app,
                        ButtonId::ThumbwheelScrollUp,
                        None,
                    ),
                ),
                None => old(self)@,
            },
            events@ == if old(self)@.editing() is Some {
                old(self)@.bindings_event()
            } else {
                Seq::empty()
            },
    {
        let (key, app) = match (self.current_config_key(), self.editing_app()) {
            (Some(key), Some(app)) => (key, app),
            _ => {
                return StateEvents::none();
            },
        };
        let events = self.bindings_changed();
        let ghost start = self.live@;
        self.live.set_per_app_binding(
            key.as_str(),
            app.as_str(),
            ButtonId::ThumbwheelScrollDown,
            None,
        );
        self.live.set_per_app_binding(
            key.as_str(),
            app.as_str(),
            ButtonId::ThumbwheelScrollUp,
            None,
        );
        proof {
            let device = with_override(
                with_override(
                    device_at(start, key@),
                    app@,
                    ButtonId::ThumbwheelScrollDown,
                    None,
                ),
                app@,
                ButtonId::ThumbwheelScrollUp,
                None,
            );
            assert(self.live@ =~= start.insert(key@, device));
        }
        self.save(true, None);
        events
    }

    /// Takes a button into or out of gesture mode. Not from inside a profile:
    /// the mode belongs to the device, and a profile would change every
    /// application. A button that cannot gesture can still leave the mode.
    pub fn commit_gesture_mode(&mut self, button: ButtonId, enabled: bool) -> (events: StateEvents)
        ensures
            final(self)@ == old(self)@.gesture_switched(button, enabled),
            final(self)@ == if old(self)@.can_switch_gesture(button, enabled) {
                old(self)@.edited(
                    if enabled {
                        gesture_mode_on(old(self)@.device(), button)
                    } else {
                        gesture_mode_off(old(self)@.device(), button)
                    },
                )
            } else {
                old(self)@
            },
            events@ == if old(self)@.can_switch_gesture(button, enabled) {
                old(self)@.bindings_event()
            } else {
                Seq::empty()
            },
    {
        let key = match self.current_config_key() {
            Some(key) => key,
            None => {
                return StateEvents::none();
            },
        };
        if self.editing_app().is_some() {
            return StateEvents::none();
        }
        if enabled {
            let dpi_gestures = match self.current_record() {
                Some(record) => match record.capabilities {
                    Some(known) => known.dpi_gestures,
                    None => false,
                },
                None => false,
            };
            let capable = match button {
                ButtonId::GestureButton => true,
                ButtonId::Back => true,
                ButtonId::Forward => true,
                ButtonId::DpiToggle => dpi_gestures,
                _ => false,
            };
            if !capable {
                return StateEvents::none();
            }
        }
        let events = self.bindings_changed();
        self.live.set_gesture_mode(key.as_str(), button, enabled);
        self.save(true, None);
        events
    }

    /// Binds one direction of a button of the device on screen. Not from inside a
    /// profile, which has no directions.
    pub fn commit_gesture_binding(
        &mut self,
        button: ButtonId,
        direction: GestureDirection,
        action: Action,
    ) -> (events: StateEvents)
        ensures
            final(self)@ == old(self)@.gesture_committed(button, direction, action),
            final(self)@ == if old(self)@.editing() is None {
                old(self)@.edited(
                    with_gesture(
                        old(self)@.device(),
                        button,
                        bound(old(self)@.device(), button).gesture_map().insert(direction, action),
                    ),
                )
            } else {
                old(self)@
            },
            events@ == if old(self)@.key() is Some && old(self)@.editing() is None {
                old(self)@.bindings_event()
            } else {
                Seq::empty()
            },
    {
        let key = match self.current_config_key() {
            Some(key) => key,
            None => {
                return StateEvents::none();
            },
        };
        if self.editing_app().is_some() {
            return StateEvents::none();
        }
        let events = self.bindings_changed();
        self.live.set_gesture_direction(key.as_str(), button, direction, action);
        self.save(true, None);
        events
    }

    /// The direction maps of the device on screen, whatever profile is open.
    pub fn gesture_bindings(&self) -> (maps: Table<ButtonId, Table<GestureDirection, Action>>)
        ensures
            maps@ == if self@.key() is Some {
                gesture_maps(self@.device())
            } else {
                Map::empty()
            },
    {
        let mut maps: Table<ButtonId, Table<GestureDirection, Action>> = Table::new();
        let key = match self.current_config_key() {
            Some(key) => key,
            None => {
                return maps;
            },
        };
        let ghost device = self@.device();
        let stored = self.live.stored_bindings(key.as_str());
        let all = ButtonId::all();
        let mut i: usize = 0;
        while i < all.len()
            invariant
                i <= all.len(),
                all@ == ButtonId::all_spec(),
                stored@ == device.bindings,
                forall|b: ButtonId| #[trigger]
                    maps@.dom().contains(b) <==> b.rank_spec() < i && bound(device, b).is_gesture(),
                forall|b: ButtonId| #[trigger]
                    maps@.dom().contains(b) ==> maps@[b] == dispatched(device, b),
            decreases all.len() - i,
        {
            let button = all[i];
            assert(button.rank_spec() == i);
            assert forall|b: ButtonId| b.rank_spec() == i implies b == button by {
                ButtonId::before_total(b, button);
            }
            let binding = match stored.get(&button) {
                Some(binding) => binding.duplicate(),
                None => default_binding_for(button),
            };
            if binding.is_gesture() {
                let shown = match button {
                    ButtonId::GestureButton => binding.fill_gesture_defaults(),
                    ButtonId::DpiToggle => binding.fill_gesture_defaults(),
                    _ => binding,
                };
                maps.insert(button, shown.into_gesture_map());
            }
            i = i + 1;
        }
        assert(maps@ =~= gesture_maps(device));
        maps
    }

    /// The direction maps the open profile offers: none inside a profile of an
    /// application.
    pub fn current_gesture_maps(&self) -> (maps: Table<ButtonId, Table<GestureDirection, Action>>)
        ensures
            maps@ == if self@.key() is Some && self@.editing() is None {
                gesture_maps(self@.device())
            } else {
                Map::empty()
            },
    {
        if self.editing_app().is_some() {
            return Table::new();
        }
        self.gesture_bindings()
    }

    /// How many directions the device on screen has bound.
    pub fn device_gesture_binding_count(&self) -> (count: usize)
        ensures
            count == if self@.key() is Some {
                directions_below(gesture_maps(self@.device()), 17)
            } else {
                0
            },
    {
        let maps = self.gesture_bindings();
        if self.current_config_key().is_none() {
            return 0;
        }
        let all = ButtonId::all();
        let mut count: usize = 0;
        let mut i: usize = 0;
        while i < all.len()
            invariant
                i <= all.len() == 17,
                all@ == ButtonId::all_spec(),
                count == directions_below(maps@, i as int),
            decreases all.len() - i,
        {
            proof {
                lemma_directions_bounded(maps@, i + 1);
                assert(directions_below(maps@, i + 1) == directions_below(maps@, i as int) + if maps@.dom().contains(all@[i as int]) {
                    maps@[all@[i as int]].dom().len() as int
                } else {
                    0
                });
            }
            if let Some(map) = maps.get(&all[i]) {
                count = count + map.len();
            }
            i = i + 1;
        }
        count
    }

    /// The ring of the device on screen; a fresh one when it cannot carry any.
    pub fn current_action_ring(&self) -> (ring: ActionRing)
        ensures
            ring@ == self@.device().action_ring,
    {
        match self.current_config_key() {
            Some(key) => self.live.action_ring(key.as_str()),
            None => ActionRing::default(),
        }
    }

    /// The profile open in the ring editor, none for the default layout.
    pub fn editing_action_ring_app(&self) -> (app: Option<String>)
        ensures
            text_view(app) == self@.editing_ring(),
    {
        match self.current_config_key() {
            Some(key) => match self.ring_apps.get(&key) {
                Some(app) => Some(app.clone()),
                None => None,
            },
            None => None,
        }
    }

    /// Opens a profile in the ring editor. It stores nothing: an unchanged layout
    /// keeps following the default.
    pub fn set_editing_action_ring_app(&mut self, app: Option<String>) -> (events: StateEvents)
        ensures
            final(self)@ == old(self)@.ring_opened(text_view(app)),
            final(self)@ == match old(self)@.key() {
                Some(key) => StateModel {
                    ring_apps: match text_view(app) {
                        Some(app) => old(self)@.ring_apps.insert(key, app),
                        None => old(self)@.ring_apps.remove(key),
                    },
                    ..old(self)@
                },
                None => old(self)@,
            },
            events@ == if old(self)@.key() is Some {
                old(self)@.bindings_event()
            } else {
                Seq::empty()
            },
    {
        let key = match self.current_config_key() {
            Some(key) => key,
            None => {
                return StateEvents::none();
            },
        };
        let events = self.bindings_changed();
        match app {
            Some(app) => {
                self.ring_apps.insert(key, app);
            },
            None => {
                let _ = self.ring_apps.remove(&key);
            },
        }
        events
    }

    /// The layout the ring editor shows.
    pub fn current_action_ring_layout(&self) -> (layout: ActionRingLayout)
        ensures
            layout@ == self@.device().action_ring.layout(self@.editing_ring()),
    {
        let ring = self.current_action_ring();
        let app = self.editing_action_ring_app();
        match &app {
            Some(app) => ring.layout(Some(app.as_str())).duplicate(),
            None => ring.layout(None).duplicate(),
        }
    }

    /// Stores a layout for the profile open in the ring editor and saves it.
    fn commit_layout(&mut self, layout: ActionRingLayout) -> (events: StateEvents)
        ensures
            final(self)@ == old(self)@.layout_committed(layout@),
            final(self)@ == old(self)@.edited(
                DeviceModel {
                    action_ring: old(self)@.device().action_ring.with_layout(
                        old(self)@.editing_ring(),
                        layout@,
                    ),
                    ..old(self)@.device()
                },
            ),
            events@ == if old(self)@.key() is Some {
                old(self)@.bindings_event()
            } else {
                Seq::empty()
            },
    {
        let key = match self.current_config_key() {
            Some(key) => key,
            None => {
                return StateEvents::none();
            },
        };
        let events = self.bindings_changed();
        let app = self.editing_action_ring_app();
        let mut ring = self.live.action_ring(key.as_str());
        match &app {
            Some(app) => ring.set_layout(Some(app.as_str()), layout),
            None => ring.set_layout(None, layout),
        }
        self.live.set_action_ring(key.as_str(), ring);
        self.save(true, None);
        events
    }

    /// Puts an action in a place of the open layout, or empties the place. The
    /// first edit of a profile starts from a copy of the default layout.
    pub fn commit_action_ring_slot(
        &mut self,
        slot: ActionRingSlot,
        action: Option<RingAction>,
    ) -> (events: StateEvents)
        ensures
            final(self)@ == old(self)@.layout_committed(
                with_action(
                    old(self)@.shown_layout(),
                    slot,
                    match action {
                        Some(action) => Some(action.spec_action()),
                        None => None,
                    },
                ),
            ),
            final(self)@ == old(self)@.edited(
                DeviceModel {
                    action_ring: old(self)@.device().action_ring.with_layout(
                        old(self)@.editing_ring(),
                        with_action(
                            old(self)@.device().action_ring.layout(old(self)@.editing_ring()),
                            slot,
                            match action {
                                Some(action) => Some(action.spec_action()),
                                None => None,
                            },
                        ),
                    ),
                    ..old(self)@.device()
                },
            ),
            events@ == if old(self)@.key() is Some {
                old(self)@.bindings_event()
            } else {
                Seq::empty()
            },
    {
        let mut layout = self.current_action_ring_layout();
        layout.set_action(slot, action);
        self.commit_layout(layout)
    }

    /// Chooses a picture for a place of the open layout.
    pub fn commit_action_ring_icon(
        &mut self,
        slot: ActionRingSlot,
        icon: Option<ActionRingIcon>,
    ) -> (events: StateEvents)
        ensures
            final(self)@ == old(self)@.layout_committed(
                with_icon(old(self)@.shown_layout(), slot, icon),
            ),
            final(self)@ == old(self)@.edited(
                DeviceModel {
                    action_ring: old(self)@.device().action_ring.with_layout(
                        old(self)@.editing_ring(),
                        with_icon(
                            old(self)@.device().action_ring.layout(old(self)@.editing_ring()),
                            slot,
                            icon,
                        ),
                    ),
                    ..old(self)@.device()
                },
            ),
            events@ == if old(self)@.key() is Some {
                old(self)@.bindings_event()
            } else {
                Seq::empty()
            },
    {
        let mut layout = self.current_action_ring_layout();
        layout.set_icon(slot, icon);
        self.commit_layout(layout)
    }
}

/// No button has more than five directions.
proof fn lemma_directions_bounded(maps: Map<ButtonId, Map<GestureDirection, Action>>, rank: int)
    requires
        0 <= rank <= 17,
    ensures
        0 <= directions_below(maps, rank) <= 5 * rank,
    decreases rank,
{
    if rank > 0 {
        lemma_directions_bounded(maps, rank - 1);
        let button = ButtonId::all_spec()[rank - 1];
        let all = Set::<GestureDirection>::empty().insert(GestureDirection::Up).insert(
            GestureDirection::Down,
        ).insert(GestureDirection::Left).insert(GestureDirection::Right).insert(
            GestureDirection::Click,
        );
        assert(maps[button].dom().subset_of(all)) by {
            assert forall|d: GestureDirection| maps[button].dom().contains(d) implies all.contains(
                d,
            ) by {
                match d {
                    GestureDirection::Up => {},
                    GestureDirection::Down => {},
                    GestureDirection::Left => {},
                    GestureDirection::Right => {},
                    GestureDirection::Click => {},
                }
            }
        }
        vstd::set_lib::lemma_len_subset(maps[button].dom(), all);
    }
}

/// An edit inside a profile leaves the device's own bindings alone, and the
/// profiles of other applications too.
pub proof fn law_an_edit_in_a_profile_leaves_the_device_alone(
    device: DeviceModel,
    app: Seq<char>,
    other: Seq<char>,
    button: ButtonId,
    action: Action,
)
    ensures
        with_button(device, Some(app), button, action).bindings == device.bindings,
        overrides_at(with_button(device, Some(app), button, action).per_app_bindings, app)
            =~= overrides_at(device.per_app_bindings, app).insert(button, action),
        other != app ==> overrides_at(
            with_button(device, Some(app), button, action).per_app_bindings,
            other,
        ) =~= overrides_at(device.per_app_bindings, other),
{
    let stored = overrides_at(device.per_app_bindings, app).insert(button, action);
    assert(stored.dom().contains(button));
    assert(stored != Map::<ButtonId, Action>::empty()) by {
        assert(!Map::<ButtonId, Action>::empty().dom().contains(button));
    }
}

/// Clearing an override shows the device's own binding again, unless a selector
/// answers for the application, and leaves its other overrides alone.
pub proof fn law_a_cleared_override_falls_back_to_the_device(
    device: DeviceModel,
    app: Seq<char>,
    button: ButtonId,
    action: Action,
)
    requires
        crate::config::per_app::overlay_key(device.per_app_bindings.remove(app), app) is None,
    ensures
        ({
            let set = with_button(device, Some(app), button, action);
            let cleared = with_override(set, app, button, None);
            &&& pressed(effective(set, Some(app)))[button] == action
            &&& pressed(effective(cleared, Some(app)))[button] == pressed(device.bindings)[button]
            &&& overrides_at(cleared.per_app_bindings, app) == overrides_at(
                device.per_app_bindings,
                app,
            ).remove(button)
        }),
{
    let set = with_button(device, Some(app), button, action);
    let stored = overrides_at(device.per_app_bindings, app).insert(button, action);
    assert(stored.dom().contains(button));
    assert(stored != Map::<ButtonId, Action>::empty()) by {
        assert(!Map::<ButtonId, Action>::empty().dom().contains(button));
    }
    assert(set.per_app_bindings.dom().contains(app));
    let cleared = with_override(set, app, button, None);
    assert(overrides_at(set.per_app_bindings, app) == stored);
    assert(stored.remove(button) =~= overrides_at(device.per_app_bindings, app).remove(button));
}

} // verus!
