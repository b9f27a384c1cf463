//! Presenter settings, presenter bindings and pointer speed of the device on
//! screen.

use vstd::prelude::*;
use crate::binding::{default_binding, default_binding_spec, Action, Binding, ButtonId};
use crate::config::per_app::{effective, effective_settings};
use crate::config::{device_at, DeviceModel};
use crate::desktop::bindings::{pressed, str_view, with_button};
use crate::desktop::events::{DeviceKey, Event, EventModel, StateEvents};
use crate::desktop::requests::{Command, ReadPointerSpeed, SetPointerSpeed};
use crate::desktop::state::{entry, AppState, CommandModel, Load, LoadModel, PointerSpeedLoad, StateModel};
use crate::order::Duplicate;
use crate::presenter::{default_settings_spec, PointerSpeed, PresenterSettings};
use crate::route::RouteModel;
use crate::table::Table;

verus! {

/// Whether a button belongs to a presenter.
pub open spec fn presenter_button(button: ButtonId) -> bool {
    match button {
        ButtonId::PresenterNext => true,
        ButtonId::PresenterNextHold => true,
        ButtonId::PresenterBack => true,
        ButtonId::PresenterBackHold => true,
        _ => false,
    }
}

/// The buttons of a presenter, in the order they are listed.
pub open spec fn presenter_buttons_spec() -> Seq<ButtonId> {
    seq![
        ButtonId::PresenterNext,
        ButtonId::PresenterNextHold,
        ButtonId::PresenterBack,
        ButtonId::PresenterBackHold,
    ]
}

/// The buttons of a presenter, in the order they are listed.
pub fn presenter_buttons() -> (buttons: Vec<ButtonId>)
    ensures
        buttons@ == presenter_buttons_spec(),
{
    vec![
        ButtonId::PresenterNext,
        ButtonId::PresenterNextHold,
        ButtonId::PresenterBack,
        ButtonId::PresenterBackHold,
    ]
}

/// What is known of a value nobody asked for.
pub open spec fn load_at(speeds: Map<Seq<char>, LoadModel>, key: Seq<char>) -> LoadModel {
    match entry(speeds, key) {
        Some(load) => load,
        None => Load::Unknown,
    }
}

impl StateModel {
    /// The presenter settings of a profile.
    pub open spec fn presenter(self, profile: Option<Seq<char>>) -> PresenterSettings {
        match self.key() {
            Some(key) => effective_settings(device_at(self.live, key), profile),
            None => default_settings_spec(),
        }
    }

    /// What the presenter buttons of a profile do on a plain press.
    pub open spec fn presenter_actions(self, profile: Option<Seq<char>>) -> Map<ButtonId, Action> {
        Map::new(
            |button: ButtonId| presenter_button(button),
            |button: ButtonId|
                match self.key() {
                    Some(key) => pressed(effective(device_at(self.live, key), profile))[button],
                    None => default_binding_spec(button),
                },
        )
    }

    /// A device with the presenter settings of a profile replaced.
    pub open spec fn with_presenter(
        device: DeviceModel,
        profile: Option<Seq<char>>,
        settings: PresenterSettings,
    ) -> DeviceModel {
        match profile {
            Some(app) => DeviceModel {
                per_app_presenter: device.per_app_presenter.insert(app, settings),
                ..device
            },
            None => DeviceModel { presenter: settings, ..device },
        }
    }

    /// What presenter edits of the device on screen are announced as.
    pub open spec fn presenter_event(self) -> Seq<EventModel> {
        self.announced(|key: Seq<char>| EventModel::PresenterChanged(key))
    }

    /// The state once the pointer speed of the device on screen was asked for, where it
    /// is not known.
    pub open spec fn speed_asked(self, ticket: u64) -> StateModel {
        match self.reachable() {
            Some((key, route)) => if load_at(self.speeds, key) is Unknown {
                StateModel {
                    speeds: self.speeds.insert(key, Load::Loading),
                    outbox: self.outbox.push(CommandModel::ReadPointerSpeed { route, ticket }),
                    ..self
                }
            } else {
                self
            },
            None => self,
        }
    }

    /// The state once a pointer speed was applied to the device on screen.
    pub open spec fn speed_applied(self, speed: PointerSpeed) -> StateModel {
        match self.reachable() {
            Some((key, route)) => StateModel {
                speeds: self.speeds.insert(key, Load::Ready(speed)),
                outbox: self.outbox.push(CommandModel::SetPointerSpeed { route, speed }),
                ..self
            },
            None => self,
        }
    }

    /// The way to the device on screen, with its key.
    pub open spec fn reachable(self) -> Option<(Seq<char>, RouteModel)> {
        match self.current() {
            Some(record) => match record.route {
                Some(route) => Some((record.config_key, route)),
                None => None,
            },
            None => None,
        }
    }
}

impl AppState {
    /// The presenter settings of the open profile.
    pub fn presenter_settings(&self) -> (settings: PresenterSettings)
        ensures
            settings == self@.presenter(self@.editing()),
    {
        let app = self.editing_app();
        match &app {
            Some(app) => self.presenter_settings_for(Some(app.as_str())),
            None => self.presenter_settings_for(None),
        }
    }

    /// The presenter settings of a profile.
    pub fn presenter_settings_for(&self, profile: Option<&str>) -> (settings: PresenterSettings)
        ensures
            settings == self@.presenter(str_view(profile)),
    {
        match self.current_config_key() {
            Some(key) => self.live.effective_presenter(key.as_str(), profile),
            None => PresenterSettings::default(),
        }
    }

    /// What the presenter buttons of a profile do on a plain press.
    pub fn presenter_bindings_for_profile(&self, profile: Option<&str>) -> (actions: Table<
        ButtonId,
        Action,
    >)
        ensures
            actions@ == self@.presenter_actions(str_view(profile)),
    {
        let bindings = match self.current_config_key() {
            Some(key) => self.live.effective_bindings(key.as_str(), profile),
            None => Table::new(),
        };
        let buttons = presenter_buttons();
        let ghost wanted = self@.presenter_actions(str_view(profile));
        let mut actions: Table<ButtonId, Action> = Table::new();
        let mut i: usize = 0;
        while i < buttons.len()
            invariant
                i <= buttons.len() == 4,
                buttons@ == presenter_buttons_spec(),
                wanted == self@.presenter_actions(str_view(profile)),
                bindings@ == match self@.key() {
                    Some(key) => effective(device_at(self@.live, key), str_view(profile)),
                    None => Map::empty(),
                },
                forall|b: ButtonId| #[trigger]
                    actions@.dom().contains(b) ==> presenter_button(b) && actions@[b] == wanted[b],
                forall|j: int| 0 <= j < i ==> actions@.dom().contains(#[trigger] buttons@[j]),
            decreases buttons.len() - i,
        {
            let button = buttons[i];
            assert(presenter_button(button));
            assert(wanted.dom().contains(button));
            let action = match bindings.get(&button) {
                Some(binding) => binding.click_action(),
                None => default_binding(button),
            };
            actions.insert(button, action);
            i = i + 1;
        }
        assert forall|b: ButtonId| presenter_button(b) implies actions@.dom().contains(b) by {
            assert(actions@.dom().contains(buttons@[0]));
            assert(actions@.dom().contains(buttons@[1]));
            assert(actions@.dom().contains(buttons@[2]));
            assert(actions@.dom().contains(buttons@[3]));
        }
        assert(actions@ =~= wanted);
        actions
    }

    /// Stores the presenter settings of a profile and saves them. The agent
    /// resolves the application in front when it reloads, so editing a profile
    /// that is not in front does not leak into the session.
    pub fn commit_presenter_settings_for(
        &mut self,
        profile: Option<&str>,
        settings: PresenterSettings,
    ) -> (events: StateEvents)
        ensures
            final(self)@ == old(self)@.edited(
                StateModel::with_presenter(old(self)@.device(), str_view(profile), settings),
            ),
            events@ == if old(self)@.key() is Some {
                old(self)@.presenter_event()
            } else {
                Seq::empty()
            },
    {
        let key = match self.current_config_key() {
            Some(key) => key,
            None => {
                return StateEvents::none();
            },
        };
        let events = self.presenter_changed();
        match profile {
            Some(app) => self.live.set_per_app_presenter(key.as_str(), app, Some(settings)),
            None => self.live.set_presenter(key.as_str(), settings),
        }
        self.save(true, None);
        events
    }

    /// Binds a presenter button in a profile and saves it.
    pub fn commit_presenter_binding_for(
        &mut self,
        profile: Option<&str>,
        button: ButtonId,
        action: Action,
    ) -> (events: StateEvents)
        ensures
            final(self)@ == old(self)@.edited(
                with_button(old(self)@.device(), str_view(profile), button, action),
            ),
            events@ == if old(self)@.key() is Some {
                old(self)@.presenter_event()
            } else {
                Seq::empty()
            },
    {
        let key = match self.current_config_key() {
            Some(key) => key,
            None => {
                return StateEvents::none();
            },
        };
        let events = self.presenter_changed();
        match profile {
            Some(app) => self.live.set_per_app_binding(key.as_str(), app, button, Some(action)),
            None => self.live.set_binding(key.as_str(), button, Binding::Single(action)),
        }
        self.save(true, None);
        events
    }

    /// Announces that the presenter settings of the device on screen changed.
    fn presenter_changed(&self) -> (events: StateEvents)
        ensures
            events@ == self@.presenter_event(),
    {
        match self.current_record() {
            Some(record) => StateEvents::of(Event::PresenterChanged(record.device_key())),
            None => StateEvents::none(),
        }
    }

    /// Asks for the pointer speed of the device on screen, once.
    pub fn load_current_pointer_speed(&mut self, ticket: u64)
        ensures
            final(self)@ == old(self)@.speed_asked(ticket),
            final(self)@ == match old(self)@.reachable() {
                Some((key, route)) => if load_at(old(self)@.speeds, key) is Unknown {
                    StateModel {
                        speeds: old(self)@.speeds.insert(key, Load::Loading),
                        outbox: old(self)@.outbox.push(
                            CommandModel::ReadPointerSpeed { route, ticket },
                        ),
                        ..old(self)@
                    }
                } else {
                    old(self)@
                },
                None => old(self)@,
            },
    {
        let (key, route) = match self.current_record() {
            Some(record) => match &record.route {
                Some(route) => (record.config_key.clone(), route.duplicate()),
                None => {
                    return;
                },
            },
            None => {
                return;
            },
        };
        let unknown = match self.speeds.get(&key) {
            Some(load) => match load {
                Load::Unknown => true,
                _ => false,
            },
            None => true,
        };
        if unknown {
            self.speeds.insert(key, Load::Loading);
            self.send(Command::ReadPointerSpeed(ReadPointerSpeed { route, ticket }));
        }
    }

    /// What is known of the pointer speed of the device on screen.
    pub fn pointer_speed_status(&self) -> (load: PointerSpeedLoad)
        ensures
            load@ == match self@.current() {
                Some(record) => load_at(self@.speeds, record.config_key),
                None => Load::Unknown,
            },
    {
        match self.current_record() {
            Some(record) => match self.speeds.get(&record.config_key) {
                Some(load) => load.duplicate(),
                None => Load::Unknown,
            },
            None => Load::Unknown,
        }
    }

    /// Forgets what came of reading a pointer speed, so that it is asked again.
    pub fn retry_pointer_speed_read(&mut self, key: &DeviceKey) -> (events: StateEvents)
        ensures
            final(self)@ == (StateModel {
                speeds: old(self)@.speeds.remove(key@),
                ..old(self)@
            }),
            events@ == seq![EventModel::PresenterChanged(key@)],
    {
        let _ = self.speeds.remove(&key.as_str().to_owned());
        StateEvents::of(Event::PresenterChanged(key.duplicate()))
    }

    /// Applies a pointer speed to the device on screen: it shows at once, and the
    /// agent writes it.
    pub fn commit_pointer_speed(&mut self, speed: PointerSpeed) -> (events: StateEvents)
        ensures
            final(self)@ == old(self)@.speed_applied(speed),
            final(self)@ == match old(self)@.reachable() {
                Some((key, route)) => StateModel {
                    speeds: old(self)@.speeds.insert(key, Load::Ready(speed)),
                    outbox: old(self)@.outbox.push(
                        CommandModel::SetPointerSpeed { route, speed },
                    ),
                    ..old(self)@
                },
                None => old(self)@,
            },
            events@ == match old(self)@.reachable() {
                Some((key, _)) => seq![EventModel::PresenterChanged(key)],
                None => Seq::empty(),
            },
    {
        let (key, route) = match self.current_record() {
            Some(record) => match &record.route {
                Some(route) => (record.config_key.clone(), route.duplicate()),
                None => {
                    return StateEvents::none();
                },
            },
            None => {
                return StateEvents::none();
            },
        };
        let event = Event::PresenterChanged(DeviceKey::new(key.as_str()));
        self.speeds.insert(key, Load::Ready(speed));
        self.send(Command::SetPointerSpeed(SetPointerSpeed { route, speed }));
        StateEvents::of(event)
    }
}

/// What a profile's presenter settings were set to is what they read as, and the
/// device's own stay as they were.
pub proof fn law_presenter_settings_read_back(
    device: DeviceModel,
    app: Seq<char>,
    settings: PresenterSettings,
)
    ensures
        effective_settings(StateModel::with_presenter(device, Some(app), settings), Some(app))
            == settings,
        effective_settings(StateModel::with_presenter(device, Some(app), settings), None)
            == device.presenter,
        effective_settings(StateModel::with_presenter(device, None, settings), None) == settings,
{
}

} // verus!
