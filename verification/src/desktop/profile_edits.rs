//! Resetting and removing the profiles of applications, and what the selectors
//! of the editors list.

use vstd::prelude::*;
use crate::config::per_app::{overridden, overrides_at, texts, without_profile};
use crate::config::{device_at, DeviceModel};
use crate::desktop::events::{DeviceKey, Event, EventModel, StateEvents};
use crate::desktop::profiles::{
    choices_view, display_name_of, listed_profiles, offered_recent, profile_scope_model,
    profile_summary, shown_name, stored_apps, strings_view, summary_spec, text_view, ChoiceModel,
    ProfileChoice,
    ProfileCommand, ProfileScopeModel, ProfileSummary,
};
use crate::desktop::state::{
    closes_buttons, closes_ring, entry, lemma_closing_touches_only_editors, lemma_one_more_closing,
    AppState, Closing, ClosingModel, StateModel,
};
use crate::hook::foreground::AppModel;
use crate::order::Duplicate;
use crate::table::ascending_keys;

verus! {

/// Which sections of a profile an edit is about, and whether their editors close.
#[derive(Clone, Copy, Debug, PartialEq, Eq, Structural)]
pub struct Sections {
    /// Button and presenter overrides.
    pub buttons: bool,
    /// The ring layout.
    pub ring: bool,
    /// Whether the editors of these sections close.
    pub close: bool,
}

/// What stands above the picture of a device.
#[derive(Debug, PartialEq, Eq)]
pub struct ProfileStatus {
    /// How much the open profile overrides.
    pub summary: ProfileSummary,
    /// The name of its application, or none for the default profile.
    pub app: Option<String>,
    /// The name of the profile the device runs under, or none for the default.
    pub active: Option<String>,
}

impl ProfileCommand {
    /// Which sections the command is about.
    pub open spec fn sections_spec(self) -> Sections {
        match self {
            ProfileCommand::ResetButtons => Sections { buttons: true, ring: false, close: false },
            ProfileCommand::RemoveButtons => Sections { buttons: true, ring: false, close: true },
            ProfileCommand::ResetRing => Sections { buttons: false, ring: true, close: false },
            ProfileCommand::RemoveRing => Sections { buttons: false, ring: true, close: true },
            ProfileCommand::RemoveAll => Sections { buttons: true, ring: true, close: true },
        }
    }

    /// Which sections the command is about.
    pub fn sections(self) -> (sections: Sections)
        ensures
            sections == self.sections_spec(),
    {
        match self {
            ProfileCommand::ResetButtons => Sections { buttons: true, ring: false, close: false },
            ProfileCommand::RemoveButtons => Sections { buttons: true, ring: false, close: true },
            ProfileCommand::ResetRing => Sections { buttons: false, ring: true, close: false },
            ProfileCommand::RemoveRing => Sections { buttons: false, ring: true, close: true },
            ProfileCommand::RemoveAll => Sections { buttons: true, ring: true, close: true },
        }
    }
}

/// Whether a device stores any of these sections for `app`.
pub open spec fn stores_sections(device: DeviceModel, app: Seq<char>, sections: Sections) -> bool {
    ||| sections.buttons && (device.per_app_bindings.dom().contains(app)
        || device.per_app_presenter.dom().contains(app))
    ||| sections.ring && device.action_ring.per_app.dom().contains(app)
}

/// A device without these sections of the profile for `app`.
pub open spec fn without_sections(
    device: DeviceModel,
    app: Seq<char>,
    sections: Sections,
) -> DeviceModel {
    let kept = if sections.buttons {
        without_profile(device, app)
    } else {
        device
    };
    if sections.ring {
        DeviceModel { action_ring: kept.action_ring.without_layout(app), ..kept }
    } else {
        kept
    }
}

/// The editors a command closes.
pub open spec fn closing_for(key: Seq<char>, app: Seq<char>, sections: Sections) -> ClosingModel {
    ClosingModel {
        key,
        app,
        buttons: sections.close && sections.buttons,
        ring: sections.close && sections.ring,
    }
}

impl StateModel {
    /// The state after sections of a profile of the named device were forgotten.
    /// What was not stored needs no save; its editors close all the same.
    pub open spec fn forgotten(self, key: Seq<char>, app: Seq<char>, sections: Sections)
        -> StateModel {
        if !self.carries(key) {
            self
        } else if stores_sections(device_at(self.live, key), app, sections) {
            self.with_device(
                key,
                without_sections(device_at(self.live, key), app, sections),
            ).saving(true, Some(closing_for(key, app, sections)))
        } else {
            self.closed(closing_for(key, app, sections))
        }
    }
}

impl AppState {
    /// Forgets sections of a profile of the device named `key`, which need not
    /// be the one on screen.
    fn forget(&mut self, key: &DeviceKey, app: &str, sections: Sections) -> (events: StateEvents)
        ensures
            final(self)@ == old(self)@.forgotten(key@, app@, sections),
            events@ == if old(self)@.carries(key@) {
                seq![EventModel::BindingsChanged(key@)]
            } else {
                Seq::empty()
            },
    {
        if !self.carries(key) {
            return StateEvents::none();
        }
        let closing = Closing {
            key: key.as_str().to_owned(),
            app: app.to_owned(),
            buttons: sections.close && sections.buttons,
            ring: sections.close && sections.ring,
        };
        let name = app.to_owned();
        let stored = match self.live.device(key.as_str()) {
            Some(device) => (sections.buttons && (device.per_app_bindings.contains_key(&name)
                || device.per_app_presenter.contains_key(&name))) || (sections.ring
                && device.action_ring.per_app.contains_key(&name)),
            None => false,
        };
        assert(stored == stores_sections(device_at(self@.live, key@), app@, sections));
        if stored {
            let ghost start = self.live@;
            let mut device = self.live.take_device(key.as_str());
            if sections.buttons {
                let _ = device.per_app_bindings.remove(&name);
                let _ = device.per_app_presenter.remove(&name);
            }
            if sections.ring {
                let _ = device.action_ring.per_app.remove(&name);
            }
            assert(device@ == without_sections(device_at(start, key@), app@, sections));
            let ghost kept = device@;
            self.live.put_device(key.as_str(), device);
            assert(self.live@ =~= start.insert(key@, kept));
            self.save(true, Some(closing));
        } else {
            self.close_editors(&closing);
        }
        StateEvents::of(Event::BindingsChanged(key.duplicate()))
    }

    /// Does what the options menu chose.
    pub fn apply_profile_command(&mut self, command: ProfileCommand, key: &DeviceKey, app: &str)
        -> (events: StateEvents)
        ensures
            final(self)@ == old(self)@.forgotten(key@, app@, command.sections_spec()),
            events@ == if old(self)@.carries(key@) {
                seq![EventModel::BindingsChanged(key@)]
            } else {
                Seq::empty()
            },
    {
        self.forget(key, app, command.sections())
    }

    /// Forgets the button overrides of a profile; its editor stays open.
    pub fn reset_app_profile(&mut self, key: &DeviceKey, app: &str) -> (events: StateEvents)
        ensures
            final(self)@ == old(self)@.forgotten(
                key@,
                app@,
                ProfileCommand::ResetButtons.sections_spec(),
            ),
            events@ == if old(self)@.carries(key@) {
                seq![EventModel::BindingsChanged(key@)]
            } else {
                Seq::empty()
            },
    {
        self.apply_profile_command(ProfileCommand::ResetButtons, key, app)
    }

    /// Forgets the button overrides of a profile and closes its editor.
    pub fn remove_app_profile(&mut self, key: &DeviceKey, app: &str) -> (events: StateEvents)
        ensures
            final(self)@ == old(self)@.forgotten(
                key@,
                app@,
                ProfileCommand::RemoveButtons.sections_spec(),
            ),
            events@ == if old(self)@.carries(key@) {
                seq![EventModel::BindingsChanged(key@)]
            } else {
                Seq::empty()
            },
    {
        self.apply_profile_command(ProfileCommand::RemoveButtons, key, app)
    }

    /// Forgets the ring layout of a profile; its editor stays open.
    pub fn reset_action_ring_profile(&mut self, key: &DeviceKey, app: &str) -> (events: StateEvents)
        ensures
            final(self)@ == old(self)@.forgotten(
                key@,
                app@,
                ProfileCommand::ResetRing.sections_spec(),
            ),
            events@ == if old(self)@.carries(key@) {
                seq![EventModel::BindingsChanged(key@)]
            } else {
                Seq::empty()
            },
    {
        self.apply_profile_command(ProfileCommand::ResetRing, key, app)
    }

    /// Forgets the ring layout of a profile and closes its editor.
    pub fn remove_action_ring_profile(&mut self, key: &DeviceKey, app: &str) -> (events:
        StateEvents)
        ensures
            final(self)@ == old(self)@.forgotten(
                key@,
                app@,
                ProfileCommand::RemoveRing.sections_spec(),
            ),
            events@ == if old(self)@.carries(key@) {
                seq![EventModel::BindingsChanged(key@)]
            } else {
                Seq::empty()
            },
    {
        self.apply_profile_command(ProfileCommand::RemoveRing, key, app)
    }

    /// Forgets everything stored for an application in one save, and closes the
    /// editors that show it.
    pub fn remove_all_app_profiles(&mut self, key: &DeviceKey, app: &str) -> (events: StateEvents)
        ensures
            final(self)@ == old(self)@.forgotten(
                key@,
                app@,
                ProfileCommand::RemoveAll.sections_spec(),
            ),
            events@ == if old(self)@.carries(key@) {
                seq![EventModel::BindingsChanged(key@)]
            } else {
                Seq::empty()
            },
    {
        self.apply_profile_command(ProfileCommand::RemoveAll, key, app)
    }

    /// Every profile of the device on screen, in key order, with how many
    /// buttons it overrides.
    pub fn app_profiles(&self) -> (profiles: Vec<(String, usize)>)
        ensures
            ascending_keys::<String>(profile_keys(profiles@)),
            forall|app: Seq<char>| #[trigger]
                profile_keys(profiles@).contains(app) <==> self@.key() is Some && (
                self@.device().per_app_bindings.dom().contains(app)
                    || self@.device().per_app_presenter.dom().contains(app)),
            forall|i: int|
                0 <= i < profiles@.len() ==> (#[trigger] profiles@[i]).1 == overrides_at(
                    self@.device().per_app_bindings,
                    profiles@[i].0@,
                ).dom().len(),
    {
        let mut profiles: Vec<(String, usize)> = Vec::new();
        let key = match self.current_config_key() {
            Some(key) => key,
            None => {
                assert(profile_keys(profiles@) =~= Seq::<Seq<char>>::empty());
                return profiles;
            },
        };
        let apps = self.live.app_profiles(key.as_str());
        let mut i: usize = 0;
        while i < apps.len()
            invariant
                i <= apps@.len(),
                self@.key() == Some(key@),
                profiles@.len() == i,
                profile_keys(profiles@) == texts(apps@).take(i as int),
                forall|k: int|
                    0 <= k < i ==> (#[trigger] profiles@[k]).1 == overrides_at(
                        self@.device().per_app_bindings,
                        profiles@[k].0@,
                    ).dom().len(),
            decreases apps@.len() - i,
        {
            let count = match self.live.per_app_overrides(key.as_str(), apps[i].as_str()) {
                Some(overrides) => overrides.len(),
                None => 0,
            };
            let ghost before = profile_keys(profiles@);
            let profile = (apps[i].clone(), count);
            profiles.push(profile);
            assert(profile_keys(profiles@) =~= before.push(apps@[i as int]@));
            assert(texts(apps@).take(i + 1) =~= texts(apps@).take(i as int).push(
                texts(apps@)[i as int],
            ));
            i = i + 1;
        }
        assert(texts(apps@).take(i as int) =~= texts(apps@));
        profiles
    }

    /// The choice a selector lists for a stored profile.
    fn choice_for(&self, app: &str) -> (choice: ProfileChoice)
        ensures
            choice@ == (ChoiceModel {
                app: app@,
                name: shown_name(self@.seen(), app@),
                persisted: true,
            }),
    {
        let seen = self.recent_apps();
        ProfileChoice {
            app: app.to_owned(),
            name: display_name_of(&seen, app),
            persisted: true,
        }
    }

    /// What the selector above the buttons and the presenter editor shows; none
    /// for a device that cannot carry configuration.
    pub fn button_profile_scope(&self) -> (model: Option<ProfileScopeModel>)
        ensures
            match model {
                Some(model) => {
                    &&& self@.key() is Some
                    &&& text_view(model.editing_app) == self@.editing()
                    &&& exists|apps: Seq<Seq<char>>| #[trigger]
                        ascending_keys::<String>(apps) && (forall|app: Seq<char>| #[trigger]
                            apps.contains(app) <==> self@.device().per_app_bindings.dom().contains(
                                app,
                            ) || self@.device().per_app_presenter.dom().contains(app))
                            && choices_view(model.profiles@) == listed_profiles(
                            self@.editing(),
                            self@.choices(apps),
                            self@.seen(),
                        )
                    &&& choices_view(model.recent@) == offered_recent(
                        self@.editing(),
                        choices_view(model.profiles@),
                        self@.seen(),
                    )
                    &&& strings_view(model.observed@) == self@.seen().map_values(
                        |app: (Seq<char>, Seq<char>)| app.0,
                    )
                    &&& strings_view(model.unavailable@) == stored_apps(
                        choices_view(model.profiles@),
                    ) + strings_view(model.observed@) + match self@.editing() {
                        Some(app) => seq![app],
                        None => Seq::<Seq<char>>::empty(),
                    }
                },
                None => self@.key() is None,
            },
    {
        let key = match self.current_config_key() {
            Some(key) => key,
            None => {
                return None;
            },
        };
        let apps = self.live.app_profiles(key.as_str());
        let choices = self.choices_for(&apps);
        let model = profile_scope_model(self.editing_app(), choices, &self.recent_apps());
        assert(ascending_keys::<String>(texts(apps@)));
        Some(model)
    }

    /// What stands above the picture of the device: how much the open profile
    /// overrides, under the name of its application, and the name of the profile
    /// the device runs under, if it runs under one. None for a device that cannot
    /// carry configuration.
    pub fn profile_canvas_status(&self) -> (status: Option<ProfileStatus>)
        ensures
            status matches Some(status) ==> status.summary == summary_spec(
                self@.editing() is Some,
                overrides_at(self@.device().per_app_bindings, self@.editing()->0).dom().len(),
            ),
            match status {
                Some(status) => {
                    &&& self@.key() is Some
                    &&& text_view(status.app) == match self@.editing() {
                        Some(app) => Some(shown_name(self@.seen(), app)),
                        None => None,
                    }
                    &&& status.summary == match self@.editing() {
                        None => ProfileSummary::DefaultBindings,
                        Some(app) => {
                            let count = overrides_at(
                                self@.device().per_app_bindings,
                                app,
                            ).dom().len();
                            if count == 0 {
                                ProfileSummary::NoOverrides
                            } else if count == 1 {
                                ProfileSummary::SingleOverride
                            } else {
                                ProfileSummary::OverrideCount(count as usize)
                            }
                        },
                    }
                    &&& text_view(status.active) == if self@.recent.len() > 0 && overridden(
                        device_at(self@.live, self@.key()->0),
                        self@.recent[0].id,
                    ) {
                        Some(self@.recent[0].display_name)
                    } else {
                        None
                    }
                },
                None => self@.key() is None,
            },
    {
        if self.current_config_key().is_none() {
            return None;
        }
        let app = match self.editing_app() {
            Some(app) => Some(display_name_of(&self.recent_apps(), app.as_str())),
            None => None,
        };
        let count: usize = match self.editing_app_overrides() {
            Some(overrides) => overrides.len(),
            None => 0,
        };
        let summary = match &app {
            Some(name) => profile_summary(Some(name.as_str()), count),
            None => profile_summary(None, count),
        };
        let active = match self.active_profile_name() {
            Some(name) => Some(name.to_owned()),
            None => None,
        };
        Some(ProfileStatus { summary, app, active })
    }

    /// What the selector above the ring editor shows; none for a device that
    /// cannot carry configuration.
    pub fn action_ring_profile_scope(&self) -> (model: Option<ProfileScopeModel>)
        ensures
            match model {
                Some(model) => {
                    &&& self@.key() is Some
                    &&& text_view(model.editing_app) == self@.editing_ring()
                    &&& exists|apps: Seq<Seq<char>>| #[trigger]
                        ascending_keys::<String>(apps) && (forall|app: Seq<char>| #[trigger]
                            apps.contains(app)
                                <==> self@.device().action_ring.per_app.dom().contains(app))
                            && choices_view(model.profiles@) == listed_profiles(
                            self@.editing_ring(),
                            self@.choices(apps),
                            self@.seen(),
                        )
                    &&& choices_view(model.recent@) == offered_recent(
                        self@.editing_ring(),
                        choices_view(model.profiles@),
                        self@.seen(),
                    )
                    &&& strings_view(model.observed@) == self@.seen().map_values(
                        |app: (Seq<char>, Seq<char>)| app.0,
                    )
                    &&& strings_view(model.unavailable@) == stored_apps(
                        choices_view(model.profiles@),
                    ) + strings_view(model.observed@) + match self@.editing_ring() {
                        Some(app) => seq![app],
                        None => Seq::<Seq<char>>::empty(),
                    }
                },
                None => self@.key() is None,
            },
    {
        let key = match self.current_config_key() {
            Some(key) => key,
            None => {
                return None;
            },
        };
        let ring = self.live.action_ring(key.as_str());
        let n: usize = ring.per_app.len();
        let mut apps: Vec<String> = Vec::new();
        let mut i: usize = 0;
        assert(texts(apps@) =~= ring.per_app.keys().take(0));
        while i < n
            invariant
                i <= n == ring.per_app.keys().len(),
                texts(apps@) == ring.per_app.keys().take(i as int),
            decreases n - i,
        {
            let (app, _) = ring.per_app.entry_at(i);
            let ghost before = texts(apps@);
            apps.push(app.clone());
            assert(texts(apps@) =~= before.push(app@));
            assert(ring.per_app.keys().take(i + 1) =~= ring.per_app.keys().take(i as int).push(
                app@,
            ));
            i = i + 1;
        }
        assert(ring.per_app.keys().take(i as int) =~= ring.per_app.keys());
        let choices = self.choices_for(&apps);
        let model = profile_scope_model(
            self.editing_action_ring_app(),
            choices,
            &self.recent_apps(),
        );
        assert(ascending_keys::<String>(texts(apps@)));
        assert forall|app: Seq<char>| #[trigger] texts(apps@).contains(app)
            <==> self@.device().action_ring.per_app.dom().contains(app) by {
            assert(ring.per_app@.dom().contains(app) <==> ring.per_app.keys().contains(app));
        }
        Some(model)
    }

    /// The choices a selector lists for stored profiles.
    fn choices_for(&self, apps: &Vec<String>) -> (choices: Vec<ProfileChoice>)
        ensures
            choices_view(choices@) == self@.choices(texts(apps@)),
    {
        let mut choices: Vec<ProfileChoice> = Vec::new();
        let mut i: usize = 0;
        assert(choices_view(choices@) =~= self@.choices(texts(apps@).take(0)));
        while i < apps.len()
            invariant
                i <= apps@.len(),
                choices_view(choices@) == self@.choices(texts(apps@).take(i as int)),
            decreases apps@.len() - i,
        {
            let ghost before = choices_view(choices@);
            let choice = self.choice_for(apps[i].as_str());
            choices.push(choice);
            assert(choices_view(choices@) =~= before.push(choice@));
            assert(self@.choices(texts(apps@).take(i + 1)) =~= self@.choices(
                texts(apps@).take(i as int),
            ).push(choice@));
            i = i + 1;
        }
        assert(texts(apps@).take(i as int) =~= texts(apps@));
        choices
    }
}

impl StateModel {
    /// The applications seen in front, as key and name.
    pub open spec fn seen(self) -> Seq<(Seq<char>, Seq<char>)> {
        self.recent.map_values(|app: AppModel| (app.id, app.display_name))
    }

    /// The choices a selector lists for stored profiles.
    pub open spec fn choices(self, apps: Seq<Seq<char>>) -> Seq<ChoiceModel> {
        Seq::new(
            apps.len(),
            |i: int|
                ChoiceModel {
                    app: apps[i],
                    name: shown_name(self.seen(), apps[i]),
                    persisted: true,
                },
        )
    }
}

/// The keys of a list of profiles.
pub open spec fn profile_keys(profiles: Seq<(String, usize)>) -> Seq<Seq<char>> {
    profiles.map_values(|profile: (String, usize)| profile.0@)
}

/// Forgetting a profile of one device touches no other device, no other
/// application, and nothing the device has for itself, whether the change is
/// kept at once or waits to be written, and whatever else waits with it. Where
/// changes cannot be kept, nothing was changed before.
pub proof fn law_forgetting_a_profile_touches_nothing_else(
    state: StateModel,
    key: Seq<char>,
    app: Seq<char>,
    sections: Sections,
    other_key: Seq<char>,
    other_app: Seq<char>,
)
    requires
        state.persistence is ReadOnly ==> state.saved == state.live,
        other_app != app,
    ensures
        ({
            let before = device_at(state.live, key);
            let forgotten = state.forgotten(key, app, sections);
            let after = device_at(forgotten.live, key);
            &&& forgotten.save_done().live == forgotten.live
            &&& other_key != key ==> device_at(forgotten.live, other_key) == device_at(
                state.live,
                other_key,
            )
            &&& after.bindings == before.bindings
            &&& after.presenter == before.presenter
            &&& after.action_ring.default == before.action_ring.default
            &&& (after.per_app_bindings.dom().contains(other_app)
                <==> before.per_app_bindings.dom().contains(other_app))
            &&& after.per_app_bindings[other_app] == before.per_app_bindings[other_app]
            &&& (after.per_app_presenter.dom().contains(other_app)
                <==> before.per_app_presenter.dom().contains(other_app))
            &&& after.per_app_presenter[other_app] == before.per_app_presenter[other_app]
            &&& after.action_ring.layout(Some(other_app)) == before.action_ring.layout(
                Some(other_app),
            )
            &&& !sections.ring ==> after.action_ring == before.action_ring
        }),
{
    let forgotten = state.forgotten(key, app, sections);
    lemma_closing_touches_only_editors(forgotten.marked_saved(), forgotten.closings);
    let changed = state.with_device(
        key,
        without_sections(device_at(state.live, key), app, sections),
    );
    let waiting = StateModel {
        unsaved: true,
        reload_owed: true,
        closings: state.closings.push(closing_for(key, app, sections)),
        ..changed
    };
    lemma_closing_touches_only_editors(waiting.marked_saved(), waiting.closings);
}

/// A command closes an editor only when that editor shows the very application,
/// or when an earlier removal that was waiting closes it; a reset closes none of
/// its own. Once the change is kept, the editors of what was removed are closed,
/// and where it cannot be kept none is.
pub proof fn law_only_editors_of_the_removed_profile_close(
    state: StateModel,
    key: Seq<char>,
    app: Seq<char>,
    sections: Sections,
    reason: Seq<char>,
    other: Seq<char>,
)
    ensures
        ({
            let forgotten = state.forgotten(key, app, sections);
            let removes = state.carries(key) && sections.close;
            let stored = state.carries(key) && stores_sections(
                device_at(state.live, key),
                app,
                sections,
            );
            &&& closes_rightly(state, forgotten, key, app, sections, other)
            &&& closes_rightly(state, forgotten.save_done(), key, app, sections, other)
            &&& removes && !(stored && state.persistence is ReadOnly) ==> {
                &&& sections.buttons && entry(state.button_apps, key) == Some(app) ==> entry(
                    forgotten.save_done().button_apps,
                    key,
                ) is None
                &&& sections.ring && entry(state.ring_apps, key) == Some(app) ==> entry(
                    forgotten.save_done().ring_apps,
                    key,
                ) is None
            }
            &&& stored && state.persistence is ReadOnly ==> forgotten.button_apps
                == state.button_apps && forgotten.ring_apps == state.ring_apps
            &&& stored && state.persistence is UserFile ==> {
                &&& forgotten.button_apps == state.button_apps
                &&& forgotten.ring_apps == state.ring_apps
                &&& forgotten.save_failed(reason).button_apps == state.button_apps
                &&& forgotten.save_failed(reason).ring_apps == state.ring_apps
            }
        }),
{
    let forgotten = state.forgotten(key, app, sections);
    let closing = closing_for(key, app, sections);
    lemma_closing_touches_only_editors(forgotten.marked_saved(), forgotten.closings);
    let changed = state.with_device(
        key,
        without_sections(device_at(state.live, key), app, sections),
    );
    let waiting = StateModel {
        unsaved: true,
        reload_owed: true,
        closings: state.closings.push(closing),
        ..changed
    };
    lemma_closing_touches_only_editors(waiting.marked_saved(), waiting.closings);
    lemma_one_more_closing(state.closings, closing);
}

/// Whether an editor differs between two states only for a reason: it showed
/// what a command removes, or what a removal removed that was already waiting.
pub open spec fn closes_rightly(
    before: StateModel,
    after: StateModel,
    key: Seq<char>,
    app: Seq<char>,
    sections: Sections,
    other: Seq<char>,
) -> bool {
    &&& entry(after.button_apps, other) != entry(before.button_apps, other) ==> {
        &&& entry(after.button_apps, other) is None
        &&& sections.close && sections.buttons && other == key && entry(before.button_apps, other)
            == Some(app) || closes_buttons(
            before.closings,
            other,
            entry(before.button_apps, other)->0,
        )
    }
    &&& entry(after.ring_apps, other) != entry(before.ring_apps, other) ==> {
        &&& entry(after.ring_apps, other) is None
        &&& sections.close && sections.ring && other == key && entry(before.ring_apps, other)
            == Some(app) || closes_ring(before.closings, other, entry(before.ring_apps, other)->0)
    }
}

} // verus!
