//! The window's state: the configuration it edits, the devices it shows, and
//! what it owes the agent.
//!
//! An edit changes the live configuration and is then saved. The agent hears of
//! it only once the save went through: after a failed one the file still holds
//! the previous configuration, which is what the window goes back to.

use vstd::prelude::*;
use crate::binding::{Action, ButtonId};
use crate::config::identity::Capabilities;
use crate::config::per_app::overridden;
use crate::config::scroll::{ThumbwheelSensitivity, VerticalScrollSensitivity};
use crate::config::settings::{AppSettings, MouseProfileTarget};
use crate::config::{device_at, Config, DeviceModel, SCHEMA_VERSION};
use crate::desktop::events::{DeviceKey, Event, EventModel, StateEvents};
use crate::desktop::profiles::{seen_view, text_view, SeenApp};
use crate::desktop::requests::{
    Command, ConfigReloadError, ForegroundApps, ReloadConfig,
};
use crate::hook::foreground::{app_view, same_app, AppModel, ForegroundApp};
use crate::order::Duplicate;
use crate::presenter::PointerSpeed;
use crate::route::{DeviceRoute, RouteModel};
use crate::table::Table;
use crate::text::same_text;

verus! {

/// Where changes may be written.
#[derive(Debug, PartialEq, Eq)]
pub enum ConfigPersistence {
    /// Nowhere: they live as long as the window.
    MemoryOnly,
    /// Nowhere, for this reason: they are taken back.
    ReadOnly(String),
    /// To the user's file, which the caller writes.
    UserFile,
}

/// Where changes may be written, the reason read as characters.
pub enum PersistenceModel {
    /// Nowhere: they live as long as the window.
    MemoryOnly,
    /// Nowhere, for this reason: they are taken back.
    ReadOnly(Seq<char>),
    /// To the user's file, which the caller writes.
    UserFile,
}

impl View for ConfigPersistence {
    type V = PersistenceModel;

    open spec fn view(&self) -> PersistenceModel {
        match *self {
            ConfigPersistence::MemoryOnly => PersistenceModel::MemoryOnly,
            ConfigPersistence::ReadOnly(reason) => PersistenceModel::ReadOnly(reason@),
            ConfigPersistence::UserFile => PersistenceModel::UserFile,
        }
    }
}

/// A device on screen or in the gallery.
#[derive(Debug, PartialEq, Eq)]
pub struct DeviceRecord {
    /// The key its configuration stands under.
    pub config_key: String,
    /// Whether it can carry saved configuration at all: a device without a
    /// stable identity cannot.
    pub persistent: bool,
    /// How it is reached, while it is online.
    pub route: Option<DeviceRoute>,
    /// What it can do, where that is known.
    pub capabilities: Option<Capabilities>,
}

/// A device, its texts read as characters.
pub struct RecordModel {
    /// The key its configuration stands under.
    pub config_key: Seq<char>,
    /// Whether it can carry saved configuration at all.
    pub persistent: bool,
    /// How it is reached, while it is online.
    pub route: Option<RouteModel>,
    /// What it can do, where that is known.
    pub capabilities: Option<Capabilities>,
}

impl View for DeviceRecord {
    type V = RecordModel;

    open spec fn view(&self) -> RecordModel {
        RecordModel {
            config_key: self.config_key@,
            persistent: self.persistent,
            route: match self.route {
                Some(route) => Some(route@),
                None => None,
            },
            capabilities: self.capabilities,
        }
    }
}

impl DeviceRecord {
    /// The key that names the device in this window.
    pub fn device_key(&self) -> (key: DeviceKey)
        ensures
            key@ == self@.config_key,
    {
        DeviceKey::new(self.config_key.as_str())
    }
}

/// What is known of a value that has to be read from a device.
#[derive(Debug, PartialEq, Eq)]
pub enum Load<T, E> {
    /// Nothing, and nobody asked.
    Unknown,
    /// It was asked for.
    Loading,
    /// The value.
    Ready(T),
    /// It could not be read this time, and why.
    Failed(E),
    /// It can never be read, and why.
    Unsupported(E),
}

/// What is known of the pointer speed of a device.
pub type PointerSpeedLoad = Load<PointerSpeed, String>;

/// What is known of the pointer speed of a device, reasons read as characters.
pub type LoadModel = Load<PointerSpeed, Seq<char>>;

impl View for Load<PointerSpeed, String> {
    type V = LoadModel;

    open spec fn view(&self) -> LoadModel {
        match *self {
            Load::Unknown => Load::Unknown,
            Load::Loading => Load::Loading,
            Load::Ready(speed) => Load::Ready(speed),
            Load::Failed(reason) => Load::Failed(reason@),
            Load::Unsupported(reason) => Load::Unsupported(reason@),
        }
    }
}

impl Duplicate for Load<PointerSpeed, String> {
    fn duplicate(&self) -> (copy: Self) {
        match self {
            Load::Unknown => Load::Unknown,
            Load::Loading => Load::Loading,
            Load::Ready(speed) => Load::Ready(*speed),
            Load::Failed(reason) => Load::Failed(reason.clone()),
            Load::Unsupported(reason) => Load::Unsupported(reason.clone()),
        }
    }
}

/// An editor to close once a removal is saved.
#[derive(Debug, PartialEq, Eq)]
pub struct Closing {
    /// The device.
    pub key: String,
    /// The application whose profile was removed.
    pub app: String,
    /// Whether the buttons editor closes.
    pub buttons: bool,
    /// Whether the ring editor closes.
    pub ring: bool,
}

/// An editor to close, its texts read as characters.
pub struct ClosingModel {
    /// The device.
    pub key: Seq<char>,
    /// The application whose profile was removed.
    pub app: Seq<char>,
    /// Whether the buttons editor closes.
    pub buttons: bool,
    /// Whether the ring editor closes.
    pub ring: bool,
}

impl View for Closing {
    type V = ClosingModel;

    open spec fn view(&self) -> ClosingModel {
        ClosingModel {
            key: self.key@,
            app: self.app@,
            buttons: self.buttons,
            ring: self.ring,
        }
    }
}

/// What the window sends the agent, as far as this state sends it.
pub enum CommandModel {
    /// Read the configuration again.
    Reload,
    /// Apply a pointer speed.
    SetPointerSpeed {
        /// The device.
        route: RouteModel,
        /// The speed.
        speed: PointerSpeed,
    },
    /// Read a pointer speed.
    ReadPointerSpeed {
        /// The device.
        route: RouteModel,
        /// The ticket that the answer goes to.
        ticket: u64,
    },
    /// Anything else, as it is.
    Other(Command),
}

impl View for Command {
    type V = CommandModel;

    open spec fn view(&self) -> CommandModel {
        match *self {
            Command::ReloadConfig(_) => CommandModel::Reload,
            Command::SetPointerSpeed(request) => CommandModel::SetPointerSpeed {
                route: request.route@,
                speed: request.speed,
            },
            Command::ReadPointerSpeed(request) => CommandModel::ReadPointerSpeed {
                route: request.route@,
                ticket: request.ticket,
            },
            _ => CommandModel::Other(*self),
        }
    }
}

/// The window's state.
#[derive(Debug, PartialEq, Eq)]
pub struct AppState {
    /// The configuration being edited.
    pub live: Config,
    /// The configuration as last saved.
    pub saved: Config,
    /// The preferences being edited.
    pub settings: AppSettings,
    /// The preferences as last saved.
    pub saved_settings: AppSettings,
    /// Where changes may be written.
    pub persistence: ConfigPersistence,
    /// Why the last change could not be saved.
    pub refused: Option<String>,
    /// Why the agent did not adopt the saved configuration.
    pub rejected: Option<String>,
    /// Whether a change waits to be written.
    pub unsaved: bool,
    /// Whether the agent has to hear of it then.
    pub reload_owed: bool,
    /// The editors to close then.
    pub closings: Vec<Closing>,
    /// The devices, in gallery order.
    pub records: Vec<DeviceRecord>,
    /// The device on screen.
    pub selected: usize,
    /// The profile open in the buttons editor of each device.
    pub button_apps: Table<String, String>,
    /// The profile open in the ring editor of each device.
    pub ring_apps: Table<String, String>,
    /// Button actions of a device that cannot carry configuration.
    pub transient: Table<ButtonId, Action>,
    /// The applications in front.
    pub foreground: ForegroundApps,
    /// Pointer speeds as far as they were read.
    pub speeds: Table<String, PointerSpeedLoad>,
    /// What to send the agent, oldest first.
    pub outbox: Vec<Command>,
}

/// The window's state, read mathematically.
pub struct StateModel {
    /// The configuration being edited.
    pub live: Map<Seq<char>, DeviceModel>,
    /// The configuration as last saved.
    pub saved: Map<Seq<char>, DeviceModel>,
    /// The preferences being edited.
    pub settings: AppSettings,
    /// The preferences as last saved.
    pub saved_settings: AppSettings,
    /// Where changes may be written.
    pub persistence: PersistenceModel,
    /// Why the last change could not be saved.
    pub refused: Option<Seq<char>>,
    /// Why the agent did not adopt the saved configuration.
    pub rejected: Option<Seq<char>>,
    /// Whether a change waits to be written.
    pub unsaved: bool,
    /// Whether the agent has to hear of it then.
    pub reload_owed: bool,
    /// The editors to close then.
    pub closings: Seq<ClosingModel>,
    /// The devices, in gallery order.
    pub records: Seq<RecordModel>,
    /// The device on screen.
    pub selected: usize,
    /// The profile open in the buttons editor of each device.
    pub button_apps: Map<Seq<char>, Seq<char>>,
    /// The profile open in the ring editor of each device.
    pub ring_apps: Map<Seq<char>, Seq<char>>,
    /// Button actions of a device that cannot carry configuration.
    pub transient: Map<ButtonId, Action>,
    /// The application in front.
    pub current_app: Option<AppModel>,
    /// The applications seen lately, newest first.
    pub recent: Seq<AppModel>,
    /// Pointer speeds as far as they were read.
    pub speeds: Map<Seq<char>, LoadModel>,
    /// What to send the agent, oldest first.
    pub outbox: Seq<CommandModel>,
}

impl View for AppState {
    type V = StateModel;

    open spec fn view(&self) -> StateModel {
        StateModel {
            live: self.live@,
            saved: self.saved@,
            settings: self.settings,
            saved_settings: self.saved_settings,
            persistence: self.persistence@,
            refused: text_view(self.refused),
            rejected: text_view(self.rejected),
            unsaved: self.unsaved,
            reload_owed: self.reload_owed,
            closings: self.closings@.map_values(|closing: Closing| closing@),
            records: self.records@.map_values(|record: DeviceRecord| record@),
            selected: self.selected,
            button_apps: self.button_apps@,
            ring_apps: self.ring_apps@,
            transient: self.transient@,
            current_app: app_view(self.foreground.current),
            recent: self.foreground.recent@.map_values(|app: ForegroundApp| app@),
            speeds: self.speeds@,
            outbox: self.outbox@.map_values(|command: Command| command@),
        }
    }
}

/// The entry of a map, if it has one.
pub open spec fn entry<K, V>(map: Map<K, V>, key: K) -> Option<V> {
    if map.dom().contains(key) {
        Some(map[key])
    } else {
        None
    }
}

/// A map without an entry, when the entry is `value`.
pub open spec fn without_entry<K, V>(map: Map<K, V>, key: K, value: V) -> Map<K, V> {
    if entry(map, key) == Some(value) {
        map.remove(key)
    } else {
        map
    }
}

impl StateModel {
    /// The device on screen.
    pub open spec fn current(self) -> Option<RecordModel> {
        if self.selected < self.records.len() {
            Some(self.records[self.selected as int])
        } else {
            None
        }
    }

    /// The key of the device on screen, if it can carry configuration.
    pub open spec fn key(self) -> Option<Seq<char>> {
        match self.current() {
            Some(record) => if record.persistent {
                Some(record.config_key)
            } else {
                None
            },
            None => None,
        }
    }

    /// The profile open in the buttons editor.
    pub open spec fn editing(self) -> Option<Seq<char>> {
        match self.key() {
            Some(key) => entry(self.button_apps, key),
            None => None,
        }
    }

    /// The profile open in the ring editor.
    pub open spec fn editing_ring(self) -> Option<Seq<char>> {
        match self.key() {
            Some(key) => entry(self.ring_apps, key),
            None => None,
        }
    }

    /// Whether some device that can carry configuration goes by `key`.
    pub open spec fn carries(self, key: Seq<char>) -> bool {
        exists|i: int|
            0 <= i < self.records.len() && (#[trigger] self.records[i]).config_key == key
                && self.records[i].persistent
    }

    /// What an edit of the device on screen is announced as.
    pub open spec fn announced(self, event: spec_fn(Seq<char>) -> EventModel) -> Seq<EventModel> {
        match self.current() {
            Some(record) => seq![event(record.config_key)],
            None => Seq::empty(),
        }
    }

    /// An editor closed that shows what was removed.
    pub open spec fn closed(self, closing: ClosingModel) -> StateModel {
        StateModel {
            button_apps: if closing.buttons {
                without_entry(self.button_apps, closing.key, closing.app)
            } else {
                self.button_apps
            },
            ring_apps: if closing.ring {
                without_entry(self.ring_apps, closing.key, closing.app)
            } else {
                self.ring_apps
            },
            ..self
        }
    }

    /// Every editor closed that shows what was removed.
    pub open spec fn all_closed(self, closings: Seq<ClosingModel>) -> StateModel
        decreases closings.len(),
    {
        if closings.len() == 0 {
            self
        } else {
            self.all_closed(closings.drop_last()).closed(closings.last())
        }
    }

    /// What a save that went through does: the change is the new point to go
    /// back to, the agent hears of it, and the editors of what was removed close.
    pub open spec fn save_done(self) -> StateModel {
        self.marked_saved().all_closed(self.closings)
    }

    /// The state with its change as the new point to go back to, and the agent
    /// told of it.
    pub open spec fn marked_saved(self) -> StateModel {
        StateModel {
            saved: self.live,
            saved_settings: self.settings,
            refused: None,
            unsaved: false,
            reload_owed: false,
            closings: Seq::empty(),
            outbox: if self.reload_owed {
                self.outbox.push(CommandModel::Reload)
            } else {
                self.outbox
            },
            ..self
        }
    }

    /// What a failed save does: the change is taken back, and nobody hears of it.
    pub open spec fn save_failed(self, reason: Seq<char>) -> StateModel {
        StateModel {
            live: self.saved,
            settings: self.saved_settings,
            refused: Some(reason),
            unsaved: false,
            reload_owed: false,
            closings: Seq::empty(),
            ..self
        }
    }

    /// What saving a change does, with the agent to reload and editors to close.
    pub open spec fn saving(self, reload: bool, closing: Option<ClosingModel>) -> StateModel {
        let changed = StateModel {
            unsaved: true,
            reload_owed: self.reload_owed || reload,
            closings: match closing {
                Some(closing) => self.closings.push(closing),
                None => self.closings,
            },
            ..self
        };
        match self.persistence {
            PersistenceModel::MemoryOnly => changed.save_done(),
            PersistenceModel::ReadOnly(reason) => changed.save_failed(reason),
            PersistenceModel::UserFile => changed,
        }
    }

    /// The state with another device on screen, where it is listed.
    pub open spec fn device_shown(self, index: usize) -> StateModel {
        if index < self.records.len() {
            StateModel { selected: index, ..self }
        } else {
            self
        }
    }

    /// The state once preferences were changed; the same ones again change nothing.
    pub open spec fn preferring(self, settings: AppSettings) -> StateModel {
        if settings == self.settings {
            self
        } else {
            (StateModel { settings, ..self }).saving(true, None)
        }
    }

    /// The state with the configuration of `key` replaced.
    pub open spec fn with_device(self, key: Seq<char>, device: DeviceModel) -> StateModel {
        StateModel { live: self.live.insert(key, device), ..self }
    }
}

/// What a fresh state is built from.
#[derive(Debug, PartialEq, Eq)]
pub struct Sources {
    /// The configuration as loaded.
    pub config: Config,
    /// The preferences as loaded.
    pub settings: AppSettings,
    /// The devices known so far.
    pub records: Vec<DeviceRecord>,
    /// The device that was on screen last.
    pub selected_device: Option<String>,
    /// Whether building the device list changed the configuration.
    pub changed: bool,
    /// Where changes may be written.
    pub persistence: ConfigPersistence,
}

/// The device to show first: the one that was on screen last when it is still
/// there, else the first.
pub fn pick_initial_device(records: &Vec<DeviceRecord>, selected: &Option<String>) -> (index: usize)
    ensures
        match text_view(*selected) {
            Some(key) => {
                ||| index < records@.len() && records@[index as int].config_key@ == key
                    && forall|j: int| 0 <= j < index ==> (#[trigger] records@[j]).config_key@ != key
                ||| index == 0 && forall|j: int|
                    0 <= j < records@.len() ==> (#[trigger] records@[j]).config_key@ != key
            },
            None => index == 0,
        },
{
    match selected {
        None => 0,
        Some(key) => {
            let mut i: usize = 0;
            while i < records.len()
                invariant
                    i <= records@.len(),
                    text_view(*selected) == Some(key@),
                    forall|j: int| 0 <= j < i ==> (#[trigger] records@[j]).config_key@ != key@,
                decreases records@.len() - i,
            {
                if same_text(records[i].config_key.as_str(), key.as_str()) {
                    return i;
                }
                i = i + 1;
            }
            0
        },
    }
}

impl AppState {
    /// The state before anything was done to it.
    pub open spec fn opened(sources: Sources, selected: usize) -> StateModel {
        StateModel {
            live: sources.config@,
            saved: sources.config@,
            settings: sources.settings,
            saved_settings: sources.settings,
            persistence: sources.persistence@,
            refused: match sources.persistence@ {
                PersistenceModel::ReadOnly(reason) => Some(reason),
                _ => None,
            },
            rejected: None,
            unsaved: false,
            reload_owed: false,
            closings: Seq::empty(),
            records: sources.records@.map_values(|record: DeviceRecord| record@),
            selected,
            button_apps: Map::empty(),
            ring_apps: Map::empty(),
            transient: Map::empty(),
            current_app: None,
            recent: Seq::empty(),
            speeds: Map::empty(),
            outbox: Seq::empty(),
        }
    }

    /// Builds the state. A change that came up while building the device list is
    /// saved; with a file behind it the agent is told to read it once.
    pub fn new(sources: Sources) -> (state: AppState)
        ensures
            ({
                let opened = AppState::opened(sources, state.selected);
                let saved = if sources.changed {
                    opened.saving(false, None)
                } else {
                    opened
                };
                state@ == if sources.persistence@ is UserFile {
                    StateModel { outbox: saved.outbox.push(CommandModel::Reload), ..saved }
                } else {
                    saved
                }
            }),
            match text_view(sources.selected_device) {
                Some(key) => {
                    ||| state.selected < sources.records@.len()
                        && sources.records@[state.selected as int].config_key@ == key && forall|
                        j: int,
                    |
                        0 <= j < state.selected ==> (#[trigger] sources.records@[j]).config_key@
                            != key
                    ||| state.selected == 0 && forall|j: int|
                        0 <= j < sources.records@.len() ==> (
                        #[trigger] sources.records@[j]).config_key@ != key
                },
                None => state.selected == 0,
            },
    {
        let selected = pick_initial_device(&sources.records, &sources.selected_device);
        let refused = match &sources.persistence {
            ConfigPersistence::ReadOnly(reason) => Some(reason.clone()),
            _ => None,
        };
        let file = match &sources.persistence {
            ConfigPersistence::UserFile => true,
            _ => false,
        };
        let mut state = AppState {
            saved: sources.config.duplicate(),
            live: sources.config,
            settings: sources.settings,
            saved_settings: sources.settings,
            persistence: sources.persistence,
            refused,
            rejected: None,
            unsaved: false,
            reload_owed: false,
            closings: Vec::new(),
            records: sources.records,
            selected,
            button_apps: Table::new(),
            ring_apps: Table::new(),
            transient: Table::new(),
            foreground: ForegroundApps { current: None, recent: Vec::new() },
            speeds: Table::new(),
            outbox: Vec::new(),
        };
        proof {
            let opened = AppState::opened(sources, selected);
            assert(state@.closings =~= opened.closings);
            assert(state@.recent =~= opened.recent);
            assert(state@.outbox =~= opened.outbox);
            assert(state@ == opened);
        }
        if sources.changed {
            state.save(false, None);
        }
        if file {
            state.send(Command::ReloadConfig(ReloadConfig));
        }
        state
    }

    /// Queues a command for the agent.
    pub(crate) fn send(&mut self, command: Command)
        ensures
            final(self)@ == (StateModel {
                outbox: old(self)@.outbox.push(command@),
                ..old(self)@
            }),
            final(self).selected == old(self).selected,
    {
        let ghost before = self@.outbox;
        self.outbox.push(command);
        assert(self@.outbox =~= before.push(command@));
    }

    /// Hands out what was queued for the agent.
    pub fn take_commands(&mut self) -> (commands: Vec<Command>)
        ensures
            commands@ == old(self).outbox@,
            commands@.map_values(|command: Command| command@) == old(self)@.outbox,
            final(self)@ == (StateModel { outbox: Seq::empty(), ..old(self)@ }),
    {
        let mut commands: Vec<Command> = Vec::new();
        std::mem::swap(&mut commands, &mut self.outbox);
        assert(self@.outbox =~= Seq::<CommandModel>::empty());
        commands
    }

    /// Closes an editor that shows what was removed.
    pub(crate) fn close_editors(&mut self, closing: &Closing)
        ensures
            final(self)@ == old(self)@.closed(closing@),
            final(self).selected == old(self).selected,
    {
        if closing.buttons {
            let showing = match self.button_apps.get(&closing.key) {
                Some(app) => same_text(app.as_str(), closing.app.as_str()),
                None => false,
            };
            if showing {
                let _ = self.button_apps.remove(&closing.key);
            }
        }
        if closing.ring {
            let showing = match self.ring_apps.get(&closing.key) {
                Some(app) => same_text(app.as_str(), closing.app.as_str()),
                None => false,
            };
            if showing {
                let _ = self.ring_apps.remove(&closing.key);
            }
        }
    }

    /// Takes what became of writing the change that waits.
    pub fn save_finished(&mut self, outcome: Result<(), String>)
        ensures
            final(self)@ == match outcome {
                Ok(_) => old(self)@.save_done(),
                Err(reason) => old(self)@.save_failed(reason@),
            },
            final(self).selected == old(self).selected,
    {
        let ghost start = self@;
        let mut closings: Vec<Closing> = Vec::new();
        std::mem::swap(&mut closings, &mut self.closings);
        self.unsaved = false;
        let reload = self.reload_owed;
        self.reload_owed = false;
        assert(self@.closings =~= Seq::<ClosingModel>::empty());
        match outcome {
            Ok(_) => {
                self.saved = self.live.duplicate();
                self.saved_settings = self.settings;
                self.refused = None;
                if reload {
                    self.send(Command::ReloadConfig(ReloadConfig));
                }
                let ghost done = self@;
                let ghost list = start.closings;
                let mut i: usize = 0;
                assert(list.take(0) =~= Seq::<ClosingModel>::empty());
                while i < closings.len()
                    invariant
                        i <= closings@.len(),
                        list == closings@.map_values(|closing: Closing| closing@),
                        self@ == done.all_closed(list.take(i as int)),
                        self.selected == old(self).selected,
                    decreases closings@.len() - i,
                {
                    proof {
                        assert(list.take(i + 1).drop_last() =~= list.take(i as int));
                        assert(list.take(i + 1).last() == list[i as int]);
                    }
                    self.close_editors(&closings[i]);
                    i = i + 1;
                }
                assert(list.take(i as int) =~= list);
            },
            Err(reason) => {
                self.live = self.saved.duplicate();
                self.settings = self.saved_settings;
                self.refused = Some(reason);
            },
        }
    }

    /// Saves the change just made.
    pub(crate) fn save(&mut self, reload: bool, closing: Option<Closing>)
        ensures
            final(self)@ == old(self)@.saving(
                reload,
                match closing {
                    Some(closing) => Some(closing@),
                    None => None,
                },
            ),
            final(self).selected == old(self).selected,
    {
        let ghost start = self@;
        self.unsaved = true;
        if reload {
            self.reload_owed = true;
        }
        if let Some(closing) = closing {
            self.closings.push(closing);
            assert(self@.closings =~= start.closings.push(closing@));
        }
        let settled = match &self.persistence {
            ConfigPersistence::MemoryOnly => Some(Ok(())),
            ConfigPersistence::ReadOnly(reason) => Some(Err(reason.clone())),
            ConfigPersistence::UserFile => None,
        };
        if let Some(outcome) = settled {
            self.save_finished(outcome);
        }
    }

    /// The configuration to write, when a change waits.
    pub fn unsaved_config(&self) -> (config: Option<&Config>)
        ensures
            match config {
                Some(config) => self@.unsaved && config@ == self@.live,
                None => !self@.unsaved,
            },
    {
        if self.unsaved {
            Some(&self.live)
        } else {
            None
        }
    }

    /// What is wrong with the configuration, shown over the whole window.
    pub fn config_issue(&self) -> (issue: Option<&str>)
        ensures
            match issue {
                Some(text) => Some(text@) == if self@.refused is Some {
                    self@.refused
                } else {
                    self@.rejected
                },
                None => self@.refused is None && self@.rejected is None,
            },
    {
        match &self.refused {
            Some(text) => Some(text.as_str()),
            None => match &self.rejected {
                Some(text) => Some(text.as_str()),
                None => None,
            },
        }
    }

    /// Records whether the agent adopted the saved configuration, and announces
    /// it when that is news.
    pub fn apply_config_reload_result(&mut self, result: Result<(), ConfigReloadError>) -> (events:
        StateEvents)
        ensures
            final(self)@ == (StateModel {
                rejected: match result {
                    Ok(_) => None,
                    Err(error) => Some(error.message@),
                },
                ..old(self)@
            }),
            events@ == if final(self)@.rejected != old(self)@.rejected {
                seq![EventModel::SettingsChanged]
            } else {
                Seq::empty()
            },
    {
        let rejected = match result {
            Ok(_) => None,
            Err(error) => Some(error.message),
        };
        let same = match (&rejected, &self.rejected) {
            (Some(a), Some(b)) => same_text(a.as_str(), b.as_str()),
            (None, None) => true,
            _ => false,
        };
        self.rejected = rejected;
        if same {
            StateEvents::none()
        } else {
            StateEvents::of(Event::SettingsChanged)
        }
    }

    /// The version of the configuration's layout, and how many devices have saved
    /// configuration.
    pub fn config_summary(&self) -> (summary: (u32, usize))
        ensures
            summary.0 == SCHEMA_VERSION,
            self@.live.dom().finite(),
            summary.1 == self@.live.dom().len(),
    {
        (SCHEMA_VERSION, self.live.devices.len())
    }

    /// The devices, in gallery order.
    pub fn devices(&self) -> (records: &Vec<DeviceRecord>)
        ensures
            *records == self.records,
    {
        &self.records
    }

    /// The place of the device on screen, or none without devices.
    pub fn selected_device_index(&self) -> (index: Option<usize>)
        ensures
            index == if self@.current() is Some {
                Some(self@.selected)
            } else {
                None
            },
    {
        if self.selected < self.records.len() {
            Some(self.selected)
        } else {
            None
        }
    }

    /// The device on screen.
    pub fn current_record(&self) -> (record: Option<&DeviceRecord>)
        ensures
            match record {
                Some(record) => self@.current() == Some(record@),
                None => self@.current() is None,
            },
    {
        if self.selected < self.records.len() {
            Some(&self.records[self.selected])
        } else {
            None
        }
    }

    /// Whether the device on screen can carry saved configuration.
    pub fn current_device_is_persistent(&self) -> (persistent: bool)
        ensures
            persistent == self@.key() is Some,
    {
        match self.current_record() {
            Some(record) => record.persistent,
            None => false,
        }
    }

    /// The key of the device on screen, if it can carry configuration.
    pub fn current_config_key(&self) -> (key: Option<String>)
        ensures
            text_view(key) == self@.key(),
    {
        match self.current_record() {
            Some(record) => if record.persistent {
                Some(record.config_key.clone())
            } else {
                None
            },
            None => None,
        }
    }

    /// Whether `key` names the device on screen.
    pub fn is_current_device(&self, key: &DeviceKey) -> (current: bool)
        ensures
            current == match self@.current() {
                Some(record) => record.config_key == key@,
                None => false,
            },
    {
        match self.current_record() {
            Some(record) => record.device_key().same_as(key),
            None => false,
        }
    }

    /// Whether some device that can carry configuration goes by `key`.
    pub fn carries(&self, key: &DeviceKey) -> (carries: bool)
        ensures
            carries == self@.carries(key@),
    {
        let mut i: usize = 0;
        while i < self.records.len()
            invariant
                i <= self.records@.len(),
                forall|j: int|
                    0 <= j < i ==> (#[trigger] self@.records[j]).config_key != key@
                        || !self@.records[j].persistent,
            decreases self.records@.len() - i,
        {
            if self.records[i].persistent && same_text(
                self.records[i].config_key.as_str(),
                key.as_str(),
            ) {
                assert(self@.records[i as int].config_key == key@);
                return true;
            }
            i = i + 1;
        }
        false
    }

    /// Puts another device on screen; a place without a device changes nothing.
    pub fn select_device(&mut self, index: usize) -> (events: StateEvents)
        ensures
            final(self)@ == old(self)@.device_shown(index),
            final(self)@ == if index < old(self)@.records.len() {
                StateModel { selected: index, ..old(self)@ }
            } else {
                old(self)@
            },
            events@ == if index < old(self)@.records.len() {
                seq![EventModel::DeviceSelected(old(self)@.records[index as int].config_key)]
            } else {
                Seq::empty()
            },
    {
        if index >= self.records.len() {
            return StateEvents::none();
        }
        self.selected = index;
        assert(self@.records[index as int] == self.records@[index as int]@);
        StateEvents::of(Event::DeviceSelected(self.records[index].device_key()))
    }

    /// Takes what the agent says of the applications in front, and announces it
    /// when it changed.
    pub fn set_foreground(&mut self, apps: ForegroundApps) -> (events: StateEvents)
        ensures
            final(self)@ == (StateModel {
                current_app: app_view(apps.current),
                recent: apps.recent@.map_values(|app: ForegroundApp| app@),
                ..old(self)@
            }),
            events@ == if final(self)@.current_app != old(self)@.current_app || final(self)@.recent
                != old(self)@.recent {
                seq![EventModel::ForegroundChanged]
            } else {
                Seq::empty()
            },
    {
        let same = same_app(&apps.current, &self.foreground.current) && same_apps(
            &apps.recent,
            &self.foreground.recent,
        );
        self.foreground = apps;
        if same {
            StateEvents::none()
        } else {
            StateEvents::of(Event::ForegroundChanged)
        }
    }

    /// The applications the agent saw in front, newest first, as key and name.
    pub fn recent_apps(&self) -> (apps: Vec<SeenApp>)
        ensures
            seen_view(apps@) == self@.recent.map_values(
                |app: AppModel| (app.id, app.display_name),
            ),
    {
        let ghost pair = |app: AppModel| (app.id, app.display_name);
        let mut apps: Vec<SeenApp> = Vec::new();
        let mut i: usize = 0;
        assert(seen_view(apps@) =~= self@.recent.take(0).map_values(pair));
        while i < self.foreground.recent.len()
            invariant
                i <= self.foreground.recent@.len(),
                pair == (|app: AppModel| (app.id, app.display_name)),
                seen_view(apps@) == self@.recent.take(i as int).map_values(pair),
            decreases self.foreground.recent@.len() - i,
        {
            let app = &self.foreground.recent[i];
            let ghost before = seen_view(apps@);
            let seen = (app.id.clone(), app.display_name.clone());
            apps.push(seen);
            assert(seen_view(apps@) =~= before.push((app.id@, app.display_name@)));
            assert(self@.recent.take(i + 1).map_values(pair) =~= self@.recent.take(
                i as int,
            ).map_values(pair).push(pair(self@.recent[i as int])));
            i = i + 1;
        }
        assert(self@.recent.take(i as int) =~= self@.recent);
        apps
    }

    /// The name the agent last reported for `app`, if it saw it.
    pub fn recent_app_name(&self, app: &str) -> (name: Option<&str>)
        ensures
            match name {
                Some(name) => exists|i: int|
                    0 <= i < self@.recent.len() && (#[trigger] self@.recent[i]).id == app@
                        && self@.recent[i].display_name == name@ && forall|j: int|
                        0 <= j < i ==> (#[trigger] self@.recent[j]).id != app@,
                None => forall|i: int|
                    0 <= i < self@.recent.len() ==> (#[trigger] self@.recent[i]).id != app@,
            },
    {
        let mut i: usize = 0;
        while i < self.foreground.recent.len()
            invariant
                i <= self.foreground.recent@.len(),
                forall|j: int| 0 <= j < i ==> (#[trigger] self@.recent[j]).id != app@,
            decreases self.foreground.recent@.len() - i,
        {
            if same_text(self.foreground.recent[i].id.as_str(), app) {
                assert(self@.recent[i as int].id == app@);
                return Some(self.foreground.recent[i].display_name.as_str());
            }
            i = i + 1;
        }
        None
    }

    /// The name of the profile the device on screen runs under, or none when it
    /// runs its own bindings. The application meant is the newest one seen that
    /// is not this one: while this window has the focus, it is itself in front.
    pub fn active_profile_name(&self) -> (name: Option<&str>)
        ensures
            match name {
                Some(name) => {
                    &&& self@.key() is Some
                    &&& self@.recent.len() > 0
                    &&& overridden(device_at(self@.live, self@.key()->0), self@.recent[0].id)
                    &&& name@ == self@.recent[0].display_name
                },
                None => self@.key() is None || self@.recent.len() == 0 || !overridden(
                    device_at(self@.live, self@.key()->0),
                    self@.recent[0].id,
                ),
            },
    {
        let key = match self.current_config_key() {
            Some(key) => key,
            None => {
                return None;
            },
        };
        if self.foreground.recent.len() == 0 {
            return None;
        }
        let app = &self.foreground.recent[0];
        assert(self@.recent[0] == app@);
        if self.live.has_app_override(key.as_str(), app.id.as_str()) {
            Some(app.display_name.as_str())
        } else {
            None
        }
    }

    /// Turns smooth scrolling on or off; only a change is saved and announced.
    pub fn commit_smooth_scroll(&mut self, enabled: bool) -> (events: StateEvents)
        ensures
            final(self)@ == old(self)@.preferring(
                AppSettings { smooth_scroll: enabled, ..old(self)@.settings },
            ),
            final(self)@ == if enabled == old(self)@.settings.smooth_scroll {
                old(self)@
            } else {
                (StateModel {
                    settings: AppSettings { smooth_scroll: enabled, ..old(self)@.settings },
                    ..old(self)@
                }).saving(true, None)
            },
            events@ == if enabled == old(self)@.settings.smooth_scroll {
                Seq::empty()
            } else {
                seq![EventModel::SettingsChanged]
            },
    {
        if self.settings.smooth_scroll == enabled {
            return StateEvents::none();
        }
        self.settings.smooth_scroll = enabled;
        self.save(true, None);
        StateEvents::of(Event::SettingsChanged)
    }

    /// Sets how strongly thumb wheels scroll; only a change is saved and
    /// announced.
    pub fn commit_thumbwheel_sensitivity(&mut self, sensitivity: ThumbwheelSensitivity) -> (events:
        StateEvents)
        ensures
            final(self)@ == old(self)@.preferring(
                AppSettings { thumbwheel_sensitivity: sensitivity, ..old(self)@.settings },
            ),
            final(self)@ == if sensitivity == old(self)@.settings.thumbwheel_sensitivity {
                old(self)@
            } else {
                (StateModel {
                    settings: AppSettings {
                        thumbwheel_sensitivity: sensitivity,
                        ..old(self)@.settings
                    },
                    ..old(self)@
                }).saving(true, None)
            },
            events@ == if sensitivity == old(self)@.settings.thumbwheel_sensitivity {
                Seq::empty()
            } else {
                seq![EventModel::SettingsChanged]
            },
    {
        if self.settings.thumbwheel_sensitivity == sensitivity {
            return StateEvents::none();
        }
        self.settings.thumbwheel_sensitivity = sensitivity;
        self.save(true, None);
        StateEvents::of(Event::SettingsChanged)
    }

    /// Sets how strongly main wheels scroll; only a change is saved and
    /// announced.
    pub fn commit_vertical_scroll_sensitivity(&mut self, sensitivity: VerticalScrollSensitivity) -> (events:
        StateEvents)
        ensures
            final(self)@ == old(self)@.preferring(
                AppSettings { vertical_scroll_sensitivity: sensitivity, ..old(self)@.settings },
            ),
            final(self)@ == if sensitivity == old(self)@.settings.vertical_scroll_sensitivity {
                old(self)@
            } else {
                (StateModel {
                    settings: AppSettings {
                        vertical_scroll_sensitivity: sensitivity,
                        ..old(self)@.settings
                    },
                    ..old(self)@
                }).saving(true, None)
            },
            events@ == if sensitivity == old(self)@.settings.vertical_scroll_sensitivity {
                Seq::empty()
            } else {
                seq![EventModel::SettingsChanged]
            },
    {
        if self.settings.vertical_scroll_sensitivity == sensitivity {
            return StateEvents::none();
        }
        self.settings.vertical_scroll_sensitivity = sensitivity;
        self.save(true, None);
        StateEvents::of(Event::SettingsChanged)
    }

    /// Chooses which application a mouse profile follows; only a change is saved
    /// and announced.
    pub fn commit_mouse_profile_target(&mut self, target: MouseProfileTarget) -> (events:
        StateEvents)
        ensures
            final(self)@ == old(self)@.preferring(
                AppSettings { mouse_profile_target: target, ..old(self)@.settings },
            ),
            final(self)@ == if target == old(self)@.settings.mouse_profile_target {
                old(self)@
            } else {
                (StateModel {
                    settings: AppSettings {
                        mouse_profile_target: target,
                        ..old(self)@.settings
                    },
                    ..old(self)@
                }).saving(true, None)
            },
            events@ == if target == old(self)@.settings.mouse_profile_target {
                Seq::empty()
            } else {
                seq![EventModel::SettingsChanged]
            },
    {
        if self.settings.mouse_profile_target == target {
            return StateEvents::none();
        }
        self.settings.mouse_profile_target = target;
        self.save(true, None);
        StateEvents::of(Event::SettingsChanged)
    }
}

/// Whether two lists of applications agree.
fn same_apps(a: &Vec<ForegroundApp>, b: &Vec<ForegroundApp>) -> (same: bool)
    ensures
        same == (a@.map_values(|app: ForegroundApp| app@) == b@.map_values(
            |app: ForegroundApp| app@,
        )),
{
    let ghost x = a@.map_values(|app: ForegroundApp| app@);
    let ghost y = b@.map_values(|app: ForegroundApp| app@);
    if a.len() != b.len() {
        assert(x.len() != y.len());
        return false;
    }
    let mut i: usize = 0;
    while i < a.len()
        invariant
            i <= a@.len() == b@.len(),
            x == a@.map_values(|app: ForegroundApp| app@),
            y == b@.map_values(|app: ForegroundApp| app@),
            forall|j: int| 0 <= j < i ==> #[trigger] x[j] == y[j],
        decreases a@.len() - i,
    {
        if !a[i].same_as(&b[i]) {
            assert(x[i as int] != y[i as int]);
            return false;
        }
        i = i + 1;
    }
    assert(x =~= y);
    true
}

/// Whether one of some editors to close is the one of `app` on device `key`.
pub open spec fn closes_buttons(closings: Seq<ClosingModel>, key: Seq<char>, app: Seq<char>)
    -> bool {
    exists|i: int|
        0 <= i < closings.len() && (#[trigger] closings[i]).buttons && closings[i].key == key
            && closings[i].app == app
}

/// The same of ring editors.
pub open spec fn closes_ring(closings: Seq<ClosingModel>, key: Seq<char>, app: Seq<char>) -> bool {
    exists|i: int|
        0 <= i < closings.len() && (#[trigger] closings[i]).ring && closings[i].key == key
            && closings[i].app == app
}

/// What one more editor to close adds.
pub proof fn lemma_one_more_closing(closings: Seq<ClosingModel>, closing: ClosingModel)
    ensures
        forall|key: Seq<char>, app: Seq<char>| #[trigger]
            closes_buttons(closings.push(closing), key, app) == (closes_buttons(closings, key, app)
                || (closing.buttons && closing.key == key && closing.app == app)),
        forall|key: Seq<char>, app: Seq<char>| #[trigger]
            closes_ring(closings.push(closing), key, app) == (closes_ring(closings, key, app) || (
            closing.ring && closing.key == key && closing.app == app)),
{
    let more = closings.push(closing);
    assert(more[closings.len() as int] == closing);
    assert forall|i: int| 0 <= i < closings.len() implies #[trigger] more[i] == closings[i] by {}
    assert forall|key: Seq<char>, app: Seq<char>| #[trigger]
        closes_buttons(more, key, app) == (closes_buttons(closings, key, app) || (closing.buttons
            && closing.key == key && closing.app == app)) by {
        if closes_buttons(closings, key, app) {
            let i = choose|i: int|
                0 <= i < closings.len() && (#[trigger] closings[i]).buttons && closings[i].key
                    == key && closings[i].app == app;
            assert(more[i] == closings[i]);
        }
    }
    assert forall|key: Seq<char>, app: Seq<char>| #[trigger]
        closes_ring(more, key, app) == (closes_ring(closings, key, app) || (closing.ring
            && closing.key == key && closing.app == app)) by {
        if closes_ring(closings, key, app) {
            let i = choose|i: int|
                0 <= i < closings.len() && (#[trigger] closings[i]).ring && closings[i].key == key
                    && closings[i].app == app;
            assert(more[i] == closings[i]);
        }
    }
}

/// Closing editors changes nothing else, and closes an editor exactly when it is
/// to be closed.
pub proof fn lemma_closing_touches_only_editors(state: StateModel, closings: Seq<ClosingModel>)
    ensures
        ({
            let after = state.all_closed(closings);
            &&& after == (StateModel {
                button_apps: after.button_apps,
                ring_apps: after.ring_apps,
                ..state
            })
            &&& forall|key: Seq<char>| #[trigger]
                entry(after.button_apps, key) == match entry(state.button_apps, key) {
                    Some(app) => if closes_buttons(closings, key, app) {
                        None
                    } else {
                        Some(app)
                    },
                    None => None,
                }
            &&& forall|key: Seq<char>| #[trigger]
                entry(after.ring_apps, key) == match entry(state.ring_apps, key) {
                    Some(app) => if closes_ring(closings, key, app) {
                        None
                    } else {
                        Some(app)
                    },
                    None => None,
                }
        }),
    decreases closings.len(),
{
    if closings.len() > 0 {
        let before = closings.drop_last();
        let last = closings.last();
        lemma_closing_touches_only_editors(state, before);
        lemma_one_more_closing(before, last);
        assert(closings =~= before.push(last));
    }
}

/// A change that cannot be saved leaves nothing behind: the configuration and
/// the preferences are what was last saved, no editor closes, the agent is told
/// nothing, and the reason shows.
pub proof fn law_a_read_only_configuration_takes_every_change_back(
    state: StateModel,
    changed: StateModel,
    reload: bool,
    closing: Option<ClosingModel>,
)
    requires
        state.persistence is ReadOnly,
        changed == (StateModel { live: changed.live, settings: changed.settings, ..state }),
    ensures
        ({
            let after = changed.saving(reload, closing);
            &&& after.live == state.saved
            &&& after.settings == state.saved_settings
            &&& after.button_apps == state.button_apps
            &&& after.ring_apps == state.ring_apps
            &&& after.outbox == state.outbox
            &&& after.refused == Some(state.persistence->ReadOnly_0)
        }),
{
}

/// The agent is told of a change once it is saved, and exactly once: a change
/// kept in memory at once, a change in a file when the write went through, and a
/// failed write never.
pub proof fn law_the_agent_hears_of_a_saved_change_once(state: StateModel, reason: Seq<char>)
    ensures
        state.persistence is MemoryOnly ==> state.saving(true, None).outbox == state.outbox.push(
            CommandModel::Reload,
        ) && !state.saving(true, None).reload_owed,
        state.persistence is UserFile ==> {
            let waiting = state.saving(true, None);
            &&& waiting.outbox == state.outbox
            &&& waiting.save_done().outbox == state.outbox.push(CommandModel::Reload)
            &&& waiting.save_done().save_done().outbox == waiting.save_done().outbox
            &&& waiting.save_failed(reason).outbox == state.outbox
            &&& waiting.save_failed(reason).save_done().outbox == state.outbox
            &&& waiting.save_failed(reason).live == state.saved
        },
{
    let waiting = StateModel { unsaved: true, reload_owed: true, ..state };
    lemma_closing_touches_only_editors(waiting.marked_saved(), state.closings);
}

} // verus!
