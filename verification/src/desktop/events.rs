//! The changes the window's state announces, and which of them a panel of the
//! device on screen repaints on.

use vstd::prelude::*;
use crate::order::Duplicate;
use crate::text::same_text;

verus! {

/// Names a device for as long as the window runs.
#[derive(Debug, PartialEq, Eq)]
pub struct DeviceKey {
    text: String,
}

impl View for DeviceKey {
    type V = Seq<char>;

    closed spec fn view(&self) -> Seq<char> {
        self.text@
    }
}

impl DeviceKey {
    /// The key written `text`.
    pub fn new(text: &str) -> (key: DeviceKey)
        ensures
            key@ == text@,
    {
        DeviceKey { text: text.to_owned() }
    }

    /// How the key is written.
    pub fn as_str(&self) -> (text: &str)
        ensures
            text@ == self@,
    {
        self.text.as_str()
    }

    /// Whether two keys name the same device.
    pub fn same_as(&self, other: &DeviceKey) -> (same: bool)
        ensures
            same == (self@ == other@),
    {
        same_text(self.text.as_str(), other.text.as_str())
    }
}

impl Duplicate for DeviceKey {
    fn duplicate(&self) -> (copy: Self) {
        DeviceKey { text: self.text.clone() }
    }
}

/// A change of the window's state, with `K` naming devices.
#[derive(Debug, PartialEq, Eq)]
pub enum Event<K> {
    /// The connection to the agent or its permissions changed.
    AgentChanged,
    /// The application in front or the recent applications changed.
    ForegroundChanged,
    /// Diagnostics changed.
    DiagnosticsChanged,
    /// The devices changed.
    InventoryChanged,
    /// Another device came on screen.
    DeviceSelected(K),
    /// Bindings of a device changed.
    BindingsChanged(K),
    /// The DPI of a device changed.
    DpiChanged(K),
    /// The SmartShift state of a device changed.
    SmartShiftChanged(K),
    /// The presenter settings of a device changed.
    PresenterChanged(K),
    /// The lighting of a device changed.
    LightingChanged(K),
    /// A camera changed.
    CameraChanged,
    /// The permission to use cameras may have changed.
    CameraPermissionChanged,
    /// Other preferences of a device changed.
    DeviceConfigChanged(K),
    /// Preferences of the application changed.
    SettingsChanged,
    /// The interface switched its language.
    LanguageChanged,
}

/// A change of the window's state.
pub type StateEvent = Event<DeviceKey>;

/// A change of the window's state, its device written out.
pub type EventModel = Event<Seq<char>>;

impl View for Event<DeviceKey> {
    type V = EventModel;

    open spec fn view(&self) -> EventModel {
        match *self {
            Event::AgentChanged => Event::AgentChanged,
            Event::ForegroundChanged => Event::ForegroundChanged,
            Event::DiagnosticsChanged => Event::DiagnosticsChanged,
            Event::InventoryChanged => Event::InventoryChanged,
            Event::DeviceSelected(key) => Event::DeviceSelected(key@),
            Event::BindingsChanged(key) => Event::BindingsChanged(key@),
            Event::DpiChanged(key) => Event::DpiChanged(key@),
            Event::SmartShiftChanged(key) => Event::SmartShiftChanged(key@),
            Event::PresenterChanged(key) => Event::PresenterChanged(key@),
            Event::LightingChanged(key) => Event::LightingChanged(key@),
            Event::CameraChanged => Event::CameraChanged,
            Event::CameraPermissionChanged => Event::CameraPermissionChanged,
            Event::DeviceConfigChanged(key) => Event::DeviceConfigChanged(key@),
            Event::SettingsChanged => Event::SettingsChanged,
            Event::LanguageChanged => Event::LanguageChanged,
        }
    }
}

impl<K> Event<K> {
    /// The device the change is about, or none for one of the whole application.
    pub open spec fn about(self) -> Option<K> {
        match self {
            Event::DeviceSelected(key) => Some(key),
            Event::BindingsChanged(key) => Some(key),
            Event::DpiChanged(key) => Some(key),
            Event::SmartShiftChanged(key) => Some(key),
            Event::PresenterChanged(key) => Some(key),
            Event::LightingChanged(key) => Some(key),
            Event::DeviceConfigChanged(key) => Some(key),
            _ => None,
        }
    }

    /// The device the change is about, or none for one of the whole application.
    pub fn device(&self) -> (device: Option<&K>)
        ensures
            match device {
                Some(key) => self.about() == Some(*key),
                None => self.about() is None,
            },
    {
        match self {
            Event::DeviceSelected(key) => Some(key),
            Event::BindingsChanged(key) => Some(key),
            Event::DpiChanged(key) => Some(key),
            Event::SmartShiftChanged(key) => Some(key),
            Event::PresenterChanged(key) => Some(key),
            Event::LightingChanged(key) => Some(key),
            Event::DeviceConfigChanged(key) => Some(key),
            _ => None,
        }
    }
}

impl Event<DeviceKey> {
    /// Whether two changes are the same one.
    pub fn same_as(&self, other: &StateEvent) -> (same: bool)
        ensures
            same == (self@ == other@),
    {
        match (self, other) {
            (Event::AgentChanged, Event::AgentChanged) => true,
            (Event::ForegroundChanged, Event::ForegroundChanged) => true,
            (Event::DiagnosticsChanged, Event::DiagnosticsChanged) => true,
            (Event::InventoryChanged, Event::InventoryChanged) => true,
            (Event::DeviceSelected(a), Event::DeviceSelected(b)) => a.same_as(b),
            (Event::BindingsChanged(a), Event::BindingsChanged(b)) => a.same_as(b),
            (Event::DpiChanged(a), Event::DpiChanged(b)) => a.same_as(b),
            (Event::SmartShiftChanged(a), Event::SmartShiftChanged(b)) => a.same_as(b),
            (Event::PresenterChanged(a), Event::PresenterChanged(b)) => a.same_as(b),
            (Event::LightingChanged(a), Event::LightingChanged(b)) => a.same_as(b),
            (Event::CameraChanged, Event::CameraChanged) => true,
            (Event::CameraPermissionChanged, Event::CameraPermissionChanged) => true,
            (Event::DeviceConfigChanged(a), Event::DeviceConfigChanged(b)) => a.same_as(b),
            (Event::SettingsChanged, Event::SettingsChanged) => true,
            (Event::LanguageChanged, Event::LanguageChanged) => true,
            _ => false,
        }
    }
}

/// The changes one edit causes, in the order they happened.
#[derive(Debug, PartialEq, Eq)]
pub struct StateEvents {
    events: Vec<StateEvent>,
}

impl View for StateEvents {
    type V = Seq<EventModel>;

    closed spec fn view(&self) -> Seq<EventModel> {
        self.events@.map_values(|event: StateEvent| event@)
    }
}

/// `events` followed by `next`, each distinct event once.
pub open spec fn merged(events: Seq<EventModel>, next: Seq<EventModel>) -> Seq<EventModel>
    decreases next.len(),
{
    if next.len() == 0 {
        events
    } else {
        let so_far = merged(events, next.drop_last());
        if so_far.contains(next.last()) {
            so_far
        } else {
            so_far.push(next.last())
        }
    }
}

/// What emitting a change does.
#[derive(Debug, PartialEq, Eq)]
pub enum Emission<K> {
    /// The subscribed views hear of it.
    Announce(Event<K>),
    /// Every open window is repainted; menus and titles follow once the state is
    /// free again.
    Relocalize,
}

/// What emitting `events` does: each is announced in order, and a switched
/// language also reaches the windows.
pub open spec fn emissions(events: Seq<EventModel>) -> Seq<Emission<Seq<char>>>
    decreases events.len(),
{
    if events.len() == 0 {
        Seq::empty()
    } else {
        let before = emissions(events.drop_last()).push(Emission::Announce(events.last()));
        if events.last() == EventModel::LanguageChanged {
            before.push(Emission::Relocalize)
        } else {
            before
        }
    }
}

impl View for Emission<DeviceKey> {
    type V = Emission<Seq<char>>;

    open spec fn view(&self) -> Emission<Seq<char>> {
        match *self {
            Emission::Announce(event) => Emission::Announce(event@),
            Emission::Relocalize => Emission::Relocalize,
        }
    }
}

impl StateEvents {
    /// A change no view needs to hear about.
    pub fn none() -> (events: StateEvents)
        ensures
            events@ == Seq::<EventModel>::empty(),
    {
        let events = StateEvents { events: Vec::new() };
        assert(events@ =~= Seq::<EventModel>::empty());
        events
    }

    /// A change announced as one event.
    pub fn of(event: StateEvent) -> (events: StateEvents)
        ensures
            events@ == seq![event@],
    {
        let mut list: Vec<StateEvent> = Vec::new();
        list.push(event);
        let events = StateEvents { events: list };
        assert(events@ =~= seq![event@]);
        events
    }

    /// A change announced as one event, or not at all.
    pub fn of_some(event: Option<StateEvent>) -> (events: StateEvents)
        ensures
            events@ == match event {
                Some(event) => seq![event@],
                None => Seq::<EventModel>::empty(),
            },
    {
        match event {
            Some(event) => StateEvents::of(event),
            None => StateEvents::none(),
        }
    }

    /// Whether the change needs no announcement.
    pub fn is_empty(&self) -> (empty: bool)
        ensures
            empty == (self@.len() == 0),
    {
        self.events.len() == 0
    }

    /// The events, in order.
    pub fn list(&self) -> (list: &Vec<StateEvent>)
        ensures
            list@.map_values(|event: StateEvent| event@) == self@,
    {
        &self.events
    }

    /// Whether `event` is one of them.
    pub fn contains(&self, event: &StateEvent) -> (found: bool)
        ensures
            found == self@.contains(event@),
    {
        let mut i: usize = 0;
        while i < self.events.len()
            invariant
                i <= self.events.len(),
                forall|j: int| 0 <= j < i ==> (#[trigger] self@[j]) != event@,
            decreases self.events.len() - i,
        {
            if self.events[i].same_as(event) {
                assert(self@[i as int] == event@);
                return true;
            }
            i = i + 1;
        }
        false
    }

    /// These events followed by `next`'s, each distinct event once.
    pub fn and(self, next: StateEvents) -> (both: StateEvents)
        ensures
            both@ == merged(self@, next@),
    {
        let mut all = self;
        let mut i: usize = 0;
        assert(next@.take(0) =~= Seq::<EventModel>::empty());
        while i < next.events.len()
            invariant
                i <= next.events.len(),
                all@ == merged(self@, next@.take(i as int)),
            decreases next.events.len() - i,
        {
            proof {
                assert(next@.take(i + 1).drop_last() =~= next@.take(i as int));
                assert(next@.take(i + 1).last() == next@[i as int]);
            }
            if !all.contains(&next.events[i]) {
                let ghost before = all@;
                let event = next.events[i].duplicate();
                all.events.push(event);
                assert(all@ =~= before.push(next@[i as int]));
            }
            i = i + 1;
        }
        assert(next@.take(i as int) =~= next@);
        all
    }

    /// What emitting the events does.
    pub fn emit(self) -> (out: Vec<Emission<DeviceKey>>)
        ensures
            out@.map_values(|emission: Emission<DeviceKey>| emission@) == emissions(self@),
    {
        let mut out: Vec<Emission<DeviceKey>> = Vec::new();
        let ghost as_model = |emission: Emission<DeviceKey>| emission@;
        let mut i: usize = 0;
        assert(self@.take(0) =~= Seq::<EventModel>::empty());
        assert(out@.map_values(as_model) =~= emissions(self@.take(0)));
        while i < self.events.len()
            invariant
                i <= self.events.len(),
                as_model == (|emission: Emission<DeviceKey>| emission@),
                out@.map_values(as_model) == emissions(self@.take(i as int)),
            decreases self.events.len() - i,
        {
            let ghost before = out@.map_values(as_model);
            proof {
                assert(self@.take(i + 1).drop_last() =~= self@.take(i as int));
                assert(self@.take(i + 1).last() == self@[i as int]);
            }
            let event = self.events[i].duplicate();
            let language = event.same_as(&Event::LanguageChanged);
            out.push(Emission::Announce(event));
            assert(out@.map_values(as_model) =~= before.push(Emission::Announce(self@[i as int])));
            if language {
                out.push(Emission::Relocalize);
                assert(out@.map_values(as_model) =~= before.push(
                    Emission::Announce(self@[i as int]),
                ).push(Emission::Relocalize));
            }
            i = i + 1;
        }
        assert(self@.take(i as int) =~= self@);
        out
    }
}

impl Duplicate for Event<DeviceKey> {
    fn duplicate(&self) -> (copy: Self) {
        match self {
            Event::AgentChanged => Event::AgentChanged,
            Event::ForegroundChanged => Event::ForegroundChanged,
            Event::DiagnosticsChanged => Event::DiagnosticsChanged,
            Event::InventoryChanged => Event::InventoryChanged,
            Event::DeviceSelected(key) => Event::DeviceSelected(key.duplicate()),
            Event::BindingsChanged(key) => Event::BindingsChanged(key.duplicate()),
            Event::DpiChanged(key) => Event::DpiChanged(key.duplicate()),
            Event::SmartShiftChanged(key) => Event::SmartShiftChanged(key.duplicate()),
            Event::PresenterChanged(key) => Event::PresenterChanged(key.duplicate()),
            Event::LightingChanged(key) => Event::LightingChanged(key.duplicate()),
            Event::CameraChanged => Event::CameraChanged,
            Event::CameraPermissionChanged => Event::CameraPermissionChanged,
            Event::DeviceConfigChanged(key) => Event::DeviceConfigChanged(key.duplicate()),
            Event::SettingsChanged => Event::SettingsChanged,
            Event::LanguageChanged => Event::LanguageChanged,
        }
    }
}

/// Merged changes announce each event once and in first-seen order: what stood
/// first stays in front, nothing is lost, nothing is made up, and nothing is
/// said twice.
pub proof fn law_merged_changes_announce_each_event_once(
    events: Seq<EventModel>,
    next: Seq<EventModel>,
)
    requires
        events.no_duplicates(),
    ensures
        events.len() <= merged(events, next).len(),
        merged(events, next).take(events.len() as int) == events,
        merged(events, next).no_duplicates(),
        forall|event: EventModel| #[trigger]
            merged(events, next).contains(event) <==> events.contains(event) || next.contains(
                event,
            ),
    decreases next.len(),
{
    let all = merged(events, next);
    if next.len() == 0 {
        assert(all.take(events.len() as int) =~= events);
    } else {
        let rest = next.drop_last();
        let so_far = merged(events, rest);
        law_merged_changes_announce_each_event_once(events, rest);
        assert(all.take(events.len() as int) =~= so_far.take(events.len() as int));
        assert forall|event: EventModel| #[trigger] all.contains(event) <==> events.contains(event)
            || next.contains(event) by {
            if all.contains(event) {
                let i = all.index_of(event);
                if i < so_far.len() {
                    assert(so_far[i] == event);
                    assert(so_far.contains(event));
                    if rest.contains(event) {
                        let j = rest.index_of(event);
                        assert(next[j] == event);
                    }
                } else {
                    assert(next[next.len() - 1] == event);
                }
            }
            if so_far.contains(event) {
                let i = so_far.index_of(event);
                assert(all[i] == event);
            }
            if next.contains(event) {
                let j = next.index_of(event);
                if j < rest.len() {
                    assert(rest[j] == event);
                    assert(rest.contains(event));
                    assert(so_far.contains(event));
                } else {
                    assert(event == next.last());
                    if !so_far.contains(event) {
                        assert(all[so_far.len() as int] == event);
                    }
                }
            }
        }
    }
}

/// Whether a panel of the device `current` repaints on a change, given whether
/// the change is one the panel shows. A new device on screen repaints every
/// panel; what is about another device repaints none.
pub open spec fn concerns_panel(
    current: Option<Seq<char>>,
    event: EventModel,
    on_topic: bool,
) -> bool {
    match event {
        Event::InventoryChanged => true,
        Event::DeviceSelected(_) => true,
        _ => on_topic && match event.about() {
            None => true,
            Some(key) => current == Some(key),
        },
    }
}

/// Whether a panel of the device `current` repaints on `event`; `topic` picks
/// the changes the panel shows.
pub fn concerns_device_panel(
    current: Option<&DeviceKey>,
    event: &StateEvent,
    topic: impl Fn(&StateEvent) -> bool,
) -> (repaints: bool)
    requires
        call_requires(topic, (event,)),
    ensures
        match event@ {
            Event::InventoryChanged => repaints,
            Event::DeviceSelected(_) => repaints,
            _ => exists|on_topic: bool| #[trigger]
                call_ensures(topic, (event,), on_topic) && repaints == concerns_panel(
                    match current {
                        Some(key) => Some(key@),
                        None => None,
                    },
                    event@,
                    on_topic,
                ),
        },
{
    match event {
        Event::InventoryChanged => true,
        Event::DeviceSelected(_) => true,
        _ => {
            let on_topic = topic(event);
            on_topic && match event.device() {
                None => true,
                Some(key) => match current {
                    Some(current) => current.same_as(key),
                    None => false,
                },
            }
        },
    }
}

} // verus!
