//! Which application is in front, and who hears when it changes.
//!
//! One source is selected per process. It belongs either to the idle controller,
//! which asks it for snapshots, or to the worker that observes it, never to both.

use vstd::prelude::*;
use crate::order::{Duplicate, Key, Order};
use crate::table::Table;
use crate::text::same_text;

verus! {

/// An application as its platform names it.
#[derive(Debug, PartialEq, Eq)]
pub struct ForegroundApp {
    /// The key that profiles match.
    pub id: String,
    /// The name that people read.
    pub display_name: String,
}

/// An application, its texts read as characters.
pub struct AppModel {
    /// The key that profiles match.
    pub id: Seq<char>,
    /// The name that people read.
    pub display_name: Seq<char>,
}

impl View for ForegroundApp {
    type V = AppModel;

    open spec fn view(&self) -> AppModel {
        AppModel { id: self.id@, display_name: self.display_name@ }
    }
}

/// The view of an application that may be missing.
pub open spec fn app_view(app: Option<ForegroundApp>) -> Option<AppModel> {
    match app {
        Some(app) => Some(app@),
        None => None,
    }
}

impl Duplicate for ForegroundApp {
    fn duplicate(&self) -> (copy: Self) {
        ForegroundApp { id: self.id.clone(), display_name: self.display_name.clone() }
    }
}

impl ForegroundApp {
    /// An application whose platform knows no name for people.
    pub fn unnamed(id: String) -> (app: ForegroundApp)
        ensures
            app@ == (AppModel { id: id@, display_name: id@ }),
    {
        let display_name = id.clone();
        ForegroundApp { id, display_name }
    }

    /// Whether two applications agree in key and name.
    pub fn same_as(&self, other: &ForegroundApp) -> (same: bool)
        ensures
            same == (self@ == other@),
    {
        same_text(self.id.as_str(), other.id.as_str()) && same_text(
            self.display_name.as_str(),
            other.display_name.as_str(),
        )
    }
}

/// Whether two possibly missing applications agree.
pub fn same_app(a: &Option<ForegroundApp>, b: &Option<ForegroundApp>) -> (same: bool)
    ensures
        same == (app_view(*a) == app_view(*b)),
{
    match (a, b) {
        (Some(x), Some(y)) => x.same_as(y),
        (None, None) => true,
        _ => false,
    }
}

/// A copy of a possibly missing application.
pub fn copy_app(app: &Option<ForegroundApp>) -> (copy: Option<ForegroundApp>)
    ensures
        app_view(copy) == app_view(*app),
{
    match app {
        Some(app) => Some(app.duplicate()),
        None => None,
    }
}

/// The kind of graphical session.
#[derive(Clone, Copy, Debug, PartialEq, Eq, Structural)]
pub enum SessionKind {
    /// An X11 session.
    X11,
    /// A Wayland session.
    Wayland,
    /// Neither is known.
    Unknown,
}

/// The kind of session that the environment describes: a declared type that is
/// known decides, else the displays that are set.
pub open spec fn session_kind(
    declared: Option<Seq<char>>,
    wayland_display: bool,
    x_display: bool,
) -> SessionKind {
    if declared == Some("wayland"@) {
        SessionKind::Wayland
    } else if declared == Some("x11"@) {
        SessionKind::X11
    } else if wayland_display {
        SessionKind::Wayland
    } else if x_display {
        SessionKind::X11
    } else {
        SessionKind::Unknown
    }
}

/// The kind of session that the environment describes.
pub fn detect_session_kind(
    declared: Option<&str>,
    wayland_display: bool,
    x_display: bool,
) -> (kind: SessionKind)
    ensures
        kind == session_kind(
            match declared {
                Some(text) => Some(text@),
                None => None,
            },
            wayland_display,
            x_display,
        ),
{
    if let Some(kind) = declared {
        proof {
            reveal_strlit("wayland");
            reveal_strlit("x11");
        }
        if same_text(kind, "wayland") {
            return SessionKind::Wayland;
        }
        if same_text(kind, "x11") {
            return SessionKind::X11;
        }
    }
    if wayland_display {
        SessionKind::Wayland
    } else if x_display {
        SessionKind::X11
    } else {
        SessionKind::Unknown
    }
}

/// A way to learn which application is in front.
#[derive(Clone, Copy, Debug, PartialEq, Eq, Structural)]
pub enum FrontmostBackend {
    /// The wlroots protocol for foreign toplevels.
    WlrForeignToplevel,
    /// The GNOME Shell extension.
    GnomeShell,
    /// The X server, also for XWayland windows.
    X11,
    /// None: nothing is ever in front.
    Null,
}

/// The backends to try in a session, in order.
pub open spec fn candidate_backends(session: SessionKind) -> Seq<FrontmostBackend> {
    match session {
        SessionKind::Wayland => seq![
            FrontmostBackend::WlrForeignToplevel,
            FrontmostBackend::GnomeShell,
            FrontmostBackend::X11,
        ],
        _ => seq![FrontmostBackend::X11],
    }
}

/// The backends to try in a session, in order.
pub fn candidates(session: SessionKind) -> (backends: Vec<FrontmostBackend>)
    ensures
        backends@ == candidate_backends(session),
{
    let mut backends: Vec<FrontmostBackend> = Vec::new();
    if let SessionKind::Wayland = session {
        backends.push(FrontmostBackend::WlrForeignToplevel);
        backends.push(FrontmostBackend::GnomeShell);
    }
    backends.push(FrontmostBackend::X11);
    assert(backends@ =~= candidate_backends(session));
    backends
}

/// Whether the candidate at a place is known to have started. One that was not
/// tried has not.
pub open spec fn has_started(started: Seq<bool>, i: int) -> bool {
    0 <= i < started.len() && started[i]
}

/// The backend a session uses, given which of its candidates started as far as
/// they were tried: the first that did, or none.
pub fn detect_frontmost_source(session: SessionKind, started: &Vec<bool>) -> (backend:
    FrontmostBackend)
    ensures
        backend == FrontmostBackend::Null ==> forall|i: int|
            0 <= i < candidate_backends(session).len() ==> !#[trigger] has_started(started@, i),
        backend != FrontmostBackend::Null ==> exists|i: int|
            0 <= i < candidate_backends(session).len() && #[trigger] has_started(started@, i)
                && candidate_backends(session)[i] == backend && forall|j: int|
                0 <= j < i ==> !#[trigger] has_started(started@, j),
{
    let backends = candidates(session);
    let mut i: usize = 0;
    while i < backends.len()
        invariant
            i <= backends@.len(),
            backends@ == candidate_backends(session),
            forall|j: int| 0 <= j < i ==> !#[trigger] has_started(started@, j),
        decreases backends@.len() - i,
    {
        if i < started.len() && started[i] {
            assert(has_started(started@, i as int));
            return backends[i];
        }
        i = i + 1;
    }
    FrontmostBackend::Null
}

/// One who hears of changes.
#[derive(Clone, Copy, Debug, PartialEq, Eq, Structural)]
pub struct Subscriber {
    /// The number of the last change it heard of.
    pub version: Option<u64>,
}

impl View for Subscriber {
    type V = Subscriber;

    open spec fn view(&self) -> Subscriber {
        *self
    }
}

impl Subscriber {
    /// One who has heard of nothing.
    pub fn new() -> (subscriber: Subscriber)
        ensures
            subscriber.version is None,
    {
        Subscriber { version: None }
    }

    /// Whether change number `version` is news.
    pub open spec fn wants(self, version: u64) -> bool {
        match self.version {
            Some(seen) => seen < version,
            None => true,
        }
    }

    /// Whether change number `version` is news.
    pub fn hears(&self, version: u64) -> (news: bool)
        ensures
            news == self.wants(version),
    {
        match self.version {
            Some(seen) => seen < version,
            None => true,
        }
    }
}

impl Key for u64 {
    open spec fn before(a: u64, b: u64) -> bool {
        a < b
    }

    proof fn before_irreflexive(a: u64) {
    }

    proof fn before_transitive(a: u64, b: u64, c: u64) {
    }

    proof fn before_total(a: u64, b: u64) {
    }

    fn order(&self, other: &Self) -> (o: Order) {
        if *self < *other {
            Order::Before
        } else if *self == *other {
            Order::Same
        } else {
            Order::After
        }
    }
}

/// What is published as values.
pub struct PublicationModel {
    /// Whether a worker publishes.
    pub active: bool,
    /// Whether it has published anything.
    pub initialized: bool,
    /// Number of the last change.
    pub version: u64,
    /// The application in front.
    pub current: Option<AppModel>,
    /// Who hears of changes.
    pub subscribers: Map<u64, Subscriber>,
}

/// What is published, and to whom.
#[derive(Debug)]
pub struct Publication {
    active: bool,
    initialized: bool,
    version: u64,
    current: Option<ForegroundApp>,
    subscribers: Table<u64, Subscriber>,
}

impl PublicationModel {
    /// Nothing published, to nobody.
    pub open spec fn fresh() -> PublicationModel {
        PublicationModel {
            active: false,
            initialized: false,
            version: 0,
            current: None,
            subscribers: Map::empty(),
        }
    }

    /// The publication once a worker starts or has stopped.
    pub open spec fn restarted(self, active: bool) -> PublicationModel {
        PublicationModel { active, initialized: false, current: None, ..self }
    }

    /// The publication with one more subscriber, who heard nothing yet.
    pub open spec fn subscribed(self, id: u64) -> PublicationModel {
        PublicationModel {
            subscribers: self.subscribers.insert(id, Subscriber { version: None }),
            ..self
        }
    }

    /// The publication without a subscriber.
    pub open spec fn unsubscribed(self, id: u64) -> PublicationModel {
        PublicationModel { subscribers: self.subscribers.remove(id), ..self }
    }

    /// Whether publishing an application changes anything.
    pub open spec fn changes(self, app: Option<AppModel>) -> bool {
        !self.initialized || self.current != app
    }

    /// The publication once an application was published.
    pub open spec fn published(self, app: Option<AppModel>) -> PublicationModel {
        if self.changes(app) {
            PublicationModel {
                initialized: true,
                version: (self.version + 1) as u64,
                current: app,
                ..self
            }
        } else {
            self
        }
    }

    /// Whether a subscriber is to be called for a change.
    pub open spec fn calls(self, id: u64, version: u64) -> bool {
        self.subscribers.dom().contains(id) && self.subscribers[id].wants(version)
    }

    /// The publication once a subscriber was called for a change, where it is to be.
    pub open spec fn delivered(self, id: u64, version: u64) -> PublicationModel {
        if self.calls(id, version) {
            PublicationModel {
                subscribers: self.subscribers.insert(id, Subscriber { version: Some(version) }),
                ..self
            }
        } else {
            self
        }
    }
}

/// The view of an application that is named by its key.
pub open spec fn keyed_app(app_id: Option<String>) -> Option<AppModel> {
    match app_id {
        Some(id) => Some(AppModel { id: id@, display_name: id@ }),
        None => None,
    }
}

impl View for Publication {
    type V = PublicationModel;

    closed spec fn view(&self) -> PublicationModel {
        PublicationModel {
            active: self.active,
            initialized: self.initialized,
            version: self.version,
            current: app_view(self.current),
            subscribers: self.subscribers@,
        }
    }
}

/// What a snapshot of the publication says.
#[derive(Debug, PartialEq, Eq)]
pub enum ActiveSnapshot {
    /// Nobody publishes: ask the source.
    Idle,
    /// The published application.
    Active(Option<ForegroundApp>),
}

/// A change to tell subscribers of.
#[derive(Debug, PartialEq, Eq)]
pub struct Change {
    /// Number of the change.
    pub version: u64,
    /// Who hears of it.
    pub subscribers: Vec<u64>,
}

impl Publication {
    /// Nothing published, to nobody.
    pub fn new() -> (publication: Publication)
        ensures
            publication@ == (PublicationModel {
                active: false,
                initialized: false,
                version: 0,
                current: None,
                subscribers: Map::empty(),
            }),
            publication@ == PublicationModel::fresh(),
    {
        Publication {
            active: false,
            initialized: false,
            version: 0,
            current: None,
            subscribers: Table::new(),
        }
    }

    /// A worker starts to publish.
    pub fn begin(&mut self)
        ensures
            final(self)@ == (PublicationModel {
                active: true,
                initialized: false,
                current: None,
                ..old(self)@
            }),
            final(self)@ == old(self)@.restarted(true),
    {
        self.active = true;
        self.initialized = false;
        self.current = None;
    }

    /// The worker has stopped.
    pub fn finish(&mut self)
        ensures
            final(self)@ == (PublicationModel {
                active: false,
                initialized: false,
                current: None,
                ..old(self)@
            }),
            final(self)@ == old(self)@.restarted(false),
    {
        self.active = false;
        self.initialized = false;
        self.current = None;
    }

    /// Adds a subscriber; it is owed what was published already.
    pub fn subscribe(&mut self, id: u64) -> (initial: Option<(u64, Option<ForegroundApp>)>)
        ensures
            final(self)@ == (PublicationModel {
                subscribers: old(self)@.subscribers.insert(
                    id,
                    Subscriber { version: None },
                ),
                ..old(self)@
            }),
            final(self)@ == old(self)@.subscribed(id),
            match initial {
                Some((version, app)) => old(self)@.initialized && version == old(self)@.version
                    && app_view(app) == old(self)@.current,
                None => !old(self)@.initialized,
            },
    {
        self.subscribers.insert(id, Subscriber::new());
        if self.initialized {
            Some((self.version, copy_app(&self.current)))
        } else {
            None
        }
    }

    /// Removes a subscriber.
    pub fn unsubscribe(&mut self, id: u64)
        ensures
            final(self)@ == (PublicationModel {
                subscribers: old(self)@.subscribers.remove(id),
                ..old(self)@
            }),
            final(self)@ == old(self)@.unsubscribed(id),
    {
        let _ = self.subscribers.remove(&id);
    }

    /// Whether nobody subscribes.
    pub fn is_empty(&self) -> (empty: bool)
        ensures
            empty == (self@.subscribers == Map::<u64, Subscriber>::empty()),
    {
        self.subscribers.is_empty()
    }

    /// Publishes the application in front. The same one again is no change;
    /// anything else, and the first publication, is numbered and told to every
    /// subscriber.
    pub fn publish(&mut self, app_id: Option<String>) -> (change: Option<Change>)
        requires
            old(self)@.version < u64::MAX,
        ensures
            ({
                let app = match app_id {
                    Some(id) => Some(AppModel { id: id@, display_name: id@ }),
                    None => None,
                };
                if old(self)@.initialized && old(self)@.current == app {
                    change is None && final(self)@ == old(self)@
                } else {
                    &&& final(self)@ == (PublicationModel {
                        initialized: true,
                        version: (old(self)@.version + 1) as u64,
                        current: app,
                        ..old(self)@
                    })
                    &&& change matches Some(c) && c.version == old(self)@.version + 1 && (
                    forall|id: u64| #[trigger]
                        c.subscribers@.contains(id) <==> old(self)@.subscribers.dom().contains(id))
                        && c.subscribers@.no_duplicates()
                }
            }),
            final(self)@ == old(self)@.published(keyed_app(app_id)),
            (change is Some) == old(self)@.changes(keyed_app(app_id)),
            change matches Some(c) ==> c.version == final(self)@.version,
    {
        let app = match app_id {
            Some(id) => Some(ForegroundApp::unnamed(id)),
            None => None,
        };
        if self.initialized && same_app(&self.current, &app) {
            return None;
        }
        self.initialized = true;
        self.version = self.version + 1;
        self.current = app;
        let n: usize = self.subscribers.len();
        let mut ids: Vec<u64> = Vec::new();
        let mut i: usize = 0;
        while i < n
            invariant
                i <= n == self.subscribers.keys().len(),
                ids@ == self.subscribers.keys().take(i as int),
            decreases n - i,
        {
            let (id, _) = self.subscribers.entry_at(i);
            ids.push(*id);
            assert(self.subscribers.keys().take(i + 1) =~= self.subscribers.keys().take(
                i as int,
            ).push(*id));
            i = i + 1;
        }
        assert(self.subscribers.keys().take(i as int) =~= self.subscribers.keys());
        assert forall|a: int, b: int| 0 <= a < b < ids@.len() implies ids@[a] != ids@[b] by {
            assert(<u64 as Key>::before(self.subscribers.keys()[a], self.subscribers.keys()[b]));
        }
        assert forall|id: u64| #[trigger] ids@.contains(id) <==> self@.subscribers.dom().contains(
            id,
        ) by {
            assert(self.subscribers@.dom().contains(id) <==> self.subscribers.keys().contains(id));
        }
        Some(Change { version: self.version, subscribers: ids })
    }

    /// Whether subscriber `id` is to be called for change number `version`:
    /// only while it is subscribed, and never for a change older than one it
    /// already heard of.
    pub fn deliver(&mut self, id: u64, version: u64) -> (call: bool)
        ensures
            call == (old(self)@.subscribers.dom().contains(id)
                && old(self)@.subscribers[id].wants(version)),
            final(self)@ == if call {
                PublicationModel {
                    subscribers: old(self)@.subscribers.insert(
                        id,
                        Subscriber { version: Some(version) },
                    ),
                    ..old(self)@
                }
            } else {
                old(self)@
            },
            call == old(self)@.calls(id, version),
            final(self)@ == old(self)@.delivered(id, version),
    {
        let call = match self.subscribers.get(&id) {
            Some(subscriber) => subscriber.hears(version),
            None => false,
        };
        if call {
            self.subscribers.insert(id, Subscriber { version: Some(version) });
        }
        call
    }

    /// What is published now.
    pub fn active_snapshot(&self) -> (snapshot: ActiveSnapshot)
        ensures
            match snapshot {
                ActiveSnapshot::Idle => !self@.active,
                ActiveSnapshot::Active(app) => self@.active && app_view(app) == self@.current,
            },
    {
        if self.active {
            ActiveSnapshot::Active(copy_app(&self.current))
        } else {
            ActiveSnapshot::Idle
        }
    }
}

/// What starting to watch takes.
#[derive(Debug, PartialEq, Eq)]
pub enum Watch {
    /// Wait until the worker that is stopping has stopped, then ask again.
    Wait,
    /// Start a worker for this first subscriber.
    Start {
        /// The subscriber.
        id: u64,
    },
    /// The worker runs already.
    Attached {
        /// The subscriber.
        id: u64,
        /// What it is owed at once.
        initial: Option<(u64, Option<ForegroundApp>)>,
    },
}

/// What the last subscriber leaving takes.
#[derive(Clone, Copy, Debug, PartialEq, Eq, Structural)]
pub enum Retire {
    /// Wait until the worker that is stopping has stopped, then ask again.
    Wait,
    /// Nothing.
    Nothing,
    /// Stop the worker and take its source back.
    Stop,
}

/// How the application in front is read.
#[derive(Debug, PartialEq, Eq)]
pub enum Frontmost {
    /// It is published.
    Published(Option<ForegroundApp>),
    /// Wait until the worker that is stopping has stopped, then ask again.
    Wait,
    /// Ask the source.
    AskSource,
    /// There is no source.
    NoSource,
}

/// The controller as values.
pub struct ControllerModel {
    /// What is published.
    pub publication: PublicationModel,
    /// Whether the controller holds the source.
    pub has_source: bool,
    /// Whether a worker runs.
    pub has_worker: bool,
    /// Whether a worker is being stopped.
    pub stopping: bool,
    /// The next subscriber.
    pub next_subscriber_id: u64,
}

impl ControllerModel {
    /// A controller that holds its source.
    pub open spec fn idle() -> ControllerModel {
        ControllerModel {
            publication: PublicationModel::fresh(),
            has_source: true,
            has_worker: false,
            stopping: false,
            next_subscriber_id: 0,
        }
    }

    /// The controller with another publication.
    pub open spec fn publishing(self, publication: PublicationModel) -> ControllerModel {
        ControllerModel { publication, ..self }
    }

    /// The controller once someone started to watch: numbered, and attached where a
    /// worker runs.
    pub open spec fn watched(self) -> ControllerModel {
        if self.stopping {
            self
        } else {
            ControllerModel {
                publication: if self.has_worker {
                    self.publication.subscribed(self.next_subscriber_id)
                } else {
                    self.publication
                },
                next_subscriber_id: (self.next_subscriber_id + 1) as u64,
                ..self
            }
        }
    }

    /// The controller once a worker took the source for its first subscriber.
    pub open spec fn started(self, id: u64) -> ControllerModel {
        ControllerModel {
            publication: self.publication.restarted(true).subscribed(id),
            has_source: false,
            has_worker: true,
            ..self
        }
    }

    /// The controller once a worker refused to start.
    pub open spec fn refused(self, id: u64) -> ControllerModel {
        ControllerModel {
            publication: self.publication.unsubscribed(id).restarted(false),
            has_source: true,
            has_worker: false,
            ..self
        }
    }

    /// Whether the worker is to stop: the last subscriber left.
    pub open spec fn retires(self) -> bool {
        !self.stopping && self.has_worker && self.publication.subscribers == Map::<
            u64,
            Subscriber,
        >::empty()
    }

    /// The controller once the worker was told to stop, where it is to.
    pub open spec fn retired(self) -> ControllerModel {
        if self.retires() {
            ControllerModel { has_worker: false, stopping: true, ..self }
        } else {
            self
        }
    }

    /// The controller once the worker gave the source back.
    pub open spec fn stopped(self) -> ControllerModel {
        ControllerModel {
            publication: self.publication.restarted(false),
            has_source: true,
            stopping: false,
            ..self
        }
    }

    /// What always holds: the source is with the controller exactly while no
    /// worker runs or stops, a worker that runs is not stopping, and something
    /// is published only while a worker runs or stops.
    pub open spec fn valid(self) -> bool {
        &&& self.has_source == !(self.has_worker || self.stopping)
        &&& !(self.has_worker && self.stopping)
        &&& self.publication.active == (self.has_worker || self.stopping)
    }
}

/// Who owns the source, and whether a worker runs.
#[derive(Debug)]
pub struct FrontmostController {
    publication: Publication,
    has_source: bool,
    has_worker: bool,
    stopping: bool,
    next_subscriber_id: u64,
}

impl View for FrontmostController {
    type V = ControllerModel;

    closed spec fn view(&self) -> ControllerModel {
        ControllerModel {
            publication: self.publication@,
            has_source: self.has_source,
            has_worker: self.has_worker,
            stopping: self.stopping,
            next_subscriber_id: self.next_subscriber_id,
        }
    }
}

impl FrontmostController {
    /// A controller that holds its source.
    pub fn new() -> (controller: FrontmostController)
        ensures
            controller@ == (ControllerModel {
                publication: PublicationModel {
                    active: false,
                    initialized: false,
                    version: 0,
                    current: None,
                    subscribers: Map::empty(),
                },
                has_source: true,
                has_worker: false,
                stopping: false,
                next_subscriber_id: 0,
            }),
            controller@ == ControllerModel::idle(),
            controller@.valid(),
    {
        FrontmostController {
            publication: Publication::new(),
            has_source: true,
            has_worker: false,
            stopping: false,
            next_subscriber_id: 0,
        }
    }

    /// How the application in front is read now.
    pub fn frontmost_app(&self) -> (how: Frontmost)
        ensures
            match how {
                Frontmost::Published(app) => self@.publication.active && app_view(app)
                    == self@.publication.current,
                Frontmost::Wait => !self@.publication.active && self@.stopping,
                Frontmost::AskSource => !self@.publication.active && !self@.stopping
                    && self@.has_source,
                Frontmost::NoSource => !self@.publication.active && !self@.stopping
                    && !self@.has_source,
            },
            self@.valid() ==> how is Published || how is AskSource,
    {
        match self.publication.active_snapshot() {
            ActiveSnapshot::Active(app) => Frontmost::Published(app),
            ActiveSnapshot::Idle => if self.stopping {
                Frontmost::Wait
            } else if self.has_source {
                Frontmost::AskSource
            } else {
                Frontmost::NoSource
            },
        }
    }

    /// Whether another subscriber can be numbered.
    pub fn can_watch(&self) -> (can: bool)
        ensures
            can == (self@.next_subscriber_id < u64::MAX),
    {
        self.next_subscriber_id < u64::MAX
    }

    /// Whether another change can be numbered.
    pub fn can_publish(&self) -> (can: bool)
        ensures
            can == (self@.publication.version < u64::MAX),
    {
        self.publication.version < u64::MAX
    }

    /// Starts to watch: numbers the subscriber, and attaches it when a worker runs.
    pub fn watch(&mut self) -> (watch: Watch)
        requires
            old(self)@.next_subscriber_id < u64::MAX,
        ensures
            old(self)@.stopping ==> watch is Wait && final(self)@ == old(self)@,
            !old(self)@.stopping && !old(self)@.has_worker ==> watch == (Watch::Start {
                id: old(self)@.next_subscriber_id,
            }) && final(self)@ == (ControllerModel {
                next_subscriber_id: (old(self)@.next_subscriber_id + 1) as u64,
                ..old(self)@
            }),
            !old(self)@.stopping && old(self)@.has_worker ==> {
                &&& watch matches Watch::Attached { id, initial } && id == old(
                    self,
                )@.next_subscriber_id && (initial is Some) == old(self)@.publication.initialized
                    && (initial matches Some(owed) ==> owed.0 == old(self)@.publication.version
                    && app_view(owed.1) == old(self)@.publication.current)
                &&& final(self)@ == (ControllerModel {
                    next_subscriber_id: (old(self)@.next_subscriber_id + 1) as u64,
                    publication: PublicationModel {
                        subscribers: old(self)@.publication.subscribers.insert(
                            old(self)@.next_subscriber_id,
                            Subscriber { version: None },
                        ),
                        ..old(self)@.publication
                    },
                    ..old(self)@
                })
            },
            final(self)@ == old(self)@.watched(),
            old(self)@.valid() ==> final(self)@.valid(),
    {
        if self.stopping {
            return Watch::Wait;
        }
        let id: u64 = self.next_subscriber_id;
        self.next_subscriber_id = id + 1;
        if !self.has_worker {
            Watch::Start { id }
        } else {
            let initial = self.publication.subscribe(id);
            Watch::Attached { id, initial }
        }
    }

    /// A worker for the first subscriber `id` is ready to take the source.
    pub fn worker_ready(&mut self, id: u64)
        requires
            !old(self)@.has_worker,
            !old(self)@.stopping,
        ensures
            final(self)@ == (ControllerModel {
                publication: PublicationModel {
                    active: true,
                    initialized: false,
                    current: None,
                    subscribers: old(self)@.publication.subscribers.insert(
                        id,
                        Subscriber { version: None },
                    ),
                    ..old(self)@.publication
                },
                has_source: false,
                has_worker: true,
                ..old(self)@
            }),
            final(self)@ == old(self)@.started(id),
            final(self)@.valid(),
    {
        self.publication.begin();
        let _ = self.publication.subscribe(id);
        self.has_source = false;
        self.has_worker = true;
    }

    /// The worker stopped before it took the source: everything is as before it
    /// was started.
    pub fn worker_refused(&mut self, id: u64)
        requires
            old(self)@.has_worker,
            !old(self)@.stopping,
        ensures
            final(self)@ == (ControllerModel {
                publication: PublicationModel {
                    active: false,
                    initialized: false,
                    current: None,
                    subscribers: old(self)@.publication.subscribers.remove(id),
                    ..old(self)@.publication
                },
                has_source: true,
                has_worker: false,
                ..old(self)@
            }),
            final(self)@ == old(self)@.refused(id),
            final(self)@.valid(),
    {
        self.has_source = true;
        self.has_worker = false;
        self.publication.unsubscribe(id);
        self.publication.finish();
    }

    /// Publishes what the worker saw.
    pub fn publish(&mut self, app_id: Option<String>) -> (change: Option<Change>)
        requires
            old(self)@.publication.version < u64::MAX,
        ensures
            ({
                let before = old(self)@.publication;
                let app = match app_id {
                    Some(id) => Some(AppModel { id: id@, display_name: id@ }),
                    None => None,
                };
                if before.initialized && before.current == app {
                    change is None && final(self)@ == old(self)@
                } else {
                    &&& final(self)@ == (ControllerModel {
                        publication: PublicationModel {
                            initialized: true,
                            version: (before.version + 1) as u64,
                            current: app,
                            ..before
                        },
                        ..old(self)@
                    })
                    &&& change matches Some(c) && c.version == before.version + 1 && (
                    forall|id: u64| #[trigger]
                        c.subscribers@.contains(id) <==> before.subscribers.dom().contains(id))
                        && c.subscribers@.no_duplicates()
                }
            }),
            final(self)@ == old(self)@.publishing(
                old(self)@.publication.published(keyed_app(app_id)),
            ),
            (change is Some) == old(self)@.publication.changes(keyed_app(app_id)),
            change matches Some(c) ==> c.version == final(self)@.publication.version,
    {
        self.publication.publish(app_id)
    }

    /// Whether subscriber `id` is to be called for change number `version`.
    pub fn deliver(&mut self, id: u64, version: u64) -> (call: bool)
        ensures
            call == (old(self)@.publication.subscribers.dom().contains(id)
                && old(self)@.publication.subscribers[id].wants(version)),
            final(self)@ == if call {
                ControllerModel {
                    publication: PublicationModel {
                        subscribers: old(self)@.publication.subscribers.insert(
                            id,
                            Subscriber { version: Some(version) },
                        ),
                        ..old(self)@.publication
                    },
                    ..old(self)@
                }
            } else {
                old(self)@
            },
            call == old(self)@.publication.calls(id, version),
            final(self)@ == old(self)@.publishing(old(self)@.publication.delivered(id, version)),
    {
        self.publication.deliver(id, version)
    }

    /// Whether the worker stopped without being asked to.
    pub fn check_health(&self, worker_finished: bool) -> (healthy: bool)
        ensures
            healthy == !(self@.has_worker && worker_finished),
    {
        !(self.has_worker && worker_finished)
    }

    /// Removes a subscriber; [`Self::retire`] follows.
    pub fn unsubscribe(&mut self, id: u64)
        ensures
            final(self)@ == (ControllerModel {
                publication: PublicationModel {
                    subscribers: old(self)@.publication.subscribers.remove(id),
                    ..old(self)@.publication
                },
                ..old(self)@
            }),
            final(self)@ == old(self)@.publishing(old(self)@.publication.unsubscribed(id)),
    {
        self.publication.unsubscribe(id);
    }

    /// What a removed subscriber leaves to do: the last one stops the worker.
    pub fn retire(&mut self) -> (retire: Retire)
        ensures
            retire == if old(self)@.stopping {
                Retire::Wait
            } else if old(self)@.publication.subscribers != Map::<u64, Subscriber>::empty() || !old(
                self,
            )@.has_worker {
                Retire::Nothing
            } else {
                Retire::Stop
            },
            final(self)@ == if retire == Retire::Stop {
                ControllerModel { has_worker: false, stopping: true, ..old(self)@ }
            } else {
                old(self)@
            },
            (retire == Retire::Stop) == old(self)@.retires(),
            (retire == Retire::Wait) == old(self)@.stopping,
            final(self)@ == old(self)@.retired(),
            old(self)@.valid() ==> final(self)@.valid(),
    {
        if self.stopping {
            return Retire::Wait;
        }
        if !self.publication.is_empty() || !self.has_worker {
            return Retire::Nothing;
        }
        self.has_worker = false;
        self.stopping = true;
        Retire::Stop
    }

    /// The worker has stopped and its source is back.
    pub fn worker_stopped(&mut self)
        requires
            old(self)@.stopping,
            !old(self)@.has_worker,
        ensures
            final(self)@ == (ControllerModel {
                publication: PublicationModel {
                    active: false,
                    initialized: false,
                    current: None,
                    ..old(self)@.publication
                },
                has_source: true,
                stopping: false,
                ..old(self)@
            }),
            final(self)@ == old(self)@.stopped(),
            final(self)@.valid(),
    {
        self.has_source = true;
        self.publication.finish();
        self.stopping = false;
    }
}

/// A subscriber that heard of a change never hears of an older one, nor of the
/// same one again.
pub proof fn law_delivery_never_goes_back(subscriber: Subscriber, first: u64, second: u64)
    requires
        subscriber.wants(first),
        second <= first,
    ensures
        !(Subscriber { version: Some(first) }).wants(second),
{
}

} // verus!
