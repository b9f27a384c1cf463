//! Talking to the agent: the handshake every client makes, and what a
//! connection has seen of the agent's state.

use vstd::prelude::*;
use crate::agent::presenter::PresenterObservation;
use crate::text::{decimal, push_decimal, push_text, string_of};

verus! {

/// Number of an agent state. An agent numbers its states from one; zero stands
/// for "nothing seen".
pub type Generation = u64;

/// The protocol this build speaks.
pub const PROTOCOL_VERSION: u32 = 1;

/// How long reaching the socket and completing the handshake may take together,
/// in seconds.
pub const HANDSHAKE_TIMEOUT_SECS: u64 = 2;

/// How many seconds longer than the agent's hold an observe request may take
/// before its connection is given up.
pub const OBSERVE_GRACE_SECS: u64 = 5;

/// A protocol mismatch between this build and the agent.
///
/// An older agent is waiting to be replaced, so a client keeps retrying. A newer
/// one means that this process is the stale side, and only its relaunch helps.
#[derive(Clone, Copy, Debug, PartialEq, Eq, Structural)]
pub enum ProtocolSkew {
    /// The agent is behind this build.
    AgentOlder {
        /// What the agent answered.
        agent: u32,
    },
    /// The agent is ahead of this build.
    AgentNewer {
        /// What the agent answered.
        agent: u32,
    },
}

impl ProtocolSkew {
    /// How an agent's version compares with this build's.
    pub open spec fn judged(agent: u32) -> Result<(), ProtocolSkew> {
        if agent < PROTOCOL_VERSION {
            Err(ProtocolSkew::AgentOlder { agent })
        } else if agent > PROTOCOL_VERSION {
            Err(ProtocolSkew::AgentNewer { agent })
        } else {
            Ok(())
        }
    }

    /// The version the agent reported.
    pub open spec fn version(self) -> u32 {
        match self {
            ProtocolSkew::AgentOlder { agent } => agent,
            ProtocolSkew::AgentNewer { agent } => agent,
        }
    }

    /// Judges an agent's answer against this build's version.
    pub fn check(agent: u32) -> (verdict: Result<(), ProtocolSkew>)
        ensures
            verdict == ProtocolSkew::judged(agent),
    {
        if agent < PROTOCOL_VERSION {
            Err(ProtocolSkew::AgentOlder { agent })
        } else if agent > PROTOCOL_VERSION {
            Err(ProtocolSkew::AgentNewer { agent })
        } else {
            Ok(())
        }
    }

    /// The version the agent reported.
    pub fn agent(self) -> (version: u32)
        ensures
            version == self.version(),
    {
        match self {
            ProtocolSkew::AgentOlder { agent } => agent,
            ProtocolSkew::AgentNewer { agent } => agent,
        }
    }

    /// What the skew reads like.
    pub open spec fn text(self) -> Seq<char> {
        match self {
            ProtocolSkew::AgentOlder { agent } => "the agent speaks protocol v"@ + decimal(
                agent as nat,
            ) + ", older than this client's v"@ + decimal(PROTOCOL_VERSION as nat)
                + "; it is waiting to be replaced"@,
            ProtocolSkew::AgentNewer { agent } => "the agent speaks protocol v"@ + decimal(
                agent as nat,
            ) + ", newer than this client's v"@ + decimal(PROTOCOL_VERSION as nat)
                + "; this process needs a relaunch"@,
        }
    }

    /// What the skew reads like.
    pub fn message(self) -> (message: String)
        ensures
            message@ == self.text(),
    {
        let mut out: Vec<char> = Vec::new();
        push_text(&mut out, "the agent speaks protocol v");
        push_decimal(&mut out, self.agent() as u64);
        match self {
            ProtocolSkew::AgentOlder { .. } => push_text(&mut out, ", older than this client's v"),
            ProtocolSkew::AgentNewer { .. } => push_text(&mut out, ", newer than this client's v"),
        }
        push_decimal(&mut out, PROTOCOL_VERSION as u64);
        match self {
            ProtocolSkew::AgentOlder { .. } => push_text(
                &mut out,
                "; it is waiting to be replaced",
            ),
            ProtocolSkew::AgentNewer { .. } => push_text(
                &mut out,
                "; this process needs a relaunch",
            ),
        }
        assert(out@ =~= self.text());
        string_of(&out)
    }
}

/// Why a client could not be established.
#[derive(Debug, PartialEq, Eq)]
pub enum ConnectError {
    /// The agent's socket could not be reached.
    Endpoint(String),
    /// The agent dropped out before the handshake was complete.
    Handshake(String),
    /// The agent speaks a different protocol.
    Skew(ProtocolSkew),
    /// Reaching the socket and the handshake took too long together.
    Timeout,
}

impl ConnectError {
    /// What the error reads like.
    pub open spec fn text(self) -> Seq<char> {
        match self {
            ConnectError::Endpoint(cause) => "could not reach the agent's IPC endpoint: "@ + cause@,
            ConnectError::Handshake(cause) => "the agent did not complete the IPC handshake: "@
                + cause@,
            ConnectError::Skew(skew) => skew.text(),
            ConnectError::Timeout => "the agent did not complete the IPC handshake within "@
                + decimal(HANDSHAKE_TIMEOUT_SECS as nat) + " s"@,
        }
    }

    /// What the error reads like.
    pub fn message(&self) -> (message: String)
        ensures
            message@ == self.text(),
    {
        let mut out: Vec<char> = Vec::new();
        match self {
            ConnectError::Endpoint(cause) => {
                push_text(&mut out, "could not reach the agent's IPC endpoint: ");
                push_text(&mut out, cause.as_str());
            },
            ConnectError::Handshake(cause) => {
                push_text(&mut out, "the agent did not complete the IPC handshake: ");
                push_text(&mut out, cause.as_str());
            },
            ConnectError::Skew(skew) => {
                return skew.message();
            },
            ConnectError::Timeout => {
                push_text(&mut out, "the agent did not complete the IPC handshake within ");
                push_decimal(&mut out, HANDSHAKE_TIMEOUT_SECS);
                push_text(&mut out, " s");
            },
        }
        assert(out@ =~= self.text());
        string_of(&out)
    }
}

/// What kind of client declares itself.
#[derive(Clone, Copy, Debug, PartialEq, Eq, Structural)]
pub enum ClientKind {
    /// The settings window; it arms a dormant agent.
    Gui,
    /// The overlay helper.
    Overlay,
    /// The command line.
    Cli,
}

/// What a handshake is for.
#[derive(Clone, Copy, Debug, PartialEq, Eq, Structural)]
pub enum Purpose {
    /// To become a client of this kind.
    Connect(ClientKind),
    /// To ask the version and nothing else.
    Probe,
}

/// What a handshake asks for next.
#[derive(Clone, Copy, Debug, PartialEq, Eq, Structural)]
pub enum HandshakeAsk {
    /// Reach the socket.
    Open,
    /// Ask which protocol the agent speaks.
    AskVersion,
    /// Declare what kind of client this is.
    Declare(ClientKind),
}

/// What came of it.
#[derive(Debug, PartialEq, Eq)]
pub enum HandshakeEvent {
    /// It worked.
    Done,
    /// The agent named its protocol.
    Version(u32),
    /// It failed, and why.
    Failed(String),
    /// The time for the whole sequence is over.
    TimedOut,
}

/// A handshake under way.
#[derive(Clone, Copy, Debug, PartialEq, Eq, Structural)]
pub struct Handshake {
    /// What it is for.
    pub purpose: Purpose,
    /// What it asks for.
    pub ask: HandshakeAsk,
}

/// Where a handshake is.
#[derive(Debug, PartialEq, Eq)]
pub enum Progress {
    /// It goes on.
    Continue(Handshake),
    /// It is over: the agent's version, or why there is no connection.
    Finished(Result<u32, ConnectError>),
}

impl Handshake {
    /// What an event makes of the handshake. The version is asked before the
    /// declaration, and a client that disagrees with the agent never declares
    /// itself: the declaration is what arms a dormant agent.
    pub open spec fn stepped(self, event: HandshakeEvent) -> Progress {
        match (self.ask, event) {
            (_, HandshakeEvent::TimedOut) => Progress::Finished(Err(ConnectError::Timeout)),
            (HandshakeAsk::Open, HandshakeEvent::Failed(cause)) => Progress::Finished(
                Err(ConnectError::Endpoint(cause)),
            ),
            (_, HandshakeEvent::Failed(cause)) => Progress::Finished(
                Err(ConnectError::Handshake(cause)),
            ),
            (HandshakeAsk::Open, HandshakeEvent::Done) => Progress::Continue(
                Handshake { ask: HandshakeAsk::AskVersion, ..self },
            ),
            (HandshakeAsk::AskVersion, HandshakeEvent::Version(version)) => match self.purpose {
                Purpose::Probe => Progress::Finished(Ok(version)),
                Purpose::Connect(kind) => match ProtocolSkew::judged(version) {
                    Ok(_) => Progress::Continue(
                        Handshake { ask: HandshakeAsk::Declare(kind), ..self },
                    ),
                    Err(skew) => Progress::Finished(Err(ConnectError::Skew(skew))),
                },
            },
            (HandshakeAsk::Declare(_), HandshakeEvent::Done) => Progress::Finished(
                Ok(PROTOCOL_VERSION),
            ),
            _ => Progress::Continue(self),
        }
    }

    /// A handshake to become a client of `kind`.
    pub fn connect_as(kind: ClientKind) -> (handshake: Handshake)
        ensures
            handshake == (Handshake { purpose: Purpose::Connect(kind), ask: HandshakeAsk::Open }),
    {
        Handshake { purpose: Purpose::Connect(kind), ask: HandshakeAsk::Open }
    }

    /// A handshake that only asks the version.
    pub fn probe_version() -> (handshake: Handshake)
        ensures
            handshake == (Handshake { purpose: Purpose::Probe, ask: HandshakeAsk::Open }),
    {
        Handshake { purpose: Purpose::Probe, ask: HandshakeAsk::Open }
    }

    /// Takes what came of it.
    pub fn step(self, event: HandshakeEvent) -> (progress: Progress)
        ensures
            progress == self.stepped(event),
    {
        match (self.ask, event) {
            (_, HandshakeEvent::TimedOut) => Progress::Finished(Err(ConnectError::Timeout)),
            (HandshakeAsk::Open, HandshakeEvent::Failed(cause)) => Progress::Finished(
                Err(ConnectError::Endpoint(cause)),
            ),
            (_, HandshakeEvent::Failed(cause)) => Progress::Finished(
                Err(ConnectError::Handshake(cause)),
            ),
            (HandshakeAsk::Open, HandshakeEvent::Done) => Progress::Continue(
                Handshake { purpose: self.purpose, ask: HandshakeAsk::AskVersion },
            ),
            (HandshakeAsk::AskVersion, HandshakeEvent::Version(version)) => match self.purpose {
                Purpose::Probe => Progress::Finished(Ok(version)),
                Purpose::Connect(kind) => match ProtocolSkew::check(version) {
                    Ok(_) => Progress::Continue(
                        Handshake { purpose: self.purpose, ask: HandshakeAsk::Declare(kind) },
                    ),
                    Err(skew) => Progress::Finished(Err(ConnectError::Skew(skew))),
                },
            },
            (HandshakeAsk::Declare(_), HandshakeEvent::Done) => Progress::Finished(
                Ok(PROTOCOL_VERSION),
            ),
            _ => Progress::Continue(self),
        }
    }
}

/// A client declares itself only after the agent named the very protocol this
/// build speaks, only when it came to connect, and as what it came as.
pub proof fn law_only_a_matching_agent_is_declared_to(handshake: Handshake, event: HandshakeEvent)
    ensures
        match handshake.stepped(event) {
            Progress::Continue(next) => {
                &&& next.purpose == handshake.purpose
                &&& next.ask is Declare && handshake.ask !is Declare ==> {
                    &&& handshake.ask is AskVersion
                    &&& event == HandshakeEvent::Version(PROTOCOL_VERSION)
                    &&& handshake.purpose == Purpose::Connect(next.ask->Declare_0)
                }
            },
            Progress::Finished(_) => true,
        },
{
}

/// However far a handshake came, the end of its time ends it.
pub proof fn law_a_silent_agent_is_given_up_on(handshake: Handshake)
    ensures
        handshake.stepped(HandshakeEvent::TimedOut) == Progress::Finished(
            Err(ConnectError::Timeout),
        ),
{
}

/// An answer to an observe call: anything that carries a generation.
pub trait Stamped {
    /// The generation the answer describes.
    spec fn stamp(&self) -> Generation;

    /// The generation the answer describes.
    fn generation(&self) -> (generation: Generation)
        ensures
            generation == self.stamp(),
    ;
}

/// The agent's whole state as of a generation.
#[derive(Debug, PartialEq, Eq)]
pub struct Observation<S> {
    /// Number of the state.
    pub generation: Generation,
    /// The state.
    pub snapshot: S,
}

/// The ring the overlay should show as of a generation.
#[derive(Debug, PartialEq, Eq)]
pub struct RingObservation<I> {
    /// Number of the state.
    pub generation: Generation,
    /// The ring to show, if any.
    pub invocation: Option<I>,
}

impl<S> Stamped for Observation<S> {
    open spec fn stamp(&self) -> Generation {
        self.generation
    }

    fn generation(&self) -> (generation: Generation) {
        self.generation
    }
}

impl<I> Stamped for RingObservation<I> {
    open spec fn stamp(&self) -> Generation {
        self.generation
    }

    fn generation(&self) -> (generation: Generation) {
        self.generation
    }
}

impl Stamped for PresenterObservation {
    open spec fn stamp(&self) -> Generation {
        self.generation
    }

    fn generation(&self) -> (generation: Generation) {
        self.generation
    }
}

/// What one connection has seen of the agent's generations.
///
/// It lives no longer than its connection: a replacement agent numbers its own
/// states from one again.
#[derive(Clone, Copy, Debug, PartialEq, Eq, Structural)]
pub struct Ledger {
    seen: Generation,
}

impl View for Ledger {
    type V = Generation;

    closed spec fn view(&self) -> Generation {
        self.seen
    }
}

impl Default for Ledger {
    fn default() -> (ledger: Self)
        ensures
            ledger@ == 0,
    {
        Ledger { seen: 0 }
    }
}

impl Ledger {
    /// A ledger that has seen nothing.
    pub fn new() -> (ledger: Ledger)
        ensures
            ledger@ == 0,
    {
        Ledger { seen: 0 }
    }

    /// What to pass as the newest seen generation on the next observe call.
    pub fn seen(self) -> (generation: Generation)
        ensures
            generation == self@,
    {
        self.seen
    }

    /// Folds an answer in. Only a generation newer than everything seen is news:
    /// an equal one is the hold elapsing, a lower one a stale reply.
    pub fn accept<T: Stamped>(&mut self, answer: T) -> (news: Option<T>)
        ensures
            news == if answer.stamp() > old(self)@ {
                Some(answer)
            } else {
                None
            },
            final(self)@ == if answer.stamp() > old(self)@ {
                answer.stamp()
            } else {
                old(self)@
            },
    {
        if answer.generation() <= self.seen {
            return None;
        }
        self.seen = answer.generation();
        Some(answer)
    }
}

/// What is left seen after answers with these generations.
pub open spec fn seen_after(start: Generation, stamps: Seq<Generation>) -> Generation
    decreases stamps.len(),
{
    if stamps.len() == 0 {
        start
    } else {
        let before = seen_after(start, stamps.drop_last());
        if stamps.last() > before {
            stamps.last()
        } else {
            before
        }
    }
}

/// A ledger only moves forward, and never past what was answered: after any
/// answers it has seen at least what it started with and each of them, and
/// exactly one of these.
pub proof fn law_the_ledger_only_moves_forward(start: Generation, stamps: Seq<Generation>)
    ensures
        seen_after(start, stamps) >= start,
        forall|i: int| 0 <= i < stamps.len() ==> seen_after(start, stamps) >= #[trigger] stamps[i],
        seen_after(start, stamps) == start || stamps.contains(seen_after(start, stamps)),
    decreases stamps.len(),
{
    if stamps.len() > 0 {
        let rest = stamps.drop_last();
        law_the_ledger_only_moves_forward(start, rest);
        assert forall|i: int| 0 <= i < stamps.len() implies seen_after(start, stamps)
            >= #[trigger] stamps[i] by {
            if i < rest.len() {
                assert(rest[i] == stamps[i]);
            }
        }
        if seen_after(start, stamps) != start {
            if seen_after(start, stamps) == stamps.last() {
                assert(stamps[stamps.len() - 1] == stamps.last());
            } else {
                let k = rest.index_of(seen_after(start, rest));
                assert(stamps[k] == rest[k]);
            }
        }
    }
}

/// When an observe call that starts at `now` is given up, in seconds: after the
/// agent's hold, or the hold itself would be cut short.
pub fn observe_deadline(now: u64, hold: u64) -> (deadline: u64)
    requires
        now + hold + OBSERVE_GRACE_SECS <= u64::MAX,
    ensures
        deadline == now + hold + OBSERVE_GRACE_SECS,
        deadline > now + hold,
{
    now + hold + OBSERVE_GRACE_SECS
}

/// Which of the agent's states a connection observes.
#[derive(Clone, Copy, Debug, PartialEq, Eq, Structural)]
pub enum Channel {
    /// The whole state.
    State,
    /// The ring the overlay should show.
    ActionRing,
    /// The effect the overlay should draw.
    Presenter,
}

/// One connection observing the agent: what it has seen, and the one call it
/// keeps in flight.
#[derive(Clone, Copy, Debug, PartialEq, Eq, Structural)]
pub struct Observer {
    channel: Channel,
    ledger: Ledger,
    in_flight: Generation,
}

impl Observer {
    /// What is observed.
    pub closed spec fn channel(self) -> Channel {
        self.channel
    }

    /// What the connection has seen.
    pub closed spec fn seen(self) -> Generation {
        self.ledger@
    }

    /// The newest seen generation the call in flight was made with.
    pub closed spec fn since(self) -> Generation {
        self.in_flight
    }

    /// The call in flight always says what the connection has seen.
    #[verifier::type_invariant]
    spec fn current(self) -> bool {
        self.in_flight == self.ledger@
    }

    /// Observes the whole state.
    pub fn state() -> (observer: Observer)
        ensures
            observer.channel() == Channel::State,
            observer.seen() == 0,
            observer.since() == 0,
    {
        Observer { channel: Channel::State, ledger: Ledger::new(), in_flight: 0 }
    }

    /// Observes the ring the overlay should show.
    pub fn action_ring() -> (observer: Observer)
        ensures
            observer.channel() == Channel::ActionRing,
            observer.seen() == 0,
            observer.since() == 0,
    {
        Observer { channel: Channel::ActionRing, ledger: Ledger::new(), in_flight: 0 }
    }

    /// Observes the effect the overlay should draw.
    pub fn presenter() -> (observer: Observer)
        ensures
            observer.channel() == Channel::Presenter,
            observer.seen() == 0,
            observer.since() == 0,
    {
        Observer { channel: Channel::Presenter, ledger: Ledger::new(), in_flight: 0 }
    }

    /// The call to keep in flight: it stays the same until it is answered.
    pub fn call(&self) -> (call: (Channel, Generation))
        ensures
            call == (self.channel(), self.since()),
            self.since() == self.seen(),
    {
        proof {
            use_type_invariant(self);
        }
        (self.channel, self.in_flight)
    }

    /// Takes the answer to the call in flight and arms the next one, whatever
    /// the answer was.
    pub fn next<T: Stamped, E>(&mut self, answered: Result<T, E>) -> (fresh: Result<Option<T>, E>)
        ensures
            final(self).channel() == old(self).channel(),
            final(self).since() == final(self).seen(),
            match answered {
                Ok(answer) => {
                    &&& fresh == Ok::<Option<T>, E>(
                        if answer.stamp() > old(self).seen() {
                            Some(answer)
                        } else {
                            None
                        },
                    )
                    &&& final(self).seen() == seen_after(old(self).seen(), seq![answer.stamp()])
                },
                Err(error) => {
                    &&& fresh == Err::<Option<T>, E>(error)
                    &&& final(self).seen() == old(self).seen()
                },
            },
    {
        let ghost before = self.ledger@;
        let mut ledger = self.ledger;
        let fresh = match answered {
            Ok(answer) => {
                proof {
                    let stamps = seq![answer.stamp()];
                    assert(stamps.drop_last() =~= Seq::<Generation>::empty());
                    assert(seen_after(before, stamps.drop_last()) == before);
                }
                Ok(ledger.accept(answer))
            },
            Err(error) => Err(error),
        };
        *self = Observer { channel: self.channel, ledger, in_flight: ledger.seen() };
        fresh
    }
}

} // verus!
