use openlogi::agent::presenter::PresenterObservation;
use openlogi::ipc::{
    observe_deadline, Channel, ClientKind, ConnectError, Handshake, HandshakeAsk, HandshakeEvent,
    Ledger, Observation, Observer, Progress, ProtocolSkew, RingObservation, Stamped,
    PROTOCOL_VERSION,
};

fn stamp(generation: u64) -> RingObservation<u8> {
    RingObservation { generation, invocation: None }
}

#[test]
fn the_ledger_only_moves_forward() {
    let mut ledger = Ledger::new();
    assert_eq!(ledger.seen(), 0, "a fresh ledger asks for everything");

    assert!(ledger.accept(stamp(2)).is_some(), "a newer generation is accepted");
    assert_eq!(ledger.seen(), 2);

    assert!(ledger.accept(stamp(1)).is_none(), "a stale reply is dropped");
    assert!(ledger.accept(stamp(2)).is_none(), "the hold's heartbeat is dropped");
    assert_eq!(ledger.seen(), 2, "neither rewinds the ledger");

    assert!(ledger.accept(stamp(3)).is_some());
    assert_eq!(ledger.seen(), 3);
}

#[test]
fn every_observation_is_stamped() {
    assert_eq!(stamp(7).generation(), 7);
    assert_eq!(Observation { generation: 8, snapshot: () }.generation(), 8);
    assert_eq!(PresenterObservation { generation: 9, overlay: None }.generation(), 9);
    assert_eq!(Ledger::default(), Ledger::new());
}

#[test]
fn the_direction_of_a_skew_says_which_side_is_stale() {
    assert_eq!(ProtocolSkew::check(PROTOCOL_VERSION), Ok(()));
    let older = ProtocolSkew::AgentOlder { agent: PROTOCOL_VERSION - 1 };
    let newer = ProtocolSkew::AgentNewer { agent: PROTOCOL_VERSION + 41 };
    assert_eq!(ProtocolSkew::check(PROTOCOL_VERSION - 1), Err(older));
    assert_eq!(ProtocolSkew::check(PROTOCOL_VERSION + 41), Err(newer));
    assert_eq!(newer.agent(), PROTOCOL_VERSION + 41);
    assert_eq!(
        newer.message(),
        format!(
            "the agent speaks protocol v{}, newer than this client's v{}; this process needs a relaunch",
            PROTOCOL_VERSION + 41,
            PROTOCOL_VERSION
        )
    );
    assert_eq!(
        older.message(),
        format!(
            "the agent speaks protocol v{}, older than this client's v{}; it is waiting to be replaced",
            PROTOCOL_VERSION - 1,
            PROTOCOL_VERSION
        )
    );
}

/// Runs a handshake against an agent that answers `version`, and says who was
/// declared to it.
fn handshake_with(
    start: Handshake,
    version: u32,
) -> (Result<u32, ConnectError>, Vec<ClientKind>) {
    let mut declared = Vec::new();
    let mut handshake = start;
    for _ in 0..8 {
        let event = match handshake.ask {
            HandshakeAsk::Open => HandshakeEvent::Done,
            HandshakeAsk::AskVersion => HandshakeEvent::Version(version),
            HandshakeAsk::Declare(kind) => {
                declared.push(kind);
                HandshakeEvent::Done
            }
        };
        match handshake.step(event) {
            Progress::Continue(next) => handshake = next,
            Progress::Finished(result) => return (result, declared),
        }
    }
    panic!("a handshake takes three steps");
}

#[test]
fn a_matching_agent_is_declared_to() {
    let (result, declared) =
        handshake_with(Handshake::connect_as(ClientKind::Overlay), PROTOCOL_VERSION);
    assert_eq!(result, Ok(PROTOCOL_VERSION));
    assert_eq!(declared, [ClientKind::Overlay]);
}

#[test]
fn an_older_agent_is_left_undeclared_to() {
    let (result, declared) =
        handshake_with(Handshake::connect_as(ClientKind::Gui), PROTOCOL_VERSION - 1);
    assert!(matches!(
        result,
        Err(ConnectError::Skew(ProtocolSkew::AgentOlder { agent })) if agent == PROTOCOL_VERSION - 1
    ));
    assert!(declared.is_empty(), "no declaration to a stale agent");
}

#[test]
fn a_newer_agent_makes_this_client_the_stale_side() {
    let (result, declared) =
        handshake_with(Handshake::connect_as(ClientKind::Cli), PROTOCOL_VERSION + 1);
    assert!(matches!(
        result,
        Err(ConnectError::Skew(ProtocolSkew::AgentNewer { agent })) if agent == PROTOCOL_VERSION + 1
    ));
    assert!(declared.is_empty());
}

#[test]
fn a_probe_never_declares() {
    let (result, declared) = handshake_with(Handshake::probe_version(), PROTOCOL_VERSION + 3);
    assert_eq!(result, Ok(PROTOCOL_VERSION + 3));
    assert!(declared.is_empty());
}

#[test]
fn a_silent_agent_is_given_up_on() {
    let Progress::Continue(asking) =
        Handshake::connect_as(ClientKind::Gui).step(HandshakeEvent::Done)
    else {
        panic!("an opened socket is asked for its version");
    };
    assert_eq!(
        asking.step(HandshakeEvent::TimedOut),
        Progress::Finished(Err(ConnectError::Timeout))
    );
    assert_eq!(
        ConnectError::Timeout.message(),
        "the agent did not complete the IPC handshake within 2 s"
    );
}

#[test]
fn an_endpoint_that_never_opens_is_given_up_on() {
    for start in [Handshake::connect_as(ClientKind::Cli), Handshake::probe_version()] {
        assert_eq!(
            start.step(HandshakeEvent::TimedOut),
            Progress::Finished(Err(ConnectError::Timeout))
        );
        assert_eq!(
            start.step(HandshakeEvent::Failed("refused".into())),
            Progress::Finished(Err(ConnectError::Endpoint("refused".into())))
        );
    }
}

#[test]
fn an_agent_that_drops_out_is_no_absent_one() {
    let Progress::Continue(asking) =
        Handshake::connect_as(ClientKind::Gui).step(HandshakeEvent::Done)
    else {
        panic!("an opened socket is asked for its version");
    };
    let Progress::Finished(Err(error)) = asking.step(HandshakeEvent::Failed("gone".into())) else {
        panic!("a dropped call ends the handshake");
    };
    assert_eq!(error, ConnectError::Handshake("gone".into()));
    assert_eq!(error.message(), "the agent did not complete the IPC handshake: gone");
    assert_eq!(
        ConnectError::Endpoint("refused".into()).message(),
        "could not reach the agent's IPC endpoint: refused"
    );
}

#[test]
fn only_a_newer_generation_is_an_answer_and_every_reply_rearms() {
    let mut observer = Observer::action_ring();
    let mut asked = Vec::new();
    let mut seen = Vec::new();
    for generation in [2, 2, 1, 3] {
        asked.push(observer.call());
        let answered: Result<RingObservation<u8>, ()> = Ok(stamp(generation));
        let fresh = observer.next(answered).expect("the agent is up");
        seen.push(fresh.map(|observed| observed.generation));
    }

    assert_eq!(
        seen,
        [Some(2), None, None, Some(3)],
        "the heartbeat and the stale reply are not answers"
    );
    assert_eq!(
        asked.iter().map(|call| call.1).collect::<Vec<_>>(),
        [0, 2, 2, 2],
        "each reply armed the next call with what the connection had seen"
    );
    assert_eq!(asked[0].0, Channel::ActionRing);
}

#[test]
fn a_replacement_connection_starts_from_generation_zero() {
    let mut observer = Observer::state();
    let answered: Result<Observation<u8>, ()> = Ok(Observation { generation: 17, snapshot: 1 });
    assert!(observer.next(answered).expect("the agent is up").is_some());
    assert_eq!(observer.call(), (Channel::State, 17));

    assert_eq!(Observer::state().call(), (Channel::State, 0));
    assert_eq!(Observer::presenter().call(), (Channel::Presenter, 0));
}

#[test]
fn dropping_next_mid_hold_keeps_the_same_call_in_flight() {
    let mut observer = Observer::action_ring();
    assert_eq!(observer.call(), (Channel::ActionRing, 0));
    assert_eq!(observer.call(), (Channel::ActionRing, 0), "asking again starts no second call");
    let answered: Result<RingObservation<u8>, ()> = Ok(stamp(5));
    let fresh = observer.next(answered).expect("the agent is up");
    assert_eq!(fresh.map(|observed| observed.generation), Some(5));
}

#[test]
fn a_closed_connection_is_an_error_every_time_it_is_asked() {
    let mut observer = Observer::action_ring();
    let gone: Result<RingObservation<u8>, &str> = Err("gone");
    assert!(observer.next(gone).is_err());
    let gone: Result<RingObservation<u8>, &str> = Err("gone");
    assert!(observer.next(gone).is_err(), "asking again must not count as an answer");
    assert_eq!(observer.call(), (Channel::ActionRing, 0));
}

#[test]
fn an_observe_call_outlasts_the_hold() {
    assert_eq!(observe_deadline(100, 30), 135);
}
