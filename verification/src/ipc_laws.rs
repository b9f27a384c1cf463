//! What connecting to the agent and keeping its observations go through.

use vstd::prelude::*;
use crate::desktop::link::{
    Commanded, LoopEffect, LoopEvent, LoopStage, ObserveLoop, Observed,
};
use crate::ipc::{
    seen_after, ClientKind, ConnectError, Handshake, HandshakeAsk, HandshakeEvent, Progress,
    ProtocolSkew, Purpose, PROTOCOL_VERSION,
};

verus! {

/// An agent of the same version is spoken to; an older and a newer one are told apart,
/// and each with the version it has.
pub proof fn law_versions_are_told_apart(agent: u32)
    ensures
        agent == PROTOCOL_VERSION ==> ProtocolSkew::judged(agent) == Ok::<(), ProtocolSkew>(()),
        agent < PROTOCOL_VERSION ==> ProtocolSkew::judged(agent) == Err::<(), ProtocolSkew>(
            ProtocolSkew::AgentOlder { agent },
        ),
        agent > PROTOCOL_VERSION ==> ProtocolSkew::judged(agent) == Err::<(), ProtocolSkew>(
            ProtocolSkew::AgentNewer { agent },
        ),
        (ProtocolSkew::AgentOlder { agent }).version() == agent,
        (ProtocolSkew::AgentNewer { agent }).version() == agent,
{
}

/// A client that connects opens, asks for the version, declares what it is to an agent
/// of its own version, and is connected; an agent of another version ends it with what
/// it speaks. A probe ends with the version, whichever it is, and declares nothing.
pub proof fn law_a_connection_is_made_in_three_steps(kind: ClientKind, version: u32)
    ensures
        ({
            let purpose = Purpose::Connect(kind);
            let open = Handshake { purpose, ask: HandshakeAsk::Open };
            let asking = Handshake { purpose, ask: HandshakeAsk::AskVersion };
            let declaring = Handshake { purpose, ask: HandshakeAsk::Declare(kind) };
            let probing = Handshake { purpose: Purpose::Probe, ask: HandshakeAsk::AskVersion };
            &&& open.stepped(HandshakeEvent::Done) == Progress::Continue(asking)
            &&& (Handshake { purpose: Purpose::Probe, ask: HandshakeAsk::Open }).stepped(
                HandshakeEvent::Done,
            ) == Progress::Continue(probing)
            &&& version == PROTOCOL_VERSION ==> asking.stepped(HandshakeEvent::Version(version))
                == Progress::Continue(declaring)
            &&& version < PROTOCOL_VERSION ==> asking.stepped(HandshakeEvent::Version(version))
                == Progress::Finished(
                Err(ConnectError::Skew(ProtocolSkew::AgentOlder { agent: version })),
            )
            &&& version > PROTOCOL_VERSION ==> asking.stepped(HandshakeEvent::Version(version))
                == Progress::Finished(
                Err(ConnectError::Skew(ProtocolSkew::AgentNewer { agent: version })),
            )
            &&& declaring.stepped(HandshakeEvent::Done) == Progress::Finished(
                Ok(PROTOCOL_VERSION),
            )
            &&& probing.stepped(HandshakeEvent::Version(version)) == Progress::Finished(
                Ok(version),
            )
        }),
{
}

/// A failure before the connection is open is one of the endpoint, a later one is one
/// of the handshake, each with its cause.
pub proof fn law_a_failed_connection_says_where(handshake: Handshake, cause: String)
    ensures
        handshake.ask is Open ==> handshake.stepped(HandshakeEvent::Failed(cause))
            == Progress::Finished(Err(ConnectError::Endpoint(cause))),
        !(handshake.ask is Open) ==> handshake.stepped(HandshakeEvent::Failed(cause))
            == Progress::Finished(Err(ConnectError::Handshake(cause))),
{
}

/// What a ledger has seen is the greatest of what it started with and what came.
pub proof fn law_a_ledger_keeps_the_newest(start: u64, stamps: Seq<u64>, stamp: u64)
    ensures
        seen_after(start, Seq::empty()) == start,
        stamp > seen_after(start, stamps) ==> seen_after(start, stamps.push(stamp)) == stamp,
        stamp <= seen_after(start, stamps) ==> seen_after(start, stamps.push(stamp))
            == seen_after(start, stamps),
{
    assert(stamps.push(stamp).drop_last() =~= stamps);
}

/// A fresh observation is handed on, a stale one is not, and neither ends the link; a
/// lost one does.
pub proof fn law_fresh_observations_are_handed_on(turn: ObserveLoop)
    requires
        turn.stage == LoopStage::Wait,
    ensures
        turn.effect(LoopEvent::Observed(Observed::Fresh)) == LoopEffect::ForwardSnapshot,
        turn.effect(LoopEvent::Observed(Observed::Stale)) == LoopEffect::Quiet,
        turn.effect(LoopEvent::Observed(Observed::Lost)) == LoopEffect::Quiet,
        turn.stepped(LoopEvent::Observed(Observed::Fresh)).up == turn.up,
        turn.stepped(LoopEvent::Observed(Observed::Stale)).up == turn.up,
        !turn.stepped(LoopEvent::Observed(Observed::Lost)).up,
{
}

/// A reload is sent at once over a link that is up, and is owed where there is none or
/// where sending it lost the link. Where it went through nothing is owed any more.
pub proof fn law_a_reload_is_sent_or_owed(turn: ObserveLoop, kept: bool)
    requires
        turn.stage == LoopStage::Wait,
    ensures
        ({
            let asked = turn.stepped(LoopEvent::Command(Commanded::Reload));
            &&& asked.reload_owed
            &&& turn.up ==> asked.stage == LoopStage::RunReload
            &&& !turn.up ==> asked.stage == LoopStage::CheckNotice
            &&& turn.up ==> {
                let ran = asked.stepped(LoopEvent::Ran(kept));
                &&& ran.reload_owed == !kept
                &&& ran.up == kept
                &&& ran.stage == LoopStage::CheckNotice
            }
        }),
{
}

/// Any other command first makes sure of the link and is then run, link or no link; a
/// link that it lost is down. A hung-up window ends the loop.
pub proof fn law_a_command_is_run_once_the_link_was_tried(
    turn: ObserveLoop,
    up: bool,
    kept: bool,
)
    requires
        turn.stage == LoopStage::Wait,
    ensures
        ({
            let asked = turn.stepped(LoopEvent::Command(Commanded::Other));
            let tried = asked.stepped(LoopEvent::Ensured(up));
            let ran = tried.stepped(LoopEvent::Ran(kept));
            &&& asked.stage == LoopStage::EnsureForCommand && asked.up == turn.up
            &&& tried.stage == LoopStage::RunCommand && tried.up == up
            &&& ran.up == (up && kept)
            &&& ran.reload_owed == turn.reload_owed
            &&& ran.stage == if turn.reload_owed && up && kept {
                LoopStage::RunReload
            } else {
                LoopStage::CheckNotice
            }
            &&& turn.stepped(LoopEvent::Command(Commanded::HungUp)).stage == LoopStage::Ended
        }),
{
}

/// A tick tries a link that is down, and does nothing to one that is up.
pub proof fn law_a_tick_tries_a_link_that_is_down(turn: ObserveLoop, up: bool)
    requires
        turn.stage == LoopStage::Wait,
    ensures
        turn.up ==> turn.stepped(LoopEvent::Tick) == turn,
        !turn.up ==> {
            let trying = turn.stepped(LoopEvent::Tick);
            &&& trying.stage == LoopStage::EnsureForTick
            &&& trying.stepped(LoopEvent::Ensured(up)).up == up
            &&& trying.stepped(LoopEvent::Ensured(up)).stage == if turn.reload_owed && up {
                LoopStage::RunReload
            } else {
                LoopStage::CheckNotice
            }
        },
{
}

/// Every turn ends with whether to say that the agent cannot be reached, which is said
/// only while it cannot, and whether to start it; then it waits again.
pub proof fn law_a_turn_ends_with_a_notice_and_a_start(turn: ObserveLoop, due: bool)
    ensures
        turn.stage == LoopStage::CheckNotice ==> {
            &&& turn.stepped(LoopEvent::Answer(due)) == (ObserveLoop {
                stage: LoopStage::CheckSpawn,
                ..turn
            })
            &&& (turn.effect(LoopEvent::Answer(due)) == LoopEffect::SendNotice) == (due && !turn.up)
            &&& turn.effect(LoopEvent::Answer(due)) != LoopEffect::SpawnAgent
        },
        turn.stage == LoopStage::CheckSpawn ==> {
            &&& turn.stepped(LoopEvent::Answer(due)) == (ObserveLoop {
                stage: LoopStage::Wait,
                ..turn
            })
            &&& (turn.effect(LoopEvent::Answer(due)) == LoopEffect::SpawnAgent) == due
            &&& turn.effect(LoopEvent::Answer(due)) != LoopEffect::SendNotice
        },
        !ObserveLoop::cold().up && !ObserveLoop::cold().reload_owed && ObserveLoop::cold().stage
            == LoopStage::Wait,
{
}

} // verus!
