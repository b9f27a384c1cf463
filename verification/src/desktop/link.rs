//! The client thread's loop: one observe call in flight whenever there is a
//! connection, commands over the same connection, and a reload that is held
//! until an agent answers it.

use vstd::prelude::*;

verus! {

/// What the loop is doing.
#[derive(Clone, Copy, Debug, PartialEq, Eq, Structural)]
pub enum LoopStage {
    /// Waiting for the observe call, a command or, without a connection, the
    /// time to try again.
    Wait,
    /// Bringing the connection up for a command.
    EnsureForCommand,
    /// Running the command over the connection, or answering it without one.
    RunCommand,
    /// Bringing the connection up because it is time to.
    EnsureForTick,
    /// Delivering the held reload.
    RunReload,
    /// Asking whether the window should hear of the outage.
    CheckNotice,
    /// Asking whether to start the agent.
    CheckSpawn,
    /// Over: the window hung up.
    Ended,
}

/// What the observe call came to.
#[derive(Clone, Copy, Debug, PartialEq, Eq, Structural)]
pub enum Observed {
    /// A state not seen before.
    Fresh,
    /// A heartbeat or a stale reply.
    Stale,
    /// The connection is gone.
    Lost,
}

/// A command, as far as the loop tells commands apart.
#[derive(Clone, Copy, Debug, PartialEq, Eq, Structural)]
pub enum Commanded {
    /// The window hung up.
    HungUp,
    /// Have the configuration read again.
    Reload,
    /// Any other.
    Other,
}

/// What the loop hears.
#[derive(Clone, Copy, Debug, PartialEq, Eq, Structural)]
pub enum LoopEvent {
    /// The observe call was answered.
    Observed(Observed),
    /// A command came.
    Command(Commanded),
    /// It is time to try again.
    Tick,
    /// Whether there is a connection after trying for one.
    Ensured(bool),
    /// Whether a request ran without losing the connection.
    Ran(bool),
    /// The answer to a question about an outage or a start.
    Answer(bool),
}

/// What the loop does about what it heard.
#[derive(Clone, Copy, Debug, PartialEq, Eq, Structural)]
pub enum LoopEffect {
    /// Nothing.
    Quiet,
    /// Hands the state to the window.
    ForwardSnapshot,
    /// Tells the window of the outage.
    SendNotice,
    /// Starts the agent.
    SpawnAgent,
}

/// The loop.
#[derive(Clone, Copy, Debug, PartialEq, Eq, Structural)]
pub struct ObserveLoop {
    /// What it is doing.
    pub stage: LoopStage,
    /// Whether there is a connection.
    pub up: bool,
    /// Whether a reload was asked for that no agent has answered.
    pub reload_owed: bool,
}

impl ObserveLoop {
    /// The loop before the first connection.
    pub open spec fn cold() -> ObserveLoop {
        ObserveLoop { stage: LoopStage::Wait, up: false, reload_owed: false }
    }

    /// The end of a turn: a held reload goes out as soon as there is a connection
    /// to carry it.
    pub open spec fn settled(self) -> ObserveLoop {
        ObserveLoop {
            stage: if self.reload_owed && self.up {
                LoopStage::RunReload
            } else {
                LoopStage::CheckNotice
            },
            ..self
        }
    }

    /// What an event makes of the loop.
    pub open spec fn stepped(self, event: LoopEvent) -> ObserveLoop {
        match (self.stage, event) {
            (LoopStage::Wait, LoopEvent::Observed(Observed::Lost)) => (ObserveLoop {
                up: false,
                ..self
            }).settled(),
            (LoopStage::Wait, LoopEvent::Observed(_)) => self.settled(),
            (LoopStage::Wait, LoopEvent::Command(Commanded::HungUp)) => ObserveLoop {
                stage: LoopStage::Ended,
                ..self
            },
            (LoopStage::Wait, LoopEvent::Command(Commanded::Reload)) => (ObserveLoop {
                reload_owed: true,
                ..self
            }).settled(),
            (LoopStage::Wait, LoopEvent::Command(Commanded::Other)) => ObserveLoop {
                stage: LoopStage::EnsureForCommand,
                ..self
            },
            (LoopStage::Wait, LoopEvent::Tick) => if self.up {
                self
            } else {
                ObserveLoop { stage: LoopStage::EnsureForTick, ..self }
            },
            (LoopStage::EnsureForCommand, LoopEvent::Ensured(up)) => ObserveLoop {
                stage: LoopStage::RunCommand,
                up,
                ..self
            },
            (LoopStage::RunCommand, LoopEvent::Ran(kept)) => (ObserveLoop {
                up: self.up && kept,
                ..self
            }).settled(),
            (LoopStage::EnsureForTick, LoopEvent::Ensured(up)) => (ObserveLoop {
                up,
                ..self
            }).settled(),
            (LoopStage::RunReload, LoopEvent::Ran(kept)) => ObserveLoop {
                stage: LoopStage::CheckNotice,
                up: kept,
                reload_owed: !kept,
            },
            (LoopStage::CheckNotice, LoopEvent::Answer(_)) => ObserveLoop {
                stage: LoopStage::CheckSpawn,
                ..self
            },
            (LoopStage::CheckSpawn, LoopEvent::Answer(_)) => ObserveLoop {
                stage: LoopStage::Wait,
                ..self
            },
            _ => self,
        }
    }

    /// What the loop does about an event.
    pub open spec fn effect(self, event: LoopEvent) -> LoopEffect {
        match (self.stage, event) {
            (LoopStage::Wait, LoopEvent::Observed(Observed::Fresh)) => LoopEffect::ForwardSnapshot,
            (LoopStage::CheckNotice, LoopEvent::Answer(true)) => if self.up {
                LoopEffect::Quiet
            } else {
                LoopEffect::SendNotice
            },
            (LoopStage::CheckSpawn, LoopEvent::Answer(true)) => LoopEffect::SpawnAgent,
            _ => LoopEffect::Quiet,
        }
    }

    /// What always holds: a reload is only delivered over a connection, and only
    /// while one is owed.
    pub open spec fn valid(self) -> bool {
        self.stage == LoopStage::RunReload ==> self.up && self.reload_owed
    }

    /// The loop before the first connection.
    pub fn new() -> (turn: ObserveLoop)
        ensures
            turn == ObserveLoop::cold(),
            turn.valid(),
    {
        ObserveLoop { stage: LoopStage::Wait, up: false, reload_owed: false }
    }

    /// Goes to the end of the turn.
    fn settle(&mut self)
        ensures
            *final(self) == old(self).settled(),
    {
        self.stage = if self.reload_owed && self.up {
            LoopStage::RunReload
        } else {
            LoopStage::CheckNotice
        };
    }

    /// Takes an event and says what to do about it.
    pub fn step(&mut self, event: LoopEvent) -> (effect: LoopEffect)
        ensures
            *final(self) == old(self).stepped(event),
            effect == old(self).effect(event),
            old(self).valid() ==> final(self).valid(),
    {
        match (self.stage, event) {
            (LoopStage::Wait, LoopEvent::Observed(observed)) => {
                if observed == Observed::Lost {
                    self.up = false;
                }
                self.settle();
                if observed == Observed::Fresh {
                    LoopEffect::ForwardSnapshot
                } else {
                    LoopEffect::Quiet
                }
            },
            (LoopStage::Wait, LoopEvent::Command(command)) => {
                match command {
                    Commanded::HungUp => {
                        self.stage = LoopStage::Ended;
                    },
                    Commanded::Reload => {
                        self.reload_owed = true;
                        self.settle();
                    },
                    Commanded::Other => {
                        self.stage = LoopStage::EnsureForCommand;
                    },
                }
                LoopEffect::Quiet
            },
            (LoopStage::Wait, LoopEvent::Tick) => {
                if !self.up {
                    self.stage = LoopStage::EnsureForTick;
                }
                LoopEffect::Quiet
            },
            (LoopStage::EnsureForCommand, LoopEvent::Ensured(up)) => {
                self.up = up;
                self.stage = LoopStage::RunCommand;
                LoopEffect::Quiet
            },
            (LoopStage::RunCommand, LoopEvent::Ran(kept)) => {
                self.up = self.up && kept;
                self.settle();
                LoopEffect::Quiet
            },
            (LoopStage::EnsureForTick, LoopEvent::Ensured(up)) => {
                self.up = up;
                self.settle();
                LoopEffect::Quiet
            },
            (LoopStage::RunReload, LoopEvent::Ran(kept)) => {
                self.up = kept;
                self.reload_owed = !kept;
                self.stage = LoopStage::CheckNotice;
                LoopEffect::Quiet
            },
            (LoopStage::CheckNotice, LoopEvent::Answer(due)) => {
                self.stage = LoopStage::CheckSpawn;
                if due && !self.up {
                    LoopEffect::SendNotice
                } else {
                    LoopEffect::Quiet
                }
            },
            (LoopStage::CheckSpawn, LoopEvent::Answer(fire)) => {
                self.stage = LoopStage::Wait;
                if fire {
                    LoopEffect::SpawnAgent
                } else {
                    LoopEffect::Quiet
                }
            },
            _ => LoopEffect::Quiet,
        }
    }
}

/// What events make of the loop.
pub open spec fn loop_run(turn: ObserveLoop, events: Seq<LoopEvent>) -> ObserveLoop
    decreases events.len(),
{
    if events.len() == 0 {
        turn
    } else {
        loop_run(turn, events.drop_last()).stepped(events.last())
    }
}

/// Whether some agent answered a reload within `events`.
pub open spec fn reload_answered(turn: ObserveLoop, events: Seq<LoopEvent>) -> bool {
    exists|i: int|
        0 <= i < events.len() && events[i] == LoopEvent::Ran(true) && (#[trigger] loop_run(
            turn,
            events.take(i),
        )).stage == LoopStage::RunReload
}

/// A reload that was asked for stays owed until an agent answers it, whatever
/// happens to the connection meanwhile.
pub proof fn law_a_reload_is_held_until_it_is_answered(turn: ObserveLoop, events: Seq<LoopEvent>)
    requires
        turn.valid(),
        turn.reload_owed,
    ensures
        loop_run(turn, events).valid(),
        loop_run(turn, events).reload_owed || reload_answered(turn, events),
    decreases events.len(),
{
    if events.len() > 0 {
        let rest = events.drop_last();
        law_a_reload_is_held_until_it_is_answered(turn, rest);
        let before = loop_run(turn, rest);
        if reload_answered(turn, rest) {
            let i = choose|i: int|
                0 <= i < rest.len() && rest[i] == LoopEvent::Ran(true) && (#[trigger] loop_run(
                    turn,
                    rest.take(i),
                )).stage == LoopStage::RunReload;
            assert(events.take(i) =~= rest.take(i));
            assert(events[i] == rest[i]);
        } else if !before.stepped(events.last()).reload_owed {
            assert(events.take(events.len() - 1) =~= rest);
            assert(events[events.len() - 1] == events.last());
        }
    }
}

/// Once a turn of the loop ends with a connection up, a reload that is owed is
/// the next thing to go out.
pub proof fn law_a_held_reload_goes_out_with_the_next_connection(
    turn: ObserveLoop,
    event: LoopEvent,
)
    requires
        turn.valid(),
        turn.stage == LoopStage::Wait || turn.stage == LoopStage::RunCommand || turn.stage
            == LoopStage::EnsureForTick,
    ensures
        ({
            let next = turn.stepped(event);
            next.stage != turn.stage && next.stage != LoopStage::Ended && next.stage
                != LoopStage::EnsureForCommand && next.stage != LoopStage::EnsureForTick ==> (
            next.stage == LoopStage::RunReload <==> next.up && next.reload_owed)
        }),
{
}

} // verus!
