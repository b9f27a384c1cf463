//! The button worker: processing commands, settling long presses before their
//! timers fire, and the order in which the owner hears of it.
//!
//! The worker never waits and never looks at a clock itself. It says what it
//! needs next with [`Worker::ask`] and takes the answer in [`Worker::step`],
//! which also hands out the events the owner is to see.

use vstd::prelude::*;
use crate::agent::button::{
    active_press, after_firing, contains_token, due_tokens, fired_presses, fires, left,
    one_press_per_button, taken, ActivePress, ButtonCommand, ButtonInput, ButtonRuntimeEvent,
    ButtonState, CancelReason, CancelScope, EndReason, PressBehavior, PressToken,
};
use crate::binding::Action;

verus! {

/// The end of each press in `presses`, in order.
pub open spec fn ended(presses: Seq<ActivePress>, reason: EndReason) -> Seq<ButtonRuntimeEvent> {
    Seq::new(
        presses.len(),
        |i: int| ButtonRuntimeEvent::Ended { press: presses[i], reason },
    )
}

/// What releasing `press` reports: its release action, then its end.
pub open spec fn released(press: ActivePress) -> Seq<ButtonRuntimeEvent> {
    match press.release_action_spec() {
        Some(action) => seq![
            ButtonRuntimeEvent::Triggered { press, action },
            ButtonRuntimeEvent::Ended { press, reason: EndReason::Released },
        ],
        None => seq![ButtonRuntimeEvent::Ended { press, reason: EndReason::Released }],
    }
}

/// What a press going down reports: the end of an earlier press of the button
/// that never came up, then its start.
pub open spec fn started(presses: Seq<ActivePress>, press: ActivePress) -> Seq<ButtonRuntimeEvent> {
    match active_press(presses, press.token.key) {
        Some(stale) => seq![
            ButtonRuntimeEvent::Ended {
                press: stale,
                reason: EndReason::Canceled(CancelReason::RepeatedDown),
            },
            ButtonRuntimeEvent::Started(press),
        ],
        None => seq![ButtonRuntimeEvent::Started(press)],
    }
}

/// What an input reports.
pub open spec fn input_events(presses: Seq<ActivePress>, input: ButtonInput) -> Seq<
    ButtonRuntimeEvent,
> {
    match input {
        ButtonInput::Down(press) => started(presses, press),
        ButtonInput::Up { key, released_at } => match active_press(presses, key) {
            None => Seq::empty(),
            Some(press) => if press.due(released_at) {
                seq![
                    ButtonRuntimeEvent::Triggered {
                        press: press.fired(),
                        action: press.behavior->long,
                    },
                ] + released(press.fired())
            } else {
                released(press)
            },
        },
        ButtonInput::Pulse(press) => started(presses, press) + released(press),
        ButtonInput::TriggerWhilePressed { token, action } => match active_press(
            presses,
            token.key,
        ) {
            Some(press) => if press.token == token {
                seq![ButtonRuntimeEvent::Triggered { press, action }]
            } else {
                Seq::empty()
            },
            None => Seq::empty(),
        },
    }
}

/// The presses that are active after an input.
pub open spec fn input_presses(presses: Seq<ActivePress>, input: ButtonInput) -> Seq<ActivePress> {
    match input {
        ButtonInput::Down(press) => left(presses, CancelScope::Button(press.token.key)).push(press),
        ButtonInput::Up { key, released_at } => left(presses, CancelScope::Button(key)),
        ButtonInput::Pulse(press) => left(presses, CancelScope::Button(press.token.key)),
        ButtonInput::TriggerWhilePressed { token, action } => presses,
    }
}

/// The cancellation a command asks for, with its reason.
pub open spec fn cancellation(command: ButtonCommand) -> Option<(CancelScope, CancelReason)> {
    match command {
        ButtonCommand::CancelStalePress(token) => Some(
            (CancelScope::Press(token), CancelReason::StaleHold),
        ),
        ButtonCommand::CancelSource(source) => Some(
            (CancelScope::Source(source), CancelReason::SourceEnded),
        ),
        ButtonCommand::CancelHooks => Some(
            (
                CancelScope::Source(crate::agent::button::PressSource::Hook),
                CancelReason::SourceEnded,
            ),
        ),
        ButtonCommand::CancelPointerExcept(current) => Some(
            (CancelScope::PointerExcept(current), CancelReason::Invalidated),
        ),
        _ => None,
    }
}

/// What a command reports. An input resolved under another generation is dropped.
pub open spec fn command_events(
    presses: Seq<ActivePress>,
    command: ButtonCommand,
    generation: u64,
) -> Seq<ButtonRuntimeEvent> {
    match command {
        ButtonCommand::Input { generation: g, input } => if g == generation {
            input_events(presses, input)
        } else {
            Seq::empty()
        },
        ButtonCommand::Wake => Seq::empty(),
        _ => ended(
            taken(presses, (cancellation(command)->0).0),
            EndReason::Canceled((cancellation(command)->0).1),
        ),
    }
}

/// The presses that are active after a command.
pub open spec fn command_presses(
    presses: Seq<ActivePress>,
    command: ButtonCommand,
    generation: u64,
) -> Seq<ActivePress> {
    match command {
        ButtonCommand::Input { generation: g, input } => if g == generation {
            input_presses(presses, input)
        } else {
            presses
        },
        ButtonCommand::Wake => presses,
        _ => left(presses, (cancellation(command)->0).0),
    }
}

/// Whether `event` belongs to the firing of one of the presses in `due`.
pub open spec fn at_deadline(event: ButtonRuntimeEvent, due: Seq<PressToken>) -> bool {
    match event {
        ButtonRuntimeEvent::Started(_) => false,
        ButtonRuntimeEvent::Triggered { press, action } => press.behavior
            == PressBehavior::LongPressFired && due.contains(press.token),
        ButtonRuntimeEvent::Ended { press, reason } => press.behavior
            == PressBehavior::LongPressFired && due.contains(press.token),
    }
}

/// The events of a settlement in the order the owner sees them: those of a
/// deadline first, each group in the order in which it happened.
pub open spec fn settled(events: Seq<ButtonRuntimeEvent>, due: Seq<PressToken>) -> Seq<
    ButtonRuntimeEvent,
> {
    events.filter(|e: ButtonRuntimeEvent| at_deadline(e, due)) + events.filter(
        |e: ButtonRuntimeEvent| !at_deadline(e, due),
    )
}

/// The actions that firing runs, as events.
pub open spec fn triggered(fired: Seq<(ActivePress, Action)>) -> Seq<ButtonRuntimeEvent> {
    Seq::new(
        fired.len(),
        |i: int| ButtonRuntimeEvent::Triggered { press: fired[i].0, action: fired[i].1 },
    )
}

/// Reports the end of each press.
pub fn emit_canceled(
    presses: &Vec<ActivePress>,
    reason: CancelReason,
    out: &mut Vec<ButtonRuntimeEvent>,
)
    ensures
        final(out)@ == old(out)@ + ended(presses@, EndReason::Canceled(reason)),
{
    let ghost before = out@;
    let mut i: usize = 0;
    assert(before + ended(presses@.take(0), EndReason::Canceled(reason)) =~= before);
    while i < presses.len()
        invariant
            i <= presses@.len(),
            out@ == before + ended(presses@.take(i as int), EndReason::Canceled(reason)),
        decreases presses@.len() - i,
    {
        out.push(
            ButtonRuntimeEvent::Ended { press: presses[i], reason: EndReason::Canceled(reason) },
        );
        assert(ended(presses@.take(i + 1), EndReason::Canceled(reason)) =~= ended(
            presses@.take(i as int),
            EndReason::Canceled(reason),
        ).push(
            ButtonRuntimeEvent::Ended {
                press: presses@[i as int],
                reason: EndReason::Canceled(reason),
            },
        ));
        i = i + 1;
    }
    assert(presses@.take(i as int) =~= presses@);
}

/// Reports a release.
fn emit_released(press: ActivePress, out: &mut Vec<ButtonRuntimeEvent>)
    ensures
        final(out)@ == old(out)@ + released(press),
{
    let ghost before = out@;
    if let Some(action) = press.release_action() {
        out.push(ButtonRuntimeEvent::Triggered { press, action });
    }
    out.push(ButtonRuntimeEvent::Ended { press, reason: EndReason::Released });
    assert(out@ =~= before + released(press));
}

/// Adds a press and reports its start.
fn emit_started(state: &mut ButtonState, press: ActivePress, out: &mut Vec<ButtonRuntimeEvent>)
    ensures
        final(state)@ == left(old(state)@, CancelScope::Button(press.token.key)).push(press),
        one_press_per_button(final(state)@),
        final(out)@ == old(out)@ + started(old(state)@, press),
{
    let ghost before = out@;
    let ghost presses = state@;
    if let Some(stale) = state.press(press) {
        out.push(
            ButtonRuntimeEvent::Ended {
                press: stale,
                reason: EndReason::Canceled(CancelReason::RepeatedDown),
            },
        );
    }
    out.push(ButtonRuntimeEvent::Started(press));
    assert(out@ =~= before + started(presses, press));
}

/// Handles what a source reports.
pub fn process_input(state: &mut ButtonState, input: ButtonInput, out: &mut Vec<ButtonRuntimeEvent>)
    ensures
        final(state)@ == input_presses(old(state)@, input),
        final(out)@ == old(out)@ + input_events(old(state)@, input),
{
    let ghost before = out@;
    let ghost presses = state@;
    match input {
        ButtonInput::Down(press) => {
            emit_started(state, press, out);
        },
        ButtonInput::Up { key, released_at } => {
            if let Some(pressed) = state.release(&key) {
                let mut press = pressed;
                if let Some(action) = press.fire_long(released_at) {
                    out.push(ButtonRuntimeEvent::Triggered { press, action });
                }
                emit_released(press, out);
            }
            assert(out@ =~= before + input_events(presses, input));
        },
        ButtonInput::Pulse(press) => {
            emit_started(state, press, out);
            proof {
                lemma_pulse(presses, press);
            }
            if let Some(pressed) = state.release(&press.token.key) {
                emit_released(pressed, out);
            }
            assert(out@ =~= before + input_events(presses, input));
        },
        ButtonInput::TriggerWhilePressed { token, action } => {
            if let Some(press) = state.active(&token) {
                out.push(ButtonRuntimeEvent::Triggered { press, action });
            }
            assert(out@ =~= before + input_events(presses, input));
        },
    }
}

/// A press that was just added is the one its button has, and taking it out
/// leaves what was there without that button.
proof fn lemma_pulse(presses: Seq<ActivePress>, press: ActivePress)
    requires
        one_press_per_button(left(presses, CancelScope::Button(press.token.key)).push(press)),
    ensures
        active_press(
            left(presses, CancelScope::Button(press.token.key)).push(press),
            press.token.key,
        ) == Some(press),
        left(
            left(presses, CancelScope::Button(press.token.key)).push(press),
            CancelScope::Button(press.token.key),
        ) == left(presses, CancelScope::Button(press.token.key)),
{
    let scope = CancelScope::Button(press.token.key);
    let rest = left(presses, scope);
    let all = rest.push(press);
    assert(all[rest.len() as int] == press);
    let k = choose|k: int| 0 <= k < all.len() && (#[trigger] all[k]).token.key == press.token.key;
    if k < rest.len() {
        assert(all[k].token.key != all[rest.len() as int].token.key);
    }
    reveal(Seq::filter);
    assert(all.drop_last() =~= rest);
    let keeps = |p: ActivePress| !scope.takes(p);
    assert forall|i: int| 0 <= i < rest.len() implies keeps(#[trigger] rest[i]) by {
        presses.lemma_filter_pred(keeps, i);
    }
    lemma_filter_all(rest, keeps);
}

proof fn lemma_filter_all(s: Seq<ActivePress>, pred: spec_fn(ActivePress) -> bool)
    requires
        forall|i: int| 0 <= i < s.len() ==> pred(#[trigger] s[i]),
    ensures
        s.filter(pred) == s,
    decreases s.len(),
{
    reveal(Seq::filter);
    if s.len() > 0 {
        let head = s.drop_last();
        assert forall|i: int| 0 <= i < head.len() implies pred(#[trigger] head[i]) by {
            assert(head[i] == s[i]);
        }
        lemma_filter_all(head, pred);
        assert(pred(s[s.len() - 1]));
        assert(head.push(s.last()) =~= s);
    } else {
        assert(s.filter(pred) =~= s);
    }
}

/// Handles a command.
pub fn process_command(
    state: &mut ButtonState,
    command: ButtonCommand,
    generation: u64,
    out: &mut Vec<ButtonRuntimeEvent>,
)
    ensures
        final(state)@ == command_presses(old(state)@, command, generation),
        final(out)@ == old(out)@ + command_events(old(state)@, command, generation),
{
    let ghost before = out@;
    assert(before + Seq::<ButtonRuntimeEvent>::empty() =~= before);
    match command {
        ButtonCommand::Input { generation: input_generation, input } => {
            if input_generation == generation {
                process_input(state, input, out);
            }
        },
        ButtonCommand::Wake => {},
        ButtonCommand::CancelStalePress(token) => {
            let presses = state.cancel(CancelScope::Press(token));
            emit_canceled(&presses, CancelReason::StaleHold, out);
        },
        ButtonCommand::CancelSource(source) => {
            let presses = state.cancel(CancelScope::Source(source));
            emit_canceled(&presses, CancelReason::SourceEnded, out);
        },
        ButtonCommand::CancelHooks => {
            let presses = state.cancel(
                CancelScope::Source(crate::agent::button::PressSource::Hook),
            );
            emit_canceled(&presses, CancelReason::SourceEnded, out);
        },
        ButtonCommand::CancelPointerExcept(current) => {
            let presses = state.cancel(CancelScope::PointerExcept(current));
            emit_canceled(&presses, CancelReason::Invalidated, out);
        },
    }
}

/// Cancels every press.
fn cancel_all(state: &mut ButtonState, reason: CancelReason, out: &mut Vec<ButtonRuntimeEvent>)
    ensures
        final(state)@ == Seq::<ActivePress>::empty(),
        final(out)@ == old(out)@ + ended(old(state)@, EndReason::Canceled(reason)),
{
    proof {
        lemma_take_all(state@);
    }
    let presses = state.cancel(CancelScope::All);
    emit_canceled(&presses, reason, out);
}

proof fn lemma_take_all(presses: Seq<ActivePress>)
    ensures
        taken(presses, CancelScope::All) == presses,
        left(presses, CancelScope::All) == Seq::<ActivePress>::empty(),
    decreases presses.len(),
{
    reveal(Seq::filter);
    lemma_filter_all(presses, |p: ActivePress| CancelScope::All.takes(p));
    if presses.len() > 0 {
        lemma_take_all(presses.drop_last());
    }
    assert(left(presses, CancelScope::All) =~= Seq::<ActivePress>::empty());
}

/// Follows the generation of the bindings: a change invalidates every press.
pub fn synchronize_generation(
    state: &mut ButtonState,
    current: u64,
    generation: &mut u64,
    out: &mut Vec<ButtonRuntimeEvent>,
)
    ensures
        *final(generation) == current,
        final(state)@ == if current == *old(generation) {
            old(state)@
        } else {
            Seq::<ActivePress>::empty()
        },
        final(out)@ == old(out)@ + if current == *old(generation) {
            Seq::<ButtonRuntimeEvent>::empty()
        } else {
            ended(old(state)@, EndReason::Canceled(CancelReason::Invalidated))
        },
{
    let ghost before = out@;
    assert(before + Seq::<ButtonRuntimeEvent>::empty() =~= before);
    if current != *generation {
        cancel_all(state, CancelReason::Invalidated, out);
        *generation = current;
    }
}

/// Runs the long arms of the presses in `tokens` that are still due at `now`.
pub fn emit_selected_long_presses(
    state: &mut ButtonState,
    tokens: &Vec<PressToken>,
    now: u64,
    out: &mut Vec<ButtonRuntimeEvent>,
)
    ensures
        final(state)@ == after_firing(old(state)@, tokens@, now),
        final(out)@ == old(out)@ + triggered(fired_presses(old(state)@, tokens@, now)),
{
    let ghost before = out@;
    let fired = state.fire_selected_long_presses(tokens, now);
    let mut i: usize = 0;
    assert(before + triggered(fired@.take(0)) =~= before);
    while i < fired.len()
        invariant
            i <= fired@.len(),
            out@ == before + triggered(fired@.take(i as int)),
        decreases fired@.len() - i,
    {
        let (press, action) = fired[i];
        out.push(ButtonRuntimeEvent::Triggered { press, action });
        assert(triggered(fired@.take(i + 1)) =~= triggered(fired@.take(i as int)).push(
            ButtonRuntimeEvent::Triggered { press, action },
        ));
        i = i + 1;
    }
    assert(fired@.take(i as int) =~= fired@);
}

/// Whether `event` belongs to the firing of one of the presses in `due`.
fn is_at_deadline(event: &ButtonRuntimeEvent, due: &Vec<PressToken>) -> (deadline: bool)
    ensures
        deadline == at_deadline(*event, due@),
{
    match event {
        ButtonRuntimeEvent::Started(_) => false,
        ButtonRuntimeEvent::Triggered { press, action: _ } => press.behavior
            == PressBehavior::LongPressFired && contains_token(due, &press.token),
        ButtonRuntimeEvent::Ended { press, reason: _ } => press.behavior
            == PressBehavior::LongPressFired && contains_token(due, &press.token),
    }
}

/// Hands out the events of a settlement, those of a deadline first.
pub fn emit_settled_events(
    events: &Vec<ButtonRuntimeEvent>,
    due: &Vec<PressToken>,
    out: &mut Vec<ButtonRuntimeEvent>,
)
    ensures
        final(out)@ == old(out)@ + settled(events@, due@),
{
    let ghost before = out@;
    let ghost first = |e: ButtonRuntimeEvent| at_deadline(e, due@);
    let ghost rest = |e: ButtonRuntimeEvent| !at_deadline(e, due@);
    let mut later: Vec<ButtonRuntimeEvent> = Vec::new();
    let mut i: usize = 0;
    proof {
        reveal(Seq::filter);
        assert(events@.take(0) =~= Seq::<ButtonRuntimeEvent>::empty());
        assert(before + events@.take(0).filter(first) =~= before);
    }
    while i < events.len()
        invariant
            i <= events@.len(),
            first == (|e: ButtonRuntimeEvent| at_deadline(e, due@)),
            rest == (|e: ButtonRuntimeEvent| !at_deadline(e, due@)),
            out@ == before + events@.take(i as int).filter(first),
            later@ == events@.take(i as int).filter(rest),
        decreases events@.len() - i,
    {
        proof {
            reveal(Seq::filter);
            assert(events@.take(i + 1).drop_last() =~= events@.take(i as int));
        }
        if is_at_deadline(&events[i], due) {
            out.push(events[i]);
            assert(out@ =~= before + events@.take(i + 1).filter(first));
        } else {
            later.push(events[i]);
        }
        i = i + 1;
    }
    assert(events@.take(i as int) =~= events@);
    let ghost ordered = later@;
    let ghost early = out@;
    out.append(&mut later);
    assert(early + ordered =~= before + settled(events@, due@));
}

/// Which of the two checks around a queued command is running.
#[derive(Clone, Copy, Debug, PartialEq, Eq, Structural)]
pub enum Check {
    /// The check before a command is taken from the queue.
    Taking,
    /// The check after a command was processed.
    Processed,
}

/// What the worker waits for.
#[derive(Clone, Copy, Debug, PartialEq, Eq, Structural)]
pub enum Phase {
    /// Whether to stop, before waiting for a command.
    Idle,
    /// The next command.
    Waiting,
    /// The generation, for a command that arrived.
    Arrived(ButtonCommand),
    /// The time, for a command that arrived.
    Dated(ButtonCommand),
    /// Whether to stop, before settling.
    SettleShutdown(Option<ButtonCommand>),
    /// The generation, before settling.
    SettleGeneration(Option<ButtonCommand>),
    /// The time, to see what is due.
    SettleClock(Option<ButtonCommand>),
    /// Whether to stop, while settling.
    CheckShutdown(Check),
    /// The generation, while settling.
    CheckGeneration(Check),
    /// A command that is already queued.
    TakingQueued,
    /// The time at which what is due fires.
    Firing,
    /// Nothing: the worker has stopped.
    Stopped {
        /// Whether someone waits to hear that it did.
        acknowledge: bool,
    },
}

/// What the worker needs to go on.
#[derive(Clone, Copy, Debug, PartialEq, Eq, Structural)]
pub enum Ask {
    /// Whether a shutdown was requested.
    Shutdown,
    /// The generation of the bindings.
    Generation,
    /// The time in milliseconds.
    Clock,
    /// The next command, waiting for it up to the poll period.
    Command,
    /// A command that is already queued, without waiting.
    QueuedCommand,
    /// Nothing: the worker has stopped.
    Stop {
        /// Whether someone waits to hear that it did.
        acknowledge: bool,
    },
}

/// The answer to what the worker asked.
#[derive(Clone, Copy, Debug, PartialEq, Eq, Structural)]
pub enum Answer {
    /// Whether a shutdown was requested.
    Shutdown(bool),
    /// The generation of the bindings.
    Generation(u64),
    /// The time in milliseconds.
    Clock(u64),
    /// A command.
    Command(ButtonCommand),
    /// No command within the poll period, or none queued.
    NoCommand,
    /// Nobody can send commands any more.
    Disconnected,
}

/// A worker as values.
pub struct WorkerModel {
    /// The active presses.
    pub presses: Seq<ActivePress>,
    /// The generation the active presses were resolved under.
    pub generation: u64,
    /// What the worker waits for.
    pub phase: Phase,
    /// The presses that were due when the settlement began.
    pub due: Seq<PressToken>,
    /// What happened during the settlement and was not handed out yet.
    pub deferred: Seq<ButtonRuntimeEvent>,
    /// How many queued commands the settlement may still take.
    pub budget: nat,
    /// The capacity of the command queue.
    pub capacity: nat,
}

/// A step of the worker: what it becomes and what the owner sees.
pub struct WorkerStep {
    /// The worker after the step.
    pub worker: WorkerModel,
    /// What the owner sees.
    pub events: Seq<ButtonRuntimeEvent>,
}

impl WorkerModel {
    /// Only the phase changes.
    pub open spec fn goes_to(self, phase: Phase) -> WorkerStep {
        WorkerStep { worker: WorkerModel { phase, ..self }, events: Seq::empty() }
    }

    /// Every press is canceled at once and the worker stops.
    pub open spec fn stops(self, reason: CancelReason, acknowledge: bool) -> WorkerStep {
        WorkerStep {
            worker: WorkerModel {
                presses: Seq::empty(),
                phase: Phase::Stopped { acknowledge },
                ..self
            },
            events: ended(self.presses, EndReason::Canceled(reason)),
        }
    }

    /// Every press is canceled, the settlement is handed out and the worker stops.
    pub open spec fn stops_settling(self, reason: CancelReason, acknowledge: bool) -> WorkerStep {
        WorkerStep {
            worker: WorkerModel {
                presses: Seq::empty(),
                deferred: Seq::empty(),
                phase: Phase::Stopped { acknowledge },
                ..self
            },
            events: settled(
                self.deferred + ended(self.presses, EndReason::Canceled(reason)),
                self.due,
            ),
        }
    }

    /// The presses that survive a look at the generation.
    pub open spec fn surviving(self, current: u64) -> Seq<ActivePress> {
        if current == self.generation {
            self.presses
        } else {
            Seq::empty()
        }
    }

    /// What a look at the generation ends.
    pub open spec fn invalidated(self, current: u64) -> Seq<ButtonRuntimeEvent> {
        if current == self.generation {
            Seq::empty()
        } else {
            ended(self.presses, EndReason::Canceled(CancelReason::Invalidated))
        }
    }

    /// Follows the generation and tells the owner at once.
    pub open spec fn synchronizes(self, current: u64, phase: Phase) -> WorkerStep {
        WorkerStep {
            worker: WorkerModel {
                presses: self.surviving(current),
                generation: current,
                phase,
                ..self
            },
            events: self.invalidated(current),
        }
    }

    /// Processes a command and tells the owner at once.
    pub open spec fn processes(self, command: ButtonCommand, phase: Phase) -> WorkerStep {
        WorkerStep {
            worker: WorkerModel {
                presses: command_presses(self.presses, command, self.generation),
                phase,
                ..self
            },
            events: command_events(self.presses, command, self.generation),
        }
    }

    /// Processes a command within the settlement.
    pub open spec fn defers(self, command: ButtonCommand, budget: nat) -> WorkerStep {
        WorkerStep {
            worker: WorkerModel {
                presses: command_presses(self.presses, command, self.generation),
                deferred: self.deferred + command_events(self.presses, command, self.generation),
                phase: Phase::CheckShutdown(Check::Processed),
                budget,
                ..self
            },
            events: Seq::empty(),
        }
    }

    /// What a look at the clock before settling starts: nothing due leaves the
    /// command at hand to be processed; something due opens a settlement over
    /// what is queued already.
    pub open spec fn opens_settlement(self, first: Option<ButtonCommand>, now: u64) -> WorkerStep {
        let due = due_tokens(self.presses, now);
        if due.len() == 0 {
            match first {
                Some(command) => self.processes(command, Phase::Idle),
                None => self.goes_to(Phase::Idle),
            }
        } else {
            let opened = WorkerModel { due, deferred: Seq::empty(), ..self };
            match first {
                Some(command) => opened.defers(command, (self.capacity - 1) as nat),
                None => (WorkerModel { budget: self.capacity, ..opened }).goes_to(
                    Phase::CheckShutdown(Check::Taking),
                ),
            }
        }
    }

    /// Follows the generation within the settlement, then goes on taking queued
    /// commands while the budget lasts.
    pub open spec fn rechecks(self, check: Check, current: u64) -> WorkerStep {
        WorkerStep {
            worker: WorkerModel {
                presses: self.surviving(current),
                generation: current,
                deferred: self.deferred + self.invalidated(current),
                phase: match check {
                    Check::Taking => Phase::TakingQueued,
                    Check::Processed => if self.budget > 0 {
                        Phase::CheckShutdown(Check::Taking)
                    } else {
                        Phase::Firing
                    },
                },
                ..self
            },
            events: Seq::empty(),
        }
    }

    /// Fires what is still due and hands the settlement out.
    pub open spec fn fires(self, now: u64) -> WorkerStep {
        WorkerStep {
            worker: WorkerModel {
                presses: after_firing(self.presses, self.due, now),
                deferred: Seq::empty(),
                phase: Phase::Idle,
                ..self
            },
            events: settled(
                self.deferred + triggered(fired_presses(self.presses, self.due, now)),
                self.due,
            ),
        }
    }

    /// What an answer does. An answer to something else changes nothing.
    pub open spec fn step(self, answer: Answer) -> WorkerStep {
        match (self.phase, answer) {
            (Phase::Idle, Answer::Shutdown(true)) => self.stops(CancelReason::Shutdown, true),
            (Phase::Idle, Answer::Shutdown(false)) => self.goes_to(Phase::Waiting),
            (Phase::Waiting, Answer::Command(command)) => self.goes_to(Phase::Arrived(command)),
            (Phase::Waiting, Answer::NoCommand) => self.goes_to(
                Phase::SettleShutdown(Option::<ButtonCommand>::None),
            ),
            (Phase::Waiting, Answer::Disconnected) => self.stops(CancelReason::SourceEnded, false),
            (Phase::Arrived(command), Answer::Generation(current)) => self.synchronizes(
                current,
                Phase::Dated(command),
            ),
            (Phase::Dated(command), Answer::Clock(now)) => if due_tokens(self.presses, now).len()
                > 0 {
                self.goes_to(Phase::SettleShutdown(Some(command)))
            } else {
                self.processes(command, Phase::SettleShutdown(Option::<ButtonCommand>::None))
            },
            (Phase::SettleShutdown(first), Answer::Shutdown(true)) => self.stops(
                CancelReason::Shutdown,
                true,
            ),
            (Phase::SettleShutdown(first), Answer::Shutdown(false)) => self.goes_to(
                Phase::SettleGeneration(first),
            ),
            (Phase::SettleGeneration(first), Answer::Generation(current)) => self.synchronizes(
                current,
                Phase::SettleClock(first),
            ),
            (Phase::SettleClock(first), Answer::Clock(now)) => self.opens_settlement(first, now),
            (Phase::CheckShutdown(check), Answer::Shutdown(true)) => self.stops_settling(
                CancelReason::Shutdown,
                true,
            ),
            (Phase::CheckShutdown(check), Answer::Shutdown(false)) => self.goes_to(
                Phase::CheckGeneration(check),
            ),
            (Phase::CheckGeneration(check), Answer::Generation(current)) => self.rechecks(
                check,
                current,
            ),
            (Phase::TakingQueued, Answer::Command(command)) => self.defers(
                command,
                (if self.budget > 0 {
                    self.budget - 1
                } else {
                    0
                }) as nat,
            ),
            (Phase::TakingQueued, Answer::NoCommand) => self.goes_to(Phase::Firing),
            (Phase::TakingQueued, Answer::Disconnected) => self.stops_settling(
                CancelReason::SourceEnded,
                false,
            ),
            (Phase::Firing, Answer::Clock(now)) => self.fires(now),
            _ => self.goes_to(self.phase),
        }
    }

    /// What the worker needs to go on.
    pub open spec fn asks(self) -> Ask {
        match self.phase {
            Phase::Idle => Ask::Shutdown,
            Phase::Waiting => Ask::Command,
            Phase::Arrived(_) => Ask::Generation,
            Phase::Dated(_) => Ask::Clock,
            Phase::SettleShutdown(_) => Ask::Shutdown,
            Phase::SettleGeneration(_) => Ask::Generation,
            Phase::SettleClock(_) => Ask::Clock,
            Phase::CheckShutdown(_) => Ask::Shutdown,
            Phase::CheckGeneration(_) => Ask::Generation,
            Phase::TakingQueued => Ask::QueuedCommand,
            Phase::Firing => Ask::Clock,
            Phase::Stopped { acknowledge } => Ask::Stop { acknowledge },
        }
    }

    /// Whether a settlement is open.
    pub open spec fn settling(self) -> bool {
        match self.phase {
            Phase::CheckShutdown(_) => true,
            Phase::CheckGeneration(_) => true,
            Phase::TakingQueued => true,
            Phase::Firing => true,
            _ => false,
        }
    }

    /// What always holds: one press per button, nothing held back outside a
    /// settlement, and nothing active once stopped.
    pub open spec fn valid(self) -> bool {
        &&& one_press_per_button(self.presses)
        &&& !self.settling() ==> self.deferred.len() == 0
        &&& self.phase is Stopped ==> self.presses.len() == 0
    }
}

/// The button worker.
#[derive(Debug)]
pub struct Worker {
    state: ButtonState,
    generation: u64,
    phase: Phase,
    due: Vec<PressToken>,
    deferred: Vec<ButtonRuntimeEvent>,
    budget: usize,
    capacity: usize,
}

impl View for Worker {
    type V = WorkerModel;

    closed spec fn view(&self) -> WorkerModel {
        WorkerModel {
            presses: self.state@,
            generation: self.generation,
            phase: self.phase,
            due: self.due@,
            deferred: self.deferred@,
            budget: self.budget as nat,
            capacity: self.capacity as nat,
        }
    }
}

impl Worker {
    #[verifier::type_invariant]
    spec fn has_capacity(self) -> bool {
        self.capacity > 0
    }

    /// A worker without presses, for a command queue of `capacity` commands.
    pub fn new(generation: u64, capacity: usize) -> (worker: Worker)
        requires
            capacity > 0,
        ensures
            worker@ == (WorkerModel {
                presses: Seq::empty(),
                generation,
                phase: Phase::Idle,
                due: Seq::empty(),
                deferred: Seq::empty(),
                budget: 0,
                capacity: capacity as nat,
            }),
            worker@.valid(),
    {
        Worker {
            state: ButtonState::default(),
            generation,
            phase: Phase::Idle,
            due: Vec::new(),
            deferred: Vec::new(),
            budget: 0,
            capacity,
        }
    }

    /// What the worker needs to go on.
    pub fn ask(&self) -> (ask: Ask)
        ensures
            ask == match self@.phase {
                Phase::Idle => Ask::Shutdown,
                Phase::Waiting => Ask::Command,
                Phase::Arrived(_) => Ask::Generation,
                Phase::Dated(_) => Ask::Clock,
                Phase::SettleShutdown(_) => Ask::Shutdown,
                Phase::SettleGeneration(_) => Ask::Generation,
                Phase::SettleClock(_) => Ask::Clock,
                Phase::CheckShutdown(_) => Ask::Shutdown,
                Phase::CheckGeneration(_) => Ask::Generation,
                Phase::TakingQueued => Ask::QueuedCommand,
                Phase::Firing => Ask::Clock,
                Phase::Stopped { acknowledge } => Ask::Stop { acknowledge },
            },
            ask == self@.asks(),
    {
        match self.phase {
            Phase::Idle => Ask::Shutdown,
            Phase::Waiting => Ask::Command,
            Phase::Arrived(_) => Ask::Generation,
            Phase::Dated(_) => Ask::Clock,
            Phase::SettleShutdown(_) => Ask::Shutdown,
            Phase::SettleGeneration(_) => Ask::Generation,
            Phase::SettleClock(_) => Ask::Clock,
            Phase::CheckShutdown(_) => Ask::Shutdown,
            Phase::CheckGeneration(_) => Ask::Generation,
            Phase::TakingQueued => Ask::QueuedCommand,
            Phase::Firing => Ask::Clock,
            Phase::Stopped { acknowledge } => Ask::Stop { acknowledge },
        }
    }

    /// Takes an answer and adds to `out` what the owner is to see.
    pub fn step(&mut self, answer: Answer, out: &mut Vec<ButtonRuntimeEvent>)
        ensures
            final(self)@ == old(self)@.step(answer).worker,
            final(out)@ == old(out)@ + old(self)@.step(answer).events,
    {
        proof {
            use_type_invariant(&*self);
        }
        let ghost before = out@;
        let ghost model = self@;
        assert(before + Seq::<ButtonRuntimeEvent>::empty() =~= before);
        let mut state = ButtonState::default();
        std::mem::swap(&mut state, &mut self.state);
        let mut generation: u64 = self.generation;
        let mut deferred: Vec<ButtonRuntimeEvent> = Vec::new();
        std::mem::swap(&mut deferred, &mut self.deferred);
        let phase = self.phase;
        let capacity: usize = self.capacity;
        match (phase, answer) {
            (Phase::Idle, Answer::Shutdown(requested)) => {
                if requested {
                    cancel_all(&mut state, CancelReason::Shutdown, out);
                    self.phase = Phase::Stopped { acknowledge: true };
                } else {
                    self.phase = Phase::Waiting;
                }
            },
            (Phase::Waiting, Answer::Command(command)) => {
                self.phase = Phase::Arrived(command);
            },
            (Phase::Waiting, Answer::NoCommand) => {
                self.phase = Phase::SettleShutdown(None);
            },
            (Phase::Waiting, Answer::Disconnected) => {
                cancel_all(&mut state, CancelReason::SourceEnded, out);
                self.phase = Phase::Stopped { acknowledge: false };
            },
            (Phase::Arrived(command), Answer::Generation(current)) => {
                synchronize_generation(&mut state, current, &mut generation, out);
                self.phase = Phase::Dated(command);
            },
            (Phase::Dated(command), Answer::Clock(now)) => {
                if state.has_due_long_press(now) {
                    self.phase = Phase::SettleShutdown(Some(command));
                } else {
                    process_command(&mut state, command, generation, out);
                    self.phase = Phase::SettleShutdown(None);
                }
            },
            (Phase::SettleShutdown(first), Answer::Shutdown(requested)) => {
                if requested {
                    cancel_all(&mut state, CancelReason::Shutdown, out);
                    self.phase = Phase::Stopped { acknowledge: true };
                } else {
                    self.phase = Phase::SettleGeneration(first);
                }
            },
            (Phase::SettleGeneration(first), Answer::Generation(current)) => {
                synchronize_generation(&mut state, current, &mut generation, out);
                self.phase = Phase::SettleClock(first);
            },
            (Phase::SettleClock(first), Answer::Clock(now)) => {
                let due = state.due_long_presses(now);
                if due.len() == 0 {
                    if let Some(command) = first {
                        process_command(&mut state, command, generation, out);
                    }
                    self.phase = Phase::Idle;
                } else {
                    self.due = due;
                    deferred = Vec::new();
                    match first {
                        Some(command) => {
                            process_command(&mut state, command, generation, &mut deferred);
                            self.budget = capacity - 1;
                            self.phase = Phase::CheckShutdown(Check::Processed);
                        },
                        None => {
                            self.budget = capacity;
                            self.phase = Phase::CheckShutdown(Check::Taking);
                        },
                    }
                }
            },
            (Phase::CheckShutdown(check), Answer::Shutdown(requested)) => {
                if requested {
                    cancel_all(&mut state, CancelReason::Shutdown, &mut deferred);
                    emit_settled_events(&deferred, &self.due, out);
                    deferred = Vec::new();
                    self.phase = Phase::Stopped { acknowledge: true };
                } else {
                    self.phase = Phase::CheckGeneration(check);
                }
            },
            (Phase::CheckGeneration(check), Answer::Generation(current)) => {
                synchronize_generation(&mut state, current, &mut generation, &mut deferred);
                self.phase = match check {
                    Check::Taking => Phase::TakingQueued,
                    Check::Processed => if self.budget > 0 {
                        Phase::CheckShutdown(Check::Taking)
                    } else {
                        Phase::Firing
                    },
                };
            },
            (Phase::TakingQueued, Answer::Command(command)) => {
                process_command(&mut state, command, generation, &mut deferred);
                if self.budget > 0 {
                    self.budget = self.budget - 1;
                }
                self.phase = Phase::CheckShutdown(Check::Processed);
            },
            (Phase::TakingQueued, Answer::NoCommand) => {
                self.phase = Phase::Firing;
            },
            (Phase::TakingQueued, Answer::Disconnected) => {
                cancel_all(&mut state, CancelReason::SourceEnded, &mut deferred);
                emit_settled_events(&deferred, &self.due, out);
                deferred = Vec::new();
                self.phase = Phase::Stopped { acknowledge: false };
            },
            (Phase::Firing, Answer::Clock(now)) => {
                emit_selected_long_presses(&mut state, &self.due, now, &mut deferred);
                emit_settled_events(&deferred, &self.due, out);
                deferred = Vec::new();
                self.phase = Phase::Idle;
            },
            _ => {},
        }
        self.state = state;
        self.generation = generation;
        self.deferred = deferred;
        assert(self@.presses =~= model.step(answer).worker.presses);
        assert(self@.deferred =~= model.step(answer).worker.deferred);
        assert(self@.due =~= model.step(answer).worker.due);
        assert(out@ =~= before + model.step(answer).events);
    }
}

} // verus!
