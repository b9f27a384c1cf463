//! What holds of every run of the button worker: each press that the owner saw
//! start is ended exactly once, and nothing is active once the worker stopped.

use vstd::prelude::*;
use crate::agent::button::{
    active_press, after_firing, fired_presses, left, lemma_button_press,
    lemma_left_keeps_one_per_button, one_press_per_button, taken, ActivePress, ButtonCommand,
    ButtonInput, ButtonRuntimeEvent, CancelReason, CancelScope, EndReason, PressToken,
};
use crate::agent::worker::{
    at_deadline, cancellation, command_events, command_presses, ended, input_events, input_presses,
    released, settled, started, triggered, Answer, Phase, WorkerModel,
};
use crate::binding::Action;

verus! {

/// How many of `presses` are the press `token`.
pub open spec fn active_count(presses: Seq<ActivePress>, token: PressToken) -> int
    decreases presses.len(),
{
    if presses.len() == 0 {
        0
    } else {
        active_count(presses.drop_last(), token) + if presses.last().token == token {
            1int
        } else {
            0
        }
    }
}

/// What one event adds to the presses of `token` the owner believes active.
pub open spec fn event_net(event: ButtonRuntimeEvent, token: PressToken) -> int {
    match event {
        ButtonRuntimeEvent::Started(press) => if press.token == token {
            1
        } else {
            0
        },
        ButtonRuntimeEvent::Triggered { press, action } => 0,
        ButtonRuntimeEvent::Ended { press, reason } => if press.token == token {
            -1
        } else {
            0
        },
    }
}

/// How many presses of `token` started in `events`, less how many ended.
pub open spec fn net(events: Seq<ButtonRuntimeEvent>, token: PressToken) -> int
    decreases events.len(),
{
    if events.len() == 0 {
        0
    } else {
        net(events.drop_last(), token) + event_net(events.last(), token)
    }
}

/// How many presses of `token` the owner believes active: those the worker
/// holds, without what it has not handed out yet.
pub open spec fn believed_active(worker: WorkerModel, token: PressToken) -> int {
    active_count(worker.presses, token) - net(worker.deferred, token)
}

proof fn lemma_count_one(press: ActivePress, token: PressToken)
    ensures
        active_count(seq![press], token) == if press.token == token {
            1int
        } else {
            0
        },
{
    assert(seq![press].drop_last() =~= Seq::<ActivePress>::empty());
    assert(active_count(Seq::<ActivePress>::empty(), token) == 0);
    assert(seq![press].last() == press);
}

proof fn lemma_net_push(events: Seq<ButtonRuntimeEvent>, event: ButtonRuntimeEvent, token: PressToken)
    ensures
        net(events.push(event), token) == net(events, token) + event_net(event, token),
{
    assert(events.push(event).drop_last() =~= events);
}

proof fn lemma_net_concat(
    a: Seq<ButtonRuntimeEvent>,
    b: Seq<ButtonRuntimeEvent>,
    token: PressToken,
)
    ensures
        net(a + b, token) == net(a, token) + net(b, token),
    decreases b.len(),
{
    if b.len() == 0 {
        assert(a + b =~= a);
    } else {
        lemma_net_concat(a, b.drop_last(), token);
        assert((a + b).drop_last() =~= a + b.drop_last());
        assert((a + b).last() == b.last());
    }
}

proof fn lemma_net_ended(presses: Seq<ActivePress>, reason: EndReason, token: PressToken)
    ensures
        net(ended(presses, reason), token) == -active_count(presses, token),
    decreases presses.len(),
{
    if presses.len() > 0 {
        lemma_net_ended(presses.drop_last(), reason, token);
        assert(ended(presses, reason).drop_last() =~= ended(presses.drop_last(), reason));
    }
}

proof fn lemma_net_triggered(fired: Seq<(ActivePress, Action)>, token: PressToken)
    ensures
        net(triggered(fired), token) == 0,
    decreases fired.len(),
{
    if fired.len() > 0 {
        lemma_net_triggered(fired.drop_last(), token);
        assert(triggered(fired).drop_last() =~= triggered(fired.drop_last()));
    }
}

proof fn lemma_count_partition(presses: Seq<ActivePress>, scope: CancelScope, token: PressToken)
    ensures
        active_count(taken(presses, scope), token) + active_count(left(presses, scope), token)
            == active_count(presses, token),
    decreases presses.len(),
{
    reveal(Seq::filter);
    if presses.len() > 0 {
        lemma_count_partition(presses.drop_last(), scope, token);
        let last = presses.last();
        assert(taken(presses.drop_last(), scope).push(last).drop_last() =~= taken(
            presses.drop_last(),
            scope,
        ));
        assert(left(presses.drop_last(), scope).push(last).drop_last() =~= left(
            presses.drop_last(),
            scope,
        ));
    }
}

proof fn lemma_count_fired(presses: Seq<ActivePress>, tokens: Seq<PressToken>, now: u64, token: PressToken)
    ensures
        active_count(after_firing(presses, tokens, now), token) == active_count(presses, token),
    decreases presses.len(),
{
    if presses.len() > 0 {
        lemma_count_fired(presses.drop_last(), tokens, now, token);
        assert(after_firing(presses, tokens, now).drop_last() =~= after_firing(
            presses.drop_last(),
            tokens,
            now,
        ));
    }
}

proof fn lemma_net_settled(events: Seq<ButtonRuntimeEvent>, due: Seq<PressToken>, token: PressToken)
    ensures
        net(settled(events, due), token) == net(events, token),
    decreases events.len(),
{
    reveal(Seq::filter);
    let first = |e: ButtonRuntimeEvent| at_deadline(e, due);
    let rest = |e: ButtonRuntimeEvent| !at_deadline(e, due);
    lemma_net_concat(events.filter(first), events.filter(rest), token);
    if events.len() == 0 {
    } else {
        let head = events.drop_last();
        lemma_net_settled(head, due, token);
        lemma_net_concat(head.filter(first), head.filter(rest), token);
        lemma_net_push(head.filter(first), events.last(), token);
        lemma_net_push(head.filter(rest), events.last(), token);
    }
}

proof fn lemma_net_released(press: ActivePress, token: PressToken)
    ensures
        net(released(press), token) == if press.token == token {
            -1int
        } else {
            0
        },
{
    let none = Seq::<ButtonRuntimeEvent>::empty();
    let end = ButtonRuntimeEvent::Ended { press, reason: EndReason::Released };
    lemma_net_push(none, end, token);
    assert(none.push(end) =~= seq![end]);
    if let Some(action) = press.release_action_spec() {
        let run = ButtonRuntimeEvent::Triggered { press, action };
        lemma_net_push(none, run, token);
        lemma_net_push(none.push(run), end, token);
        assert(none.push(run).push(end) =~= released(press));
    }
}

proof fn lemma_net_started(presses: Seq<ActivePress>, press: ActivePress, token: PressToken)
    requires
        one_press_per_button(presses),
    ensures
        net(started(presses, press), token) == (if press.token == token {
            1int
        } else {
            0
        }) - active_count(taken(presses, CancelScope::Button(press.token.key)), token),
{
    let none = Seq::<ButtonRuntimeEvent>::empty();
    let start = ButtonRuntimeEvent::Started(press);
    lemma_button_press(presses, press.token.key);
    lemma_net_push(none, start, token);
    assert(none.push(start) =~= seq![start]);
    match active_press(presses, press.token.key) {
        Some(stale) => {
            let end = ButtonRuntimeEvent::Ended {
                press: stale,
                reason: EndReason::Canceled(CancelReason::RepeatedDown),
            };
            lemma_net_push(none, end, token);
            lemma_net_push(none.push(end), start, token);
            assert(none.push(end).push(start) =~= started(presses, press));
            lemma_count_one(stale, token);
        },
        None => {},
    }
}

proof fn lemma_input_balance(presses: Seq<ActivePress>, input: ButtonInput, token: PressToken)
    requires
        one_press_per_button(presses),
    ensures
        active_count(input_presses(presses, input), token) == active_count(presses, token) + net(
            input_events(presses, input),
            token,
        ),
        one_press_per_button(input_presses(presses, input)),
{
    let none = Seq::<ButtonRuntimeEvent>::empty();
    match input {
        ButtonInput::Down(press) => {
            let scope = CancelScope::Button(press.token.key);
            lemma_net_started(presses, press, token);
            lemma_count_partition(presses, scope, token);
            let rest = left(presses, scope);
            assert(rest.push(press).drop_last() =~= rest);
            lemma_left_keeps_one_per_button(presses, scope);
            let all = rest.push(press);
            assert forall|i: int, j: int| 0 <= i < j < all.len() implies (
            #[trigger] all[i]).token.key != (#[trigger] all[j]).token.key by {
                assert(all[i] == rest[i]);
                if j < rest.len() {
                    assert(all[j] == rest[j]);
                } else {
                    assert(rest.contains(rest[i]));
                }
            }
        },
        ButtonInput::Up { key, released_at } => {
            let scope = CancelScope::Button(key);
            lemma_count_partition(presses, scope, token);
            lemma_button_press(presses, key);
            lemma_left_keeps_one_per_button(presses, scope);
            match active_press(presses, key) {
                Some(press) => {
                    lemma_count_one(press, token);
                    lemma_net_released(press, token);
                    lemma_net_released(press.fired(), token);
                    let run = ButtonRuntimeEvent::Triggered {
                        press: press.fired(),
                        action: press.behavior->long,
                    };
                    lemma_net_push(none, run, token);
                    assert(none.push(run) =~= seq![run]);
                    lemma_net_concat(seq![run], released(press.fired()), token);
                },
                None => {},
            }
        },
        ButtonInput::Pulse(press) => {
            let scope = CancelScope::Button(press.token.key);
            lemma_net_started(presses, press, token);
            lemma_net_released(press, token);
            lemma_net_concat(started(presses, press), released(press), token);
            lemma_count_partition(presses, scope, token);
            lemma_left_keeps_one_per_button(presses, scope);
        },
        ButtonInput::TriggerWhilePressed { token: pressed, action } => {
            if let Some(press) = active_press(presses, pressed.key) {
                let run = ButtonRuntimeEvent::Triggered { press, action };
                lemma_net_push(none, run, token);
                assert(none.push(run) =~= seq![run]);
            }
        },
    }
}

/// Whatever a command does, it changes the active presses of a token by exactly
/// what it reports, and keeps at most one press per button.
pub proof fn law_command_balance(
    presses: Seq<ActivePress>,
    command: ButtonCommand,
    generation: u64,
    token: PressToken,
)
    requires
        one_press_per_button(presses),
    ensures
        active_count(command_presses(presses, command, generation), token) == active_count(
            presses,
            token,
        ) + net(command_events(presses, command, generation), token),
        one_press_per_button(command_presses(presses, command, generation)),
{
    match command {
        ButtonCommand::Input { generation: g, input } => {
            if g == generation {
                lemma_input_balance(presses, input, token);
            }
        },
        ButtonCommand::Wake => {},
        _ => {
            let scope = (cancellation(command)->0).0;
            let reason = (cancellation(command)->0).1;
            lemma_count_partition(presses, scope, token);
            lemma_left_keeps_one_per_button(presses, scope);
            lemma_net_ended(taken(presses, scope), EndReason::Canceled(reason), token);
        },
    }
}

/// The events of a settlement reach the owner in another order, but none is
/// lost, added or repeated.
pub proof fn law_settled_events_are_a_permutation(
    events: Seq<ButtonRuntimeEvent>,
    due: Seq<PressToken>,
)
    ensures
        settled(events, due).to_multiset() == events.to_multiset(),
    decreases events.len(),
{
    broadcast use vstd::seq_lib::group_to_multiset_ensures;

    reveal(Seq::filter);
    let first = |e: ButtonRuntimeEvent| at_deadline(e, due);
    let rest = |e: ButtonRuntimeEvent| !at_deadline(e, due);
    vstd::seq_lib::lemma_multiset_commutative(events.filter(first), events.filter(rest));
    if events.len() > 0 {
        let head = events.drop_last();
        law_settled_events_are_a_permutation(head, due);
        vstd::seq_lib::lemma_multiset_commutative(head.filter(first), head.filter(rest));
        assert(head.push(events.last()) =~= events);
        assert(settled(events, due).to_multiset() =~= settled(head, due).to_multiset().insert(
            events.last(),
        ));
        assert(events.to_multiset() =~= head.to_multiset().insert(events.last()));
    } else {
        assert(settled(events, due) =~= events);
    }
}

/// In the events of a settlement no event of a deadline stands behind one that
/// is not.
pub proof fn law_deadline_events_come_first(
    events: Seq<ButtonRuntimeEvent>,
    due: Seq<PressToken>,
    i: int,
    j: int,
)
    requires
        0 <= i < j < settled(events, due).len(),
        at_deadline(settled(events, due)[j], due),
    ensures
        at_deadline(settled(events, due)[i], due),
{
    let first = |e: ButtonRuntimeEvent| at_deadline(e, due);
    let rest = |e: ButtonRuntimeEvent| !at_deadline(e, due);
    let n = events.filter(first).len();
    if j >= n {
        events.lemma_filter_pred(rest, j - n);
    }
    events.lemma_filter_pred(first, i);
}

proof fn lemma_firing_keeps_buttons(presses: Seq<ActivePress>, tokens: Seq<PressToken>, now: u64)
    requires
        one_press_per_button(presses),
    ensures
        one_press_per_button(after_firing(presses, tokens, now)),
{
    let all = after_firing(presses, tokens, now);
    assert forall|i: int, j: int| 0 <= i < j < all.len() implies (#[trigger] all[i]).token.key != (
    #[trigger] all[j]).token.key by {
        assert(presses[i].token.key != presses[j].token.key);
    }
}

/// Every step of the worker keeps what always holds of it.
pub proof fn law_step_keeps_validity(worker: WorkerModel, answer: Answer)
    requires
        worker.valid(),
    ensures
        worker.step(answer).worker.valid(),
{
    let token = arbitrary::<PressToken>();
    match (worker.phase, answer) {
        (Phase::Dated(command), Answer::Clock(now)) => {
            law_command_balance(worker.presses, command, worker.generation, token);
        },
        (Phase::SettleClock(Some(command)), Answer::Clock(now)) => {
            law_command_balance(worker.presses, command, worker.generation, token);
        },
        (Phase::TakingQueued, Answer::Command(command)) => {
            law_command_balance(worker.presses, command, worker.generation, token);
        },
        (Phase::Firing, Answer::Clock(now)) => {
            lemma_firing_keeps_buttons(worker.presses, worker.due, now);
        },
        _ => {},
    }
}

/// Every step changes what the owner believes active by exactly the starts and
/// ends it reports. So from a fresh worker on, the presses of a token that
/// started and did not end are those the worker still holds.
pub proof fn law_step_balance(worker: WorkerModel, answer: Answer, token: PressToken)
    requires
        worker.valid(),
    ensures
        believed_active(worker.step(answer).worker, token) == believed_active(worker, token) + net(
            worker.step(answer).events,
            token,
        ),
{
    let next = worker.step(answer);
    match (worker.phase, answer) {
        (Phase::Idle, Answer::Shutdown(true)) => {
            lemma_net_ended(worker.presses, EndReason::Canceled(CancelReason::Shutdown), token);
        },
        (Phase::Waiting, Answer::Disconnected) => {
            lemma_net_ended(worker.presses, EndReason::Canceled(CancelReason::SourceEnded), token);
        },
        (Phase::Arrived(command), Answer::Generation(current)) => {
            lemma_net_ended(worker.presses, EndReason::Canceled(CancelReason::Invalidated), token);
        },
        (Phase::Dated(command), Answer::Clock(now)) => {
            law_command_balance(worker.presses, command, worker.generation, token);
        },
        (Phase::SettleShutdown(first), Answer::Shutdown(true)) => {
            lemma_net_ended(worker.presses, EndReason::Canceled(CancelReason::Shutdown), token);
        },
        (Phase::SettleGeneration(first), Answer::Generation(current)) => {
            lemma_net_ended(worker.presses, EndReason::Canceled(CancelReason::Invalidated), token);
        },
        (Phase::SettleClock(first), Answer::Clock(now)) => {
            if let Some(command) = first {
                law_command_balance(worker.presses, command, worker.generation, token);
                lemma_net_concat(
                    Seq::<ButtonRuntimeEvent>::empty(),
                    command_events(worker.presses, command, worker.generation),
                    token,
                );
            }
        },
        (Phase::CheckShutdown(check), Answer::Shutdown(true)) => {
            let ends = ended(worker.presses, EndReason::Canceled(CancelReason::Shutdown));
            lemma_net_ended(worker.presses, EndReason::Canceled(CancelReason::Shutdown), token);
            lemma_net_concat(worker.deferred, ends, token);
            lemma_net_settled(worker.deferred + ends, worker.due, token);
        },
        (Phase::CheckGeneration(check), Answer::Generation(current)) => {
            lemma_net_ended(worker.presses, EndReason::Canceled(CancelReason::Invalidated), token);
            lemma_net_concat(worker.deferred, worker.invalidated(current), token);
        },
        (Phase::TakingQueued, Answer::Command(command)) => {
            law_command_balance(worker.presses, command, worker.generation, token);
            lemma_net_concat(
                worker.deferred,
                command_events(worker.presses, command, worker.generation),
                token,
            );
        },
        (Phase::TakingQueued, Answer::Disconnected) => {
            let ends = ended(worker.presses, EndReason::Canceled(CancelReason::SourceEnded));
            lemma_net_ended(worker.presses, EndReason::Canceled(CancelReason::SourceEnded), token);
            lemma_net_concat(worker.deferred, ends, token);
            lemma_net_settled(worker.deferred + ends, worker.due, token);
        },
        (Phase::Firing, Answer::Clock(now)) => {
            let runs = triggered(fired_presses(worker.presses, worker.due, now));
            lemma_count_fired(worker.presses, worker.due, now, token);
            lemma_net_triggered(fired_presses(worker.presses, worker.due, now), token);
            lemma_net_concat(worker.deferred, runs, token);
            lemma_net_settled(worker.deferred + runs, worker.due, token);
        },
        _ => {},
    }
}

/// What a run of answers makes of a worker, and all it reported.
pub open spec fn run(worker: WorkerModel, answers: Seq<Answer>) -> (
    WorkerModel,
    Seq<ButtonRuntimeEvent>,
)
    decreases answers.len(),
{
    if answers.len() == 0 {
        (worker, Seq::empty())
    } else {
        let before = run(worker, answers.drop_last());
        let step = before.0.step(answers.last());
        (step.worker, before.1 + step.events)
    }
}

/// From a worker without presses on, whatever the answers: the owner has seen
/// each press start at most once more than it saw it end, and when the worker
/// has stopped every press that started was ended.
pub proof fn law_every_press_is_ended_once(
    worker: WorkerModel,
    answers: Seq<Answer>,
    token: PressToken,
)
    requires
        worker.valid(),
        worker.presses.len() == 0,
        worker.deferred.len() == 0,
    ensures
        run(worker, answers).0.valid(),
        net(run(worker, answers).1, token) == believed_active(run(worker, answers).0, token),
        run(worker, answers).0.phase is Stopped ==> net(run(worker, answers).1, token) == 0,
    decreases answers.len(),
{
    if answers.len() > 0 {
        law_every_press_is_ended_once(worker, answers.drop_last(), token);
        let before = run(worker, answers.drop_last());
        law_step_keeps_validity(before.0, answers.last());
        law_step_balance(before.0, answers.last(), token);
        lemma_net_concat(before.1, before.0.step(answers.last()).events, token);
    }
}

} // verus!
