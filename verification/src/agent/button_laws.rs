//! What inputs and commands do to the presses, said of the presses and events
//! themselves: which actions run, which presses end and why, and which stay.

use vstd::prelude::*;
use crate::agent::button::{
    active_press, after_firing, due_tokens, fired_presses, left, one_press_per_button, taken,
    ActivePress, ButtonCommand, ButtonInput, ButtonRuntimeEvent, CancelReason, CancelScope,
    EndReason, PressBehavior, PressKey, PressSource, PressToken,
};
use crate::agent::worker::{
    command_events, command_presses, input_events, input_presses, settled, Answer, Check, Phase,
    WorkerModel,
};
use crate::binding::Action;

verus! {

/// With one press per button, the press of a button is the one that is there.
proof fn lemma_the_press(presses: Seq<ActivePress>, i: int)
    requires
        one_press_per_button(presses),
        0 <= i < presses.len(),
    ensures
        active_press(presses, presses[i].token.key) == Some(presses[i]),
{
    let key = presses[i].token.key;
    assert(presses[i].token.key == key);
    let k = choose|k: int| 0 <= k < presses.len() && (#[trigger] presses[k]).token.key == key;
    if k < i {
        assert(presses[k].token.key != presses[i].token.key);
    } else if i < k {
        assert(presses[i].token.key != presses[k].token.key);
    }
}

/// An action for a press that is held runs once, for that press; the press stays
/// as it was.
pub proof fn law_a_held_press_runs_its_action(presses: Seq<ActivePress>, i: int, action: Action)
    requires
        one_press_per_button(presses),
        0 <= i < presses.len(),
    ensures
        ({
            let input = ButtonInput::TriggerWhilePressed { token: presses[i].token, action };
            &&& input_events(presses, input) == seq![
                ButtonRuntimeEvent::Triggered { press: presses[i], action },
            ]
            &&& input_presses(presses, input) == presses
        }),
{
    lemma_the_press(presses, i);
}

/// An action for a press that is not held runs nothing and changes nothing, even
/// while a later press of the same button is held.
pub proof fn law_an_ended_press_runs_nothing(
    presses: Seq<ActivePress>,
    token: PressToken,
    action: Action,
)
    requires
        forall|i: int| 0 <= i < presses.len() ==> (#[trigger] presses[i]).token != token,
    ensures
        ({
            let input = ButtonInput::TriggerWhilePressed { token, action };
            &&& input_events(presses, input) == Seq::<ButtonRuntimeEvent>::empty()
            &&& input_presses(presses, input) == presses
        }),
{
    if let Some(press) = active_press(presses, token.key) {
        let k = choose|k: int|
            0 <= k < presses.len() && (#[trigger] presses[k]).token.key == token.key;
        assert(presses[k].token != token);
    }
}

/// A press that goes down starts, and is active afterwards behind all others; an
/// earlier press of its button that never came up is ended first, as repeated,
/// and every press of another button stays where it was.
pub proof fn law_a_press_starts_and_replaces_a_stuck_one(
    presses: Seq<ActivePress>,
    press: ActivePress,
)
    requires
        one_press_per_button(presses),
    ensures
        input_presses(presses, ButtonInput::Down(press)) == presses.filter(
            |p: ActivePress| p.token.key != press.token.key,
        ).push(press),
        forall|i: int|
            0 <= i < presses.len() && (#[trigger] presses[i]).token.key == press.token.key
                ==> input_events(presses, ButtonInput::Down(press)) == seq![
                ButtonRuntimeEvent::Ended {
                    press: presses[i],
                    reason: EndReason::Canceled(CancelReason::RepeatedDown),
                },
                ButtonRuntimeEvent::Started(press),
            ],
        (forall|i: int|
            0 <= i < presses.len() ==> (#[trigger] presses[i]).token.key != press.token.key)
            ==> input_events(presses, ButtonInput::Down(press)) == seq![
            ButtonRuntimeEvent::Started(press),
        ],
{
    lemma_other_buttons(presses, press.token.key);
    assert forall|i: int|
        0 <= i < presses.len() && (#[trigger] presses[i]).token.key
            == press.token.key implies input_events(presses, ButtonInput::Down(press)) == seq![
        ButtonRuntimeEvent::Ended {
            press: presses[i],
            reason: EndReason::Canceled(CancelReason::RepeatedDown),
        },
        ButtonRuntimeEvent::Started(press),
    ] by {
        lemma_the_press(presses, i);
    }
}

proof fn lemma_other_buttons(presses: Seq<ActivePress>, key: PressKey)
    ensures
        left(presses, CancelScope::Button(key)) == presses.filter(
            |p: ActivePress| p.token.key != key,
        ),
{
    lemma_same_filter(
        presses,
        |p: ActivePress| !CancelScope::Button(key).takes(p),
        |p: ActivePress| p.token.key != key,
    );
}

proof fn lemma_same_filter(
    presses: Seq<ActivePress>,
    a: spec_fn(ActivePress) -> bool,
    b: spec_fn(ActivePress) -> bool,
)
    requires
        forall|i: int| 0 <= i < presses.len() ==> a(#[trigger] presses[i]) == b(presses[i]),
    ensures
        presses.filter(a) == presses.filter(b),
    decreases presses.len(),
{
    reveal(Seq::filter);
    if presses.len() > 0 {
        let head = presses.drop_last();
        assert forall|i: int| 0 <= i < head.len() implies a(#[trigger] head[i]) == b(head[i]) by {
            assert(head[i] == presses[i]);
        }
        lemma_same_filter(head, a, b);
        assert(a(presses[presses.len() - 1]) == b(presses[presses.len() - 1]));
    }
}

/// What a button that comes up reports depends on what its press does. A plain
/// press only ends. A press with an action for its release runs it. A press with
/// a short and a long action runs the long one when the button came up at its
/// deadline or later and the short one when it came up before, never both; one
/// whose long action ran already runs none. In each case the press ends as
/// released, last, and no other press is touched.
pub proof fn law_a_release_runs_the_right_action(
    presses: Seq<ActivePress>,
    i: int,
    released_at: u64,
)
    requires
        one_press_per_button(presses),
        0 <= i < presses.len(),
    ensures
        ({
            let press = presses[i];
            let input = ButtonInput::Up { key: press.token.key, released_at };
            let events = input_events(presses, input);
            let end = ButtonRuntimeEvent::Ended { press, reason: EndReason::Released };
            let fired = ActivePress {
                token: press.token,
                behavior: PressBehavior::LongPressFired,
                pointer: press.pointer,
            };
            &&& input_presses(presses, input) == presses.filter(
                |p: ActivePress| p.token.key != press.token.key,
            )
            &&& press.behavior == PressBehavior::Plain ==> events == seq![end]
            &&& press.behavior == PressBehavior::LongPressFired ==> events == seq![end]
            &&& press.behavior matches PressBehavior::OnRelease(action) ==> events == seq![
                ButtonRuntimeEvent::Triggered { press, action },
                end,
            ]
            &&& press.behavior matches PressBehavior::LongPress { short, long, deadline }
                ==> if released_at < deadline {
                events == seq![ButtonRuntimeEvent::Triggered { press, action: short }, end]
            } else {
                events == seq![
                    ButtonRuntimeEvent::Triggered { press: fired, action: long },
                    ButtonRuntimeEvent::Ended { press: fired, reason: EndReason::Released },
                ]
            }
        }),
{
    let press = presses[i];
    let input = ButtonInput::Up { key: press.token.key, released_at };
    lemma_the_press(presses, i);
    lemma_other_buttons(presses, press.token.key);
    if let PressBehavior::LongPress { short, long, deadline } = press.behavior {
        if released_at >= deadline {
            let fired = ActivePress { behavior: PressBehavior::LongPressFired, ..press };
            assert(input_events(presses, input) =~= seq![
                ButtonRuntimeEvent::Triggered { press: fired, action: long },
                ButtonRuntimeEvent::Ended { press: fired, reason: EndReason::Released },
            ]);
        }
    }
}

/// A button that comes up without an active press reports nothing and ends no
/// press.
pub proof fn law_a_stray_release_does_nothing(
    presses: Seq<ActivePress>,
    key: PressKey,
    released_at: u64,
)
    requires
        forall|i: int| 0 <= i < presses.len() ==> (#[trigger] presses[i]).token.key != key,
    ensures
        input_events(presses, ButtonInput::Up { key, released_at }) == Seq::<
            ButtonRuntimeEvent,
        >::empty(),
        input_presses(presses, ButtonInput::Up { key, released_at }) == presses,
{
    lemma_other_buttons(presses, key);
    lemma_same_filter(presses, |p: ActivePress| p.token.key != key, |p: ActivePress| true);
    lemma_filter_everything(presses);
}

proof fn lemma_filter_everything(presses: Seq<ActivePress>)
    ensures
        presses.filter(|p: ActivePress| true) == presses,
    decreases presses.len(),
{
    reveal(Seq::filter);
    if presses.len() > 0 {
        lemma_filter_everything(presses.drop_last());
        assert(presses.drop_last().push(presses.last()) =~= presses);
    } else {
        assert(presses.filter(|p: ActivePress| true) =~= presses);
    }
}

/// A pulse is a press that starts and is released at once: what going down
/// reports, then the action of a short press, then its end. It is never active
/// afterwards, and presses of other buttons stay.
pub proof fn law_a_pulse_is_a_press_and_a_release(presses: Seq<ActivePress>, press: ActivePress)
    requires
        one_press_per_button(presses),
    ensures
        ({
            let end = ButtonRuntimeEvent::Ended { press, reason: EndReason::Released };
            let down = input_events(presses, ButtonInput::Down(press));
            let events = input_events(presses, ButtonInput::Pulse(press));
            &&& input_presses(presses, ButtonInput::Pulse(press)) == presses.filter(
                |p: ActivePress| p.token.key != press.token.key,
            )
            &&& press.behavior matches PressBehavior::OnRelease(action) ==> events == down + seq![
                ButtonRuntimeEvent::Triggered { press, action },
                end,
            ]
            &&& press.behavior matches PressBehavior::LongPress { short, long, deadline }
                ==> events == down + seq![
                ButtonRuntimeEvent::Triggered { press, action: short },
                end,
            ]
            &&& press.behavior == PressBehavior::Plain || press.behavior
                == PressBehavior::LongPressFired ==> events == down + seq![end]
        }),
{
    lemma_other_buttons(presses, press.token.key);
}

/// An input resolved under another generation of the bindings, and a look at the
/// clock, report nothing and change nothing; an input resolved under the current
/// one does what the input does.
pub proof fn law_only_current_inputs_count(
    presses: Seq<ActivePress>,
    input: ButtonInput,
    resolved: u64,
    generation: u64,
)
    ensures
        ({
            let command = ButtonCommand::Input { generation: resolved, input };
            &&& resolved != generation ==> command_events(presses, command, generation) == Seq::<
                ButtonRuntimeEvent,
            >::empty() && command_presses(presses, command, generation) == presses
            &&& resolved == generation ==> command_events(presses, command, generation)
                == input_events(presses, input) && command_presses(presses, command, generation)
                == input_presses(presses, input)
        }),
        command_events(presses, ButtonCommand::Wake, generation) == Seq::<
            ButtonRuntimeEvent,
        >::empty(),
        command_presses(presses, ButtonCommand::Wake, generation) == presses,
{
}

/// Whether `events` are the ends of exactly the presses that `hit` picks, in
/// their order and for `reason`, and `rest` are exactly the other presses.
pub open spec fn ends_exactly(
    presses: Seq<ActivePress>,
    hit: spec_fn(ActivePress) -> bool,
    reason: CancelReason,
    events: Seq<ButtonRuntimeEvent>,
    rest: Seq<ActivePress>,
) -> bool {
    &&& events == presses.filter(hit).map_values(
        |press: ActivePress|
            ButtonRuntimeEvent::Ended { press, reason: EndReason::Canceled(reason) },
    )
    &&& rest == presses.filter(|press: ActivePress| !hit(press))
}

/// A cancellation ends exactly the presses it is about, for its own reason: one
/// press as held for too long, those of a source as its end, those of the input
/// hook likewise, and those that were resolved for another pointer context as
/// invalidated. All others stay.
pub proof fn law_a_cancellation_ends_what_it_names(
    presses: Seq<ActivePress>,
    generation: u64,
    token: PressToken,
    source: PressSource,
    context: u64,
)
    ensures
        ends_exactly(
            presses,
            |press: ActivePress| press.token == token,
            CancelReason::StaleHold,
            command_events(presses, ButtonCommand::CancelStalePress(token), generation),
            command_presses(presses, ButtonCommand::CancelStalePress(token), generation),
        ),
        ends_exactly(
            presses,
            |press: ActivePress| press.token.key.source == source,
            CancelReason::SourceEnded,
            command_events(presses, ButtonCommand::CancelSource(source), generation),
            command_presses(presses, ButtonCommand::CancelSource(source), generation),
        ),
        ends_exactly(
            presses,
            |press: ActivePress| press.token.key.source == PressSource::Hook,
            CancelReason::SourceEnded,
            command_events(presses, ButtonCommand::CancelHooks, generation),
            command_presses(presses, ButtonCommand::CancelHooks, generation),
        ),
        ends_exactly(
            presses,
            |press: ActivePress| press.pointer is Some && press.pointer->0 != context,
            CancelReason::Invalidated,
            command_events(presses, ButtonCommand::CancelPointerExcept(context), generation),
            command_presses(presses, ButtonCommand::CancelPointerExcept(context), generation),
        ),
{
    lemma_scope(
        presses,
        CancelScope::Press(token),
        |press: ActivePress| press.token == token,
        CancelReason::StaleHold,
    );
    lemma_scope(
        presses,
        CancelScope::Source(source),
        |press: ActivePress| press.token.key.source == source,
        CancelReason::SourceEnded,
    );
    lemma_scope(
        presses,
        CancelScope::Source(PressSource::Hook),
        |press: ActivePress| press.token.key.source == PressSource::Hook,
        CancelReason::SourceEnded,
    );
    lemma_scope(
        presses,
        CancelScope::PointerExcept(context),
        |press: ActivePress| press.pointer is Some && press.pointer->0 != context,
        CancelReason::Invalidated,
    );
}

proof fn lemma_scope(
    presses: Seq<ActivePress>,
    scope: CancelScope,
    hit: spec_fn(ActivePress) -> bool,
    reason: CancelReason,
)
    requires
        forall|press: ActivePress| #[trigger] scope.takes(press) == hit(press),
    ensures
        ends_exactly(
            presses,
            hit,
            reason,
            crate::agent::worker::ended(taken(presses, scope), EndReason::Canceled(reason)),
            left(presses, scope),
        ),
{
    let takes = |press: ActivePress| scope.takes(press);
    let leaves = |press: ActivePress| !scope.takes(press);
    let misses = |press: ActivePress| !hit(press);
    lemma_same_filter(presses, takes, hit);
    lemma_same_filter(presses, leaves, misses);
    assert(crate::agent::worker::ended(taken(presses, scope), EndReason::Canceled(reason))
        =~= presses.filter(hit).map_values(
        |press: ActivePress|
            ButtonRuntimeEvent::Ended { press, reason: EndReason::Canceled(reason) },
    ));
}

/// What is due is every press with a long action whose deadline has come, each
/// once and in order.
pub proof fn law_what_is_due_is_past_its_deadline(presses: Seq<ActivePress>, now: u64)
    ensures
        due_tokens(presses, now) == presses.filter(
            |press: ActivePress|
                press.behavior is LongPress && press.behavior->deadline <= now,
        ).map_values(|press: ActivePress| press.token),
    decreases presses.len(),
{
    let hit = |press: ActivePress|
        press.behavior is LongPress && press.behavior->deadline <= now;
    reveal(Seq::filter);
    if presses.len() > 0 {
        law_what_is_due_is_past_its_deadline(presses.drop_last(), now);
    }
    assert(due_tokens(presses, now) =~= presses.filter(hit).map_values(
        |press: ActivePress| press.token,
    ));
}

/// Firing runs the long action of each selected press whose deadline has come, in
/// order, and marks those presses as fired; every other press stays as it is.
pub proof fn law_firing_runs_long_actions_once(
    presses: Seq<ActivePress>,
    tokens: Seq<PressToken>,
    now: u64,
)
    ensures
        fired_presses(presses, tokens, now) == presses.filter(
            |press: ActivePress|
                tokens.contains(press.token) && press.behavior is LongPress
                    && press.behavior->deadline <= now,
        ).map_values(
            |press: ActivePress|
                (
                    ActivePress {
                        token: press.token,
                        behavior: PressBehavior::LongPressFired,
                        pointer: press.pointer,
                    },
                    press.behavior->long,
                ),
        ),
        after_firing(presses, tokens, now).len() == presses.len(),
        forall|i: int|
            0 <= i < presses.len() ==> #[trigger] after_firing(presses, tokens, now)[i] == (
            if tokens.contains(presses[i].token) && presses[i].behavior is LongPress
                && presses[i].behavior->deadline <= now {
                ActivePress {
                    token: presses[i].token,
                    behavior: PressBehavior::LongPressFired,
                    pointer: presses[i].pointer,
                }
            } else {
                presses[i]
            }),
    decreases presses.len(),
{
    reveal(Seq::filter);
    if presses.len() > 0 {
        law_firing_runs_long_actions_once(presses.drop_last(), tokens, now);
    }
    let hit = |press: ActivePress|
        tokens.contains(press.token) && press.behavior is LongPress && press.behavior->deadline
            <= now;
    assert(fired_presses(presses, tokens, now) =~= presses.filter(hit).map_values(
        |press: ActivePress|
            (
                ActivePress {
                    token: press.token,
                    behavior: PressBehavior::LongPressFired,
                    pointer: press.pointer,
                },
                press.behavior->long,
            ),
    ));
}

/// The events of a settlement keep their order but for this: what belongs to a
/// press that was due and has fired comes before everything else.
pub proof fn law_a_settlement_puts_fired_presses_first(
    events: Seq<ButtonRuntimeEvent>,
    due: Seq<PressToken>,
)
    ensures
        ({
            let first = |event: ButtonRuntimeEvent|
                match event {
                    ButtonRuntimeEvent::Started(_) => false,
                    ButtonRuntimeEvent::Triggered { press, action } => press.behavior
                        == PressBehavior::LongPressFired && due.contains(press.token),
                    ButtonRuntimeEvent::Ended { press, reason } => press.behavior
                        == PressBehavior::LongPressFired && due.contains(press.token),
                };
            settled(events, due) == events.filter(first) + events.filter(
                |event: ButtonRuntimeEvent| !first(event),
            )
        }),
{
    let first = |event: ButtonRuntimeEvent|
        match event {
            ButtonRuntimeEvent::Started(_) => false,
            ButtonRuntimeEvent::Triggered { press, action } => press.behavior
                == PressBehavior::LongPressFired && due.contains(press.token),
            ButtonRuntimeEvent::Ended { press, reason } => press.behavior
                == PressBehavior::LongPressFired && due.contains(press.token),
        };
    let rest = |event: ButtonRuntimeEvent| !first(event);
    lemma_same_events(
        events,
        |e: ButtonRuntimeEvent| crate::agent::worker::at_deadline(e, due),
        first,
    );
    lemma_same_events(
        events,
        |e: ButtonRuntimeEvent| !crate::agent::worker::at_deadline(e, due),
        rest,
    );
}

proof fn lemma_same_events(
    events: Seq<ButtonRuntimeEvent>,
    a: spec_fn(ButtonRuntimeEvent) -> bool,
    b: spec_fn(ButtonRuntimeEvent) -> bool,
)
    requires
        forall|i: int| 0 <= i < events.len() ==> a(#[trigger] events[i]) == b(events[i]),
    ensures
        events.filter(a) == events.filter(b),
    decreases events.len(),
{
    reveal(Seq::filter);
    if events.len() > 0 {
        let head = events.drop_last();
        assert forall|i: int| 0 <= i < head.len() implies a(#[trigger] head[i]) == b(head[i]) by {
            assert(head[i] == events[i]);
        }
        lemma_same_events(head, a, b);
        assert(a(events[events.len() - 1]) == b(events[events.len() - 1]));
    }
}

/// The end of every press, in order, for a reason.
pub open spec fn all_canceled(presses: Seq<ActivePress>, reason: CancelReason) -> Seq<
    ButtonRuntimeEvent,
> {
    presses.map_values(
        |press: ActivePress|
            ButtonRuntimeEvent::Ended { press, reason: EndReason::Canceled(reason) },
    )
}

/// A request to stop is heard wherever the worker looks for one: every press is
/// ended for it, what a settlement held back is handed out, and whoever asked is
/// told. Where nobody asked, the worker goes on and nothing happens.
pub proof fn law_a_shutdown_ends_every_press(worker: WorkerModel)
    requires
        worker.valid(),
        worker.phase is Idle || worker.phase is SettleShutdown || worker.phase is CheckShutdown,
    ensures
        ({
            let stopped = worker.step(Answer::Shutdown(true));
            let on = worker.step(Answer::Shutdown(false));
            let ends = all_canceled(worker.presses, CancelReason::Shutdown);
            &&& stopped.worker.phase == (Phase::Stopped { acknowledge: true })
            &&& stopped.worker.presses.len() == 0
            &&& worker.phase is CheckShutdown ==> stopped.events == settled(
                worker.deferred + ends,
                worker.due,
            )
            &&& !(worker.phase is CheckShutdown) ==> stopped.events == ends
            &&& on.events.len() == 0
            &&& on.worker.presses == worker.presses
            &&& on.worker.deferred == worker.deferred
            &&& on.worker.generation == worker.generation
            &&& !(on.worker.phase is Stopped)
            &&& worker.phase is Idle ==> on.worker.phase == Phase::Waiting
        }),
{
    let ends = all_canceled(worker.presses, CancelReason::Shutdown);
    assert(crate::agent::worker::ended(
        worker.presses,
        EndReason::Canceled(CancelReason::Shutdown),
    ) =~= ends);
}

/// When nobody can send commands any more, every press ends with its source and
/// the worker stops on its own account.
pub proof fn law_a_lost_source_ends_every_press(worker: WorkerModel)
    requires
        worker.valid(),
        worker.phase is Waiting || worker.phase is TakingQueued,
    ensures
        ({
            let stopped = worker.step(Answer::Disconnected);
            let ends = all_canceled(worker.presses, CancelReason::SourceEnded);
            &&& stopped.worker.phase == (Phase::Stopped { acknowledge: false })
            &&& stopped.worker.presses.len() == 0
            &&& worker.phase is Waiting ==> stopped.events == ends
            &&& worker.phase is TakingQueued ==> stopped.events == settled(
                worker.deferred + ends,
                worker.due,
            )
        }),
{
    assert(crate::agent::worker::ended(
        worker.presses,
        EndReason::Canceled(CancelReason::SourceEnded),
    ) =~= all_canceled(worker.presses, CancelReason::SourceEnded));
}

/// Wherever the worker looks at the generation of the bindings it follows it: a
/// change ends every press as invalidated, at once or as part of a settlement,
/// and the same generation changes nothing.
pub proof fn law_a_new_generation_invalidates_every_press(worker: WorkerModel, current: u64)
    requires
        worker.valid(),
        worker.phase is Arrived || worker.phase is SettleGeneration || worker.phase
            is CheckGeneration,
    ensures
        ({
            let next = worker.step(Answer::Generation(current));
            let ends = if current == worker.generation {
                Seq::<ButtonRuntimeEvent>::empty()
            } else {
                all_canceled(worker.presses, CancelReason::Invalidated)
            };
            &&& next.worker.generation == current
            &&& next.worker.presses == if current == worker.generation {
                worker.presses
            } else {
                Seq::<ActivePress>::empty()
            }
            &&& worker.phase is CheckGeneration ==> next.events.len() == 0 && next.worker.deferred
                == worker.deferred + ends
            &&& !(worker.phase is CheckGeneration) ==> next.events == ends && next.worker.deferred
                == worker.deferred
        }),
{
    assert(crate::agent::worker::ended(
        worker.presses,
        EndReason::Canceled(CancelReason::Invalidated),
    ) =~= all_canceled(worker.presses, CancelReason::Invalidated));
}

/// Whether some press with a long action is past its deadline.
pub open spec fn some_overdue(presses: Seq<ActivePress>, now: u64) -> bool {
    exists|i: int|
        0 <= i < presses.len() && (#[trigger] presses[i]).behavior is LongPress
            && presses[i].behavior->deadline <= now
}

proof fn lemma_due_exactly_when_overdue(presses: Seq<ActivePress>, now: u64)
    ensures
        (due_tokens(presses, now).len() > 0) == some_overdue(presses, now),
    decreases presses.len(),
{
    if presses.len() > 0 {
        let head = presses.drop_last();
        lemma_due_exactly_when_overdue(head, now);
        if some_overdue(head, now) {
            let i = choose|i: int|
                0 <= i < head.len() && (#[trigger] head[i]).behavior is LongPress
                    && head[i].behavior->deadline <= now;
            assert(presses[i] == head[i]);
        }
        if some_overdue(presses, now) {
            let i = choose|i: int|
                0 <= i < presses.len() && (#[trigger] presses[i]).behavior is LongPress
                    && presses[i].behavior->deadline <= now;
            if i < head.len() {
                assert(head[i] == presses[i]);
            }
        }
    }
}

/// A command that arrives while no long action is overdue is processed under the
/// generation that is current then, and the owner hears of it at once. While one
/// is overdue, the command is kept and nothing happens yet.
pub proof fn law_a_command_is_processed_when_nothing_is_due(
    worker: WorkerModel,
    command: ButtonCommand,
    now: u64,
)
    requires
        worker.valid(),
        worker.phase == Phase::Waiting,
    ensures
        ({
            let dated = worker.step(Answer::Command(command)).worker.step(
                Answer::Generation(worker.generation),
            ).worker;
            let done = dated.step(Answer::Clock(now));
            &&& dated.presses == worker.presses
            &&& !some_overdue(worker.presses, now) ==> {
                &&& done.events == command_events(worker.presses, command, worker.generation)
                &&& done.worker.presses == command_presses(
                    worker.presses,
                    command,
                    worker.generation,
                )
                &&& done.worker.phase == Phase::SettleShutdown(None::<ButtonCommand>)
            }
            &&& some_overdue(worker.presses, now) ==> {
                &&& done.events.len() == 0
                &&& done.worker.presses == worker.presses
                &&& done.worker.phase == Phase::SettleShutdown(Some(command))
            }
        }),
{
    lemma_due_exactly_when_overdue(worker.presses, now);
}

/// A settlement opens exactly while some long action is overdue, over the presses
/// that are. A command at hand is the first of it, before what is queued; in all
/// it takes as many commands as the queue can hold. With nothing overdue the
/// command at hand is processed, and the worker is idle again.
pub proof fn law_a_settlement_opens_over_what_is_overdue(
    worker: WorkerModel,
    first: Option<ButtonCommand>,
    now: u64,
)
    requires
        worker.valid(),
        worker.phase == Phase::SettleClock(first),
        worker.capacity > 0,
    ensures
        ({
            let next = worker.step(Answer::Clock(now));
            &&& !some_overdue(worker.presses, now) ==> {
                &&& next.worker.phase == Phase::Idle
                &&& next.events == match first {
                    Some(command) => command_events(worker.presses, command, worker.generation),
                    None => Seq::empty(),
                }
                &&& next.worker.presses == match first {
                    Some(command) => command_presses(worker.presses, command, worker.generation),
                    None => worker.presses,
                }
            }
            &&& some_overdue(worker.presses, now) ==> {
                &&& next.events.len() == 0
                &&& next.worker.due == due_tokens(worker.presses, now)
                &&& match first {
                    Some(command) => {
                        &&& next.worker.presses == command_presses(
                            worker.presses,
                            command,
                            worker.generation,
                        )
                        &&& next.worker.deferred == command_events(
                            worker.presses,
                            command,
                            worker.generation,
                        )
                        &&& next.worker.budget + 1 == worker.capacity
                        &&& next.worker.phase == Phase::CheckShutdown(Check::Processed)
                    },
                    None => {
                        &&& next.worker.presses == worker.presses
                        &&& next.worker.deferred.len() == 0
                        &&& next.worker.budget == worker.capacity
                        &&& next.worker.phase == Phase::CheckShutdown(Check::Taking)
                    },
                }
            }
        }),
{
    lemma_due_exactly_when_overdue(worker.presses, now);
    if let Some(command) = first {
        assert(Seq::<ButtonRuntimeEvent>::empty() + command_events(
            worker.presses,
            command,
            worker.generation,
        ) =~= command_events(worker.presses, command, worker.generation));
    }
}

/// A settlement takes one queued command after the other, looking for a shutdown
/// and at the generation before and after each, until the queue is empty or its
/// share is used up; only then does it fire.
pub proof fn law_a_settlement_takes_what_was_queued(worker: WorkerModel, command: ButtonCommand)
    requires
        worker.valid(),
    ensures
        worker.phase == Phase::TakingQueued && worker.budget > 0 ==> {
            let next = worker.step(Answer::Command(command));
            &&& next.events.len() == 0
            &&& next.worker.presses == command_presses(worker.presses, command, worker.generation)
            &&& next.worker.deferred == worker.deferred + command_events(
                worker.presses,
                command,
                worker.generation,
            )
            &&& next.worker.budget + 1 == worker.budget
            &&& next.worker.phase == Phase::CheckShutdown(Check::Processed)
        },
        worker.phase == Phase::TakingQueued ==> worker.step(Answer::NoCommand).worker
            == (WorkerModel { phase: Phase::Firing, ..worker }),
        worker.phase == Phase::CheckShutdown(Check::Taking) ==> worker.step(
            Answer::Shutdown(false),
        ).worker.step(Answer::Generation(worker.generation)).worker.phase == Phase::TakingQueued,
        worker.phase == Phase::CheckShutdown(Check::Processed) ==> worker.step(
            Answer::Shutdown(false),
        ).worker.step(Answer::Generation(worker.generation)).worker.phase == if worker.budget == 0 {
            Phase::Firing
        } else {
            Phase::CheckShutdown(Check::Taking)
        },
{
}

/// At the end of a settlement each press that was due when it opened, is still
/// active and still overdue runs its long action; then all that happened is
/// handed out, and the worker is idle.
pub proof fn law_a_settlement_fires_and_hands_out(worker: WorkerModel, now: u64)
    requires
        worker.valid(),
        worker.phase == Phase::Firing,
    ensures
        ({
            let next = worker.step(Answer::Clock(now));
            let hits = |press: ActivePress|
                worker.due.contains(press.token) && press.behavior is LongPress
                    && press.behavior->deadline <= now;
            &&& next.worker.phase == Phase::Idle
            &&& next.worker.deferred.len() == 0
            &&& next.worker.presses == after_firing(worker.presses, worker.due, now)
            &&& next.events == settled(
                worker.deferred + worker.presses.filter(hits).map_values(
                    |press: ActivePress|
                        ButtonRuntimeEvent::Triggered {
                            press: ActivePress {
                                token: press.token,
                                behavior: PressBehavior::LongPressFired,
                                pointer: press.pointer,
                            },
                            action: press.behavior->long,
                        },
                ),
                worker.due,
            )
        }),
{
    let hits = |press: ActivePress|
        worker.due.contains(press.token) && press.behavior is LongPress && press.behavior->deadline
            <= now;
    law_firing_runs_long_actions_once(worker.presses, worker.due, now);
    assert(crate::agent::worker::triggered(fired_presses(worker.presses, worker.due, now))
        =~= worker.presses.filter(hits).map_values(
        |press: ActivePress|
            ButtonRuntimeEvent::Triggered {
                press: ActivePress {
                    token: press.token,
                    behavior: PressBehavior::LongPressFired,
                    pointer: press.pointer,
                },
                action: press.behavior->long,
            },
    ));
}

/// An idle worker waits for a command unless it is to shut down; one that waited long
/// enough, and one that has a command at hand, goes on to settle what is overdue, with
/// that command, and looks for a shutdown, at the generation and at the clock on the way.
/// None of this touches a press or tells the owner anything. An answer to something else
/// changes nothing.
pub proof fn law_the_worker_goes_round(
    worker: WorkerModel,
    command: ButtonCommand,
    first: Option<ButtonCommand>,
    now: u64,
)
    ensures
        worker.phase == Phase::Idle ==> {
            let next = worker.step(Answer::Shutdown(false));
            next.events.len() == 0 && next.worker == (WorkerModel {
                phase: Phase::Waiting,
                ..worker
            })
        },
        worker.phase == Phase::Waiting ==> {
            let arrived = worker.step(Answer::Command(command));
            let waited = worker.step(Answer::NoCommand);
            &&& arrived.events.len() == 0 && arrived.worker == (WorkerModel {
                phase: Phase::Arrived(command),
                ..worker
            })
            &&& waited.events.len() == 0 && waited.worker == (WorkerModel {
                phase: Phase::SettleShutdown(None::<ButtonCommand>),
                ..worker
            })
        },
        worker.phase == Phase::Arrived(command) ==> worker.step(
            Answer::Generation(worker.generation),
        ).worker == (WorkerModel { phase: Phase::Dated(command), ..worker }),
        worker.phase == Phase::SettleShutdown(first) ==> {
            let next = worker.step(Answer::Shutdown(false));
            next.events.len() == 0 && next.worker == (WorkerModel {
                phase: Phase::SettleGeneration(first),
                ..worker
            })
        },
        worker.phase == Phase::SettleGeneration(first) ==> worker.step(
            Answer::Generation(worker.generation),
        ).worker == (WorkerModel { phase: Phase::SettleClock(first), ..worker }),
        worker.phase == Phase::Idle ==> worker.step(
            Answer::Clock(now),
        ).worker == worker && worker.step(Answer::Clock(now)).events.len() == 0,
        worker.phase is Stopped ==> worker.step(Answer::Command(command)).worker == worker
            && worker.step(Answer::Command(command)).events.len() == 0,
{
}

/// A long action runs though nothing else happens: once its deadline is past, the next
/// round of the worker tells the owner of it, and the press stays active without running
/// it again.
pub proof fn law_a_long_press_runs_by_itself(worker: WorkerModel, now: u64, i: int)
    requires
        worker.valid(),
        worker.phase == Phase::Idle,
        worker.capacity > 0,
        0 <= i < worker.presses.len(),
        worker.presses[i].behavior is LongPress,
        worker.presses[i].behavior->deadline <= now,
    ensures
        ({
            let waiting = worker.step(Answer::Shutdown(false)).worker;
            let settling = waiting.step(Answer::NoCommand).worker;
            let looked = settling.step(Answer::Shutdown(false)).worker;
            let dated = looked.step(Answer::Generation(worker.generation)).worker;
            let opened = dated.step(Answer::Clock(now)).worker;
            let checked = opened.step(Answer::Shutdown(false)).worker;
            let taking = checked.step(Answer::Generation(worker.generation)).worker;
            let firing = taking.step(Answer::NoCommand).worker;
            let fired = firing.step(Answer::Clock(now));
            &&& fired.worker.phase == Phase::Idle
            &&& fired.events.contains(
                ButtonRuntimeEvent::Triggered {
                    press: ActivePress {
                        token: worker.presses[i].token,
                        behavior: PressBehavior::LongPressFired,
                        pointer: worker.presses[i].pointer,
                    },
                    action: worker.presses[i].behavior->long,
                },
            )
            &&& fired.worker.presses == after_firing(
                worker.presses,
                due_tokens(worker.presses, now),
                now,
            )
        }),
{
    let press = worker.presses[i];
    assert(some_overdue(worker.presses, now));
    lemma_due_exactly_when_overdue(worker.presses, now);
    let due = due_tokens(worker.presses, now);
    let firing = WorkerModel {
        phase: Phase::Firing,
        due,
        deferred: Seq::empty(),
        budget: worker.capacity,
        ..worker
    };
    let waiting = worker.step(Answer::Shutdown(false)).worker;
    let settling = waiting.step(Answer::NoCommand).worker;
    let looked = settling.step(Answer::Shutdown(false)).worker;
    let dated = looked.step(Answer::Generation(worker.generation)).worker;
    assert(dated == (WorkerModel {
        phase: Phase::SettleClock(None::<ButtonCommand>),
        ..worker
    }));
    let opened = dated.step(Answer::Clock(now)).worker;
    let checked = opened.step(Answer::Shutdown(false)).worker;
    let taking = checked.step(Answer::Generation(worker.generation)).worker;
    assert(taking.deferred =~= Seq::empty());
    assert(taking.step(Answer::NoCommand).worker == firing);
    lemma_due_contains(worker.presses, now, i);
    law_a_settlement_fires_and_hands_out(firing, now);
    let hits = |press: ActivePress|
        firing.due.contains(press.token) && press.behavior is LongPress && press.behavior->deadline
            <= now;
    let made = |press: ActivePress|
        ButtonRuntimeEvent::Triggered {
            press: ActivePress {
                token: press.token,
                behavior: PressBehavior::LongPressFired,
                pointer: press.pointer,
            },
            action: press.behavior->long,
        };
    let kept = worker.presses.filter(hits);
    assert(hits(press));
    lemma_filter_keeps(worker.presses, hits, i);
    let k = kept.index_of(press);
    let events = firing.deferred + kept.map_values(made);
    assert(kept.map_values(made)[k] == made(press));
    assert(events[firing.deferred.len() + k] == made(press));
    crate::agent::worker_laws::law_settled_events_are_a_permutation(events, due);
    broadcast use vstd::seq_lib::group_to_multiset_ensures;

    assert(events.contains(made(press)));
    assert(events.to_multiset().count(made(press)) > 0);
    assert(settled(events, due).to_multiset().count(made(press)) > 0);
}

proof fn lemma_filter_keeps(presses: Seq<ActivePress>, hits: spec_fn(ActivePress) -> bool, i: int)
    requires
        0 <= i < presses.len(),
        hits(presses[i]),
    ensures
        presses.filter(hits).contains(presses[i]),
    decreases presses.len(),
{
    reveal(Seq::filter);
    let head = presses.drop_last();
    if i < head.len() {
        assert(head[i] == presses[i]);
        lemma_filter_keeps(head, hits, i);
        let k = head.filter(hits).index_of(presses[i]);
        assert(presses.filter(hits)[k] == presses[i]);
    } else {
        assert(presses.filter(hits)[head.filter(hits).len() as int] == presses[i]);
    }
}

proof fn lemma_due_contains(presses: Seq<ActivePress>, now: u64, i: int)
    requires
        0 <= i < presses.len(),
        presses[i].behavior is LongPress,
        presses[i].behavior->deadline <= now,
    ensures
        due_tokens(presses, now).contains(presses[i].token),
    decreases presses.len(),
{
    let head = presses.drop_last();
    if i < head.len() {
        assert(head[i] == presses[i]);
        lemma_due_contains(head, now, i);
        let k = due_tokens(head, now).index_of(presses[i].token);
        assert(due_tokens(presses, now)[k] == presses[i].token);
    } else {
        assert(due_tokens(presses, now)[due_tokens(head, now).len() as int] == presses[i].token);
    }
}

/// The worker asks for what moves it on: any answer to its question takes it to another
/// phase, until it has stopped, and then it says so. It waits for a command only between
/// rounds, and takes what is queued only while it settles.
pub proof fn law_the_worker_asks_for_what_moves_it_on(
    worker: WorkerModel,
    command: ButtonCommand,
    value: u64,
    requested: bool,
)
    requires
        worker.valid(),
    ensures
        worker.asks() is Shutdown ==> worker.step(Answer::Shutdown(requested)).worker.phase
            != worker.phase,
        worker.asks() is Generation ==> worker.step(Answer::Generation(value)).worker.phase
            != worker.phase,
        worker.asks() is Clock ==> worker.step(Answer::Clock(value)).worker.phase != worker.phase,
        worker.asks() is Command || worker.asks() is QueuedCommand ==> {
            &&& worker.step(Answer::Command(command)).worker.phase != worker.phase
            &&& worker.step(Answer::NoCommand).worker.phase != worker.phase
            &&& worker.step(Answer::Disconnected).worker.phase != worker.phase
        },
        (worker.asks() is Command) == (worker.phase == Phase::Waiting),
        (worker.asks() is QueuedCommand) == (worker.phase == Phase::TakingQueued),
        (worker.asks() is Stop) == (worker.phase is Stopped),
        worker.phase matches Phase::Stopped { acknowledge } ==> worker.asks()->acknowledge
            == acknowledge,
{
}

} // verus!
