//! What the input tap, the window observer and the session's sources go through.

use vstd::prelude::*;
use crate::hook::foreground::{
    candidate_backends, has_started, session_kind, AppModel, ControllerModel, FrontmostBackend,
    PublicationModel, SessionKind, Subscriber,
};
use crate::hook::tap::{
    base_name, callback_hangs, drops_event, lifecycle_spec, location_spec, safari_pid,
    still_hazardous, tap_run, EventDisposition, LifecycleDecision, LifecycleExitReason,
    SliceResult, TapInput, TapLocation, TapPhase, TapStage, TapThread, WatchdogTurn,
};
use crate::hook::x11::{
    class_of, first_zero, observer_step, second_string, ObserverInput, ObserverPhase, PollResult,
    Tell,
};

verus! {

/// A tap is enabled only after it and its source were made, the source was added and
/// the watchdog runs; then it is announced and turns begin.
pub proof fn law_a_tap_is_enabled_when_everything_is_ready()
    ensures
        ({
            let made = TapThread::fresh().stepped(TapInput::Done);
            let sourced = made.stepped(TapInput::Done);
            let added = sourced.stepped(TapInput::Done);
            let watched = added.stepped(TapInput::Done);
            let enabled = watched.stepped(TapInput::Done);
            let running = enabled.stepped(TapInput::Done);
            &&& TapThread::fresh().stage == TapStage::Create
            &&& made.stage == TapStage::CreateSource && !made.enabled
            &&& sourced.stage == TapStage::AddSource && !sourced.enabled
            &&& added.stage == TapStage::SpawnWatchdog && !added.enabled
            &&& watched.stage == TapStage::Enable && !watched.enabled && watched.phase
                == TapPhase::Arming
            &&& enabled.stage == TapStage::Announce && enabled.enabled && enabled.phase
                == TapPhase::Armed
            &&& running.stage == TapStage::CheckStop && running.enabled && running.phase
                == TapPhase::Armed
        }),
{
}

/// Where making the tap, its source or the watchdog fails, the thread ends without the
/// tap ever having been enabled.
pub proof fn law_a_failed_setup_enables_nothing(thread: TapThread)
    requires
        thread.valid(),
        thread.stage == TapStage::Create || thread.stage == TapStage::CreateSource || thread.stage
            == TapStage::SpawnWatchdog,
    ensures
        thread.stepped(TapInput::Failed).stage == TapStage::Exit,
        !thread.stepped(TapInput::Failed).enabled,
        thread.stepped(TapInput::Failed).stepped(TapInput::Done).phase == TapPhase::ThreadExited,
{
}

/// A turn in which nothing asks to stop, access is still granted and nothing was
/// disabled too often comes round with the tap enabled, for as long as that is so.
pub proof fn law_a_quiet_turn_comes_round(
    thread: TapThread,
    slice: SliceResult,
)
    requires
        thread.valid(),
        thread.stage == TapStage::CheckStop,
        slice == SliceResult::TimedOut || slice == SliceResult::HandledSource,
    ensures
        ({
            let running = thread.stepped(TapInput::Answer(false));
            let ran = running.stepped(TapInput::Slice(slice));
            let granted = ran.stepped(TapInput::Answer(true));
            let quiet = granted.stepped(TapInput::Answer(false));
            let often = granted.stepped(TapInput::Answer(true));
            let afforded = often.stepped(TapInput::Answer(true));
            &&& running.stage == TapStage::RunSlice
            &&& ran.stage == TapStage::CheckAccess
            &&& granted.stage == TapStage::CheckDisabled
            &&& quiet.stage == TapStage::Rearm && quiet.stepped(TapInput::Done) == thread
            &&& often.stage == TapStage::CheckBudget
            &&& afforded.stage == TapStage::Rearm && afforded.stepped(TapInput::Done) == thread
        }),
{
}

/// Whether what comes in at a stage ends the tap.
pub open spec fn asks_to_stop(thread: TapThread, input: TapInput) -> bool {
    ||| thread.stage == TapStage::CheckStop && input == TapInput::Answer(true)
    ||| thread.stage == TapStage::RunSlice && input == TapInput::Slice(SliceResult::Stopped)
    ||| thread.stage == TapStage::RunSlice && input == TapInput::Slice(SliceResult::Finished)
    ||| thread.stage == TapStage::CheckAccess && input == TapInput::Answer(false)
    ||| thread.stage == TapStage::CheckBudget && input == TapInput::Answer(false)
    ||| thread.stage == TapStage::Announce && input == TapInput::Failed
}

/// A request to stop, a run loop that ended, an access that was taken away, a tap that
/// is disabled too often and an announcement that nobody takes each disable the tap,
/// destroy it and end the thread, in this order.
pub proof fn law_every_stop_disables_first(thread: TapThread, input: TapInput)
    requires
        thread.valid(),
        asks_to_stop(thread, input),
    ensures
        ({
            let stopping = thread.stepped(input);
            let disabled = stopping.stepped(TapInput::Done);
            let destroyed = disabled.stepped(TapInput::Done);
            let ended = destroyed.stepped(TapInput::Done);
            &&& stopping.stage == TapStage::Disable && stopping.enabled
            &&& disabled.stage == TapStage::Destroy && !disabled.enabled && disabled.phase
                == TapPhase::Armed
            &&& destroyed.stage == TapStage::Exit && destroyed.phase == TapPhase::TapStopped
            &&& ended.phase == TapPhase::ThreadExited
        }),
{
}

/// An enabled tap stays enabled until it is disabled, and what does not belong to a
/// stage changes nothing.
pub proof fn law_only_disabling_disables(thread: TapThread, input: TapInput)
    requires
        thread.valid(),
    ensures
        thread.enabled && !thread.stepped(input).enabled ==> thread.stage == TapStage::Disable
            && input == TapInput::Done,
        !thread.enabled && thread.stepped(input).enabled ==> thread.stage == TapStage::Enable
            && input == TapInput::Done,
        thread.stepped(input).valid(),
        tap_run(thread, Seq::empty()) == thread,
        thread.stage == TapStage::RunSlice && !(input is Slice) ==> thread.stepped(input) == thread,
        thread.stage == TapStage::CheckStop && !(input is Answer) ==> thread.stepped(input)
            == thread,
        thread.stage == TapStage::Disable && input != TapInput::Done ==> thread.stepped(input)
            == thread,
{
}

/// A stalled thread is a hazard while its tap may hold input back, and a stop that was
/// waited for in vain is one until the thread is gone.
pub proof fn law_what_is_still_a_hazard(phase: TapPhase)
    ensures
        still_hazardous(LifecycleExitReason::TapThreadStalled, TapPhase::Armed),
        still_hazardous(LifecycleExitReason::TapThreadStalled, TapPhase::Arming),
        !still_hazardous(LifecycleExitReason::TapThreadStalled, TapPhase::Starting),
        !still_hazardous(LifecycleExitReason::TapThreadStalled, TapPhase::TapStopped),
        !still_hazardous(LifecycleExitReason::TapThreadStalled, TapPhase::ThreadExited),
        still_hazardous(LifecycleExitReason::StopTimedOut, phase) == (phase
            != TapPhase::ThreadExited),
{
}

/// Only an owner that hears of an event and says so keeps it from everyone else; without
/// an answer it goes through.
pub proof fn law_only_a_suppressed_event_is_dropped(answer: Option<EventDisposition>)
    ensures
        !drops_event(false, answer),
        !drops_event(true, None),
        !drops_event(true, Some(EventDisposition::PassThrough)),
        drops_event(true, Some(EventDisposition::Suppress)),
{
}

/// A callback hangs only while one and the same call of an armed tap is past its budget:
/// not before, not once it returned, and not when another one was entered.
pub proof fn law_only_one_call_past_its_budget_hangs(
    at: u64,
    again: Option<u64>,
    past: bool,
    phase: TapPhase,
)
    ensures
        callback_hangs(Some(at), true, Some(at), TapPhase::Armed),
        !callback_hangs(None, past, again, phase),
        !callback_hangs(Some(at), false, again, phase),
        again != Some(at) ==> !callback_hangs(Some(at), past, again, phase),
        phase != TapPhase::Armed ==> !callback_hangs(Some(at), past, again, phase),
{
}

/// The process ends for a reason that still holds when it is looked at again, and goes
/// on for one that does not.
pub proof fn law_the_process_ends_only_while_the_danger_lasts(phase: TapPhase)
    ensures
        lifecycle_spec(LifecycleDecision::Continue, phase) == WatchdogTurn::Continue,
        lifecycle_spec(LifecycleDecision::Complete, phase) == WatchdogTurn::Complete,
        lifecycle_spec(LifecycleDecision::Exit(LifecycleExitReason::StopTimedOut), phase)
            == if phase == TapPhase::ThreadExited {
            WatchdogTurn::Continue
        } else {
            WatchdogTurn::Exit
        },
        lifecycle_spec(LifecycleDecision::Exit(LifecycleExitReason::TapThreadStalled), phase)
            == if phase == TapPhase::Armed || phase == TapPhase::Arming {
            WatchdogTurn::Exit
        } else {
            WatchdogTurn::Continue
        },
{
}

/// The place of a tap is one of three by its number, and any other number is kept.
pub proof fn law_a_tap_point_is_named(point: u32)
    ensures
        location_spec(0) == TapLocation::Hid,
        location_spec(1) == TapLocation::Session,
        location_spec(2) == TapLocation::AnnotatedSession,
        point > 2 ==> location_spec(point) == TapLocation::Other(point),
{
}

/// The name of a file is what stands behind the last slash of its path.
pub proof fn law_a_file_is_named_behind_the_last_slash(directory: Seq<char>, name: Seq<char>)
    requires
        forall|i: int| 0 <= i < name.len() ==> #[trigger] name[i] != '/',
        directory.len() > 0 ==> directory.last() == '/',
    ensures
        base_name(directory + name) == name,
    decreases name.len(),
{
    let all = directory + name;
    if name.len() == 0 {
        assert(all =~= directory);
        assert(name =~= Seq::empty());
    } else {
        let rest = name.drop_last();
        assert forall|i: int| 0 <= i < rest.len() implies #[trigger] rest[i] != '/' by {
            assert(rest[i] == name[i]);
        }
        law_a_file_is_named_behind_the_last_slash(directory, rest);
        assert(all.drop_last() =~= directory + rest);
        assert(all.last() == name[name.len() - 1]);
        assert(rest.push(name.last()) =~= name);
    }
}

/// Only the one browser is told apart, and only by a process that there is.
pub proof fn law_only_safari_is_told_apart(bundle: Seq<char>, pid: i32)
    ensures
        pid > 0 ==> safari_pid("com.apple.Safari"@, pid) == Some(pid),
        pid <= 0 ==> safari_pid(bundle, pid) is None,
        bundle != "com.apple.Safari"@ ==> safari_pid(bundle, pid) is None,
{
}

/// A session is what it declares to be; one that declares nothing known is judged by
/// its displays, Wayland first.
pub proof fn law_a_session_is_what_it_declares(
    declared: Option<Seq<char>>,
    wayland: bool,
    x: bool,
)
    ensures
        session_kind(Some("wayland"@), wayland, x) == SessionKind::Wayland,
        session_kind(Some("x11"@), wayland, x) == SessionKind::X11,
        declared != Some("wayland"@) && declared != Some("x11"@) ==> {
            &&& session_kind(declared, true, x) == SessionKind::Wayland
            &&& session_kind(declared, false, true) == SessionKind::X11
            &&& session_kind(declared, false, false) == SessionKind::Unknown
        },
{
    reveal_strlit("wayland");
    reveal_strlit("x11");
    assert("wayland"@.len() != "x11"@.len());
}

/// Under Wayland the two Wayland sources are tried before the X server; elsewhere only
/// the X server is.
pub proof fn law_the_x_server_is_tried_last(session: SessionKind, started: Seq<bool>, i: int)
    ensures
        candidate_backends(session).last() == FrontmostBackend::X11,
        candidate_backends(SessionKind::Wayland).len() == 3,
        candidate_backends(SessionKind::Wayland)[0] == FrontmostBackend::WlrForeignToplevel,
        candidate_backends(SessionKind::Wayland)[1] == FrontmostBackend::GnomeShell,
        session != SessionKind::Wayland ==> candidate_backends(session).len() == 1,
        has_started(started, i) == (0 <= i < started.len() && started[i]),
{
}

/// A subscriber wants what is newer than what it has, and everything while it has
/// nothing.
pub proof fn law_a_subscriber_wants_what_is_newer(seen: u64, version: u64)
    ensures
        (Subscriber { version: None }).wants(version),
        seen < version ==> (Subscriber { version: Some(seen) }).wants(version),
        version <= seen ==> !(Subscriber { version: Some(seen) }).wants(version),
{
}

/// A new application in front, and the first one that is published, gets the next
/// number and is what is published from then on; the same one again changes nothing.
/// Who subscribes, and what each has heard, stays.
pub proof fn law_a_publication_is_numbered(publication: PublicationModel, app: Option<AppModel>)
    requires
        publication.version < u64::MAX,
    ensures
        ({
            let after = publication.published(app);
            let again = publication.initialized && publication.current == app;
            &&& after.initialized && after.current == app
            &&& again ==> after == publication
            &&& !again ==> after.version == publication.version + 1
            &&& publication.changes(app) == !again
            &&& !after.changes(app)
            &&& after.published(app) == after
            &&& after.subscribers == publication.subscribers
            &&& after.active == publication.active
        }),
{
}

/// A subscriber hears of every change once: it is called for one that is newer than all
/// it was called for, and for no other; one that left, or never came, is called for
/// none. Calling one leaves the others as they were.
pub proof fn law_a_change_is_heard_once(
    publication: PublicationModel,
    id: u64,
    other: u64,
    version: u64,
    next: u64,
)
    ensures
        publication.subscribed(id).calls(id, version),
        !publication.unsubscribed(id).calls(id, version),
        other != id ==> publication.subscribed(id).calls(other, version) == publication.calls(
            other,
            version,
        ) && publication.unsubscribed(id).calls(other, version) == publication.calls(other, version)
            && publication.delivered(id, version).calls(other, next) == publication.calls(
            other,
            next,
        ),
        !publication.subscribers.dom().contains(id) ==> !publication.calls(id, version),
        publication.calls(id, version) ==> publication.delivered(id, version).calls(id, next) == (
        next > version),
        !publication.calls(id, version) ==> publication.delivered(id, version) == publication,
        publication.delivered(id, version).version == publication.version && publication.delivered(
            id,
            version,
        ).current == publication.current,
{
}

/// What was published ends with its worker: nothing is published when one starts or
/// stops, numbers go on, and subscribers stay.
pub proof fn law_a_worker_starts_with_nothing_published(publication: PublicationModel, active: bool)
    ensures
        publication.restarted(active).active == active,
        !publication.restarted(active).initialized,
        publication.restarted(active).current is None,
        publication.restarted(active).version == publication.version,
        publication.restarted(active).subscribers == publication.subscribers,
{
}

/// The first to watch starts a worker, which takes the source; those who come later are
/// attached to it, each under a number of its own; while a worker stops nobody is.
pub proof fn law_one_worker_serves_everyone(controller: ControllerModel, id: u64)
    requires
        controller.valid(),
        controller.next_subscriber_id < u64::MAX,
    ensures
        ({
            let after = controller.watched();
            &&& controller.stopping ==> after == controller
            &&& !controller.stopping ==> after.next_subscriber_id == controller.next_subscriber_id
                + 1
            &&& !controller.stopping && !controller.has_worker ==> after.publication
                == controller.publication
            &&& controller.has_worker ==> after.publication.subscribers.dom().contains(
                controller.next_subscriber_id,
            )
            &&& after.has_worker == controller.has_worker && after.has_source
                == controller.has_source && after.stopping == controller.stopping
        }),
        !controller.has_worker && !controller.stopping ==> {
            let running = controller.started(id);
            &&& running.valid()
            &&& running.has_worker && !running.has_source
            &&& running.publication.active && !running.publication.initialized
            &&& running.publication.subscribers.dom().contains(id)
            &&& running.refused(id).valid()
            &&& running.refused(id).has_source && !running.refused(id).has_worker
            &&& !running.refused(id).publication.subscribers.dom().contains(id)
            &&& !running.retires()
        },
{
    assert(!Map::<u64, Subscriber>::empty().dom().contains(id));
}

/// The worker stops when its last subscriber leaves and not before; then its source
/// comes back, and the next to watch starts one anew.
pub proof fn law_the_last_subscriber_stops_the_worker(controller: ControllerModel, id: u64)
    requires
        controller.valid(),
    ensures
        ({
            let somebody = exists|id: u64| controller.publication.subscribers.dom().contains(id);
            &&& controller.has_worker && !somebody ==> controller.retires()
            &&& somebody || !controller.has_worker ==> !controller.retires() && controller.retired()
                == controller
            &&& controller.retires() ==> {
                let stopping = controller.retired();
                &&& stopping.stopping && !stopping.has_worker && stopping.valid()
                &&& stopping.publication == controller.publication
                &&& stopping.stopped().valid()
                &&& stopping.stopped().has_source && !stopping.stopped().stopping
                &&& !stopping.stopped().publication.active
                &&& stopping.stopped().next_subscriber_id == controller.next_subscriber_id
            }
        }),
        ControllerModel::idle().valid() && ControllerModel::idle().has_source
            && !ControllerModel::idle().retires(),
{
    let empty = Map::<u64, Subscriber>::empty();
    if forall|id: u64| !controller.publication.subscribers.dom().contains(id) {
        assert(controller.publication.subscribers =~= empty);
    } else {
        let one = choose|id: u64| controller.publication.subscribers.dom().contains(id);
        assert(!empty.dom().contains(one));
    }
}

proof fn lemma_first_zero(front: Seq<u8>, back: Seq<u8>)
    requires
        forall|i: int| 0 <= i < front.len() ==> #[trigger] front[i] != 0,
    ensures
        first_zero(front.push(0) + back) == front.len(),
        first_zero(front) == front.len(),
    decreases front.len(),
{
    let all = front.push(0) + back;
    if front.len() == 0 {
        assert(all[0] == 0);
    } else {
        let rest = front.skip(1);
        assert forall|i: int| 0 <= i < rest.len() implies #[trigger] rest[i] != 0 by {
            assert(rest[i] == front[i + 1]);
        }
        lemma_first_zero(rest, back);
        assert(all[0] == front[0]);
        assert(all.skip(1) =~= rest.push(0) + back);
    }
}

/// The class of a window is the second of the two strings of its property, behind the
/// zero that ends the first, with or without a zero of its own; a property with one
/// string only has an empty class, and one of another type or format has none.
pub proof fn law_the_class_is_the_second_string(
    instance: Seq<u8>,
    class: Seq<u8>,
    kind: u32,
    format: u8,
)
    requires
        forall|i: int| 0 <= i < instance.len() ==> #[trigger] instance[i] != 0,
        class.len() > 0,
        class.last() != 0,
    ensures
        second_string(instance.push(0) + class.push(0)) == class,
        second_string(instance.push(0) + class) == class,
        second_string(instance.push(0)).len() == 0,
        second_string(instance).len() == 0,
        class_of(31, 8, instance.push(0) + class.push(0)) == Some(class),
        kind != 31 || format != 8 ==> class_of(kind, format, class) is None,
{
    lemma_first_zero(instance, class.push(0));
    lemma_first_zero(instance, class);
    lemma_first_zero(instance, Seq::empty());
    let start = instance.len() + 1;
    let ended = instance.push(0) + class.push(0);
    let open = instance.push(0) + class;
    assert(ended.last() == 0);
    assert(open.last() == class.last());
    assert(ended.subrange(start as int, ended.len() - 1) =~= class);
    assert(open.subrange(start as int, open.len() as int) =~= class);
    assert(instance.push(0) + Seq::<u8>::empty() =~= instance.push(0));
    assert(second_string(ended) == class);
}

/// A subscribed observer tells what is in front, then waits; when something came in it
/// tells again exactly if that was about what is in front.
pub proof fn law_an_observer_tells_what_changed(changed: bool)
    ensures
        observer_step(ObserverPhase::Subscribing, ObserverInput::Subscribed(true)) == (
            ObserverPhase::Waiting,
            Tell::Snapshot,
        ),
        observer_step(ObserverPhase::Waiting, ObserverInput::Polled(PollResult::SourceReady)) == (
            ObserverPhase::Draining,
            Tell::Nothing,
        ),
        observer_step(ObserverPhase::Waiting, ObserverInput::Polled(PollResult::DeadlineReached))
            == (ObserverPhase::Waiting, Tell::Nothing),
        observer_step(ObserverPhase::Draining, ObserverInput::Drained(changed)).0
            == ObserverPhase::Waiting,
        observer_step(ObserverPhase::Draining, ObserverInput::Drained(true)).1 == Tell::Snapshot,
        observer_step(ObserverPhase::Draining, ObserverInput::Drained(false)).1 == Tell::Nothing,
{
}

/// An observer that loses the server, at whatever point, says at once that it does not
/// know, pauses, and subscribes again; when it is asked to stop it stops, and says
/// nothing more.
pub proof fn law_a_lost_server_is_told_and_tried_again()
    ensures
        observer_step(ObserverPhase::Subscribing, ObserverInput::Subscribed(false)) == (
            ObserverPhase::Pausing,
            Tell::Unknown,
        ),
        observer_step(ObserverPhase::Waiting, ObserverInput::Polled(PollResult::Error)) == (
            ObserverPhase::Pausing,
            Tell::Unknown,
        ),
        observer_step(ObserverPhase::Draining, ObserverInput::Lost) == (
            ObserverPhase::Pausing,
            Tell::Unknown,
        ),
        observer_step(ObserverPhase::Pausing, ObserverInput::Paused(false)) == (
            ObserverPhase::Reconnecting,
            Tell::Nothing,
        ),
        observer_step(ObserverPhase::Reconnecting, ObserverInput::Reconnected) == (
            ObserverPhase::Subscribing,
            Tell::Nothing,
        ),
        observer_step(ObserverPhase::Waiting, ObserverInput::Polled(PollResult::StopRequested))
            == (ObserverPhase::Stopped, Tell::Nothing),
        observer_step(ObserverPhase::Pausing, ObserverInput::Paused(true)) == (
            ObserverPhase::Stopped,
            Tell::Nothing,
        ),
{
}

/// A stopped observer stays stopped.
pub proof fn law_a_stopped_observer_stays_stopped(input: ObserverInput)
    ensures
        observer_step(ObserverPhase::Stopped, input) == (ObserverPhase::Stopped, Tell::Nothing),
{
}

} // verus!
