//! The input tap: the thread that owns it, what releases it, and what its
//! callback may do to an event.
//!
//! An active tap that nobody services freezes the input of the whole machine, so
//! every way out of the thread disables it first, and two watchdogs end the
//! process when the thread can no longer do so.

use vstd::prelude::*;
use crate::hook::foreground::{app_view, AppModel, ForegroundApp};
use crate::text::{chars_of, same_text, slice_chars, string_of};

verus! {

/// An event of the system that a tap can listen to.
#[derive(Clone, Copy, Debug, PartialEq, Eq, Structural)]
pub enum TapEvent {
    /// The primary button went down.
    LeftMouseDown,
    /// The primary button came up.
    LeftMouseUp,
    /// The secondary button went down.
    RightMouseDown,
    /// The secondary button came up.
    RightMouseUp,
    /// Another button went down.
    OtherMouseDown,
    /// Another button came up.
    OtherMouseUp,
    /// A wheel turned.
    ScrollWheel,
    /// The pointer moved.
    MouseMoved,
    /// The pointer moved with the primary button down.
    LeftMouseDragged,
    /// The pointer moved with the secondary button down.
    RightMouseDragged,
    /// The pointer moved with another button down.
    OtherMouseDragged,
    /// A key went down.
    KeyDown,
    /// A key came up.
    KeyUp,
    /// A modifier key changed.
    FlagsChanged,
}

/// The events a tap listens to: buttons, wheels, movement, and the keys that
/// function keys arrive as.
pub fn hooked_event_types() -> (events: Vec<TapEvent>)
    ensures
        events@ == seq![
            TapEvent::LeftMouseDown,
            TapEvent::LeftMouseUp,
            TapEvent::RightMouseDown,
            TapEvent::RightMouseUp,
            TapEvent::OtherMouseDown,
            TapEvent::OtherMouseUp,
            TapEvent::ScrollWheel,
            TapEvent::MouseMoved,
            TapEvent::LeftMouseDragged,
            TapEvent::RightMouseDragged,
            TapEvent::OtherMouseDragged,
            TapEvent::KeyDown,
            TapEvent::KeyUp,
            TapEvent::FlagsChanged,
        ],
{
    let events = vec![
        TapEvent::LeftMouseDown,
        TapEvent::LeftMouseUp,
        TapEvent::RightMouseDown,
        TapEvent::RightMouseUp,
        TapEvent::OtherMouseDown,
        TapEvent::OtherMouseUp,
        TapEvent::ScrollWheel,
        TapEvent::MouseMoved,
        TapEvent::LeftMouseDragged,
        TapEvent::RightMouseDragged,
        TapEvent::OtherMouseDragged,
        TapEvent::KeyDown,
        TapEvent::KeyUp,
        TapEvent::FlagsChanged,
    ];
    assert(events@ =~= seq![
        TapEvent::LeftMouseDown,
        TapEvent::LeftMouseUp,
        TapEvent::RightMouseDown,
        TapEvent::RightMouseUp,
        TapEvent::OtherMouseDown,
        TapEvent::OtherMouseUp,
        TapEvent::ScrollWheel,
        TapEvent::MouseMoved,
        TapEvent::LeftMouseDragged,
        TapEvent::RightMouseDragged,
        TapEvent::OtherMouseDragged,
        TapEvent::KeyDown,
        TapEvent::KeyUp,
        TapEvent::FlagsChanged,
    ]);
    events
}

/// How far the tap is.
#[derive(Clone, Copy, Debug, PartialEq, Eq, Structural)]
pub enum TapPhase {
    /// Nothing was created.
    Starting,
    /// The tap may exist.
    Arming,
    /// The tap is enabled.
    Armed,
    /// The tap was disabled and destroyed.
    TapStopped,
    /// The thread is gone.
    ThreadExited,
}

/// What the tap thread is doing.
#[derive(Clone, Copy, Debug, PartialEq, Eq, Structural)]
pub enum TapStage {
    /// Creating the tap.
    Create,
    /// Creating the source that feeds the run loop.
    CreateSource,
    /// Adding the source to the run loop.
    AddSource,
    /// Starting the watchdog of the callback.
    SpawnWatchdog,
    /// Enabling the tap.
    Enable,
    /// Telling the parent that the run loop is live.
    Announce,
    /// Looking whether to stop.
    CheckStop,
    /// Running a slice of the run loop.
    RunSlice,
    /// Looking whether events may still be filtered.
    CheckAccess,
    /// Looking whether the system disabled the tap.
    CheckDisabled,
    /// Looking whether the tap may be enabled once more.
    CheckBudget,
    /// Enabling the tap once more.
    Rearm,
    /// Disabling the tap.
    Disable,
    /// Taking the source out of the run loop and destroying both.
    Destroy,
    /// Leaving; done once everything the thread held is gone.
    Exit,
}

/// What running a slice came to.
#[derive(Clone, Copy, Debug, PartialEq, Eq, Structural)]
pub enum SliceResult {
    /// The run loop was stopped.
    Stopped,
    /// The run loop has nothing left.
    Finished,
    /// The slice is over.
    TimedOut,
    /// Something was handled.
    HandledSource,
}

/// What the thread hears.
#[derive(Clone, Copy, Debug, PartialEq, Eq, Structural)]
pub enum TapInput {
    /// What it was doing worked.
    Done,
    /// What it was doing failed.
    Failed,
    /// The answer to a question.
    Answer(bool),
    /// What a slice came to.
    Slice(SliceResult),
}

/// The tap thread.
#[derive(Clone, Copy, Debug, PartialEq, Eq, Structural)]
pub struct TapThread {
    /// What it is doing.
    pub stage: TapStage,
    /// How far the tap is.
    pub phase: TapPhase,
    /// Whether the tap may be enabled.
    pub enabled: bool,
}

impl TapThread {
    /// The thread before it created anything.
    pub open spec fn fresh() -> TapThread {
        TapThread { stage: TapStage::Create, phase: TapPhase::Arming, enabled: false }
    }

    /// The thread at another stage.
    pub open spec fn at(self, stage: TapStage) -> TapThread {
        TapThread { stage, ..self }
    }

    /// What an input does.
    pub open spec fn stepped(self, input: TapInput) -> TapThread {
        match (self.stage, input) {
            (TapStage::Create, TapInput::Done) => self.at(TapStage::CreateSource),
            (TapStage::CreateSource, TapInput::Done) => self.at(TapStage::AddSource),
            (TapStage::AddSource, TapInput::Done) => self.at(TapStage::SpawnWatchdog),
            (TapStage::SpawnWatchdog, TapInput::Done) => self.at(TapStage::Enable),
            (TapStage::Create, TapInput::Failed) => self.at(TapStage::Exit),
            (TapStage::CreateSource, TapInput::Failed) => self.at(TapStage::Exit),
            (TapStage::SpawnWatchdog, TapInput::Failed) => self.at(TapStage::Exit),
            (TapStage::Enable, TapInput::Done) => TapThread {
                stage: TapStage::Announce,
                phase: TapPhase::Armed,
                enabled: true,
            },
            (TapStage::Announce, TapInput::Done) => self.at(TapStage::CheckStop),
            (TapStage::Announce, TapInput::Failed) => self.at(TapStage::Disable),
            (TapStage::CheckStop, TapInput::Answer(true)) => self.at(TapStage::Disable),
            (TapStage::CheckStop, TapInput::Answer(false)) => self.at(TapStage::RunSlice),
            (TapStage::RunSlice, TapInput::Slice(SliceResult::Stopped)) => self.at(
                TapStage::Disable,
            ),
            (TapStage::RunSlice, TapInput::Slice(SliceResult::Finished)) => self.at(
                TapStage::Disable,
            ),
            (TapStage::RunSlice, TapInput::Slice(_)) => self.at(TapStage::CheckAccess),
            (TapStage::CheckAccess, TapInput::Answer(true)) => self.at(TapStage::CheckDisabled),
            (TapStage::CheckAccess, TapInput::Answer(false)) => self.at(TapStage::Disable),
            (TapStage::CheckDisabled, TapInput::Answer(true)) => self.at(TapStage::CheckBudget),
            (TapStage::CheckDisabled, TapInput::Answer(false)) => self.at(TapStage::Rearm),
            (TapStage::CheckBudget, TapInput::Answer(true)) => self.at(TapStage::Rearm),
            (TapStage::CheckBudget, TapInput::Answer(false)) => self.at(TapStage::Disable),
            (TapStage::Rearm, TapInput::Done) => self.at(TapStage::CheckStop),
            (TapStage::Disable, TapInput::Done) => TapThread {
                stage: TapStage::Destroy,
                enabled: false,
                ..self
            },
            (TapStage::Destroy, TapInput::Done) => TapThread {
                stage: TapStage::Exit,
                phase: TapPhase::TapStopped,
                ..self
            },
            (TapStage::Exit, TapInput::Done) => TapThread {
                phase: TapPhase::ThreadExited,
                ..self
            },
            _ => self,
        }
    }

    /// What always holds: an enabled tap is on its way to be serviced or
    /// disabled, and once destroyed or left it is not enabled.
    pub open spec fn valid(self) -> bool {
        &&& self.enabled == match self.stage {
            TapStage::Create => false,
            TapStage::CreateSource => false,
            TapStage::AddSource => false,
            TapStage::SpawnWatchdog => false,
            TapStage::Enable => false,
            TapStage::Destroy => false,
            TapStage::Exit => false,
            _ => true,
        }
        &&& self.enabled ==> self.phase == TapPhase::Armed
        &&& self.phase == TapPhase::TapStopped ==> self.stage == TapStage::Exit
        &&& self.phase == TapPhase::ThreadExited ==> self.stage == TapStage::Exit
    }

    /// The thread before it created anything.
    pub fn new() -> (thread: TapThread)
        ensures
            thread == TapThread::fresh(),
            thread.valid(),
    {
        TapThread { stage: TapStage::Create, phase: TapPhase::Arming, enabled: false }
    }

    /// Takes an input.
    pub fn step(&mut self, input: TapInput)
        ensures
            *final(self) == old(self).stepped(input),
            old(self).valid() ==> final(self).valid(),
    {
        match (self.stage, input) {
            (TapStage::Create, TapInput::Done) => {
                self.stage = TapStage::CreateSource;
            },
            (TapStage::CreateSource, TapInput::Done) => {
                self.stage = TapStage::AddSource;
            },
            (TapStage::AddSource, TapInput::Done) => {
                self.stage = TapStage::SpawnWatchdog;
            },
            (TapStage::SpawnWatchdog, TapInput::Done) => {
                self.stage = TapStage::Enable;
            },
            (TapStage::Create, TapInput::Failed) => {
                self.stage = TapStage::Exit;
            },
            (TapStage::CreateSource, TapInput::Failed) => {
                self.stage = TapStage::Exit;
            },
            (TapStage::SpawnWatchdog, TapInput::Failed) => {
                self.stage = TapStage::Exit;
            },
            (TapStage::Enable, TapInput::Done) => {
                self.enabled = true;
                self.phase = TapPhase::Armed;
                self.stage = TapStage::Announce;
            },
            (TapStage::Announce, TapInput::Done) => {
                self.stage = TapStage::CheckStop;
            },
            (TapStage::Announce, TapInput::Failed) => {
                self.stage = TapStage::Disable;
            },
            (TapStage::CheckStop, TapInput::Answer(stop)) => {
                self.stage = if stop {
                    TapStage::Disable
                } else {
                    TapStage::RunSlice
                };
            },
            (TapStage::RunSlice, TapInput::Slice(slice)) => {
                self.stage = match slice {
                    SliceResult::Stopped => TapStage::Disable,
                    SliceResult::Finished => TapStage::Disable,
                    _ => TapStage::CheckAccess,
                };
            },
            (TapStage::CheckAccess, TapInput::Answer(granted)) => {
                self.stage = if granted {
                    TapStage::CheckDisabled
                } else {
                    TapStage::Disable
                };
            },
            (TapStage::CheckDisabled, TapInput::Answer(disabled)) => {
                self.stage = if disabled {
                    TapStage::CheckBudget
                } else {
                    TapStage::Rearm
                };
            },
            (TapStage::CheckBudget, TapInput::Answer(allowed)) => {
                self.stage = if allowed {
                    TapStage::Rearm
                } else {
                    TapStage::Disable
                };
            },
            (TapStage::Rearm, TapInput::Done) => {
                self.stage = TapStage::CheckStop;
            },
            (TapStage::Disable, TapInput::Done) => {
                self.enabled = false;
                self.stage = TapStage::Destroy;
            },
            (TapStage::Destroy, TapInput::Done) => {
                self.phase = TapPhase::TapStopped;
                self.stage = TapStage::Exit;
            },
            (TapStage::Exit, TapInput::Done) => {
                self.phase = TapPhase::ThreadExited;
            },
            _ => {},
        }
    }
}

/// What inputs make of the tap thread.
pub open spec fn tap_run(thread: TapThread, inputs: Seq<TapInput>) -> TapThread
    decreases inputs.len(),
{
    if inputs.len() == 0 {
        thread
    } else {
        tap_run(thread, inputs.drop_last()).stepped(inputs.last())
    }
}

/// However the thread comes to leave, the tap is not enabled then; and it is
/// reported as stopped only after it was disabled and destroyed.
pub proof fn law_the_tap_never_outlives_its_thread(inputs: Seq<TapInput>)
    ensures
        tap_run(TapThread::fresh(), inputs).valid(),
        tap_run(TapThread::fresh(), inputs).stage == TapStage::Exit ==> !tap_run(
            TapThread::fresh(),
            inputs,
        ).enabled,
        tap_run(TapThread::fresh(), inputs).phase == TapPhase::TapStopped ==> !tap_run(
            TapThread::fresh(),
            inputs,
        ).enabled,
        tap_run(TapThread::fresh(), inputs).phase == TapPhase::ThreadExited ==> !tap_run(
            TapThread::fresh(),
            inputs,
        ).enabled,
    decreases inputs.len(),
{
    if inputs.len() > 0 {
        law_the_tap_never_outlives_its_thread(inputs.drop_last());
    }
}

/// The thread is reported gone once it has left, whichever way it came to, and by
/// nothing else. Only then does a stop that took too long no longer end the
/// process.
pub proof fn law_only_an_exited_thread_proves_a_stop(inputs: Seq<TapInput>)
    ensures
        tap_run(TapThread::fresh(), inputs).phase == TapPhase::ThreadExited <==> exists|i: int|
            0 <= i < inputs.len() && (#[trigger] tap_run(
                TapThread::fresh(),
                inputs.take(i),
            )).stage == TapStage::Exit && inputs[i] == TapInput::Done,
        still_hazardous(
            LifecycleExitReason::StopTimedOut,
            tap_run(TapThread::fresh(), inputs).phase,
        ) <==> tap_run(TapThread::fresh(), inputs).phase != TapPhase::ThreadExited,
    decreases inputs.len(),
{
    if inputs.len() > 0 {
        let before = inputs.drop_last();
        let last = inputs.len() - 1;
        law_only_an_exited_thread_proves_a_stop(before);
        law_the_tap_never_outlives_its_thread(before);
        assert(inputs.take(last) =~= before);
        assert forall|i: int| 0 <= i < before.len() implies #[trigger] inputs.take(i)
            == before.take(i) by {
            assert(inputs.take(i) =~= before.take(i));
        }
        if tap_run(TapThread::fresh(), before).phase == TapPhase::ThreadExited {
            let i = choose|i: int|
                0 <= i < before.len() && (#[trigger] tap_run(
                    TapThread::fresh(),
                    before.take(i),
                )).stage == TapStage::Exit && before[i] == TapInput::Done;
            assert(tap_run(TapThread::fresh(), inputs.take(i)).stage == TapStage::Exit);
        } else if tap_run(TapThread::fresh(), inputs).phase == TapPhase::ThreadExited {
            assert(tap_run(TapThread::fresh(), inputs.take(last)).stage == TapStage::Exit);
        } else {
            assert forall|i: int| 0 <= i < inputs.len() implies !((#[trigger] tap_run(
                TapThread::fresh(),
                inputs.take(i),
            )).stage == TapStage::Exit && inputs[i] == TapInput::Done) by {
                if i < last {
                    assert(inputs.take(i) == before.take(i));
                    assert(before[i] == inputs[i]);
                    assert(!(tap_run(TapThread::fresh(), before.take(i)).stage == TapStage::Exit
                        && before[i] == TapInput::Done));
                }
            }
        }
    }
}

/// What the system calls back with.
#[derive(Clone, Copy, Debug, PartialEq, Eq, Structural)]
pub enum CallbackEvent {
    /// An event of input.
    Input(TapEvent),
    /// That it disabled the tap because a callback took too long.
    DisabledByTimeout,
    /// That it disabled the tap on the user's behalf.
    DisabledByUserInput,
    /// Anything else.
    Other,
}

/// Whether a callback says that the system disabled the tap, which is kept until
/// the thread looks.
pub fn latches_disabled(event: CallbackEvent) -> (latches: bool)
    ensures
        latches == (event == CallbackEvent::DisabledByTimeout || event
            == CallbackEvent::DisabledByUserInput),
{
    match event {
        CallbackEvent::DisabledByTimeout => true,
        CallbackEvent::DisabledByUserInput => true,
        _ => false,
    }
}

/// Whether the tap counts as disabled: a callback said so since the last look, or
/// its port is not enabled, as after a sleep that nobody was called back about.
pub fn counts_as_disabled(latched: bool, port_enabled: bool) -> (disabled: bool)
    ensures
        disabled == (latched || !port_enabled),
{
    latched || !port_enabled
}

/// Whether events may be filtered: the grant alone is stale after the user
/// removed it, so the ability is tried as well.
pub fn has_accessibility(trusted: bool, can_filter: bool) -> (granted: bool)
    ensures
        granted == (trusted && can_filter),
{
    trusted && can_filter
}

/// What an owner wants done with an event.
#[derive(Clone, Copy, Debug, PartialEq, Eq, Structural)]
pub enum EventDisposition {
    /// Let it through.
    PassThrough,
    /// Keep it from everyone else.
    Suppress,
}

/// What the tap does with an event.
#[derive(Clone, Copy, Debug, PartialEq, Eq, Structural)]
pub enum CallbackResult {
    /// Lets it through.
    Keep,
    /// Drops it.
    Drop,
}

/// Whether the tap drops an event, given whether its owner hears of it and what the
/// owner answered.
pub open spec fn drops_event(translated: bool, answer: Option<EventDisposition>) -> bool {
    translated && answer == Some(EventDisposition::Suppress)
}

/// What the tap does with an event, given whether it is one the owner hears of
/// and what the owner answered: an owner that failed to answer never keeps an
/// event from the system.
pub fn run_tap_callback(translated: bool, answer: Option<EventDisposition>) -> (result:
    CallbackResult)
    ensures
        (result == CallbackResult::Drop) == drops_event(translated, answer),
        result == if translated && answer == Some(EventDisposition::Suppress) {
            CallbackResult::Drop
        } else {
            CallbackResult::Keep
        },
{
    if !translated {
        return CallbackResult::Keep;
    }
    match answer {
        Some(EventDisposition::Suppress) => CallbackResult::Drop,
        Some(EventDisposition::PassThrough) => CallbackResult::Keep,
        None => CallbackResult::Keep,
    }
}

/// What a watchdog does.
#[derive(Clone, Copy, Debug, PartialEq, Eq, Structural)]
pub enum WatchdogTurn {
    /// Looks again later.
    Continue,
    /// Is no longer needed.
    Complete,
    /// Ends the process so that the system removes the tap.
    Exit,
}

/// Whether the callback's watchdog is still needed.
pub fn callback_watchdog_needed(phase: TapPhase) -> (needed: bool)
    ensures
        needed == (phase != TapPhase::TapStopped && phase != TapPhase::ThreadExited),
{
    match phase {
        TapPhase::TapStopped => false,
        TapPhase::ThreadExited => false,
        _ => true,
    }
}

/// Whether a callback hangs: it was entered, that is past the budget, it is the same
/// call on a second look, and the tap is armed.
pub open spec fn callback_hangs(
    entered: Option<u64>,
    past_budget: bool,
    entered_again: Option<u64>,
    phase: TapPhase,
) -> bool {
    entered is Some && past_budget && entered_again == entered && phase == TapPhase::Armed
}

/// What the callback's watchdog does, given when the callback was entered,
/// whether that is past the budget, when it was entered on a second look, and
/// how far the tap is.
pub fn callback_watchdog_turn(
    entered: Option<u64>,
    past_budget: bool,
    entered_again: Option<u64>,
    phase: TapPhase,
) -> (turn: WatchdogTurn)
    ensures
        turn != WatchdogTurn::Complete,
        (turn == WatchdogTurn::Exit) == callback_hangs(entered, past_budget, entered_again, phase),
        turn == if entered is Some && past_budget && entered_again == entered && phase
            == TapPhase::Armed {
            WatchdogTurn::Exit
        } else {
            WatchdogTurn::Continue
        },
{
    match entered {
        None => WatchdogTurn::Continue,
        Some(at) => {
            if !past_budget {
                return WatchdogTurn::Continue;
            }
            match entered_again {
                Some(again) => if again == at && phase == TapPhase::Armed {
                    WatchdogTurn::Exit
                } else {
                    WatchdogTurn::Continue
                },
                None => WatchdogTurn::Continue,
            }
        },
    }
}

/// Why the lifecycle watchdog wants to end the process.
#[derive(Clone, Copy, Debug, PartialEq, Eq, Structural)]
pub enum LifecycleExitReason {
    /// The tap thread makes no progress.
    TapThreadStalled,
    /// The thread did not leave after it was asked to.
    StopTimedOut,
}

/// What the lifecycle watchdog concluded from what it saw.
#[derive(Clone, Copy, Debug, PartialEq, Eq, Structural)]
pub enum LifecycleDecision {
    /// All is well so far.
    Continue,
    /// It is no longer needed.
    Complete,
    /// The process has to end.
    Exit(LifecycleExitReason),
}

/// Whether a reason to end the process still holds in a phase that was read
/// after the conclusion.
pub open spec fn still_hazardous(reason: LifecycleExitReason, phase: TapPhase) -> bool {
    match reason {
        LifecycleExitReason::TapThreadStalled => phase == TapPhase::Arming || phase
            == TapPhase::Armed,
        LifecycleExitReason::StopTimedOut => phase != TapPhase::ThreadExited,
    }
}

/// What the lifecycle watchdog does.
pub open spec fn lifecycle_spec(decision: LifecycleDecision, phase: TapPhase) -> WatchdogTurn {
    match decision {
        LifecycleDecision::Continue => WatchdogTurn::Continue,
        LifecycleDecision::Complete => WatchdogTurn::Complete,
        LifecycleDecision::Exit(reason) => if still_hazardous(reason, phase) {
            WatchdogTurn::Exit
        } else {
            WatchdogTurn::Continue
        },
    }
}

/// What the lifecycle watchdog does: it ends the process only while the danger
/// still exists.
pub fn lifecycle_turn(decision: LifecycleDecision, phase: TapPhase) -> (turn: WatchdogTurn)
    ensures
        turn == lifecycle_spec(decision, phase),
        turn == match decision {
            LifecycleDecision::Continue => WatchdogTurn::Continue,
            LifecycleDecision::Complete => WatchdogTurn::Complete,
            LifecycleDecision::Exit(reason) => if still_hazardous(reason, phase) {
                WatchdogTurn::Exit
            } else {
                WatchdogTurn::Continue
            },
        },
{
    match decision {
        LifecycleDecision::Continue => WatchdogTurn::Continue,
        LifecycleDecision::Complete => WatchdogTurn::Complete,
        LifecycleDecision::Exit(reason) => {
            let hazardous = match reason {
                LifecycleExitReason::TapThreadStalled => phase == TapPhase::Arming || phase
                    == TapPhase::Armed,
                LifecycleExitReason::StopTimedOut => phase != TapPhase::ThreadExited,
            };
            if hazardous {
                WatchdogTurn::Exit
            } else {
                WatchdogTurn::Continue
            }
        },
    }
}

/// A duration in milliseconds, as far as it fits.
pub fn duration_millis(millis: u128) -> (fitted: u64)
    ensures
        fitted == if millis <= u64::MAX {
            millis as u64
        } else {
            u64::MAX
        },
{
    if millis <= u64::MAX as u128 {
        millis as u64
    } else {
        u64::MAX
    }
}

/// Where a tap stands.
#[derive(Clone, Copy, Debug, PartialEq, Eq, Structural)]
pub enum TapLocation {
    /// At the device.
    Hid,
    /// At the session.
    Session,
    /// At the annotated session.
    AnnotatedSession,
    /// Elsewhere.
    Other(u32),
}

/// A tap as the system lists it.
#[derive(Clone, Copy, Debug, PartialEq, Eq, Structural)]
pub struct TapRecord {
    /// Number of the tap.
    pub event_tap_id: u32,
    /// Where it stands.
    pub tap_point: u32,
    /// Its options; zero is an active tap.
    pub options: u32,
    /// The process that owns it.
    pub tapping_process: i32,
    /// The process it watches, or zero.
    pub process_being_tapped: i32,
    /// Whether it is enabled.
    pub enabled: bool,
}

/// A tap as diagnostics show it.
#[derive(Debug, PartialEq, Eq)]
pub struct EventTapInfo {
    /// Number of the tap.
    pub tap_id: u32,
    /// Where it stands.
    pub location: TapLocation,
    /// Whether it can change events.
    pub active: bool,
    /// Whether it is enabled.
    pub enabled: bool,
    /// The process that owns it.
    pub owner_pid: i32,
    /// The name of that process.
    pub owner_name: Option<String>,
    /// The process it watches.
    pub target_pid: Option<i32>,
}

/// Where a numbered tap point is.
pub open spec fn location_spec(point: u32) -> TapLocation {
    if point == 0 {
        TapLocation::Hid
    } else if point == 1 {
        TapLocation::Session
    } else if point == 2 {
        TapLocation::AnnotatedSession
    } else {
        TapLocation::Other(point)
    }
}

/// What diagnostics show of a tap.
pub fn describe_tap(record: TapRecord, owner_name: Option<String>) -> (info: EventTapInfo)
    ensures
        info == (EventTapInfo {
            tap_id: record.event_tap_id,
            location: location_spec(record.tap_point),
            active: record.options == 0,
            enabled: record.enabled,
            owner_pid: record.tapping_process,
            owner_name,
            target_pid: if record.process_being_tapped == 0 {
                None
            } else {
                Some(record.process_being_tapped)
            },
        }),
{
    EventTapInfo {
        tap_id: record.event_tap_id,
        location: match record.tap_point {
            0 => TapLocation::Hid,
            1 => TapLocation::Session,
            2 => TapLocation::AnnotatedSession,
            other => TapLocation::Other(other),
        },
        active: record.options == 0,
        enabled: record.enabled,
        owner_pid: record.tapping_process,
        owner_name,
        target_pid: if record.process_being_tapped == 0 {
            None
        } else {
            Some(record.process_being_tapped)
        },
    }
}

/// How many listed taps may be read: none after an error, and never more than
/// the system wrote.
pub fn readable_taps(probe_error: i32, probed: u32, list_error: i32, listed: u32) -> (count: u32)
    ensures
        count == if probe_error != 0 || probed == 0 || list_error != 0 {
            0
        } else if listed < probed {
            listed
        } else {
            probed
        },
{
    if probe_error != 0 || probed == 0 || list_error != 0 {
        0
    } else if listed < probed {
        listed
    } else {
        probed
    }
}

/// What stands behind the last slash of a path.
pub open spec fn base_name(path: Seq<char>) -> Seq<char>
    decreases path.len(),
{
    if path.len() == 0 || path.last() == '/' {
        Seq::empty()
    } else {
        base_name(path.drop_last()).push(path.last())
    }
}

/// The name of a process, given the path of its executable.
pub fn process_name(pid: i32, path: Option<&str>) -> (name: Option<String>)
    ensures
        match name {
            Some(n) => pid > 0 && path is Some && n@ == base_name((path->0)@),
            None => pid <= 0 || path is None,
        },
{
    if pid <= 0 {
        return None;
    }
    match path {
        None => None,
        Some(path) => {
            let chars = chars_of(path);
            let n: usize = chars.len();
            let mut from: usize = n;
            assert(chars@.take(n as int) =~= chars@);
            assert(base_name(chars@) + chars@.subrange(n as int, n as int) =~= base_name(chars@));
            while from > 0 && chars[from - 1] != '/'
                invariant
                    from <= n == chars@.len(),
                    base_name(chars@) == base_name(chars@.take(from as int)) + chars@.subrange(
                        from as int,
                        n as int,
                    ),
                decreases from,
            {
                let ghost head = chars@.take(from as int);
                assert(head.drop_last() =~= chars@.take(from - 1));
                assert(base_name(head.drop_last()).push(head.last()) + chars@.subrange(
                    from as int,
                    n as int,
                ) =~= base_name(head.drop_last()) + chars@.subrange(from - 1, n as int));
                from = from - 1;
            }
            assert(base_name(chars@.take(from as int)) =~= Seq::<char>::empty());
            assert(base_name(chars@) =~= chars@.subrange(from as int, n as int));
            Some(string_of(&slice_chars(&chars, from, n)))
        },
    }
}

/// The process to remember as the browser in front: only Safari, and only a
/// process that can exist.
pub open spec fn safari_pid(bundle_id: Seq<char>, pid: i32) -> Option<i32> {
    if bundle_id == "com.apple.Safari"@ && pid > 0 {
        Some(pid)
    } else {
        None
    }
}

/// The process to remember as the browser in front.
pub fn safari_process_id(bundle_id: &str, pid: i32) -> (process_id: Option<i32>)
    ensures
        process_id == safari_pid(bundle_id@, pid),
{
    if same_text(bundle_id, "com.apple.Safari") && pid > 0 {
        Some(pid)
    } else {
        None
    }
}

/// The process that is stored when `app` with process `pid` comes to the front;
/// zero stands for none.
pub fn observe_frontmost_application(app: Option<&ForegroundApp>, pid: i32) -> (stored: i32)
    ensures
        stored == match app {
            Some(app) => match safari_pid(app.id@, pid) {
                Some(p) => p,
                None => 0,
            },
            None => 0,
        },
{
    match app {
        Some(app) => match safari_process_id(app.id.as_str(), pid) {
            Some(p) => p,
            None => 0,
        },
        None => 0,
    }
}

/// The browser in front, from what was stored.
pub fn frontmost_safari_pid(stored: i32) -> (pid: Option<i32>)
    ensures
        pid == if stored > 0 {
            Some(stored)
        } else {
            None
        },
{
    if stored > 0 {
        Some(stored)
    } else {
        None
    }
}

/// A running application: without a bundle identifier it is none, and without a
/// name it goes by its identifier.
pub fn foreground_app_from_running_application(
    bundle_id: Option<String>,
    name: Option<String>,
) -> (app: Option<ForegroundApp>)
    ensures
        app_view(app) == match bundle_id {
            Some(id) => Some(
                AppModel {
                    id: id@,
                    display_name: match name {
                        Some(name) => name@,
                        None => id@,
                    },
                },
            ),
            None => None,
        },
{
    match bundle_id {
        None => None,
        Some(id) => {
            let display_name = match name {
                Some(name) => name,
                None => id.clone(),
            };
            Some(ForegroundApp { id, display_name })
        },
    }
}

} // verus!
