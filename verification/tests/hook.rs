use openlogi::hook::foreground::{
    detect_frontmost_source, detect_session_kind, ForegroundApp, FrontmostBackend, Publication,
    SessionKind,
};
use openlogi::hook::tap::{
    callback_watchdog_needed, callback_watchdog_turn, counts_as_disabled, describe_tap, duration_millis,
    foreground_app_from_running_application, frontmost_safari_pid, has_accessibility, hooked_event_types, latches_disabled, lifecycle_turn,
    observe_frontmost_application, process_name, readable_taps, run_tap_callback, safari_process_id,
    CallbackEvent, CallbackResult, EventDisposition, LifecycleDecision, LifecycleExitReason, SliceResult, TapEvent, TapInput,
    TapLocation, TapPhase, TapRecord, TapStage, TapThread, WatchdogTurn,
};

#[test]
fn safari_snapshot_accepts_only_safari_with_a_positive_pid() {
    assert_eq!(safari_process_id("com.apple.Safari", 417), Some(417));
    assert_eq!(safari_process_id("com.apple.finder", 417), None);
    assert_eq!(safari_process_id("com.apple.Safari", 0), None);
}

#[test]
fn the_safari_snapshot_follows_the_application_in_front() {
    let safari = ForegroundApp { id: "com.apple.Safari".into(), display_name: "Safari".into() };
    let finder = ForegroundApp::unnamed("com.apple.finder".into());
    assert_eq!(observe_frontmost_application(Some(&safari), 9), 9);
    assert_eq!(observe_frontmost_application(Some(&finder), 9), 0);
    assert_eq!(observe_frontmost_application(None, 9), 0);
    assert_eq!(frontmost_safari_pid(9), Some(9));
    assert_eq!(frontmost_safari_pid(0), None);
    assert_eq!(
        foreground_app_from_running_application(Some("a.b".into()), None),
        Some(ForegroundApp { id: "a.b".into(), display_name: "a.b".into() })
    );
    assert_eq!(foreground_app_from_running_application(None, Some("B".into())), None);
}

#[test]
fn tap_callback_suppresses_normally_and_passes_through_panics() {
    assert!(matches!(
        run_tap_callback(true, Some(EventDisposition::Suppress)),
        CallbackResult::Drop
    ));
    assert!(matches!(run_tap_callback(true, None), CallbackResult::Keep));
    assert!(matches!(
        run_tap_callback(true, Some(EventDisposition::PassThrough)),
        CallbackResult::Keep
    ));
    assert!(matches!(
        run_tap_callback(false, Some(EventDisposition::Suppress)),
        CallbackResult::Keep
    ));
}

#[test]
fn foreground_publication_suppresses_duplicates_and_contains_panics() {
    let mut publication = Publication::new();
    publication.begin();
    assert!(publication.subscribe(1).is_none());
    assert!(publication.subscribe(2).is_none());

    // The first subscriber fails on what it is handed; the second one records.
    let mut failed = 0;
    let mut received: Vec<Option<String>> = Vec::new();
    for app in [Some("one"), Some("one"), Some("two"), None] {
        if let Some(change) = publication.publish(app.map(str::to_string)) {
            for id in &change.subscribers {
                if publication.deliver(*id, change.version) {
                    if *id == 1 {
                        failed += 1;
                    } else {
                        received.push(app.map(str::to_string));
                    }
                }
            }
        }
    }

    assert_eq!(received, vec![Some("one".into()), Some("two".into()), None]);
    assert_eq!(failed, 3);
}

#[test]
fn the_session_decides_which_backends_are_tried() {
    assert_eq!(detect_session_kind(Some("wayland"), false, false), SessionKind::Wayland);
    assert_eq!(detect_session_kind(None, false, true), SessionKind::X11);
    assert_eq!(
        detect_frontmost_source(SessionKind::X11, &vec![true]),
        FrontmostBackend::X11
    );
    // Once one has started the rest is not tried.
    assert_eq!(
        detect_frontmost_source(SessionKind::Wayland, &vec![false, true]),
        FrontmostBackend::GnomeShell
    );
    assert_eq!(
        detect_frontmost_source(SessionKind::Wayland, &vec![false]),
        FrontmostBackend::Null
    );
    assert_eq!(
        detect_frontmost_source(SessionKind::X11, &vec![false, true]),
        FrontmostBackend::Null
    );
}

#[test]
fn a_tap_is_disabled_before_its_thread_leaves() {
    let mut thread = TapThread::new();
    for _ in 0..4 {
        thread.step(TapInput::Done);
    }
    assert_eq!(thread.stage, TapStage::Enable);
    thread.step(TapInput::Done);
    assert_eq!(thread.phase, TapPhase::Armed);
    thread.step(TapInput::Done);
    thread.step(TapInput::Answer(false));
    thread.step(TapInput::Slice(SliceResult::TimedOut));
    assert_eq!(thread.stage, TapStage::CheckAccess);
    thread.step(TapInput::Answer(false));
    assert_eq!(thread.stage, TapStage::Disable, "a revoked permission releases the tap");
    assert!(thread.enabled);
    thread.step(TapInput::Done);
    assert!(!thread.enabled);
    thread.step(TapInput::Done);
    assert_eq!((thread.stage, thread.phase), (TapStage::Exit, TapPhase::TapStopped));
}

#[test]
fn a_tap_counts_as_disabled_by_callback_or_by_port() {
    assert!(latches_disabled(CallbackEvent::DisabledByTimeout));
    assert!(latches_disabled(CallbackEvent::DisabledByUserInput));
    assert!(!latches_disabled(CallbackEvent::Input(TapEvent::MouseMoved)));
    assert!(!latches_disabled(CallbackEvent::Other));
    assert!(counts_as_disabled(true, true));
    assert!(counts_as_disabled(false, false));
    assert!(!counts_as_disabled(false, true));
}

#[test]
fn only_an_exited_thread_proves_a_stop() {
    let late = LifecycleDecision::Exit(LifecycleExitReason::StopTimedOut);
    let mut thread = TapThread::new();
    thread.step(TapInput::Failed);
    assert_eq!((thread.stage, thread.phase), (TapStage::Exit, TapPhase::Arming));
    assert_eq!(lifecycle_turn(late, thread.phase), WatchdogTurn::Exit);
    thread.step(TapInput::Failed);
    assert_eq!(thread.phase, TapPhase::Arming);
    thread.step(TapInput::Done);
    assert_eq!(thread.phase, TapPhase::ThreadExited);
    assert_eq!(lifecycle_turn(late, thread.phase), WatchdogTurn::Continue);
    assert!(!callback_watchdog_needed(thread.phase));
    thread.step(TapInput::Done);
    assert_eq!((thread.stage, thread.phase), (TapStage::Exit, TapPhase::ThreadExited));
}

#[test]
fn a_tap_without_its_watchdog_is_never_enabled() {
    let mut thread = TapThread::new();
    for _ in 0..3 {
        thread.step(TapInput::Done);
    }
    assert_eq!(thread.stage, TapStage::SpawnWatchdog);
    thread.step(TapInput::Failed);
    assert_eq!(thread.stage, TapStage::Exit);
    assert!(!thread.enabled);
}

#[test]
fn watchdogs_end_the_process_only_while_the_danger_lasts() {
    assert!(callback_watchdog_needed(TapPhase::Armed));
    assert!(!callback_watchdog_needed(TapPhase::TapStopped));
    assert_eq!(
        callback_watchdog_turn(Some(5), true, Some(5), TapPhase::Armed),
        WatchdogTurn::Exit
    );
    assert_eq!(
        callback_watchdog_turn(Some(5), true, Some(6), TapPhase::Armed),
        WatchdogTurn::Continue
    );
    assert_eq!(
        callback_watchdog_turn(Some(5), true, None, TapPhase::Armed),
        WatchdogTurn::Continue
    );
    let stalled = LifecycleDecision::Exit(LifecycleExitReason::TapThreadStalled);
    assert_eq!(lifecycle_turn(stalled, TapPhase::Armed), WatchdogTurn::Exit);
    assert_eq!(lifecycle_turn(stalled, TapPhase::TapStopped), WatchdogTurn::Continue);
    let late = LifecycleDecision::Exit(LifecycleExitReason::StopTimedOut);
    assert_eq!(lifecycle_turn(late, TapPhase::TapStopped), WatchdogTurn::Exit);
    assert_eq!(lifecycle_turn(late, TapPhase::ThreadExited), WatchdogTurn::Continue);
    assert_eq!(lifecycle_turn(LifecycleDecision::Complete, TapPhase::Armed), WatchdogTurn::Complete);
}

#[test]
fn listed_taps_are_described() {
    let record = TapRecord {
        event_tap_id: 4,
        tap_point: 1,
        options: 0,
        tapping_process: 77,
        process_being_tapped: 0,
        enabled: true,
    };
    let info = describe_tap(record, process_name(77, Some("/usr/bin/agent")));
    assert_eq!(info.location, TapLocation::Session);
    assert!(info.active);
    assert_eq!(info.target_pid, None);
    assert_eq!(info.owner_name.as_deref(), Some("agent"));
    let other = describe_tap(
        TapRecord { tap_point: 9, options: 1, process_being_tapped: 3, ..record },
        None,
    );
    assert_eq!(other.location, TapLocation::Other(9));
    assert!(!other.active);
    assert_eq!(other.target_pid, Some(3));
    assert_eq!(readable_taps(0, 3, 0, 5), 3);
    assert_eq!(readable_taps(0, 3, 0, 2), 2);
    assert_eq!(readable_taps(1, 3, 0, 2), 0);
    assert_eq!(process_name(0, Some("/x")), None);
    assert_eq!(process_name(5, Some("plain")).as_deref(), Some("plain"));
    assert_eq!(duration_millis(u128::MAX), u64::MAX);
    assert_eq!(duration_millis(1500), 1500);
    assert!(has_accessibility(true, true));
    assert!(!has_accessibility(true, false));
}

#[test]
fn a_tap_listens_to_buttons_wheels_movement_and_keys() {
    let events = hooked_event_types();
    assert_eq!(events.len(), 14);
    assert_eq!(events[0], TapEvent::LeftMouseDown);
    assert!(events.contains(&TapEvent::KeyUp));
}
