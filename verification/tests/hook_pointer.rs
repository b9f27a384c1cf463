//! The application in front and the window under the pointer.

use std::collections::HashMap;

use openlogi::hook::foreground::{
    ForegroundApp, Frontmost, FrontmostController, Retire, SessionKind, Watch,
};
use openlogi::hook::pointer::{
    context_changed, focused_target, initial_context, is_desktop, owner,
    platform_supports_pointer_context, pointer_context, pointer_context_supported,
    pointer_target_is_focused, windows_context, LookupAnswer, LookupAsk, PointerContext,
    PointerLookup, PointerPlatform, PointerTarget,
};
use openlogi::hook::x11::{
    active_window, active_window_changed, app_id_of_class, observe, property_values,
    window_app_id, Notice, ObserverInput, ObserverPhase, PollResult, Property, Tell, STRING,
};

#[test]
fn foreground_observer_drop_stops_joins_and_returns_source() {
    let mut controller = FrontmostController::new();
    let Watch::Start { id } = controller.watch() else {
        panic!("the first subscriber starts a worker");
    };
    controller.worker_ready(id);
    let change = controller
        .publish(Some("org.example.App".into()))
        .expect("the first publication is a change");
    assert_eq!(change.subscribers, vec![id]);
    assert!(controller.deliver(id, change.version));
    let Frontmost::Published(initial) = controller.frontmost_app() else {
        panic!("a running worker publishes");
    };
    assert_eq!(initial.map(|app| app.id).as_deref(), Some("org.example.App"));

    controller.unsubscribe(id);
    assert_eq!(controller.retire(), Retire::Stop, "the last subscriber stops the worker");
    assert_eq!(controller.watch(), Watch::Wait);
    assert_eq!(controller.retire(), Retire::Wait);
    controller.worker_stopped();
    assert_eq!(controller.frontmost_app(), Frontmost::AskSource, "the source is back");
}

#[test]
fn unsupported_foreground_source_publishes_none_and_stops_cleanly() {
    let mut controller = FrontmostController::new();
    let Watch::Start { id } = controller.watch() else {
        panic!("observer starts");
    };
    controller.worker_ready(id);
    let change = controller.publish(None).expect("null source publishes an initial snapshot");
    assert!(controller.deliver(id, change.version));
    assert_eq!(controller.frontmost_app(), Frontmost::Published(None));
    controller.unsubscribe(id);
    assert_eq!(controller.retire(), Retire::Stop);
    controller.worker_stopped();
    assert_eq!(controller.frontmost_app(), Frontmost::AskSource);
}

#[test]
fn a_second_subscriber_is_told_what_was_published_and_keeps_the_worker() {
    let mut controller = FrontmostController::new();
    let Watch::Start { id: first } = controller.watch() else {
        panic!("observer starts");
    };
    controller.worker_ready(first);
    let _ = controller.publish(Some("one".into()));
    let Watch::Attached { id: second, initial } = controller.watch() else {
        panic!("the worker runs already");
    };
    let (version, app) = initial.expect("something was published");
    assert_eq!((version, app.map(|app| app.id)), (1, Some("one".into())));
    controller.unsubscribe(first);
    assert_eq!(controller.retire(), Retire::Nothing);
    assert!(controller.check_health(false));
    assert!(!controller.check_health(true));
    controller.unsubscribe(second);
    assert_eq!(controller.retire(), Retire::Stop);
}

#[test]
fn a_worker_that_never_started_leaves_everything_as_it_was() {
    let mut controller = FrontmostController::new();
    let Watch::Start { id } = controller.watch() else {
        panic!("observer starts");
    };
    controller.worker_ready(id);
    controller.worker_refused(id);
    assert_eq!(controller.frontmost_app(), Frontmost::AskSource);
    assert!(matches!(controller.watch(), Watch::Start { .. }));
}

/// A tiny X server.
#[derive(Default)]
struct Server {
    pointer_child: u32,
    off_screen: bool,
    clients: Option<Vec<u32>>,
    parents: HashMap<u32, u32>,
    desktop_type: Option<u32>,
    types: HashMap<u32, Vec<u32>>,
    classes: HashMap<u32, &'static [u8]>,
    pids: HashMap<u32, u32>,
}

const ROOT: u32 = 1;

fn words(values: &[u32]) -> Property {
    Property {
        kind: 6,
        format: 32,
        value: values.iter().flat_map(|value| value.to_ne_bytes()).collect(),
    }
}

fn class(bytes: &[u8]) -> Property {
    Property { kind: STRING, format: 8, value: bytes.to_vec() }
}

impl Server {
    fn answer(&self, ask: LookupAsk) -> LookupAnswer {
        let values = |list: Option<&Vec<u32>>| {
            let property = list.map(|list| words(list));
            match property_values(property.as_ref()) {
                Some(values) => LookupAnswer::Values(values),
                None => LookupAnswer::Failed,
            }
        };
        let value = |found: Option<&u32>| match found {
            Some(value) => LookupAnswer::Value(*value),
            None => LookupAnswer::Failed,
        };
        match ask {
            LookupAsk::Pointer => LookupAnswer::Pointer {
                same_screen: !self.off_screen,
                child: self.pointer_child,
            },
            LookupAsk::Clients => values(self.clients.as_ref()),
            LookupAsk::Parent(window) => value(self.parents.get(&window)),
            LookupAsk::DesktopType => value(self.desktop_type.as_ref()),
            LookupAsk::Types(window) => values(self.types.get(&window)),
            LookupAsk::AppId(window) => {
                let property = self.classes.get(&window).map(|bytes| class(bytes));
                match window_app_id(property.as_ref()) {
                    Some(id) => LookupAnswer::Text(id),
                    None => LookupAnswer::Failed,
                }
            }
            LookupAsk::Pid(window) => value(self.pids.get(&window)),
            LookupAsk::Done => unreachable!(),
        }
    }

    fn context(&self) -> Option<PointerContext> {
        let mut lookup = PointerLookup::new(ROOT);
        while lookup.ask() != LookupAsk::Done {
            let answer = self.answer(lookup.ask());
            lookup.step(answer);
        }
        lookup.into_found()
    }
}

#[test]
fn x11_pointer_distinguishes_client_desktop_obstacle_and_focus() {
    let (frame, client, desktop_type) = (10, 11, 77);
    let mut server = Server { desktop_type: Some(desktop_type), ..Server::default() };
    let desktop = || Some(PointerContext { app: None, target: PointerTarget::Desktop });
    assert_eq!(server.context(), desktop());
    server.off_screen = true;
    assert_eq!(server.context(), None);
    server.off_screen = false;

    // An unregistered frame is an obstacle, not desktop behind it.
    server.pointer_child = frame;
    server.parents = HashMap::from([(frame, ROOT), (client, frame)]);
    assert_eq!(server.context(), None);
    server.clients = Some(vec![client]);
    server.classes.insert(client, b"instance\0ProfileClass\0");
    // Missing owner metadata still does not mean desktop.
    assert_eq!(server.context(), None);
    server.pids.insert(client, 731);
    let expected = PointerTarget::Window { process_id: 731, window_id: u64::from(client) };
    // The pointer is on the frame, outside the client.
    assert_eq!(
        server.context(),
        Some(PointerContext {
            app: Some(ForegroundApp::unnamed("ProfileClass".into())),
            target: expected,
        })
    );

    server.types.insert(client, vec![desktop_type]);
    assert_eq!(server.context(), desktop());

    let other = 20;
    assert_eq!(
        focused_target(Some(other), Some(731)),
        Some(PointerTarget::Window { process_id: 731, window_id: u64::from(other) })
    );
    assert_ne!(focused_target(Some(other), Some(731)), Some(expected));
    assert_eq!(focused_target(Some(client), Some(731)), Some(expected));
    assert_eq!(focused_target(Some(0), Some(731)), None);

    // An unmanaged popup covers the desktop client: never look through it.
    server.pointer_child = other;
    server.parents.insert(other, ROOT);
    assert_eq!(server.context(), None);
}

#[test]
fn a_class_is_the_second_string_of_its_property() {
    for (bytes, id) in [
        (&b""[..], None),
        (b"\0", None),
        (b"\0\0", None),
        (b"Hello World", None),
        (b"Hello World\0", None),
        (b"Hello\0World\0", Some("World")),
        (b"Hello\0World", Some("World")),
        (b"Hello\0World\0Good\0Day", Some("World\0Good\0Day")),
        (b"Hello\0\xff\xfe\0", None),
        (b"Hello\0\xc3\xa9\0", Some("é")),
    ] {
        assert_eq!(window_app_id(Some(&class(bytes))).as_deref(), id, "{bytes:?}");
    }
    assert_eq!(window_app_id(None), None);
    let other_type = Property { kind: 0, ..class(b"Hello\0World\0") };
    assert_eq!(window_app_id(Some(&other_type)), None);
    let other_format = Property { format: 16, ..class(b"Hello\0World\0") };
    assert_eq!(window_app_id(Some(&other_format)), None);
    assert_eq!(app_id_of_class(Some(&b"App".to_vec())).as_deref(), Some("App"));
    assert_eq!(app_id_of_class(Some(&Vec::new())), None);
}

#[test]
fn a_property_of_words_is_read_word_by_word() {
    assert_eq!(property_values(Some(&words(&[5, 0x0102_0304]))), Some(vec![5, 0x0102_0304]));
    let mut cut_short = words(&[5, 6]);
    cut_short.value.pop();
    assert_eq!(property_values(Some(&cut_short)), Some(vec![5]));
    let bytes = Property { format: 8, ..words(&[5]) };
    assert_eq!(property_values(Some(&bytes)), None);
    assert_eq!(property_values(None), None);
    assert_eq!(active_window(Some(&vec![9, 4])), Some(9));
    assert_eq!(active_window(Some(&vec![0, 4])), None);
    assert_eq!(active_window(Some(&Vec::new())), None);
    assert_eq!(active_window(None), None);
}

#[test]
fn an_observer_subscribes_before_it_reads_and_tells_of_a_lost_server() {
    let (phase, tell) = observe(ObserverPhase::Subscribing, ObserverInput::Subscribed(true));
    assert_eq!((phase, tell), (ObserverPhase::Waiting, Tell::Snapshot));
    let (phase, tell) = observe(phase, ObserverInput::Polled(PollResult::SourceReady));
    assert_eq!((phase, tell), (ObserverPhase::Draining, Tell::Nothing));
    let (phase, tell) = observe(phase, ObserverInput::Drained(true));
    assert_eq!((phase, tell), (ObserverPhase::Waiting, Tell::Snapshot));
    let (phase, _) = observe(phase, ObserverInput::Polled(PollResult::SourceReady));
    let (phase, tell) = observe(phase, ObserverInput::Lost);
    assert_eq!((phase, tell), (ObserverPhase::Pausing, Tell::Unknown));
    let (phase, _) = observe(phase, ObserverInput::Paused(false));
    assert_eq!(phase, ObserverPhase::Reconnecting);
    let (phase, _) = observe(phase, ObserverInput::Reconnected);
    assert_eq!(phase, ObserverPhase::Subscribing);
    let (phase, _) = observe(ObserverPhase::Waiting, ObserverInput::Polled(PollResult::StopRequested));
    assert_eq!(phase, ObserverPhase::Stopped);

    let notices = vec![Notice::Other, Notice::Property { window: 1, atom: 7 }];
    assert!(active_window_changed(&notices, 1, 7));
    assert!(!active_window_changed(&notices, 2, 7));
}

#[test]
fn only_what_is_positively_the_desktop_is_the_desktop() {
    assert!(is_desktop(5, 5, 0, None, None, None));
    assert!(is_desktop(6, 5, 6, None, None, None));
    assert!(is_desktop(9, 5, 6, Some(3), Some(3), Some("WorkerW")));
    assert!(!is_desktop(9, 5, 6, Some(3), Some(3), Some("CabinetWClass")));
    assert!(!is_desktop(9, 5, 6, None, None, Some("WorkerW")));
    assert!(!is_desktop(9, 5, 0, Some(3), Some(3), Some("WorkerW")));
    assert_eq!(windows_context(0, false, Some(1), None), None);
    assert_eq!(owner(0), None);
    assert_eq!(owner(u32::MAX), None);
    assert_eq!(owner(41), Some(41));
}

#[test]
fn a_session_that_cannot_say_is_not_asked() {
    assert!(pointer_context_supported(SessionKind::X11));
    assert!(!pointer_context_supported(SessionKind::Wayland));
    assert!(platform_supports_pointer_context(PointerPlatform::Windows));
    assert!(platform_supports_pointer_context(PointerPlatform::Linux(SessionKind::X11)));
    assert!(!platform_supports_pointer_context(PointerPlatform::Linux(SessionKind::Wayland)));
    assert!(!platform_supports_pointer_context(PointerPlatform::Other));
    assert_eq!(pointer_context(false, None).target, PointerTarget::Unsupported);
    assert_eq!(pointer_context(true, None).target, PointerTarget::Unavailable);
    assert_eq!(initial_context(true).target, PointerTarget::Unavailable);
    let window = PointerTarget::Window { process_id: 1, window_id: 2 };
    assert!(pointer_target_is_focused(window, true, Some(window)));
    assert!(!pointer_target_is_focused(window, false, Some(window)));
    assert!(!pointer_target_is_focused(PointerTarget::Desktop, true, Some(PointerTarget::Desktop)));
    assert!(!context_changed(&initial_context(true), &initial_context(true)));
    assert!(context_changed(&initial_context(true), &initial_context(false)));
}

#[test]
fn an_application_is_named_only_with_its_window() {
    let app = || Some(ForegroundApp::unnamed("a".into()));
    let desktop = windows_context(7, true, Some(3), app()).expect("the desktop");
    assert_eq!((desktop.app, desktop.target), (None, PointerTarget::Desktop));
    let window = windows_context(7, false, Some(3), app()).expect("a window");
    assert_eq!(window.target, PointerTarget::Window { process_id: 3, window_id: 7 });
    assert!(window.app.is_some());
    let mut lookup = PointerLookup::new(1);
    lookup.step(LookupAnswer::Pointer { same_screen: true, child: 0 });
    let found = lookup.into_found().expect("nothing is above the root");
    assert_eq!((found.app, found.target), (None, PointerTarget::Desktop));
    assert_eq!(pointer_context(false, windows_context(7, false, Some(3), app())).app, None);
}
