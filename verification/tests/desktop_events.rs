use openlogi::desktop::events::{
    concerns_device_panel, DeviceKey, Emission, Event, StateEvent, StateEvents,
};

const KNOWN_MOUSE_KEY: &str = "unit:a393cae0";

#[test]
fn merged_changes_announce_each_event_once_in_first_seen_order() {
    let merged = StateEvents::of(Event::LanguageChanged)
        .and(StateEvents::of(Event::SettingsChanged))
        .and(StateEvents::none())
        .and(StateEvents::of(Event::LanguageChanged));

    assert_eq!(*merged.list(), [StateEvent::LanguageChanged, StateEvent::SettingsChanged]);
    assert!(merged.contains(&Event::SettingsChanged));
    assert!(!merged.contains(&Event::CameraChanged));
}

#[test]
fn a_device_panel_repaints_for_its_topic_only_when_it_concerns_the_device_on_screen() {
    let current = DeviceKey::new(KNOWN_MOUSE_KEY);
    let on_screen = || DeviceKey::new(KNOWN_MOUSE_KEY);
    let elsewhere = || DeviceKey::new("unit:00000001");
    let topic =
        |event: &StateEvent| matches!(event, Event::BindingsChanged(_) | Event::CameraChanged);

    for (event, repaints) in [
        // Whatever the topic, a change of the device on screen repaints.
        (Event::InventoryChanged, true),
        (Event::DeviceSelected(elsewhere()), true),
        (Event::BindingsChanged(on_screen()), true),
        (Event::BindingsChanged(elsewhere()), false),
        (Event::CameraChanged, true),
        // Off topic, even about the device on screen or app-wide.
        (Event::DpiChanged(on_screen()), false),
        (Event::SettingsChanged, false),
    ] {
        assert_eq!(concerns_device_panel(Some(&current), &event, topic), repaints, "{event:?}");
    }
}

#[test]
fn no_device_on_screen_means_no_device_event_concerns_a_panel() {
    assert!(!concerns_device_panel(
        None,
        &Event::BindingsChanged(DeviceKey::new(KNOWN_MOUSE_KEY)),
        |_: &StateEvent| true
    ));
}

#[test]
fn a_switched_language_reaches_the_windows() {
    let out = StateEvents::of(Event::LanguageChanged)
        .and(StateEvents::of(Event::CameraChanged))
        .emit();
    assert_eq!(
        out,
        vec![
            Emission::Announce(Event::LanguageChanged),
            Emission::Relocalize,
            Emission::Announce(Event::CameraChanged),
        ]
    );
    assert!(StateEvents::of_some(None).is_empty());
    assert!(!StateEvents::of_some(Some(Event::AgentChanged)).is_empty());
}
