use openlogi::action_ring::{ActionRingIcon, ActionRingLayout, ActionRingSlot, RingAction};
use openlogi::binding::{Action, Binding, ButtonId, GestureDirection};
use openlogi::config::identity::Capabilities;
use openlogi::config::scroll::{ThumbwheelSensitivity, VerticalScrollSensitivity};
use openlogi::config::settings::{AppSettings, MouseProfileTarget};
use openlogi::config::Config;
use openlogi::desktop::bindings::{apply_thumbwheel_pair, ThumbwheelPreset};
use openlogi::desktop::events::{DeviceKey, Event, StateEvent};
use openlogi::desktop::presenter_panel::{
    Inspector, PresenterControlsView, PresenterEdit, PresenterSection,
};
use openlogi::desktop::profiles::{ProfileCommand, ProfileSummary};
use openlogi::desktop::requests::{
    Command, ConfigReloadError, ForegroundApps, ReadPointerSpeed, ReloadConfig,
};
use openlogi::desktop::state::{AppState, ConfigPersistence, DeviceRecord, Load, Sources};
use openlogi::hook::foreground::ForegroundApp;
use openlogi::order::Duplicate;
use openlogi::presenter::{PointerSpeed, PresenterSettings, PresenterTimerMode};
use openlogi::route::DeviceRoute;
use openlogi::table::Table;

const KNOWN_MOUSE_KEY: &str = "unit:a393cae0";

/// What a mouse can do as far as its kind tells.
fn presumed_mouse() -> Capabilities {
    Capabilities {
        buttons: true,
        pointer: true,
        lighting: false,
        scroll_inversion: false,
        hires_wheel: false,
        thumbwheel: false,
        haptic_feedback: false,
        haptic_panel: false,
        presenter_controls: false,
        dpi_gestures: false,
    }
}

fn record(key: &str) -> DeviceRecord {
    DeviceRecord {
        config_key: key.to_string(),
        persistent: true,
        route: Some(DeviceRoute::Direct { vendor_id: 0x046d, product_id: 0xb034 }),
        capabilities: Some(Capabilities { dpi_gestures: true, ..presumed_mouse() }),
    }
}

fn sources(config: Config, records: Vec<DeviceRecord>, persistence: ConfigPersistence) -> Sources {
    Sources {
        config,
        settings: AppSettings::default(),
        records,
        selected_device: None,
        changed: false,
        persistence,
    }
}

fn state_with_a_known_mouse() -> AppState {
    AppState::new(sources(
        Config::default(),
        vec![record(KNOWN_MOUSE_KEY)],
        ConfigPersistence::MemoryOnly,
    ))
}

fn state_without_devices() -> AppState {
    AppState::new(sources(Config::default(), Vec::new(), ConfigPersistence::MemoryOnly))
}

fn state_editing(app: &str) -> AppState {
    let mut state = state_with_a_known_mouse();
    let _ = state.set_editing_app(Some(app.to_string()));
    assert_eq!(state.editing_app().as_deref(), Some(app), "scope did not take");
    state
}

fn ring_action(action: Action) -> RingAction {
    RingAction::new(action).expect("test action must be valid in the Actions Ring")
}

fn slot_action(layout: &ActionRingLayout, slot: ActionRingSlot) -> Option<Action> {
    layout.slots.get(&slot).map(|entry| *entry.action())
}

fn app(id: &str, name: &str) -> ForegroundApp {
    ForegroundApp { id: id.to_string(), display_name: name.to_string() }
}

#[test]
fn a_device_edit_is_announced_for_the_device_on_screen() {
    let mut state = state_with_a_known_mouse();

    assert_eq!(
        *state.commit_binding(ButtonId::Back, Action::Undo).list(),
        [StateEvent::BindingsChanged(DeviceKey::new(KNOWN_MOUSE_KEY))]
    );
}

#[test]
fn a_device_edit_with_no_device_selected_announces_nothing() {
    let mut state = state_without_devices();

    assert!(state.commit_binding(ButtonId::Back, Action::Undo).is_empty());
}

#[test]
fn thumbwheel_pair_updates_both_memory_and_config_entries() {
    let mut bindings = Table::new();
    let mut config = Config::default();
    let key = "2b034";

    assert!(apply_thumbwheel_pair(
        &mut bindings,
        &mut config,
        Some(key),
        None,
        ThumbwheelPreset::Volume.pair(),
    ));
    assert_eq!(bindings.get(&ButtonId::ThumbwheelScrollDown), Some(&Action::VolumeDown));
    assert_eq!(bindings.get(&ButtonId::ThumbwheelScrollUp), Some(&Action::VolumeUp));
    let persisted = config.stored_bindings(key);
    assert_eq!(
        persisted.get(&ButtonId::ThumbwheelScrollDown),
        Some(&Binding::Single(Action::VolumeDown))
    );
    assert_eq!(
        persisted.get(&ButtonId::ThumbwheelScrollUp),
        Some(&Binding::Single(Action::VolumeUp))
    );
}

#[test]
fn transient_thumbwheel_pair_stays_in_memory_without_persistence() {
    let mut bindings = Table::new();
    let mut config = Config::default();

    assert!(!apply_thumbwheel_pair(
        &mut bindings,
        &mut config,
        None,
        None,
        ThumbwheelPreset::CycleDpi.pair(),
    ));
    assert_eq!(bindings.len(), 2);
    assert!(config.stored_bindings("missing").is_empty());
}

#[test]
fn a_binding_committed_in_a_per_app_profile_leaves_the_global_one_alone() {
    let mut state = state_editing("com.apple.Safari");
    let _ = state.commit_binding(ButtonId::Back, Action::Undo);

    let overrides = state
        .live
        .per_app_overrides(KNOWN_MOUSE_KEY, "com.apple.Safari")
        .expect("the override is stored");
    assert_eq!(overrides.len(), 1);
    assert_eq!(overrides.get(&ButtonId::Back), Some(&Action::Undo));
    assert!(
        state.live.stored_bindings(KNOWN_MOUSE_KEY).is_empty(),
        "the device's global bindings must be untouched"
    );
}

#[test]
fn an_unsaved_action_ring_profile_inherits_default_until_its_first_edit() {
    let mut state = state_with_a_known_mouse();
    let inherited = state.current_action_ring_layout();

    let _ = state.set_editing_action_ring_app(Some("com.apple.Safari".into()));

    assert_eq!(state.current_action_ring_layout(), inherited);
    assert!(
        state.current_action_ring().per_app.is_empty(),
        "selecting an application must not persist an unchanged layout"
    );

    let _ = state.commit_action_ring_slot(ActionRingSlot::Top, Some(ring_action(Action::NewTab)));

    let ring = state.current_action_ring();
    let safari = ring
        .per_app
        .get(&"com.apple.Safari".to_string())
        .expect("the first edit creates the application layout");
    assert_eq!(ring.default, inherited, "the default layout stays unchanged");
    assert_eq!(slot_action(safari, ActionRingSlot::Top), Some(Action::NewTab));
    assert_eq!(
        safari.slots.get(&ActionRingSlot::Bottom),
        inherited.slots.get(&ActionRingSlot::Bottom),
        "the application profile starts as a complete copy of Default"
    );
    assert!(inherited.slots.get(&ActionRingSlot::Bottom).is_some());
}

#[test]
fn an_action_ring_icon_edit_targets_the_open_application_layout() {
    let mut state = state_with_a_known_mouse();
    let _ = state.set_editing_action_ring_app(Some("com.apple.Safari".into()));

    let _ = state.commit_action_ring_icon(ActionRingSlot::Top, Some(ActionRingIcon::Keyboard));

    let ring = state.current_action_ring();
    assert_eq!(
        ring.default.slots.get(&ActionRingSlot::Top).expect("default slot").custom_icon(),
        None
    );
    assert_eq!(
        ring.per_app
            .get(&"com.apple.Safari".to_string())
            .and_then(|layout| layout.slots.get(&ActionRingSlot::Top))
            .expect("edited slot")
            .custom_icon(),
        Some(ActionRingIcon::Keyboard)
    );
}

#[test]
fn removing_an_action_ring_profile_leaves_button_overrides_untouched() {
    let mut state = state_with_a_known_mouse();
    let _ = state.set_editing_app(Some("com.apple.Safari".into()));
    let _ = state.commit_binding(ButtonId::Back, Action::Undo);
    let _ = state.set_editing_action_ring_app(Some("com.apple.Safari".into()));
    let _ = state.commit_action_ring_slot(ActionRingSlot::Top, Some(ring_action(Action::NewTab)));

    let _ = state.remove_action_ring_profile(&DeviceKey::new(KNOWN_MOUSE_KEY), "com.apple.Safari");

    assert_eq!(state.editing_action_ring_app(), None);
    assert!(state.current_action_ring().per_app.is_empty());
    let overrides = state
        .live
        .per_app_overrides(KNOWN_MOUSE_KEY, "com.apple.Safari")
        .expect("the override stays");
    assert_eq!(overrides.len(), 1);
    assert_eq!(overrides.get(&ButtonId::Back), Some(&Action::Undo));
    assert_eq!(
        state.editing_app().as_deref(),
        Some("com.apple.Safari"),
        "the Buttons editor keeps its independent scope"
    );
}

#[test]
fn clearing_an_override_falls_back_to_the_global_binding() {
    let mut state = state_with_a_known_mouse();
    let _ = state.commit_binding(ButtonId::Back, Action::Copy);
    let _ = state.set_editing_app(Some("com.apple.Safari".into()));
    let _ = state.commit_binding(ButtonId::Back, Action::Undo);
    assert_eq!(state.button_bindings().get(&ButtonId::Back), Some(&Action::Undo));

    let _ = state.clear_app_binding(ButtonId::Back);

    assert_eq!(
        state.button_bindings().get(&ButtonId::Back),
        Some(&Action::Copy),
        "the panel falls back to what the default profile binds"
    );
    assert!(
        state.live.per_app_overrides(KNOWN_MOUSE_KEY, "com.apple.Safari").is_none(),
        "an emptied profile is pruned, not left behind"
    );
}

#[test]
fn clearing_a_thumbwheel_override_drops_both_directions() {
    let mut state = state_with_a_known_mouse();
    let _ = state.commit_thumbwheel_preset(ThumbwheelPreset::Volume);
    let _ = state.set_editing_app(Some("com.apple.Safari".into()));
    let _ = state.commit_thumbwheel_preset(ThumbwheelPreset::CycleDpi);

    let _ = state.clear_app_thumbwheel();

    assert_eq!(
        state.button_bindings().get(&ButtonId::ThumbwheelScrollDown),
        Some(&Action::VolumeDown)
    );
    assert_eq!(
        state.button_bindings().get(&ButtonId::ThumbwheelScrollUp),
        Some(&Action::VolumeUp)
    );
    assert!(
        state.live.per_app_overrides(KNOWN_MOUSE_KEY, "com.apple.Safari").is_none(),
        "both halves must be cleared so the empty profile is pruned"
    );
}

#[test]
fn gesture_mode_is_not_editable_from_inside_a_per_app_profile() {
    let mut state = state_editing("com.apple.Safari");

    let _ = state.commit_gesture_mode(ButtonId::DpiToggle, true);

    assert!(
        !state.live.is_gesture_mode(KNOWN_MOUSE_KEY, ButtonId::DpiToggle),
        "a per-app profile must not promote a button globally"
    );
    assert!(
        state.current_gesture_maps().is_empty(),
        "and no gesture menu is offered in that scope"
    );
}

#[test]
fn a_gesture_button_stays_one_when_the_scope_returns_to_the_default_profile() {
    let mut state = state_with_a_known_mouse();
    let _ = state.commit_gesture_mode(ButtonId::DpiToggle, true);
    let global = state.current_gesture_maps();
    assert!(global.contains_key(&ButtonId::DpiToggle));

    let _ = state.set_editing_app(Some("com.apple.Safari".into()));
    assert!(state.current_gesture_maps().is_empty());
    assert_eq!(
        state.gesture_bindings(),
        global,
        "the inspector cache keeps inherited gestures while per-app editing hides their controls"
    );
    // The device still has its gestures — only the open profile cannot show
    // them, which is what the device card must keep reporting.
    let mut directions = 0;
    for i in 0..global.len() {
        directions += global.entry_at(i).1.len();
    }
    assert_eq!(state.device_gesture_binding_count(), directions);

    let _ = state.set_editing_app(None);
    assert_eq!(state.current_gesture_maps(), global);
}

#[test]
fn dpi_gesture_enablement_requires_measured_support_but_preserves_stored_maps() {
    for capabilities in [None, Some(presumed_mouse())] {
        let mut state = state_with_a_known_mouse();
        let _ = state.commit_binding(ButtonId::DpiToggle, Action::Paste);
        state.records[0].capabilities = capabilities;
        let _ = state.commit_gesture_mode(ButtonId::DpiToggle, true);
        assert!(!state.live.is_gesture_mode(KNOWN_MOUSE_KEY, ButtonId::DpiToggle));
        assert_eq!(
            state.button_bindings().get(&ButtonId::DpiToggle),
            Some(&Action::Paste)
        );

        // A stored map survives a missing/negative capability snapshot and
        // remains editable and removable, but cannot be newly enabled.
        state.live.set_gesture_mode(KNOWN_MOUSE_KEY, ButtonId::DpiToggle, true);
        let _ =
            state.commit_gesture_binding(ButtonId::DpiToggle, GestureDirection::Up, Action::Copy);
        assert_eq!(
            state
                .current_gesture_maps()
                .get(&ButtonId::DpiToggle)
                .and_then(|map| map.get(&GestureDirection::Up)),
            Some(&Action::Copy)
        );
        let _ = state.commit_gesture_mode(ButtonId::DpiToggle, false);
        assert!(!state.live.is_gesture_mode(KNOWN_MOUSE_KEY, ButtonId::DpiToggle));
        let _ = state.commit_gesture_mode(ButtonId::DpiToggle, true);
        assert!(!state.live.is_gesture_mode(KNOWN_MOUSE_KEY, ButtonId::DpiToggle));
    }
}

#[test]
fn unsupported_controls_cannot_enter_gesture_mode_through_the_ui_state() {
    let mut state = state_with_a_known_mouse();

    for button in [
        ButtonId::LeftClick,
        ButtonId::RightClick,
        ButtonId::MiddleClick,
        ButtonId::WheelTiltLeft,
        ButtonId::WheelTiltRight,
        ButtonId::Thumbwheel,
        ButtonId::ThumbwheelScrollUp,
        ButtonId::ThumbwheelScrollDown,
    ] {
        let _ = state.commit_gesture_mode(button, true);
        assert!(
            !state.live.is_gesture_mode(KNOWN_MOUSE_KEY, button),
            "unsupported control {button:?} entered gesture mode"
        );
    }
}

#[test]
fn a_stored_middle_click_gesture_remains_editable_until_it_is_disabled() {
    let mut middle = Table::new();
    middle.insert(GestureDirection::Click, Action::MiddleClick);
    middle.insert(GestureDirection::Up, Action::Copy);
    let mut config = Config::default();
    config.set_binding(
        KNOWN_MOUSE_KEY,
        ButtonId::MiddleClick,
        Binding::Gesture(middle.duplicate()),
    );
    let mut state = AppState::new(sources(
        config,
        vec![record(KNOWN_MOUSE_KEY)],
        ConfigPersistence::MemoryOnly,
    ));

    assert_eq!(
        state.current_gesture_maps().get(&ButtonId::MiddleClick),
        Some(&middle),
        "the inspector must expose the persisted directions"
    );

    let _ =
        state.commit_gesture_binding(ButtonId::MiddleClick, GestureDirection::Down, Action::Paste);
    assert_eq!(
        state
            .current_gesture_maps()
            .get(&ButtonId::MiddleClick)
            .and_then(|map| map.get(&GestureDirection::Down)),
        Some(&Action::Paste),
        "an existing Middle Click gesture must remain editable"
    );

    let _ = state.commit_gesture_mode(ButtonId::MiddleClick, false);
    assert!(!state.live.is_gesture_mode(KNOWN_MOUSE_KEY, ButtonId::MiddleClick));
    assert!(!state.current_gesture_maps().contains_key(&ButtonId::MiddleClick));

    let _ = state.commit_gesture_mode(ButtonId::MiddleClick, true);
    assert!(
        !state.live.is_gesture_mode(KNOWN_MOUSE_KEY, ButtonId::MiddleClick),
        "once disabled, unsupported Middle Click gestures must not be re-enabled"
    );
}

#[test]
fn gesture_maps_cover_every_gesture_mode_button() {
    let mut config = Config::default();
    config.set_gesture_mode("2b042", ButtonId::Back, true);
    let state =
        AppState::new(sources(config, vec![record("2b042")], ConfigPersistence::MemoryOnly));

    let maps = state.current_gesture_maps();
    let dedicated = maps
        .get(&ButtonId::GestureButton)
        .expect("the dedicated button's default gesture mode must be shown");
    assert!(
        dedicated.contains_key(&GestureDirection::Up),
        "HID++ maps are shown seeded, matching watcher dispatch"
    );
    assert!(
        maps.contains_key(&ButtonId::Back),
        "a promoted OS-hook button gets its own menu simultaneously"
    );
}

#[test]
fn failed_profile_reset_or_removal_keeps_both_profiles_and_editors() {
    let mut config = Config::default();
    config.set_per_app_binding(
        KNOWN_MOUSE_KEY,
        "com.apple.Safari",
        ButtonId::Back,
        Some(Action::Undo),
    );
    let mut ring = config.action_ring(KNOWN_MOUSE_KEY);
    let mut layout = ring.default.duplicate();
    layout.set_action(ActionRingSlot::Top, Some(ring_action(Action::Redo)));
    ring.per_app.insert("com.apple.Safari".into(), layout.duplicate());
    config.set_action_ring(KNOWN_MOUSE_KEY, ring);
    let mut state = AppState::new(sources(
        config,
        vec![record(KNOWN_MOUSE_KEY)],
        ConfigPersistence::ReadOnly("read-only".into()),
    ));
    let _ = state.set_editing_app(Some("com.apple.Safari".into()));
    let _ = state.set_editing_action_ring_app(Some("com.apple.Safari".into()));
    for command in [
        ProfileCommand::ResetButtons,
        ProfileCommand::RemoveButtons,
        ProfileCommand::ResetRing,
        ProfileCommand::RemoveRing,
        ProfileCommand::RemoveAll,
    ] {
        let _ = state.apply_profile_command(
            command,
            &DeviceKey::new(KNOWN_MOUSE_KEY),
            "com.apple.Safari",
        );
        assert_eq!(state.editing_app().as_deref(), Some("com.apple.Safari"));
        assert_eq!(state.button_bindings().get(&ButtonId::Back), Some(&Action::Undo));
        assert_eq!(state.editing_action_ring_app().as_deref(), Some("com.apple.Safari"));
        assert_eq!(state.current_action_ring_layout(), layout);
        assert!(state
            .current_action_ring()
            .per_app
            .contains_key(&"com.apple.Safari".to_string()));
        assert_eq!(state.config_issue(), Some("read-only"));
        assert!(state.take_commands().is_empty(), "failed saves must not reload the agent");
    }
}

fn seed_all_profile_sections(config: &mut Config, key: &str, app: &str) {
    config.set_per_app_binding(key, app, ButtonId::Back, Some(Action::Undo));
    config.set_per_app_presenter(
        key,
        app,
        Some(PresenterSettings { timer_seconds: 123, ..PresenterSettings::default() }),
    );
    let mut ring = config.action_ring(key);
    let mut layout = ring.default.duplicate();
    layout.set_action(ActionRingSlot::Top, Some(ring_action(Action::Redo)));
    ring.per_app.insert(app.into(), layout);
    config.set_action_ring(key, ring);
}

#[test]
fn removing_all_app_profiles_saves_all_sections_once_and_preserves_other_settings() {
    for buttons in [false, true] {
        for presenter in [false, true] {
            for ring in [false, true] {
                let mut config = Config::default();
                for key in [KNOWN_MOUSE_KEY, "other-device"] {
                    for app in ["Safari", "Chrome"] {
                        seed_all_profile_sections(&mut config, key, app);
                    }
                }
                if !buttons {
                    config.set_per_app_binding(KNOWN_MOUSE_KEY, "Safari", ButtonId::Back, None);
                }
                if !presenter {
                    config.set_per_app_presenter(KNOWN_MOUSE_KEY, "Safari", None);
                }
                if !ring {
                    let mut rings = config.action_ring(KNOWN_MOUSE_KEY);
                    let _ = rings.per_app.remove(&"Safari".to_string());
                    config.set_action_ring(KNOWN_MOUSE_KEY, rings);
                }
                let before = config.duplicate();
                let mut state = AppState::new(sources(
                    config,
                    vec![record(KNOWN_MOUSE_KEY)],
                    ConfigPersistence::UserFile,
                ));
                // Discard only the initial load; the command itself must reload at most once.
                assert_eq!(state.take_commands(), vec![Command::ReloadConfig(ReloadConfig)]);
                let _ = state.set_editing_app(Some("Safari".into()));
                let _ = state.set_editing_action_ring_app(Some("Safari".into()));
                let inherited = state.live.action_ring(KNOWN_MOUSE_KEY).default;

                let events =
                    state.remove_all_app_profiles(&DeviceKey::new(KNOWN_MOUSE_KEY), "Safari");
                assert_eq!(
                    *events.list(),
                    [StateEvent::BindingsChanged(DeviceKey::new(KNOWN_MOUSE_KEY))]
                );
                let stored = buttons || presenter || ring;
                let written = state.unsaved_config().map(|config| config.duplicate());
                assert_eq!(written.is_some(), stored, "only a change is written");
                if stored {
                    assert!(state.take_commands().is_empty(), "nothing is told before the write");
                    state.save_finished(Ok(()));
                }
                assert_eq!(state.editing_app(), None);
                assert_eq!(state.editing_action_ring_app(), None);
                assert_eq!(state.current_action_ring_layout(), inherited);
                assert_eq!(
                    state.button_bindings().get(&ButtonId::Back),
                    Some(&Action::MouseBack)
                );
                let saved = &state.saved;
                assert!(saved.per_app_overrides(KNOWN_MOUSE_KEY, "Safari").is_none());
                let saved_device = saved.device(KNOWN_MOUSE_KEY).expect("device");
                let before_device = before.device(KNOWN_MOUSE_KEY).expect("device");
                let safari = "Safari".to_string();
                let chrome = "Chrome".to_string();
                assert!(!saved_device.per_app_presenter.contains_key(&safari));
                assert!(!saved_device.action_ring.per_app.contains_key(&safari));
                assert_eq!(saved.device("other-device"), before.device("other-device"));
                assert_eq!(
                    saved_device.per_app_bindings.get(&chrome),
                    before_device.per_app_bindings.get(&chrome)
                );
                assert_eq!(
                    saved_device.per_app_presenter.get(&chrome),
                    before_device.per_app_presenter.get(&chrome)
                );
                assert_eq!(
                    saved_device.action_ring.per_app.get(&chrome),
                    before_device.action_ring.per_app.get(&chrome)
                );
                assert_eq!(saved_device.bindings, before_device.bindings);
                assert_eq!(saved_device.action_ring.default, before_device.action_ring.default);
                if stored {
                    assert_eq!(
                        state.take_commands(),
                        vec![Command::ReloadConfig(ReloadConfig)],
                        "one atomic deletion must not send duplicate reloads"
                    );
                } else {
                    assert!(state.take_commands().is_empty());
                }
            }
        }
    }
}

#[test]
fn resetting_profiles_restores_inheritance_without_closing_the_editors() {
    let mut state = state_with_a_known_mouse();
    let safari = "com.apple.Safari";
    let chrome = "com.google.Chrome";
    let _ = state.commit_binding(ButtonId::Back, Action::Copy);
    let default_ring = state.current_action_ring_layout();
    for (app, action) in [(safari, Action::Undo), (chrome, Action::Paste)] {
        let _ = state.set_editing_app(Some(app.into()));
        let _ = state.commit_binding(ButtonId::Back, action);
        let _ = state.set_editing_action_ring_app(Some(app.into()));
        let _ = state.commit_action_ring_slot(ActionRingSlot::Top, Some(ring_action(action)));
    }
    let chrome_ring = state.current_action_ring_layout();
    let _ = state.set_editing_app(Some(safari.into()));
    let _ = state.set_editing_action_ring_app(Some(safari.into()));
    let safari_ring = state.current_action_ring_layout();

    let _ = state.reset_app_profile(&DeviceKey::new(KNOWN_MOUSE_KEY), safari);
    assert_eq!(state.editing_app().as_deref(), Some(safari));
    assert_eq!(state.button_bindings().get(&ButtonId::Back), Some(&Action::Copy));
    assert!(state.editing_app_overrides().is_none());
    assert_eq!(state.current_action_ring_layout(), safari_ring);
    assert_eq!(
        state
            .live
            .per_app_overrides(KNOWN_MOUSE_KEY, chrome)
            .and_then(|overrides| overrides.get(&ButtonId::Back)),
        Some(&Action::Paste)
    );

    let _ = state.reset_action_ring_profile(&DeviceKey::new(KNOWN_MOUSE_KEY), safari);
    assert_eq!(state.editing_action_ring_app().as_deref(), Some(safari));
    assert_eq!(state.current_action_ring_layout(), default_ring);
    assert_eq!(
        state.current_action_ring().per_app.get(&chrome.to_string()),
        Some(&chrome_ring)
    );
    // A reset must remove the snapshot, not save a copy of today's default.
    let _ = state.set_editing_action_ring_app(None);
    let _ = state.commit_action_ring_slot(ActionRingSlot::Top, Some(ring_action(Action::Redo)));
    let _ = state.set_editing_action_ring_app(Some(safari.into()));
    assert_eq!(
        slot_action(&state.current_action_ring_layout(), ActionRingSlot::Top),
        Some(Action::Redo)
    );

    let _ = state.remove_app_profile(&DeviceKey::new(KNOWN_MOUSE_KEY), safari);
    let _ = state.remove_action_ring_profile(&DeviceKey::new(KNOWN_MOUSE_KEY), safari);
    assert_eq!(state.editing_app(), None);
    assert_eq!(state.editing_action_ring_app(), None);
}

#[test]
fn removing_all_app_profiles_only_closes_editors_showing_that_app() {
    for (buttons_app, ring_app) in [("Safari", "Chrome"), ("Chrome", "Safari")] {
        let mut state = state_with_a_known_mouse();
        for app in ["Safari", "Chrome"] {
            let _ = state.set_editing_app(Some(app.into()));
            let _ = state.commit_binding(ButtonId::Back, Action::Undo);
            let _ = state.set_editing_action_ring_app(Some(app.into()));
            let _ =
                state.commit_action_ring_slot(ActionRingSlot::Top, Some(ring_action(Action::Redo)));
        }
        let _ = state.set_editing_app(Some(buttons_app.into()));
        let _ = state.set_editing_action_ring_app(Some(ring_app.into()));

        let _ = state.remove_all_app_profiles(&DeviceKey::new(KNOWN_MOUSE_KEY), "Safari");

        assert_eq!(
            state.editing_app().as_deref(),
            (buttons_app == "Chrome").then_some("Chrome")
        );
        assert_eq!(
            state.editing_action_ring_app().as_deref(),
            (ring_app == "Chrome").then_some("Chrome")
        );
        assert_eq!(state.app_profiles(), [("Chrome".to_string(), 1)]);
        let ring = state.current_action_ring();
        assert!(!ring.per_app.contains_key(&"Safari".to_string()));
        assert_eq!(
            ring.per_app
                .get(&"Chrome".to_string())
                .and_then(|layout| slot_action(layout, ActionRingSlot::Top)),
            Some(Action::Redo)
        );
        let _ = state.set_editing_app(Some("Chrome".into()));
        assert_eq!(state.button_bindings().get(&ButtonId::Back), Some(&Action::Undo));
    }
}

fn state_with_two_mice() -> AppState {
    AppState::new(sources(
        Config::default(),
        vec![record(KNOWN_MOUSE_KEY), record("unit:11223344")],
        ConfigPersistence::MemoryOnly,
    ))
}

#[test]
fn profile_commands_keep_the_named_target_after_selection_changes() {
    let mut state = state_with_two_mice();
    let known = state
        .devices()
        .iter()
        .position(|record| record.config_key == KNOWN_MOUSE_KEY)
        .unwrap();
    let other = state
        .devices()
        .iter()
        .position(|record| record.config_key != KNOWN_MOUSE_KEY)
        .unwrap();
    let _ = state.select_device(known);
    let _ = state.set_editing_app(Some("Safari".into()));
    let _ = state.commit_binding(ButtonId::Back, Action::Undo);
    let _ = state.set_editing_action_ring_app(Some("Safari".into()));
    let _ = state.commit_action_ring_slot(ActionRingSlot::Top, Some(ring_action(Action::Copy)));

    let _ = state.select_device(other);
    let _ = state.set_editing_app(Some("Chrome".into()));
    let _ = state.commit_binding(ButtonId::Back, Action::Paste);
    let _ = state.set_editing_action_ring_app(Some("Chrome".into()));
    let _ = state.commit_action_ring_slot(ActionRingSlot::Top, Some(ring_action(Action::Redo)));
    let other_ring = state.current_action_ring();

    let events = state.remove_all_app_profiles(&DeviceKey::new(KNOWN_MOUSE_KEY), "Safari");
    assert_eq!(
        *events.list(),
        [StateEvent::BindingsChanged(DeviceKey::new(KNOWN_MOUSE_KEY))]
    );
    assert_eq!(state.editing_app().as_deref(), Some("Chrome"));
    assert_eq!(state.button_bindings().get(&ButtonId::Back), Some(&Action::Paste));
    assert_eq!(state.editing_action_ring_app().as_deref(), Some("Chrome"));
    assert_eq!(state.current_action_ring(), other_ring);
    let _ = state.select_device(known);
    assert!(state.app_profiles().is_empty());
    assert!(state.current_action_ring().per_app.is_empty());
    assert_eq!(state.editing_app(), None);
    assert_eq!(state.editing_action_ring_app(), None);
}

#[test]
fn a_profile_belongs_to_the_device_it_was_opened_on() {
    let mut state = state_with_two_mice();
    let _ = state.select_device(0);
    let _ = state.set_editing_app(Some("com.apple.Safari".into()));

    let _ = state.select_device(1);
    assert_eq!(
        state.editing_app(),
        None,
        "another device falls back to its own global profile"
    );

    let _ = state.select_device(0);
    assert_eq!(
        state.editing_app().as_deref(),
        Some("com.apple.Safari"),
        "and returning restores the profile that was open here"
    );
}

#[test]
fn invalid_device_selection_preserves_the_valid_current_device() {
    let mut state = state_with_a_known_mouse();
    let selected = state.selected_device_index();

    assert!(state.select_device(usize::MAX).is_empty());
    assert_eq!(state.selected_device_index(), selected);
    assert!(state.current_record().is_some());
}

#[test]
fn the_active_profile_is_the_default_until_the_app_in_front_is_overridden() {
    let mut state = state_with_a_known_mouse();
    let _ = state.set_foreground(ForegroundApps {
        current: Some(app("com.apple.Safari", "Safari")),
        recent: vec![app("com.apple.Safari", "Safari")],
    });

    assert_eq!(
        state.active_profile_name(),
        None,
        "an app with no overrides runs the device's global bindings"
    );

    state.live.set_per_app_binding(
        KNOWN_MOUSE_KEY,
        "com.apple.Safari",
        ButtonId::Back,
        Some(Action::Undo),
    );
    assert_eq!(state.active_profile_name(), Some("Safari"));
}

#[test]
fn a_removal_in_a_file_closes_its_editor_once_it_is_written() {
    let removed = |outcome| {
        let mut state = AppState::new(sources(
            Config::default(),
            vec![record(KNOWN_MOUSE_KEY), record("other")],
            ConfigPersistence::UserFile,
        ));
        for app in ["com.apple.Safari", "com.apple.Mail"] {
            state.live.set_per_app_binding(KNOWN_MOUSE_KEY, app, ButtonId::Back, Some(Action::Undo));
            state.live.set_per_app_binding("other", app, ButtonId::Back, Some(Action::Copy));
        }
        state.save_finished(Ok(()));
        let _ = state.set_editing_app(Some("com.apple.Safari".into()));
        let key = DeviceKey::new(KNOWN_MOUSE_KEY);
        let _ = state.apply_profile_command(ProfileCommand::RemoveButtons, &key, "com.apple.Safari");
        assert_eq!(state.editing_app().as_deref(), Some("com.apple.Safari"), "nothing is written");
        state.save_finished(outcome);
        state
    };
    let kept = removed(Ok(()));
    assert_eq!(kept.editing_app(), None);
    assert!(!kept.live.has_app_override(KNOWN_MOUSE_KEY, "com.apple.Safari"));
    assert!(kept.live.has_app_override(KNOWN_MOUSE_KEY, "com.apple.Mail"));
    assert!(kept.live.has_app_override("other", "com.apple.Safari"));
    let refused = removed(Err("disk full".into()));
    assert_eq!(refused.editing_app().as_deref(), Some("com.apple.Safari"));
    assert!(refused.live.has_app_override(KNOWN_MOUSE_KEY, "com.apple.Safari"));
}

#[test]
fn presenter_settings_alone_leave_the_device_on_its_own_bindings() {
    let mut state = state_with_a_known_mouse();
    let _ = state.set_foreground(ForegroundApps {
        current: Some(app("com.apple.Keynote", "Keynote")),
        recent: vec![app("com.apple.Keynote", "Keynote")],
    });
    state.live.set_per_app_presenter(
        KNOWN_MOUSE_KEY,
        "com.apple.Keynote",
        Some(PresenterSettings::default()),
    );
    assert_eq!(state.active_profile_name(), None);
    assert_eq!(state.profile_canvas_status().expect("a mouse is shown").active, None);
}

#[test]
fn the_profile_shown_is_the_apps_even_while_this_window_has_focus() {
    let mut state = state_with_a_known_mouse();
    state.live.set_per_app_binding(
        KNOWN_MOUSE_KEY,
        "com.apple.Safari",
        ButtonId::Back,
        Some(Action::Undo),
    );
    let _ = state.set_foreground(ForegroundApps {
        current: Some(app("org.openlogi.openlogi", "OpenLogi")),
        recent: vec![app("com.apple.Safari", "Safari")],
    });

    assert_eq!(state.active_profile_name(), Some("Safari"));
    assert_eq!(state.recent_app_name("com.apple.Safari"), Some("Safari"));
    assert_eq!(state.recent_app_name("org.openlogi.openlogi"), None);
}

#[test]
fn a_host_with_no_readable_foreground_app_reports_the_default_profile() {
    let mut state = state_with_a_known_mouse();
    state.live.set_per_app_binding(
        KNOWN_MOUSE_KEY,
        "com.apple.Safari",
        ButtonId::Back,
        Some(Action::Undo),
    );
    assert!(state
        .set_foreground(ForegroundApps { current: None, recent: Vec::new() })
        .is_empty());
    assert_eq!(state.active_profile_name(), None);
}

#[test]
fn read_only_config_rolls_back_mutations_and_does_not_reload_agent() {
    let mut state = AppState::new(sources(
        Config::default(),
        Vec::new(),
        ConfigPersistence::ReadOnly("invalid config".into()),
    ));

    let _ = state.commit_thumbwheel_sensitivity(ThumbwheelSensitivity::nearest(50));
    let _ = state.commit_smooth_scroll(true);
    let _ = state.commit_vertical_scroll_sensitivity(VerticalScrollSensitivity::nearest(7));
    let _ = state.commit_mouse_profile_target(MouseProfileTarget::Focused);

    assert_eq!(state.settings.thumbwheel_sensitivity, ThumbwheelSensitivity::default());
    assert!(!state.settings.smooth_scroll);
    assert_eq!(
        state.settings.vertical_scroll_sensitivity,
        VerticalScrollSensitivity::default()
    );
    assert_eq!(state.settings.mouse_profile_target, MouseProfileTarget::Pointer);
    assert_eq!(state.config_issue(), Some("invalid config"));
    assert!(state.take_commands().is_empty());
}

#[test]
fn mouse_profile_target_persists_and_reloads_only_when_changed() {
    let mut state =
        AppState::new(sources(Config::default(), Vec::new(), ConfigPersistence::UserFile));
    // A file-backed state reloads once at startup, independently of edits.
    assert_eq!(state.take_commands(), vec![Command::ReloadConfig(ReloadConfig)]);

    for target in [MouseProfileTarget::Focused, MouseProfileTarget::Pointer] {
        assert_eq!(
            *state.commit_mouse_profile_target(target).list(),
            [StateEvent::SettingsChanged]
        );
        assert_eq!(state.settings.mouse_profile_target, target);
        assert!(state.unsaved_config().is_some());
        state.save_finished(Ok(()));
        assert_eq!(state.saved_settings.mouse_profile_target, target);
        assert_eq!(state.take_commands(), vec![Command::ReloadConfig(ReloadConfig)]);

        let _ = state.commit_mouse_profile_target(target);
        assert!(state.unsaved_config().is_none());
        assert!(state.take_commands().is_empty(), "unchanged selection must not reload");
    }
}

#[test]
fn smooth_scroll_change_reloads_the_agent_once() {
    let mut state = state_without_devices();

    let _ = state.commit_smooth_scroll(true);

    assert!(state.settings.smooth_scroll);
    assert_eq!(state.take_commands(), vec![Command::ReloadConfig(ReloadConfig)]);

    let _ = state.commit_smooth_scroll(true);
    assert!(state.take_commands().is_empty());
}

#[test]
fn agent_reload_error_stays_visible_until_a_successful_confirmation() {
    let mut state = state_without_devices();
    assert_eq!(
        *state
            .apply_config_reload_result(Err(ConfigReloadError {
                message: "agent rejected config".into(),
            }))
            .list(),
        [StateEvent::SettingsChanged]
    );
    assert_eq!(state.config_issue(), Some("agent rejected config"));
    assert_eq!(
        *state.apply_config_reload_result(Ok(())).list(),
        [StateEvent::SettingsChanged]
    );
    assert_eq!(state.config_issue(), None);
}

#[test]
fn a_failed_write_takes_the_change_back() {
    let mut state = AppState::new(sources(
        Config::default(),
        vec![record(KNOWN_MOUSE_KEY)],
        ConfigPersistence::UserFile,
    ));
    let _ = state.take_commands();
    let _ = state.commit_binding(ButtonId::Back, Action::Undo);
    assert_eq!(state.button_bindings().get(&ButtonId::Back), Some(&Action::Undo));
    state.save_finished(Err("disk full".into()));
    assert_eq!(state.button_bindings().get(&ButtonId::Back), Some(&Action::MouseBack));
    assert_eq!(state.config_issue(), Some("disk full"));
    assert!(state.take_commands().is_empty());
}

#[test]
fn the_device_that_was_on_screen_last_is_shown_first() {
    let mut from = sources(
        Config::default(),
        vec![record("a"), record("b")],
        ConfigPersistence::MemoryOnly,
    );
    from.selected_device = Some("b".into());
    assert_eq!(AppState::new(from).selected_device_index(), Some(1));
    let mut gone = sources(Config::default(), vec![record("a")], ConfigPersistence::MemoryOnly);
    gone.selected_device = Some("zzz".into());
    assert_eq!(AppState::new(gone).selected_device_index(), Some(0));
    assert_eq!(state_without_devices().selected_device_index(), None);
}

#[test]
fn the_pointer_speed_is_asked_once_and_applied_at_once() {
    let mut state = state_with_a_known_mouse();
    assert_eq!(state.pointer_speed_status(), Load::Unknown);
    state.load_current_pointer_speed(3);
    state.load_current_pointer_speed(4);
    assert_eq!(state.pointer_speed_status(), Load::Loading);
    assert!(matches!(
        state.take_commands().as_slice(),
        [Command::ReadPointerSpeed(ReadPointerSpeed { ticket: 3, .. })]
    ));

    let speed = PointerSpeed::new(4).expect("level");
    assert_eq!(
        *state.commit_pointer_speed(speed).list(),
        [StateEvent::PresenterChanged(DeviceKey::new(KNOWN_MOUSE_KEY))]
    );
    assert_eq!(state.pointer_speed_status(), Load::Ready(speed));
    assert!(matches!(
        state.take_commands().as_slice(),
        [Command::SetPointerSpeed(request)] if request.speed == speed
    ));
    let _ = state.retry_pointer_speed_read(&DeviceKey::new(KNOWN_MOUSE_KEY));
    assert_eq!(state.pointer_speed_status(), Load::Unknown);

    state.records[0].route = None;
    assert!(state.commit_pointer_speed(speed).is_empty());
}

#[test]
fn presenter_edits_go_to_the_named_profile() {
    let mut state = state_with_a_known_mouse();
    let settings = PresenterSettings { timer_seconds: 90, ..PresenterSettings::default() };
    assert_eq!(
        *state.commit_presenter_settings_for(Some("Keynote"), settings).list(),
        [StateEvent::PresenterChanged(DeviceKey::new(KNOWN_MOUSE_KEY))]
    );
    assert_eq!(state.presenter_settings_for(Some("Keynote")).timer_seconds, 90);
    assert_eq!(state.presenter_settings().timer_seconds, 0);
    let _ = state.commit_presenter_binding_for(None, ButtonId::PresenterNext, Action::Copy);
    let actions = state.presenter_bindings_for_profile(None);
    assert_eq!(actions.get(&ButtonId::PresenterNext), Some(&Action::Copy));
    assert_eq!(actions.len(), 4);
    assert!(actions.get(&ButtonId::Back).is_none());
}

#[test]
fn a_device_without_configuration_keeps_its_bindings_in_memory() {
    let mut state = state_with_a_known_mouse();
    state.records[0].persistent = false;
    let _ = state.commit_binding(ButtonId::Back, Action::Undo);
    assert_eq!(state.button_bindings().get(&ButtonId::Back), Some(&Action::Undo));
    assert_eq!(state.config_summary(), (openlogi::config::SCHEMA_VERSION, 0));
    assert!(state.take_commands().is_empty());
    assert!(!state.current_device_is_persistent());
    assert!(state.button_profile_scope().is_none());
    assert!(state.set_editing_app(Some("Safari".into())).is_empty());
    assert!(state.is_current_device(&DeviceKey::new(KNOWN_MOUSE_KEY)));
}

#[test]
fn the_selectors_list_what_each_editor_stores() {
    let mut state = state_with_a_known_mouse();
    let _ = state.set_foreground(ForegroundApps {
        current: None,
        recent: vec![app("com.apple.Safari", "Safari"), app("org.mozilla.firefox", "Firefox")],
    });
    let _ = state.set_editing_app(Some("com.apple.Safari".into()));
    let _ = state.commit_binding(ButtonId::Back, Action::Undo);
    let buttons = state.button_profile_scope().expect("a persistent device");
    assert_eq!(buttons.profiles.len(), 1);
    assert_eq!(buttons.profiles[0].name, "Safari");
    assert!(buttons.profiles[0].persisted);
    assert_eq!(buttons.recent.len(), 1);
    assert_eq!(buttons.recent[0].name, "Firefox");
    let ring = state.action_ring_profile_scope().expect("a persistent device");
    assert!(ring.profiles.is_empty());
    assert_eq!(ring.recent.len(), 2);
    assert!(matches!(
        state.set_editing_action_ring_app(Some("x.y.Zed".into())).list().as_slice(),
        [Event::BindingsChanged(_)]
    ));
    let ring = state.action_ring_profile_scope().expect("a persistent device");
    assert_eq!(ring.profiles.len(), 1);
    assert_eq!(ring.profiles[0].name, "Zed");
    assert!(!ring.profiles[0].persisted, "a draft is not stored");
}

#[test]
fn the_status_names_the_open_profile_and_the_one_in_effect() {
    let mut state = state_with_a_known_mouse();
    let status = state.profile_canvas_status().expect("a persistent device has a status");
    assert_eq!(status.summary, ProfileSummary::DefaultBindings);
    assert_eq!((status.app, status.active), (None, None));

    let _ = state.set_foreground(ForegroundApps {
        current: None,
        recent: vec![app("com.apple.Safari", "Safari")],
    });
    let _ = state.set_editing_app(Some("com.apple.Safari".to_string()));
    let _ = state.commit_binding(ButtonId::Back, Action::Undo);
    let status = state.profile_canvas_status().expect("a persistent device has a status");
    assert_eq!(status.summary, ProfileSummary::SingleOverride);
    assert_eq!(status.app.as_deref(), Some("Safari"));
    assert_eq!(status.active.as_deref(), Some("Safari"));
    assert!(state_without_devices().profile_canvas_status().is_none());
}

#[test]
fn the_presenter_panel_shows_the_open_section_of_the_open_profile() {
    let mut state = state_with_a_known_mouse();
    let mut view = PresenterControlsView::new();
    let panel = view.render(&state);
    assert!(panel.new_sliders.is_some(), "the sliders are made for the device");
    assert!(matches!(panel.inspector, Inspector::Buttons(_, _)));
    assert_eq!(panel.stage.pointer, "3 pointer effects");
    assert!(view.render(&state).new_sliders.is_none(), "and kept while it stays");

    view.open_section(PresenterSection::Timer);
    let _ = state.edit_presenter(None, PresenterEdit::TimerMinutes(25));
    let panel = view.render(&state);
    assert_eq!(panel.stage.pointer, "Countdown 25 min");
    let Inspector::Timer(timer) = panel.inspector else {
        panic!("the timer section is open");
    };
    assert_eq!(timer.mode, PresenterTimerMode::Countdown);

    let _ = state.set_editing_app(Some("com.apple.Keynote".to_string()));
    let _ = state.edit_presenter(Some("com.apple.Keynote"), PresenterEdit::TimerMinutes(5));
    let panel = view.render(&state);
    assert!(panel.new_sliders.is_some(), "another profile has sliders of its own");
    assert_eq!(panel.stage.pointer, "Countdown 5 min");
    assert_eq!(state.presenter_settings_for(None).timer_seconds, 1500);
}
