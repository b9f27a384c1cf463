use openlogi::binding::{
    default_binding, default_gesture_binding, Action, Binding, ButtonId, GestureDirection, LongPress,
};
use openlogi::config::identity::{Capabilities, DeviceIdentity, DeviceKind};
use openlogi::config::per_app::executable_selector;
use openlogi::order::Duplicate;
use openlogi::config::Config;
use openlogi::presenter::PresenterSettings;

#[test]
fn per_app_overlay_takes_precedence() {
    let mut cfg = Config::default();
    cfg.set_binding("2b042", ButtonId::Back, Binding::Single(Action::BrowserBack));
    cfg.set_binding("2b042", ButtonId::Forward, Binding::Single(Action::BrowserForward));
    cfg.set_per_app_binding("2b042", "com.microsoft.VSCode", ButtonId::Back, Some(Action::Undo));

    // Global: both buttons are browser nav.
    let global = cfg.effective_bindings("2b042", None);
    assert_eq!(global.get(&ButtonId::Back), Some(&Binding::Single(Action::BrowserBack)));
    assert_eq!(global.get(&ButtonId::Forward), Some(&Binding::Single(Action::BrowserForward)));

    // VSCode: Back overridden (wrapped as Single), Forward inherits.
    let vscode = cfg.effective_bindings("2b042", Some("com.microsoft.VSCode"));
    assert_eq!(vscode.get(&ButtonId::Back), Some(&Binding::Single(Action::Undo)));
    assert_eq!(vscode.get(&ButtonId::Forward), Some(&Binding::Single(Action::BrowserForward)));

    // Unrelated app falls through.
    let other = cfg.effective_bindings("2b042", Some("com.apple.Safari"));
    assert_eq!(other.get(&ButtonId::Back), Some(&Binding::Single(Action::BrowserBack)));
}

#[test]
fn per_app_binding_removal_prunes_empty_app() {
    let mut cfg = Config::default();
    cfg.set_per_app_binding("2b042", "com.example.App", ButtonId::Back, Some(Action::Copy));
    cfg.set_per_app_binding("2b042", "com.example.App", ButtonId::Back, None);
    assert!(
        cfg.device("2b042").expect("device").per_app_bindings.is_empty(),
        "removing last override should prune the app entry"
    );
}

#[test]
fn presenter_only_app_profiles_are_listed_and_removed() {
    let mut cfg = Config::default();
    let app = "com.apple.Keynote";
    let settings = PresenterSettings { magnification: 275, ..PresenterSettings::default() };

    cfg.set_per_app_presenter("spotlight", app, Some(settings));

    assert_eq!(cfg.app_profiles("spotlight"), vec![app]);
    assert_eq!(cfg.effective_presenter("spotlight", Some(app)).magnification, 275);

    cfg.remove_app_profile("spotlight", app);

    assert!(cfg.app_profiles("spotlight").is_empty());
    assert_eq!(cfg.effective_presenter("spotlight", Some(app)), PresenterSettings::default());
}

#[test]
fn application_profiles_are_deduplicated_across_buttons_and_presenter() {
    let mut cfg = Config::default();
    let app = "com.apple.Keynote";
    cfg.set_per_app_binding(
        "spotlight",
        app,
        ButtonId::PresenterNext,
        Some(Action::PresenterNext),
    );
    cfg.set_per_app_presenter("spotlight", app, Some(PresenterSettings::default()));

    assert_eq!(cfg.app_profiles("spotlight"), vec![app]);
}

#[test]
fn windows_exe_selector_matches_versioned_path() {
    let mut cfg = Config::default();
    cfg.set_binding("2b042", ButtonId::Back, Binding::Single(Action::BrowserBack));
    cfg.set_per_app_binding("2b042", "exe:sharex.exe", ButtonId::Back, Some(Action::Copy));
    cfg.set_per_app_binding("2b042", "exe:sharex.exe", ButtonId::Forward, Some(Action::Paste));

    let store_path = r"c:\program files\windowsapps\sharex_14.0.0.0_x64__abc\sharex.exe";
    let effective = cfg.effective_bindings("2b042", Some(store_path));
    assert_eq!(effective.get(&ButtonId::Back), Some(&Binding::Single(Action::Copy)));
    assert_eq!(effective.get(&ButtonId::Forward), Some(&Binding::Single(Action::Paste)));
    assert!(cfg.has_app_override("2b042", store_path));

    // Forward slash separators still resolve (hand-authored configs).
    let unixish = r"c:/tools/sharex/sharex.exe";
    assert_eq!(
        cfg.effective_bindings("2b042", Some(unixish)).get(&ButtonId::Back),
        Some(&Binding::Single(Action::Copy))
    );

    // Extension match is case-insensitive; selector key is lower-cased.
    let mixed = r"C:\Tools\ShareX\ShareX.EXE";
    assert_eq!(
        cfg.effective_bindings("2b042", Some(mixed)).get(&ButtonId::Back),
        Some(&Binding::Single(Action::Copy))
    );
}

#[test]
fn windows_exe_selector_exact_path_takes_precedence() {
    let mut cfg = Config::default();
    let exact = r"c:\program files\windowsapps\sharex_14.0.0.0_x64__abc\sharex.exe";
    cfg.set_per_app_binding("2b042", "exe:sharex.exe", ButtonId::Back, Some(Action::Copy));
    cfg.set_per_app_binding("2b042", exact, ButtonId::Back, Some(Action::Undo));

    assert_eq!(
        cfg.effective_bindings("2b042", Some(exact)).get(&ButtonId::Back),
        Some(&Binding::Single(Action::Undo))
    );

    // A different install path still falls back to the stable selector.
    let other = r"c:\program files\windowsapps\sharex_15.0.0.0_x64__abc\sharex.exe";
    assert_eq!(
        cfg.effective_bindings("2b042", Some(other)).get(&ButtonId::Back),
        Some(&Binding::Single(Action::Copy))
    );
}

#[test]
fn windows_exe_selector_ignores_non_exe_identifiers() {
    let mut cfg = Config::default();
    cfg.set_binding("2b042", ButtonId::Back, Binding::Single(Action::BrowserBack));
    cfg.set_per_app_binding("2b042", "exe:code.exe", ButtonId::Back, Some(Action::Undo));

    // macOS bundle ids must not be treated as Windows paths.
    assert_eq!(
        cfg.effective_bindings("2b042", Some("com.microsoft.VSCode")).get(&ButtonId::Back),
        Some(&Binding::Single(Action::BrowserBack))
    );
    assert!(!cfg.has_app_override("2b042", "com.microsoft.VSCode"));
}

#[test]
fn the_selector_is_the_lower_cased_file_name() {
    assert_eq!(
        executable_selector(r"C:\Tools\ShareX.EXE").as_deref(),
        Some("exe:sharex.exe")
    );
    assert_eq!(executable_selector("sharex.exe").as_deref(), Some("exe:sharex.exe"));
    assert_eq!(executable_selector(r"C:\Tools\.exe"), None);
    assert_eq!(executable_selector(r"C:\Tools\"), None);
    assert_eq!(executable_selector(""), None);
}

#[test]
fn leaving_gesture_mode_and_entering_it_again_restores_the_map() {
    let mut cfg = Config::default();
    cfg.set_gesture_mode("dev", ButtonId::Back, true);
    cfg.set_gesture_direction("dev", ButtonId::Back, GestureDirection::Up, Action::Copy);
    let map = match cfg.stored_bindings("dev").get(&ButtonId::Back) {
        Some(Binding::Gesture(map)) => {
            assert_eq!(map.get(&GestureDirection::Up), Some(&Action::Copy));
            assert_eq!(map.get(&GestureDirection::Click), Some(&Action::MouseBack));
            assert_eq!(
                map.get(&GestureDirection::Left),
                Some(&default_gesture_binding(GestureDirection::Left))
            );
            map.len()
        }
        other => panic!("gesture mode must store a map, got {other:?}"),
    };
    assert_eq!(map, 5);

    cfg.set_gesture_mode("dev", ButtonId::Back, false);
    assert!(!cfg.is_gesture_mode("dev", ButtonId::Back));
    assert_eq!(
        cfg.stored_bindings("dev").get(&ButtonId::Back),
        Some(&Binding::Single(Action::MouseBack))
    );

    cfg.set_gesture_mode("dev", ButtonId::Back, true);
    let again = cfg.stored_bindings("dev");
    match again.get(&ButtonId::Back) {
        Some(Binding::Gesture(map)) => {
            assert_eq!(map.get(&GestureDirection::Up), Some(&Action::Copy));
        }
        other => panic!("the stashed map must come back, got {other:?}"),
    }
}

#[test]
fn gesture_mode_belongs_to_each_button() {
    let mut cfg = Config::default();
    assert!(cfg.is_gesture_mode("dev", ButtonId::GestureButton));
    assert_eq!(cfg.gesture_mode_buttons("dev"), vec![ButtonId::GestureButton]);
    cfg.set_gesture_mode("dev", ButtonId::Forward, true);
    assert_eq!(
        cfg.gesture_mode_buttons("dev"),
        vec![ButtonId::Forward, ButtonId::GestureButton]
    );
    cfg.set_gesture_mode("dev", ButtonId::GestureButton, false);
    assert_eq!(cfg.gesture_mode_buttons("dev"), vec![ButtonId::Forward]);
    assert_eq!(
        cfg.stored_bindings("dev").get(&ButtonId::GestureButton),
        Some(&Binding::Single(default_binding(ButtonId::GestureButton)))
    );
}

#[test]
fn a_long_press_is_pressed_short() {
    let binding = Binding::LongPress(LongPress::new(Action::ShowDesktop, Action::MissionControl));
    assert_eq!(binding.click_action(), Action::ShowDesktop);
    assert!(!binding.is_gesture());
}

#[test]
fn a_removed_profile_falls_back_to_the_device() {
    let mut cfg = Config::default();
    cfg.set_presenter("spot", PresenterSettings { timer_seconds: 60, ..PresenterSettings::default() });
    cfg.set_per_app_presenter(
        "spot",
        "app",
        Some(PresenterSettings { timer_seconds: 120, ..PresenterSettings::default() }),
    );
    cfg.set_per_app_binding("spot", "app", ButtonId::PresenterNext, Some(Action::Copy));
    assert!(cfg.has_app_override("spot", "app"));
    cfg.remove_app_profile("spot", "app");
    assert!(!cfg.has_app_override("spot", "app"));
    assert_eq!(cfg.effective_presenter("spot", Some("app")).timer_seconds, 60);
    assert!(cfg.per_app_overrides("spot", "app").is_none());
}

#[test]
fn presenter_settings_alone_are_no_button_override() {
    let mut cfg = Config::default();
    let app = "com.apple.Keynote";
    cfg.set_per_app_presenter("spotlight", app, Some(PresenterSettings::default()));
    assert!(!cfg.has_app_override("spotlight", app));
    cfg.set_per_app_binding("spotlight", app, ButtonId::PresenterNext, Some(Action::Copy));
    assert!(cfg.has_app_override("spotlight", app));
    cfg.set_per_app_binding("spotlight", app, ButtonId::PresenterNext, None);
    assert!(!cfg.has_app_override("spotlight", app));
    assert_eq!(cfg.app_profiles("spotlight"), vec![app]);
}

#[test]
fn a_device_identity_coexists_with_bindings() {
    let mut cfg = Config::default();
    let mouse = DeviceIdentity {
        display_name: "MX Master 3S".to_string(),
        model_info: None,
        codename: None,
        kind: DeviceKind::Mouse,
        capabilities: Capabilities {
            buttons: true,
            pointer: true,
            lighting: false,
            scroll_inversion: false,
            hires_wheel: true,
            thumbwheel: false,
            haptic_feedback: false,
            haptic_panel: false,
            presenter_controls: false,
            dpi_gestures: true,
        },
        driver_id: None,
        registry_model_id: None,
    };
    cfg.set_device_identity("2b034", mouse.duplicate());
    // Recording an identity must not disturb unrelated per-device state.
    cfg.set_binding("2b034", ButtonId::Back, Binding::Single(Action::BrowserBack));

    assert_eq!(cfg.device_identity("2b034"), Some(&mouse));
    assert_eq!(cfg.device_identity("absent"), None);
    assert_eq!(
        cfg.device("2b034").expect("device").bindings.get(&ButtonId::Back),
        Some(&Binding::Single(Action::BrowserBack)),
        "identity must coexist with bindings on the same device block"
    );
    cfg.set_device_identity("2b034", mouse.duplicate());
    assert_eq!(
        cfg.effective_bindings("2b034", None).get(&ButtonId::Back),
        Some(&Binding::Single(Action::BrowserBack))
    );
}
