//! The profile selector and the presenter panel.

use openlogi::binding::{Action, ButtonId};
use openlogi::color::Rgb;
use openlogi::config::identity::{DeviceModelInfo, DeviceTransports};
use openlogi::desktop::assets::{
    correct_name, resolve_in_index, variant_display_name_override, DeviceEntry, Index,
};
use openlogi::desktop::events::{DeviceKey, Event};
use openlogi::desktop::presenter_texts::{
    inspector_heading, preset_label, section_label, speed_message, switch_text, timer_mode_label,
};
use openlogi::desktop::presenter_panel::{
    buttons_inspector, color_swatches, count_ones, custom_color, custom_timer, effect_card,
    options_panel, presenter_stage, presenter_timer_label, setting_slider, settings_sliders, stage_caption,
    speed_panel, timer_inspector, vibration_inspector, HoldLabel, PresenterControlsView,
    PresenterEdit, PresenterSection, SettingSwitch, SettingsSliderKind, SpeedPanel, SpeedSlider,
};
use openlogi::desktop::profiles::{
    application_initial, default_tab, friendly_app_name, profile_options, profile_scope_content,
    profile_scope_model,
    profile_summary, profile_tabs, selected_profile, sort_by_keys, Confirmation, ProfileChoice, ProfileCommand,
    ProfileQuestion, ProfileSummary,
};
use openlogi::desktop::state::Load;
use openlogi::presenter::{PointerSpeed, PresenterEffect, PresenterSettings, PresenterTimerMode};
use openlogi::table::Table;
use openlogi::text::split_words;

#[test]
fn profile_identifiers_have_a_readable_fallback() {
    assert_eq!(friendly_app_name("com.google.Chrome"), "Chrome");
    assert_eq!(friendly_app_name("exe:C:\\Tools\\Zed.exe"), "Zed");
}

fn choice(app: &str, name: &str, persisted: bool) -> ProfileChoice {
    ProfileChoice { app: app.into(), name: name.into(), persisted }
}

#[test]
fn profiles_are_listed_by_name_whatever_its_case() {
    let model = profile_scope_model(
        Some("open".into()),
        vec![choice("b", "beta", true), choice("a", "Alpha", true), choice("e", "Éclair", true)],
        &vec![
            ("open".to_string(), "Delta".to_string()),
            ("a".to_string(), "Alpha".to_string()),
            ("new".to_string(), "Gamma".to_string()),
        ],
    );
    let names: Vec<_> = model.profiles.iter().map(|choice| choice.name.as_str()).collect();
    assert_eq!(names, ["Alpha", "beta", "Delta", "Éclair"]);
    let recent: Vec<_> = model.recent.iter().map(|choice| choice.app.as_str()).collect();
    assert_eq!(recent, ["new"]);
    assert_eq!(selected_profile(&model).map(|choice| choice.name.as_str()), Some("Delta"));

    let tabs = profile_tabs("tabs", &model);
    assert_eq!(tabs[2].id, "tabs:app:open");
    assert!(tabs[2].selected);
    assert!(!default_tab("tabs", &model).selected);
}

#[test]
fn a_name_is_sorted_by_its_lower_case_form() {
    let model = profile_scope_model(
        None,
        vec![choice("1", "ÉTÉ", true), choice("2", "éta", true)],
        &Vec::new(),
    );
    let names: Vec<_> = model.profiles.iter().map(|choice| choice.name.as_str()).collect();
    assert_eq!(names, ["éta", "ÉTÉ"]);
}

#[test]
fn a_removal_is_asked_about_only_where_something_is_stored() {
    assert!(matches!(ProfileCommand::RemoveButtons.confirm(false), Confirmation::ApplyAtOnce));
    assert!(matches!(
        ProfileCommand::RemoveButtons.confirm(true),
        Confirmation::Ask(ProfileQuestion::RemoveProfile)
    ));
    let options = profile_options(&choice("a", "A", false));
    assert!(!options.reset_enabled);
    assert!(!options.remove_asks);
    assert!(matches!(profile_summary(None, 3), ProfileSummary::DefaultBindings));
    assert!(matches!(profile_summary(Some("a"), 0), ProfileSummary::NoOverrides));
    assert!(matches!(profile_summary(Some("a"), 1), ProfileSummary::SingleOverride));
    assert!(matches!(profile_summary(Some("a"), 4), ProfileSummary::OverrideCount(4)));
    assert_eq!(application_initial(" chrome"), 'c');
    assert_eq!(application_initial(" "), '?');
}

#[test]
fn moving_an_effect_down_and_up_again_restores_the_order() {
    let settings = PresenterSettings::default();
    let down = PresenterEdit::MoveDown(0).apply(settings);
    assert_eq!(down.effect_order[0], settings.effect_order[1]);
    assert_eq!(PresenterEdit::MoveUp(1).apply(down).effect_order, settings.effect_order);
    assert_eq!(PresenterEdit::MoveUp(0).apply(settings).effect_order, settings.effect_order);
}

#[test]
fn the_last_effect_cannot_be_disabled() {
    let mut settings = PresenterSettings::default();
    for effect in [
        PresenterEffect::DigitalLaser,
        PresenterEffect::Highlight,
        PresenterEffect::Magnify,
    ] {
        settings = PresenterEdit::Enable(effect, false).apply(settings);
    }
    assert_eq!(count_ones(settings.enabled_effects), 1);
    assert_eq!(count_ones(0b1011), 3);
}

#[test]
fn sliders_are_kept_within_their_range() {
    let settings = PresenterSettings::default();
    let far = PresenterEdit::Slide(SettingsSliderKind::Magnification, 9000).apply(settings);
    assert_eq!(far.magnification, 500);
    let near = PresenterEdit::Slide(SettingsSliderKind::VibrationIntensity, -4).apply(settings);
    assert_eq!(near.vibration_intensity, 0);
    for (slid, contrast) in [(10, 25), (24, 25), (25, 25), (60, 60), (101, 100)] {
        let edited = PresenterEdit::Slide(SettingsSliderKind::HighlightContrast, slid).apply(settings);
        assert_eq!(edited.effect_contrast, contrast);
    }
    let contrast = settings_sliders(settings)[0];
    assert_eq!((contrast.min, contrast.max, contrast.value), (25, 100, 100));
    for slider in settings_sliders(settings) {
        assert!(slider.min <= slider.value && slider.value <= slider.max);
    }
}

#[test]
fn typed_values_become_edits() {
    assert!(matches!(custom_timer(" 25 "), Some(PresenterEdit::TimerMinutes(25))));
    assert!(matches!(custom_timer("+7"), Some(PresenterEdit::TimerMinutes(7))));
    assert!(custom_timer("").is_none());
    assert!(custom_timer("70000").is_none());
    assert!(custom_timer("2 5").is_none());
    assert!(matches!(
        custom_color("#ff3b30", false),
        Some(PresenterEdit::LaserColor(color)) if color == Rgb::new(0xff, 0x3b, 0x30)
    ));
    assert!(matches!(custom_color("00ff00", true), Some(PresenterEdit::LensColor(_))));
    assert!(custom_color("red", true).is_none());
}

#[test]
fn a_countdown_is_as_long_as_the_timer_can_hold() {
    let settings = PresenterSettings::default();
    let edited = PresenterEdit::TimerMinutes(25).apply(settings);
    assert_eq!(edited.timer_seconds, 1500);
    let longest = PresenterEdit::TimerMinutes(5000).apply(settings);
    assert_eq!(longest.timer_seconds, 1092 * 60);
    let counting = PresenterEdit::TimerMode(PresenterTimerMode::Countdown).apply(settings);
    assert_eq!(counting.normalized_timer_mode(), PresenterTimerMode::Countdown);
    assert_eq!(presenter_timer_label(edited), "Countdown 25 min");
    assert_eq!(presenter_timer_label(settings), "Timer disabled");
}

#[test]
fn the_panel_spells_its_values_out() {
    let settings = PresenterSettings::default();
    assert_eq!(setting_slider(SettingsSliderKind::Magnification, settings).value, "2.00×");
    let bindings: Table<ButtonId, Action> = Table::new();
    let stage = presenter_stage(PresenterSection::Buttons, settings, &bindings);
    assert_eq!(stage.pointer, "3 pointer effects");
    assert!(matches!(stage.next, HoldLabel::StartPresentation));
    assert!(matches!(stage.back, HoldLabel::BlankScreen));
    assert!(stage.caption.starts_with("Hold Pointer to aim. Double-click cycles effects."));
    assert_eq!(
        stage_caption(PresenterSection::Timer),
        "The timer starts on the first slide navigation and remains visible while presenting."
    );
    assert_eq!(
        stage_caption(PresenterSection::Vibration),
        "Spotlight vibrates for timer and low-battery alerts without interrupting the slide show."
    );
    let card = effect_card(0, settings.effect_order[0], settings);
    assert!(card.label.starts_with("1. "));
    assert!(!card.can_move_up);
    assert!(card.can_move_down);
}

#[test]
fn the_inspectors_show_the_settings() {
    let settings = PresenterSettings {
        timer_mode: PresenterTimerMode::Countdown,
        timer_seconds: 900,
        ..PresenterSettings::default()
    };
    let mut bindings = Table::new();
    bindings.insert(ButtonId::PresenterNextHold, Action::Undo);
    let inspector = buttons_inspector(settings, &bindings);
    assert_eq!(inspector.cards.len(), 3);
    assert_eq!(inspector.cards.iter().map(|card| card.preview).collect::<Vec<_>>(), [true, false, false]);
    assert!(inspector.cards[0].swatches.is_none() && inspector.cards[1].swatches.is_none());
    assert_eq!(inspector.cards[2].swatches, Some(color_swatches(settings.effect_color)));
    assert!(inspector
        .rows
        .iter()
        .any(|row| row.button == ButtonId::PresenterNextHold && row.action == Some(Action::Undo)));
    let timer = timer_inspector(settings);
    assert_eq!(timer.mode, PresenterTimerMode::Countdown);
    assert_eq!(
        timer.modes.iter().map(|choice| choice.selected).collect::<Vec<_>>(),
        [false, false, true]
    );
    assert_eq!(
        timer.modes.iter().map(|choice| timer_mode_label(choice.mode)).collect::<Vec<_>>(),
        ["Off", "Clock", "Countdown"]
    );
    assert!(timer.presets.expect("a countdown has presets").iter().any(|p| p.minutes == 15 && p.selected));
    assert!(timer_inspector(PresenterSettings::default()).presets.is_none());
    assert_eq!(vibration_inspector(settings).alerts.len(), 2);
    assert!(options_panel(settings)
        .iter()
        .any(|state| state.switch == SettingSwitch::CursorControl));
    let swatches = color_swatches(settings.effect_color);
    assert_eq!(swatches.iter().filter(|swatch| swatch.selected).count(), 1);
}

#[test]
fn texts_follow_what_is_shown() {
    assert_eq!(section_label(PresenterSection::Vibration), "Vibration");
    assert_eq!(section_label(PresenterSection::Buttons), "Buttons");
    assert_eq!(inspector_heading(PresenterSection::Timer).title, "Presentation timer");
    assert_eq!(
        inspector_heading(PresenterSection::Buttons).subtitle,
        "Configure motion, ordered pointer effects, and every physical press."
    );
    assert_eq!(switch_text(SettingSwitch::Freeze).title, "Freeze after release");
    assert_eq!(
        switch_text(SettingSwitch::TimerAlert).subtitle,
        "Vibrate when the configured countdown finishes."
    );
    assert_eq!(preset_label(15), "15 min");
    let level = PointerSpeed::new(4).expect("level");
    assert_eq!(speed_message(&speed_panel(Load::Ready(level), true)), None);
    assert_eq!(
        speed_message(&speed_panel(Load::Loading, true)).as_deref(),
        Some("Reading pointer speed…")
    );
    assert_eq!(
        speed_message(&speed_panel(Load::Unknown, true)).as_deref(),
        Some("Pointer speed unavailable")
    );
    assert_eq!(
        speed_message(&speed_panel(Load::Failed("no answer".into()), true)).as_deref(),
        Some("no answer")
    );
}

#[test]
fn the_speed_slider_follows_the_device() {
    let mut view = PresenterControlsView::new();
    let key = DeviceKey::new("unit:1");
    let speed = PointerSpeed::new(4).expect("a level");
    assert!(matches!(
        view.ensure_speed_slider(&key, speed, 0),
        SpeedSlider::Create { min: 0, max: 9, value: 4 }
    ));
    assert!(matches!(view.ensure_speed_slider(&key, speed, 4), SpeedSlider::Keep));
    assert!(matches!(view.ensure_speed_slider(&key, speed, 2), SpeedSlider::Move(4)));
    assert!(matches!(speed_panel(Load::Loading, true), SpeedPanel::Reading));
    assert!(matches!(
        speed_panel(Load::Unsupported("no".into()), true),
        SpeedPanel::Unsupported(_)
    ));
    assert!(PresenterControlsView::repaints_on(&Event::InventoryChanged));
}

fn mx_master_3s_index(model_ids: Vec<String>) -> Index {
    let mut devices = Table::new();
    devices.insert(
        "mx_master_3s".to_string(),
        DeviceEntry {
            model_id: "2b043".to_string(),
            model_ids,
            display_name: "MX Master 3S".to_string(),
        },
    );
    Index { devices }
}

fn legacy_mx_master_3s_index() -> Index {
    mx_master_3s_index(Vec::new())
}

fn btle_3s_model() -> DeviceModelInfo {
    DeviceModelInfo {
        entity_count: 0,
        serial_number: None,
        unit_id: [0; 4],
        transports: DeviceTransports { usb: false, equad: false, btle: true, bluetooth: false },
        model_ids: [0xb034, 0, 0],
        extended_model_id: 0x01,
    }
}

#[test]
fn secondary_pid_resolves_btle_3s_without_codename() {
    let index = mx_master_3s_index(vec!["2b043".into(), "2b034".into()]);
    let hit = resolve_in_index(&index, &btle_3s_model(), None);
    assert_eq!(hit.map(|(depot, _)| depot.as_str()), Some("mx_master_3s"));
}

#[test]
fn legacy_index_misses_btle_3s_by_pid() {
    let index = legacy_mx_master_3s_index();
    assert!(resolve_in_index(&index, &btle_3s_model(), None).is_none());
}

#[test]
fn codename_bridges_btle_3s_on_legacy_index() {
    let index = legacy_mx_master_3s_index();
    let hit = resolve_in_index(&index, &btle_3s_model(), Some("MX Master 3S"));
    assert_eq!(hit.map(|(depot, _)| depot.as_str()), Some("mx_master_3s"));
}

#[test]
fn a_model_in_full_goes_before_its_product() {
    let mut index = mx_master_3s_index(vec!["2b034".into()]);
    index.devices.insert(
        "z_variant".to_string(),
        DeviceEntry {
            model_id: "1b034".to_string(),
            model_ids: Vec::new(),
            display_name: "Variant".to_string(),
        },
    );
    let hit = resolve_in_index(&index, &btle_3s_model(), Some("MX Master 3S"));
    assert_eq!(hit.map(|(depot, _)| depot.as_str()), Some("z_variant"));
    let nobody = DeviceModelInfo { model_ids: [0; 3], ..btle_3s_model() };
    assert!(resolve_in_index(&index, &nobody, None).is_none());
}

#[test]
fn variant_display_name_preserves_matching_and_whitespace_rules() {
    // None means leave the catalog name untouched, including its whitespace.
    for (catalog, codename, correction) in [
        ("Signature M650 L", Some("Signature M650 Mouse"), Some("Signature M650")),
        ("Signature M650 L", Some("Signature M650 L"), None),
        ("Signature M650 L", None, None),
        ("MX Master 3S", Some("M3S"), None),
        ("MX Master 3S", Some("MX Master"), None),
        ("MX Master X", Some("MX Master"), None),
        ("Signature M650 L LEFT", Some("signature m650"), Some("Signature M650")),
        ("Signature M650 L Pro", Some("Signature M650"), None),
        ("Signature M650", Some("Signature M650 L"), None),
        ("Other M650 L", Some("Signature M650"), None),
        ("Signature M650 L", Some(" \t"), None),
        ("Signature M650 L", Some("Mouse Keyboard Trackball"), None),
        ("", Some("Signature M650"), None),
        (
            " \tSignature\u{2003}M650  l \n",
            Some("signature\tM650 mouse"),
            Some("Signature M650"),
        ),
        (" MX\tMaster 3S ", Some("MX Master"), None),
        ("Élan L", Some("Élan Mouse"), Some("Élan")),
        // Characterize existing behavior, not a new tail-only removal policy.
        ("Signature M650 L", Some("Signature Mouse M650"), Some("Signature M650")),
        ("Signature M650 L", Some("Signature M650 \u{212a}eyboard"), Some("Signature M650")),
    ] {
        assert_eq!(
            variant_display_name_override(catalog, codename).as_deref(),
            correction,
            "catalog={catalog:?}, codename={codename:?}"
        );
    }
}

#[test]
fn a_name_is_corrected_from_words_in_small_letters() {
    let words = |text: &str| -> Vec<String> { text.split(' ').map(str::to_string).collect() };
    assert_eq!(
        correct_name(&words("Lift L"), &words("lift l"), &words("lift mouse")).as_deref(),
        Some("Lift")
    );
    assert_eq!(correct_name(&words("Lift L"), &words("lift l"), &words("mouse")), None);
}

#[test]
fn choices_are_sorted_by_the_keys_they_are_given() {
    let sorted = sort_by_keys(
        vec![choice("a", "A", true), choice("b", "B", true), choice("c", "C", true)],
        vec!["2".into(), "1".into(), "2".into()],
    );
    let apps: Vec<_> = sorted.iter().map(|choice| choice.app.as_str()).collect();
    assert_eq!(apps, ["b", "a", "c"]);
}

#[test]
fn the_selector_offers_a_menu_for_the_open_profile_only() {
    let open = profile_scope_model(
        Some("a".into()),
        vec![choice("a", "Alpha", true), choice("b", "Beta", true)],
        &Vec::new(),
    );
    let content = profile_scope_content("button-profile", &open);
    assert_eq!(content.row_id, "button-profile:tabs-scroll");
    assert_eq!(content.default_tab.id, "button-profile:default");
    let labels: Vec<_> = content.tabs.iter().map(|tab| tab.label.as_deref()).collect();
    assert_eq!(labels, [Some("Alpha"), Some("Beta")]);
    let (name, options) = content.menu.expect("a profile is open");
    assert_eq!(name, "Alpha");
    assert!(options.reset_enabled);

    let closed = profile_scope_model(None, vec![choice("a", "Alpha", true)], &Vec::new());
    let content = profile_scope_content("button-profile", &closed);
    assert!(content.menu.is_none());
    assert!(content.default_tab.selected);
}

#[test]
fn a_table_keeps_its_keys_in_order() {
    let mut table: Table<String, PresenterSettings> = Table::new();
    for key in ["b", "a", "c", "b"] {
        table.insert(key.to_string(), PresenterSettings::default());
    }
    assert_eq!(table.len(), 3);
    assert_eq!(table.entry_at(0).0, "a");
    assert_eq!(table.pop_last().map(|(key, _)| key).as_deref(), Some("c"));
    assert!(table.remove(&"a".to_string()).is_some());
    assert!(table.get(&"a".to_string()).is_none());
    assert!(table.contains_key(&"b".to_string()));
}

#[test]
fn words_are_what_white_space_parts() {
    assert_eq!(split_words(" a\u{2003}b\tc "), ["a", "b", "c"]);
    assert!(split_words(" \n").is_empty());
}
