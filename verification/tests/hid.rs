use openlogi::color::{parse_rgb, Rgb};
use openlogi::device::pointer_speed::PointerSpeedLevel;
use openlogi::device::presenter_control::{PresenterVibrationIntensity, PresenterVibrationLength};
use openlogi::presenter::{PointerSpeed, PresenterEffect, PresenterSettings, PresenterTimerMode};

#[test]
fn accepts_only_the_ten_firmware_levels() {
    assert_eq!(PointerSpeed::new(0), Some(PointerSpeed::min()));
    assert_eq!(PointerSpeed::new(9), Some(PointerSpeed::max()));
    assert_eq!(PointerSpeed::new(10), None);
}

#[test]
fn encodes_and_decodes_the_ten_wire_levels() {
    for level in 0..10 {
        let speed = PointerSpeedLevel::new(level).expect("valid level");
        assert_eq!(PointerSpeedLevel::from_wire(speed.wire()), Some(speed));
    }
    assert_eq!(PointerSpeedLevel::new(10), None);
    assert_eq!(PointerSpeedLevel::from_wire(0x0f), None);
    assert_eq!(PointerSpeedLevel::from_wire(0x1a), None);
}

#[test]
fn length_is_limited_to_the_firmware_range() {
    assert_eq!(PresenterVibrationLength::new(0).map(PresenterVibrationLength::get), Some(0));
    assert_eq!(PresenterVibrationLength::new(10).map(PresenterVibrationLength::get), Some(10));
    assert_eq!(PresenterVibrationLength::new(11), None);
    assert_eq!(PresenterVibrationIntensity::new(73).get(), 73);
}

#[test]
fn settings_are_normalized_for_use() {
    let settings = PresenterSettings::default();
    assert!(settings.is_default());
    assert_eq!(settings.normalized_magnification(), 200);
    let odd = PresenterSettings {
        enabled_effects: 0,
        effect: PresenterEffect::Magnify,
        effect_order: [PresenterEffect::Magnify, PresenterEffect::Magnify, PresenterEffect::Highlight],
        magnification: 3,
        timer_seconds: 60,
        timer_mode: PresenterTimerMode::Off,
        ..settings
    };
    assert!(!odd.is_default());
    assert_eq!(odd.normalized_enabled_effects(), PresenterEffect::Magnify.bit());
    assert_eq!(odd.normalized_effect_order(), settings.effect_order);
    assert_eq!(odd.normalized_magnification(), 300);
    assert_eq!(odd.normalized_timer_mode(), PresenterTimerMode::Countdown);
    assert_eq!(PresenterSettings { magnification: 20, ..odd }.normalized_magnification(), 100);
    assert_eq!(PresenterSettings { magnification: 900, ..odd }.normalized_magnification(), 500);
    assert!(!odd.effect_enabled(PresenterEffect::Highlight));
}

#[test]
fn colors_are_read_from_six_digits() {
    assert_eq!(parse_rgb("#ff3b30"), Some(Rgb::new(0xff, 0x3b, 0x30)));
    assert_eq!(parse_rgb("  ##00FF7a "), Some(Rgb::new(0x00, 0xff, 0x7a)));
    assert_eq!(parse_rgb("12345"), None);
    assert_eq!(parse_rgb("12345g"), None);
    assert_eq!(parse_rgb(""), None);
    assert_eq!(Rgb::new(0x12, 0x34, 0x56).packed(), 0x12_34_56);
}
