//! What the controls of the presenter's editor change, said setting by setting.

use vstd::prelude::*;
use crate::agent::presenter_laws::{mask_has, moved_between};
use crate::binding::{Action, ButtonId};
use crate::color::Rgb;
use crate::desktop::presenter_panel::{
    alert_switches, behavior_switches, bit_count, card_of, card_sliders, control_rows, digits_value,
    factor_text, is_digit, mode_choices, number_spec, pointer_text, presets_spec,
    settings_sliders_spec, slider_text, speed_text, swatches_spec, switches_spec, timer_text,
    unsigned_digits, EffectCard, PresenterEdit, PresenterSection, SettingSwitch,
    SettingsSliderKind,
};
use crate::presenter::{PointerSpeed, PresenterEffect, PresenterSettings, PresenterTimerMode};
use crate::text::{decimal, two_digits};
use crate::text_laws::{decimal_number, law_decimal_numbers_read_back};

verus! {

/// A slider sets its own setting to where it is put, or to the nearer end of its
/// range, and no other setting.
pub proof fn law_a_slider_sets_its_own_setting(
    settings: PresenterSettings,
    kind: SettingsSliderKind,
    value: i32,
)
    ensures
        ({
            let after = PresenterEdit::Slide(kind, value).applied(settings);
            match kind {
                SettingsSliderKind::HighlightContrast => moved_between(
                    after.effect_contrast as int,
                    value as int,
                    25,
                    100,
                ) && after == (PresenterSettings {
                    effect_contrast: after.effect_contrast,
                    ..settings
                }),
                SettingsSliderKind::HighlightRadius => moved_between(
                    after.spotlight_radius as int,
                    value as int,
                    50,
                    320,
                ) && after == (PresenterSettings {
                    spotlight_radius: after.spotlight_radius,
                    ..settings
                }),
                SettingsSliderKind::MagnifierRadius => moved_between(
                    after.magnifier_radius as int,
                    value as int,
                    50,
                    240,
                ) && after == (PresenterSettings {
                    magnifier_radius: after.magnifier_radius,
                    ..settings
                }),
                SettingsSliderKind::Magnification => moved_between(
                    after.magnification as int,
                    value as int,
                    125,
                    500,
                ) && after == (PresenterSettings {
                    magnification: after.magnification,
                    ..settings
                }),
                SettingsSliderKind::LaserSize => moved_between(
                    after.effect_size as int,
                    value as int,
                    50,
                    200,
                ) && after == (PresenterSettings { effect_size: after.effect_size, ..settings }),
                SettingsSliderKind::VibrationIntensity => moved_between(
                    after.vibration_intensity as int,
                    value as int,
                    0,
                    100,
                ) && after == (PresenterSettings {
                    vibration_intensity: after.vibration_intensity,
                    ..settings
                }),
            }
        }),
{
}

/// A slider stands where its own setting is, whatever it moves in steps of; moved
/// there and made anew, it stands where it was put.
pub proof fn law_a_slider_stands_where_its_setting_is(
    settings: PresenterSettings,
    kind: SettingsSliderKind,
    value: i32,
)
    ensures
        ({
            let slider = kind.spec_in(settings);
            let moved = kind.spec_in(PresenterEdit::Slide(kind, value).applied(settings));
            &&& slider.kind == kind
            &&& slider.value == match kind {
                SettingsSliderKind::HighlightContrast => settings.effect_contrast as u16,
                SettingsSliderKind::HighlightRadius => settings.spotlight_radius,
                SettingsSliderKind::MagnifierRadius => settings.magnifier_radius,
                SettingsSliderKind::Magnification => if 2 <= settings.magnification <= 5 {
                    (100 * settings.magnification) as u16
                } else if settings.magnification < 100 {
                    100
                } else if settings.magnification > 500 {
                    500
                } else {
                    settings.magnification
                },
                SettingsSliderKind::LaserSize => settings.effect_size as u16,
                SettingsSliderKind::VibrationIntensity => settings.vibration_intensity as u16,
            }
            &&& slider.step == if kind == SettingsSliderKind::Magnification {
                5u16
            } else {
                1u16
            }
            &&& moved_between(moved.value as int, value as int, moved.min as int, moved.max as int)
            &&& moved.min == slider.min && moved.max == slider.max
        }),
{
}

/// The editor has one slider for each setting that slides, each in its range.
pub proof fn law_every_slider_is_made_once(settings: PresenterSettings, kind: SettingsSliderKind)
    ensures
        ({
            let sliders = settings_sliders_spec(settings);
            &&& sliders.len() == 6
            &&& exists|i: int| 0 <= i < 6 && #[trigger] sliders[i] == kind.spec_in(settings)
            &&& forall|i: int, j: int|
                0 <= i < j < 6 ==> (#[trigger] sliders[i]).kind != (#[trigger] sliders[j]).kind
        }),
        SettingsSliderKind::HighlightContrast.spec_in(settings).min == 25
            && SettingsSliderKind::HighlightContrast.spec_in(settings).max == 100,
        SettingsSliderKind::HighlightRadius.spec_in(settings).min == 50
            && SettingsSliderKind::HighlightRadius.spec_in(settings).max == 320,
        SettingsSliderKind::MagnifierRadius.spec_in(settings).min == 50
            && SettingsSliderKind::MagnifierRadius.spec_in(settings).max == 240,
        SettingsSliderKind::Magnification.spec_in(settings).min == 125
            && SettingsSliderKind::Magnification.spec_in(settings).max == 500,
        SettingsSliderKind::LaserSize.spec_in(settings).min == 50
            && SettingsSliderKind::LaserSize.spec_in(settings).max == 200,
        SettingsSliderKind::VibrationIntensity.spec_in(settings).min == 0
            && SettingsSliderKind::VibrationIntensity.spec_in(settings).max == 100,
{
    let sliders = settings_sliders_spec(settings);
    let i: int = match kind {
        SettingsSliderKind::HighlightContrast => 0,
        SettingsSliderKind::HighlightRadius => 1,
        SettingsSliderKind::MagnifierRadius => 2,
        SettingsSliderKind::Magnification => 3,
        SettingsSliderKind::LaserSize => 4,
        SettingsSliderKind::VibrationIntensity => 5,
    };
    assert(sliders[i] == kind.spec_in(settings));
}

/// A switch turns its own setting on or off, and shows it, and touches no other.
pub proof fn law_a_switch_turns_its_own_setting(
    settings: PresenterSettings,
    switch: SettingSwitch,
    on: bool,
)
    ensures
        ({
            let after = PresenterEdit::Switch(switch, on).applied(settings);
            &&& switch.on_in(after) == on
            &&& match switch {
                SettingSwitch::CursorControl => after.cursor_control == on && after == (
                PresenterSettings { cursor_control: on, ..settings }),
                SettingSwitch::Recenter => after.recenter_pointer == on && after == (
                PresenterSettings { recenter_pointer: on, ..settings }),
                SettingSwitch::Freeze => after.freeze_effect == on && after == (PresenterSettings {
                    freeze_effect: on,
                    ..settings
                }),
                SettingSwitch::LowBatteryAlert => after.low_battery_alert == on && after == (
                PresenterSettings { low_battery_alert: on, ..settings }),
                SettingSwitch::TimerAlert => after.haptic_alerts == on && after == (
                PresenterSettings { haptic_alerts: on, ..settings }),
            }
        }),
{
}

/// Moving an effect up swaps it with the one before it, moving it down with the one
/// behind it; the first cannot go up, nor the last down. Nothing else changes.
pub proof fn law_moving_swaps_neighbours(settings: PresenterSettings, index: usize)
    requires
        index < 3,
    ensures
        ({
            let old_order = settings.effect_order@;
            let up = PresenterEdit::MoveUp(index).applied(settings);
            let down = PresenterEdit::MoveDown(index).applied(settings);
            let i = index as int;
            &&& up == (PresenterSettings { effect_order: up.effect_order, ..settings })
            &&& down == (PresenterSettings { effect_order: down.effect_order, ..settings })
            &&& i == 0 ==> up == settings
            &&& i == 2 ==> down == settings
            &&& i > 0 ==> up.effect_order@[i - 1] == old_order[i] && up.effect_order@[i]
                == old_order[i - 1] && forall|k: int|
                0 <= k < 3 && k != i && k != i - 1 ==> up.effect_order@[k] == old_order[k]
            &&& i < 2 ==> down.effect_order@[i + 1] == old_order[i] && down.effect_order@[i]
                == old_order[i + 1] && forall|k: int|
                0 <= k < 3 && k != i && k != i + 1 ==> down.effect_order@[k] == old_order[k]
        }),
{
}

proof fn lemma_low_bits(mask: u8)
    ensures
        (mask & 1 != 0) == (mask % 2 == 1),
        (mask & 2 != 0) == ((mask / 2) % 2 == 1),
        (mask & 4 != 0) == ((mask / 4) % 2 == 1),
        bit_count(mask as nat) == mask % 2 + (mask / 2) % 2 + (mask / 4) % 2 + bit_count(
            (mask / 8) as nat,
        ),
{
    assert((mask & 1 != 0) == (mask % 2 == 1) && (mask & 2 != 0) == ((mask / 2) % 2 == 1) && (mask
        & 4 != 0) == ((mask / 4) % 2 == 1)) by (bit_vector);
    reveal_with_fuel(bit_count, 4);
    let m = mask as nat;
    assert(m / 2 / 2 == m / 4 && m / 4 / 2 == m / 8);
    if m == 0 {
    } else if m / 2 == 0 {
        assert(m / 4 == 0 && m / 8 == 0);
    } else if m / 4 == 0 {
        assert(m / 8 == 0);
    }
}

proof fn lemma_set_and_cleared(mask: u8)
    ensures
        ((mask | 1) & 1 != 0) && ((mask | 1) & 2 == mask & 2) && ((mask | 1) & 4 == mask & 4),
        ((mask | 2) & 2 != 0) && ((mask | 2) & 1 == mask & 1) && ((mask | 2) & 4 == mask & 4),
        ((mask | 4) & 4 != 0) && ((mask | 4) & 1 == mask & 1) && ((mask | 4) & 2 == mask & 2),
        ((mask & !1u8) & 1 == 0) && ((mask & !1u8) & 2 == mask & 2) && ((mask & !1u8) & 4 == mask
            & 4),
        ((mask & !2u8) & 2 == 0) && ((mask & !2u8) & 1 == mask & 1) && ((mask & !2u8) & 4 == mask
            & 4),
        ((mask & !4u8) & 4 == 0) && ((mask & !4u8) & 1 == mask & 1) && ((mask & !4u8) & 2 == mask
            & 2),
{
    assert(((mask | 1) & 1 != 0) && ((mask | 1) & 2 == mask & 2) && ((mask | 1) & 4 == mask & 4)
        && ((mask | 2) & 2 != 0) && ((mask | 2) & 1 == mask & 1) && ((mask | 2) & 4 == mask & 4)
        && ((mask | 4) & 4 != 0) && ((mask | 4) & 1 == mask & 1) && ((mask | 4) & 2 == mask & 2)
        && ((mask & !1u8) & 1 == 0) && ((mask & !1u8) & 2 == mask & 2) && ((mask & !1u8) & 4 == mask
        & 4) && ((mask & !2u8) & 2 == 0) && ((mask & !2u8) & 1 == mask & 1) && ((mask & !2u8) & 4
        == mask & 4) && ((mask & !4u8) & 4 == 0) && ((mask & !4u8) & 1 == mask & 1) && ((mask
        & !4u8) & 2 == mask & 2)) by (bit_vector);
}

/// Enabling an effect enables it alone. Disabling one disables it alone, as long as
/// another effect is enabled; the only one stays. Nothing but the mask changes.
pub proof fn law_enabling_changes_one_effect(
    settings: PresenterSettings,
    effect: PresenterEffect,
    other: PresenterEffect,
    enabled: bool,
)
    requires
        other != effect,
    ensures
        ({
            let mask = settings.enabled_effects;
            let after = PresenterEdit::Enable(effect, enabled).applied(settings);
            let next = after.enabled_effects;
            &&& after == (PresenterSettings { enabled_effects: next, ..settings })
            &&& mask_has(next, other) == mask_has(mask, other)
            &&& enabled ==> mask_has(next, effect)
            &&& !enabled && mask_has(mask, other) ==> !mask_has(next, effect)
            &&& !enabled && mask < 8 && (forall|e: PresenterEffect|
                e != effect ==> !#[trigger] mask_has(mask, e)) ==> next == mask
        }),
{
    let mask = settings.enabled_effects;
    lemma_low_bits(mask);
    lemma_set_and_cleared(mask);
    if !enabled && mask < 8 && (forall|e: PresenterEffect|
        e != effect ==> !#[trigger] mask_has(mask, e)) {
        assert(mask_has(mask, PresenterEffect::DigitalLaser) ==> effect
            == PresenterEffect::DigitalLaser);
        assert(mask_has(mask, PresenterEffect::Highlight) ==> effect == PresenterEffect::Highlight);
        assert(mask_has(mask, PresenterEffect::Magnify) ==> effect == PresenterEffect::Magnify);
        assert(mask / 8 == 0);
    }
    if !enabled && mask_has(mask, other) && mask_has(mask, effect) {
        assert(bit_count(mask as nat) > 1);
    }
    if !enabled && !mask_has(mask, effect) {
        assert(!mask_has(
            PresenterEdit::Enable(effect, enabled).applied(settings).enabled_effects,
            effect,
        ));
    }
}

/// The editor counts the enabled effects.
pub proof fn law_the_enabled_effects_are_counted(mask: u8)
    requires
        mask < 8,
    ensures
        bit_count(mask as nat) == (if mask_has(mask, PresenterEffect::DigitalLaser) {
            1int
        } else {
            0
        }) + (if mask_has(mask, PresenterEffect::Highlight) {
            1int
        } else {
            0
        }) + (if mask_has(mask, PresenterEffect::Magnify) {
            1int
        } else {
            0
        }),
{
    lemma_low_bits(mask);
    assert(mask / 8 == 0);
}

/// Selecting an effect selects it and enables it, and changes nothing else: the
/// other effects stay as they were.
pub proof fn law_selecting_enables(
    settings: PresenterSettings,
    effect: PresenterEffect,
    other: PresenterEffect,
)
    requires
        other != effect,
    ensures
        ({
            let after = PresenterEdit::SelectEffect(effect).applied(settings);
            &&& after.effect == effect
            &&& mask_has(after.enabled_effects, effect)
            &&& mask_has(after.enabled_effects, other) == mask_has(settings.enabled_effects, other)
            &&& after == (PresenterSettings {
                effect: after.effect,
                enabled_effects: after.enabled_effects,
                ..settings
            })
        }),
{
    lemma_set_and_cleared(settings.enabled_effects);
}

/// A color goes to the laser or to the lens it was chosen for, and nowhere else.
pub proof fn law_a_color_is_set_where_it_was_chosen(settings: PresenterSettings, color: Rgb)
    ensures
        ({
            let laser = PresenterEdit::LaserColor(color).applied(settings);
            let lens = PresenterEdit::LensColor(color).applied(settings);
            &&& laser.effect_color == color && laser.magnifier_color == settings.magnifier_color
            &&& lens.magnifier_color == color && lens.effect_color == settings.effect_color
            &&& laser == (PresenterSettings { effect_color: color, ..settings })
            &&& lens == (PresenterSettings { magnifier_color: color, ..settings })
        }),
{
}

/// Choosing a mode chooses it; a countdown without a length gets a quarter of an
/// hour, and a length that is there stays. Choosing minutes chooses a countdown of
/// that many, at least one and at most as many as the seconds can hold. Nothing else
/// changes.
pub proof fn law_a_timer_is_what_was_chosen(
    settings: PresenterSettings,
    mode: PresenterTimerMode,
    minutes: u16,
)
    ensures
        ({
            let chosen = PresenterEdit::TimerMode(mode).applied(settings);
            let typed = PresenterEdit::TimerMinutes(minutes).applied(settings);
            &&& chosen.timer_mode == mode
            &&& chosen.timer_seconds == if settings.timer_seconds == 0 && mode
                == PresenterTimerMode::Countdown {
                900int
            } else {
                settings.timer_seconds as int
            }
            &&& typed.timer_mode == PresenterTimerMode::Countdown
            &&& typed.timer_seconds % 60 == 0
            &&& moved_between((typed.timer_seconds / 60) as int, minutes as int, 1, 1092)
            &&& chosen == (PresenterSettings {
                timer_mode: chosen.timer_mode,
                timer_seconds: chosen.timer_seconds,
                ..settings
            })
            &&& typed == (PresenterSettings {
                timer_mode: typed.timer_mode,
                timer_seconds: typed.timer_seconds,
                ..settings
            })
        }),
{
}

proof fn lemma_digits(s: Seq<char>)
    requires
        forall|i: int| 0 <= i < s.len() ==> is_digit(#[trigger] s[i]),
    ensures
        digits_value(s) == decimal_number(s),
    decreases s.len(),
{
    if s.len() > 0 {
        let front = s.drop_last();
        assert forall|i: int| 0 <= i < front.len() implies is_digit(#[trigger] front[i]) by {
            assert(front[i] == s[i]);
        }
        lemma_digits(front);
        assert(is_digit(s[s.len() - 1]));
    }
}

/// A number of 16 bits that was typed in decimal is read as itself, with or without
/// a plus in front; a larger one, an empty text, and a text with anything but digits
/// behind its first character are no number.
pub proof fn law_a_typed_number_is_read(n: nat, text: Seq<char>, i: int)
    ensures
        n <= 65535 ==> number_spec(decimal(n)) == Some(n as u16) && number_spec(
            seq!['+'] + decimal(n),
        ) == Some(n as u16),
        n > 65535 ==> number_spec(decimal(n)) is None,
        number_spec(Seq::empty()) is None,
        0 < i < text.len() && !('0' <= text[i] <= '9') ==> number_spec(text) is None,
{
    law_decimal_numbers_read_back(n);
    let d = decimal(n);
    assert forall|k: int| 0 <= k < d.len() implies is_digit(#[trigger] d[k]) by {
        assert('0' <= d[k] <= '9');
    }
    lemma_digits(d);
    assert(d[0] != '+');
    assert(unsigned_digits(d) == d);
    let signed = seq!['+'] + d;
    assert(signed[0] == '+');
    assert(unsigned_digits(signed) =~= d);
    if 0 < i < text.len() && !('0' <= text[i] <= '9') {
        let digits = unsigned_digits(text);
        let at = if text[0] == '+' {
            i - 1
        } else {
            i
        };
        assert(digits[at] == text[i]);
        assert(!is_digit(digits[at]));
    }
}

/// The swatches are eight colors; the one that is set is marked, and no other.
pub proof fn law_the_set_color_is_marked(color: Rgb, i: int)
    requires
        0 <= i < 8,
    ensures
        swatches_spec(color).len() == 8,
        swatches_spec(color)[i].selected == (swatches_spec(color)[i].color == color),
{
}

/// The presets are a quarter of an hour, half an hour and an hour; one is marked
/// exactly when the countdown has that length.
pub proof fn law_the_set_preset_is_marked(settings: PresenterSettings)
    ensures
        ({
            let presets = presets_spec(settings);
            &&& presets.len() == 3
            &&& presets[0].minutes == 15 && presets[1].minutes == 30 && presets[2].minutes == 60
            &&& presets[0].selected == (settings.timer_seconds == 900)
            &&& presets[1].selected == (settings.timer_seconds == 1800)
            &&& presets[2].selected == (settings.timer_seconds == 3600)
        }),
{
}

/// Exactly the mode in force is marked, where a length without a mode counts down.
pub proof fn law_the_mode_in_force_is_marked(settings: PresenterSettings)
    ensures
        ({
            let modes = mode_choices(settings);
            let counts = settings.timer_mode == PresenterTimerMode::Countdown || (
            settings.timer_mode == PresenterTimerMode::Off && settings.timer_seconds > 0);
            &&& modes.len() == 3
            &&& modes[0].mode == PresenterTimerMode::Off
            &&& modes[1].mode == PresenterTimerMode::CurrentTime
            &&& modes[2].mode == PresenterTimerMode::Countdown
            &&& modes[2].selected == counts
            &&& modes[1].selected == (settings.timer_mode == PresenterTimerMode::CurrentTime)
            &&& modes[0].selected == (!modes[1].selected && !modes[2].selected)
        }),
{
}

/// The inspectors show each of the five switches once, as its setting is.
pub proof fn law_every_switch_is_shown(settings: PresenterSettings)
    ensures
        ({
            let behavior = switches_spec(behavior_switches(), settings);
            let alerts = switches_spec(alert_switches(), settings);
            &&& behavior.len() == 3 && alerts.len() == 2
            &&& behavior[0].switch == SettingSwitch::CursorControl && behavior[0].checked
                == settings.cursor_control
            &&& behavior[1].switch == SettingSwitch::Recenter && behavior[1].checked
                == settings.recenter_pointer
            &&& behavior[2].switch == SettingSwitch::Freeze && behavior[2].checked
                == settings.freeze_effect
            &&& alerts[0].switch == SettingSwitch::LowBatteryAlert && alerts[0].checked
                == settings.low_battery_alert
            &&& alerts[1].switch == SettingSwitch::TimerAlert && alerts[1].checked
                == settings.haptic_alerts
        }),
{
}

/// The four buttons of a presenter are shown, each with the action it is bound to.
pub proof fn law_every_presenter_button_is_shown(bindings: Map<ButtonId, Action>, i: int)
    requires
        0 <= i < 4,
    ensures
        ({
            let rows = control_rows(bindings);
            &&& rows.len() == 4
            &&& rows[0].button == ButtonId::PresenterNext
            &&& rows[1].button == ButtonId::PresenterNextHold
            &&& rows[2].button == ButtonId::PresenterBack
            &&& rows[3].button == ButtonId::PresenterBackHold
            &&& bindings.dom().contains(rows[i].button) ==> rows[i].action == Some(
                bindings[rows[i].button],
            )
            &&& !bindings.dom().contains(rows[i].button) ==> rows[i].action is None
        }),
{
}

/// The card at a place is that of the effect there in the stored order: marked as
/// enabled and selected as the settings say, with arrows where it can move, and with
/// its own sliders and colors.
pub proof fn law_a_card_shows_its_effect(card: EffectCard, i: int, settings: PresenterSettings)
    requires
        0 <= i < 3,
        card_of(card, i, settings),
        crate::agent::presenter_laws::different(settings.effect_order@),
    ensures
        ({
            let effect = settings.effect_order@[i];
            &&& card.enabled == mask_has(settings.enabled_effects, effect)
            &&& card.selected == (settings.effect == effect)
            &&& card.can_move_up == (i > 0)
            &&& card.can_move_down == (i < 2)
            &&& card.preview == (effect == PresenterEffect::Highlight)
            &&& (card.swatches is Some) == (effect == PresenterEffect::DigitalLaser)
            &&& card.sliders@.len() == if effect == PresenterEffect::DigitalLaser {
                1int
            } else {
                2
            }
            &&& effect == PresenterEffect::Highlight ==> card.sliders@[0].kind
                == SettingsSliderKind::HighlightContrast && card.sliders@[1].kind
                == SettingsSliderKind::HighlightRadius
            &&& effect == PresenterEffect::Magnify ==> card.sliders@[0].kind
                == SettingsSliderKind::MagnifierRadius && card.sliders@[1].kind
                == SettingsSliderKind::Magnification
            &&& effect == PresenterEffect::DigitalLaser ==> card.sliders@[0].kind
                == SettingsSliderKind::LaserSize
        }),
{
    let effect = settings.effect_order@[i];
    let shown = crate::desktop::presenter_panel::sliders_view(card.sliders@);
    let texts = crate::desktop::presenter_panel::slider_texts(card_sliders(effect), settings);
    assert(shown.len() == texts.len());
    assert(shown[0].kind == texts[0].kind);
    if effect != PresenterEffect::DigitalLaser {
        assert(shown[1].kind == texts[1].kind);
    }
}

/// The texts beside the sliders, the pointer and the timer hold the numbers that the
/// settings hold, in decimal; a factor holds its hundredths behind a point.
pub proof fn law_the_texts_hold_the_numbers(settings: PresenterSettings, percent: nat)
    ensures
        slider_text(SettingsSliderKind::HighlightContrast, settings).value == decimal(
            settings.effect_contrast as nat,
        ) + "%"@,
        slider_text(SettingsSliderKind::HighlightRadius, settings).value == decimal(
            settings.spotlight_radius as nat,
        ) + " pt"@,
        slider_text(SettingsSliderKind::MagnifierRadius, settings).value == decimal(
            settings.magnifier_radius as nat,
        ) + " pt"@,
        slider_text(SettingsSliderKind::LaserSize, settings).value == decimal(
            settings.effect_size as nat,
        ) + "%"@,
        slider_text(SettingsSliderKind::VibrationIntensity, settings).value == decimal(
            settings.vibration_intensity as nat,
        ) + "%"@,
        100 <= settings.magnification <= 500 ==> slider_text(
            SettingsSliderKind::Magnification,
            settings,
        ).value == factor_text(settings.magnification as nat),
        factor_text(percent) == decimal(percent / 100) + "."@ + two_digits(percent % 100) + "×"@,
        pointer_text(PresenterSection::Vibration, settings) == "Intensity "@ + decimal(
            settings.vibration_intensity as nat,
        ) + "%"@,
        settings.timer_mode == PresenterTimerMode::Countdown ==> pointer_text(
            PresenterSection::Timer,
            settings,
        ) == "Countdown "@ + decimal((settings.timer_seconds / 60) as nat) + " min"@,
        settings.timer_mode == PresenterTimerMode::CurrentTime ==> timer_text(settings)
            == "Current time"@,
        settings.timer_mode == PresenterTimerMode::Off && settings.timer_seconds == 0 ==> timer_text(
            settings,
        ) == "Timer disabled"@,
{
}

/// A level of the pointer speed is shown counted from one, out of ten.
pub proof fn law_levels_are_counted_from_one(speed: PointerSpeed)
    ensures
        speed@ < 10 ==> speed_text(speed) == decimal((speed@ + 1) as nat) + " / "@ + decimal(10),
{
}

} // verus!
