//! The presenter editor: what its cards and inspectors show, and what each of
//! its controls changes.

use vstd::prelude::*;
use crate::binding::{Action, ButtonId};
use crate::color::{parse_rgb, parse_rgb_spec, Rgb};
use crate::desktop::bindings::str_view;
use crate::desktop::events::{DeviceKey, Event, StateEvent, StateEvents};
use crate::desktop::presenter_state::{load_at, presenter_buttons, presenter_buttons_spec};
use crate::desktop::profiles::text_view;
use crate::desktop::state::{entry, AppState, Load, PointerSpeedLoad, StateModel};
use crate::order::Duplicate;
use crate::presenter::{PointerSpeed, PresenterEffect, PresenterSettings, PresenterTimerMode};
use crate::table::Table;
use crate::text::{
    chars_of, decimal, push_decimal, push_text, push_two_digits, same_text, slice_chars,
    string_of, trim, trim_chars, two_digits,
};

verus! {

/// A slider of the presenter editor.
#[derive(Clone, Copy, Debug, PartialEq, Eq, Structural)]
pub enum SettingsSliderKind {
    /// How dark the highlight's surroundings are.
    HighlightContrast,
    /// How large the highlight is.
    HighlightRadius,
    /// How large the lens is.
    MagnifierRadius,
    /// How much the lens magnifies.
    Magnification,
    /// How large the laser dot is.
    LaserSize,
    /// How strong alerts vibrate.
    VibrationIntensity,
}

/// A slider: its range, its step and where it stands.
#[derive(Clone, Copy, Debug, PartialEq, Eq, Structural)]
pub struct SliderSpec {
    /// What it sets.
    pub kind: SettingsSliderKind,
    /// Its low end.
    pub min: u16,
    /// Its high end.
    pub max: u16,
    /// How far it moves at a time.
    pub step: u16,
    /// Where it stands.
    pub value: u16,
}

impl SettingsSliderKind {
    /// The range of the slider.
    pub open spec fn range(self) -> (u16, u16) {
        match self {
            SettingsSliderKind::HighlightContrast => (25, 100),
            SettingsSliderKind::HighlightRadius => (50, 320),
            SettingsSliderKind::MagnifierRadius => (50, 240),
            SettingsSliderKind::Magnification => (125, 500),
            SettingsSliderKind::LaserSize => (50, 200),
            SettingsSliderKind::VibrationIntensity => (0, 100),
        }
    }

    /// How far the slider moves at a time.
    pub open spec fn step_spec(self) -> u16 {
        if self == SettingsSliderKind::Magnification {
            5
        } else {
            1
        }
    }

    /// Where the slider stands.
    pub open spec fn value_in(self, settings: PresenterSettings) -> int {
        match self {
            SettingsSliderKind::HighlightContrast => settings.effect_contrast as int,
            SettingsSliderKind::HighlightRadius => settings.spotlight_radius as int,
            SettingsSliderKind::MagnifierRadius => settings.magnifier_radius as int,
            SettingsSliderKind::Magnification => settings.magnification_spec(),
            SettingsSliderKind::LaserSize => settings.effect_size as int,
            SettingsSliderKind::VibrationIntensity => settings.vibration_intensity as int,
        }
    }

    /// A value taken into the range of the slider.
    pub open spec fn clamped(self, value: i32) -> int {
        if value < self.range().0 {
            self.range().0 as int
        } else if value > self.range().1 {
            self.range().1 as int
        } else {
            value as int
        }
    }

    /// The slider as it stands.
    pub open spec fn spec_in(self, settings: PresenterSettings) -> SliderSpec {
        SliderSpec {
            kind: self,
            min: self.range().0,
            max: self.range().1,
            step: self.step_spec(),
            value: self.value_in(settings) as u16,
        }
    }

    /// The slider as it stands.
    pub fn slider(self, settings: PresenterSettings) -> (slider: SliderSpec)
        ensures
            slider == self.spec_in(settings),
            slider.value == self.value_in(settings),
    {
        match self {
            SettingsSliderKind::HighlightContrast => SliderSpec {
                kind: self,
                min: 25,
                max: 100,
                step: 1,
                value: settings.effect_contrast as u16,
            },
            SettingsSliderKind::HighlightRadius => SliderSpec {
                kind: self,
                min: 50,
                max: 320,
                step: 1,
                value: settings.spotlight_radius,
            },
            SettingsSliderKind::MagnifierRadius => SliderSpec {
                kind: self,
                min: 50,
                max: 240,
                step: 1,
                value: settings.magnifier_radius,
            },
            SettingsSliderKind::Magnification => SliderSpec {
                kind: self,
                min: 125,
                max: 500,
                step: 5,
                value: settings.normalized_magnification(),
            },
            SettingsSliderKind::LaserSize => SliderSpec {
                kind: self,
                min: 50,
                max: 200,
                step: 1,
                value: settings.effect_size as u16,
            },
            SettingsSliderKind::VibrationIntensity => SliderSpec {
                kind: self,
                min: 0,
                max: 100,
                step: 1,
                value: settings.vibration_intensity as u16,
            },
        }
    }

    /// A value taken into the range of the slider.
    fn clamp(self, value: i32) -> (inside: u16)
        ensures
            inside == self.clamped(value),
    {
        let (low, high): (i32, i32) = match self {
            SettingsSliderKind::HighlightContrast => (25, 100),
            SettingsSliderKind::HighlightRadius => (50, 320),
            SettingsSliderKind::MagnifierRadius => (50, 240),
            SettingsSliderKind::Magnification => (125, 500),
            SettingsSliderKind::LaserSize => (50, 200),
            SettingsSliderKind::VibrationIntensity => (0, 100),
        };
        if value < low {
            low as u16
        } else if value > high {
            high as u16
        } else {
            value as u16
        }
    }
}

/// The sliders of the editor, in the order they are made.
pub open spec fn settings_sliders_spec(settings: PresenterSettings) -> Seq<SliderSpec> {
    seq![
        SettingsSliderKind::HighlightContrast.spec_in(settings),
        SettingsSliderKind::HighlightRadius.spec_in(settings),
        SettingsSliderKind::MagnifierRadius.spec_in(settings),
        SettingsSliderKind::Magnification.spec_in(settings),
        SettingsSliderKind::LaserSize.spec_in(settings),
        SettingsSliderKind::VibrationIntensity.spec_in(settings),
    ]
}

/// The sliders of the editor, in the order they are made.
pub fn settings_sliders(settings: PresenterSettings) -> (sliders: Vec<SliderSpec>)
    ensures
        sliders@ == settings_sliders_spec(settings),
{
    vec![
        SettingsSliderKind::HighlightContrast.slider(settings),
        SettingsSliderKind::HighlightRadius.slider(settings),
        SettingsSliderKind::MagnifierRadius.slider(settings),
        SettingsSliderKind::Magnification.slider(settings),
        SettingsSliderKind::LaserSize.slider(settings),
        SettingsSliderKind::VibrationIntensity.slider(settings),
    ]
}

/// A setting that is on or off.
#[derive(Clone, Copy, Debug, PartialEq, Eq, Structural)]
pub enum SettingSwitch {
    /// Interacting with what is pointed at.
    CursorControl,
    /// Moving the effect to the center when slides change.
    Recenter,
    /// Keeping the effect after the button is released.
    Freeze,
    /// Vibrating at a low charge.
    LowBatteryAlert,
    /// Vibrating at the end of the countdown.
    TimerAlert,
}

impl SettingSwitch {
    /// Whether the setting is on.
    pub open spec fn on_in(self, settings: PresenterSettings) -> bool {
        match self {
            SettingSwitch::CursorControl => settings.cursor_control,
            SettingSwitch::Recenter => settings.recenter_pointer,
            SettingSwitch::Freeze => settings.freeze_effect,
            SettingSwitch::LowBatteryAlert => settings.low_battery_alert,
            SettingSwitch::TimerAlert => settings.haptic_alerts,
        }
    }

    /// Whether the setting is on.
    pub fn checked(self, settings: PresenterSettings) -> (on: bool)
        ensures
            on == self.on_in(settings),
    {
        match self {
            SettingSwitch::CursorControl => settings.cursor_control,
            SettingSwitch::Recenter => settings.recenter_pointer,
            SettingSwitch::Freeze => settings.freeze_effect,
            SettingSwitch::LowBatteryAlert => settings.low_battery_alert,
            SettingSwitch::TimerAlert => settings.haptic_alerts,
        }
    }
}

/// How many bits of a mask are set.
pub open spec fn bit_count(mask: nat) -> nat
    decreases mask,
{
    if mask == 0 {
        0
    } else {
        mask % 2 + bit_count(mask / 2)
    }
}

/// How many bits of a mask are set.
pub fn count_ones(mask: u8) -> (count: u8)
    ensures
        count == bit_count(mask as nat),
        count <= 8,
{
    let mut rest: u8 = mask;
    let mut count: u8 = 0;
    let mut left: u8 = 8;
    while rest > 0
        invariant
            left <= 8,
            count + left <= 8,
            rest == 0 || left > 0,
            left == 8 ==> rest < 256,
            left == 7 ==> rest < 128,
            left == 6 ==> rest < 64,
            left == 5 ==> rest < 32,
            left == 4 ==> rest < 16,
            left == 3 ==> rest < 8,
            left == 2 ==> rest < 4,
            left == 1 ==> rest < 2,
            left == 0 ==> rest == 0,
            count + bit_count(rest as nat) == bit_count(mask as nat),
        decreases rest,
    {
        count = count + rest % 2;
        rest = rest / 2;
        left = left - 1;
    }
    count
}

/// What a control of the editor changes.
#[derive(Clone, Copy, Debug, PartialEq, Eq, Structural)]
pub enum PresenterEdit {
    /// Makes an effect the one the pointer starts with.
    SelectEffect(PresenterEffect),
    /// Swaps the effect at a place with the one before it.
    MoveUp(usize),
    /// Swaps the effect at a place with the one after it.
    MoveDown(usize),
    /// Lets an effect take part in the cycle, or not.
    Enable(PresenterEffect, bool),
    /// Moves a slider.
    Slide(SettingsSliderKind, i32),
    /// Colors the laser.
    LaserColor(Rgb),
    /// Colors the rim of the lens.
    LensColor(Rgb),
    /// Flips a switch.
    Switch(SettingSwitch, bool),
    /// Chooses what the timer shows.
    TimerMode(PresenterTimerMode),
    /// Counts down this many minutes.
    TimerMinutes(u16),
}

/// How long a countdown is when none was chosen, in seconds.
pub const DEFAULT_COUNTDOWN: u16 = 900;

/// The longest countdown that can be chosen, in minutes.
pub const LONGEST_COUNTDOWN: u16 = 1092;

/// An order with two neighbours swapped.
pub open spec fn swapped(order: [PresenterEffect; 3], index: int) -> [PresenterEffect; 3] {
    if index == 0 {
        [order[1], order[0], order[2]]
    } else {
        [order[0], order[2], order[1]]
    }
}

/// Minutes taken into the range of a countdown.
pub open spec fn countdown_minutes(minutes: u16) -> u16 {
    if minutes < 1 {
        1
    } else if minutes > LONGEST_COUNTDOWN {
        LONGEST_COUNTDOWN
    } else {
        minutes
    }
}

impl PresenterEdit {
    /// Whether the control exists: the effects have three places.
    pub open spec fn exists_in_editor(self) -> bool {
        match self {
            PresenterEdit::MoveUp(index) => index < 3,
            PresenterEdit::MoveDown(index) => index < 3,
            _ => true,
        }
    }

    /// The settings after the edit.
    pub open spec fn applied(self, settings: PresenterSettings) -> PresenterSettings {
        match self {
            PresenterEdit::SelectEffect(effect) => PresenterSettings {
                effect,
                enabled_effects: settings.enabled_effects | effect.bit_spec(),
                ..settings
            },
            PresenterEdit::MoveUp(index) => if index > 0 {
                PresenterSettings {
                    effect_order: swapped(settings.effect_order, index - 1),
                    ..settings
                }
            } else {
                settings
            },
            PresenterEdit::MoveDown(index) => if index < 2 {
                PresenterSettings {
                    effect_order: swapped(settings.effect_order, index as int),
                    ..settings
                }
            } else {
                settings
            },
            PresenterEdit::Enable(effect, enabled) => if enabled {
                PresenterSettings {
                    enabled_effects: settings.enabled_effects | effect.bit_spec(),
                    ..settings
                }
            } else if bit_count(settings.enabled_effects as nat) > 1 {
                PresenterSettings {
                    enabled_effects: settings.enabled_effects & !effect.bit_spec(),
                    ..settings
                }
            } else {
                settings
            },
            PresenterEdit::Slide(kind, value) => match kind {
                SettingsSliderKind::HighlightContrast => PresenterSettings {
                    effect_contrast: kind.clamped(value) as u8,
                    ..settings
                },
                SettingsSliderKind::HighlightRadius => PresenterSettings {
                    spotlight_radius: kind.clamped(value) as u16,
                    ..settings
                },
                SettingsSliderKind::MagnifierRadius => PresenterSettings {
                    magnifier_radius: kind.clamped(value) as u16,
                    ..settings
                },
                SettingsSliderKind::Magnification => PresenterSettings {
                    magnification: kind.clamped(value) as u16,
                    ..settings
                },
                SettingsSliderKind::LaserSize => PresenterSettings {
                    effect_size: kind.clamped(value) as u8,
                    ..settings
                },
                SettingsSliderKind::VibrationIntensity => PresenterSettings {
                    vibration_intensity: kind.clamped(value) as u8,
                    ..settings
                },
            },
            PresenterEdit::LaserColor(color) => PresenterSettings {
                effect_color: color,
                ..settings
            },
            PresenterEdit::LensColor(color) => PresenterSettings {
                magnifier_color: color,
                ..settings
            },
            PresenterEdit::Switch(switch, on) => match switch {
                SettingSwitch::CursorControl => PresenterSettings {
                    cursor_control: on,
                    ..settings
                },
                SettingSwitch::Recenter => PresenterSettings {
                    recenter_pointer: on,
                    ..settings
                },
                SettingSwitch::Freeze => PresenterSettings { freeze_effect: on, ..settings },
                SettingSwitch::LowBatteryAlert => PresenterSettings {
                    low_battery_alert: on,
                    ..settings
                },
                SettingSwitch::TimerAlert => PresenterSettings { haptic_alerts: on, ..settings },
            },
            PresenterEdit::TimerMode(mode) => PresenterSettings {
                timer_mode: mode,
                timer_seconds: if mode == PresenterTimerMode::Countdown && settings.timer_seconds
                    == 0 {
                    DEFAULT_COUNTDOWN
                } else {
                    settings.timer_seconds
                },
                ..settings
            },
            PresenterEdit::TimerMinutes(minutes) => PresenterSettings {
                timer_mode: PresenterTimerMode::Countdown,
                timer_seconds: (countdown_minutes(minutes) * 60) as u16,
                ..settings
            },
        }
    }

    /// Applies the edit to settings.
    pub fn apply(self, settings: PresenterSettings) -> (edited: PresenterSettings)
        requires
            self.exists_in_editor(),
        ensures
            edited == self.applied(settings),
    {
        let mut edited = settings;
        match self {
            PresenterEdit::SelectEffect(effect) => {
                edited.effect = effect;
                edited.enabled_effects = settings.enabled_effects | effect.bit();
            },
            PresenterEdit::MoveUp(index) => {
                let order = settings.effect_order;
                if index == 1 {
                    edited.effect_order = [order[1], order[0], order[2]];
                } else if index == 2 {
                    edited.effect_order = [order[0], order[2], order[1]];
                }
            },
            PresenterEdit::MoveDown(index) => {
                let order = settings.effect_order;
                if index == 0 {
                    edited.effect_order = [order[1], order[0], order[2]];
                } else if index == 1 {
                    edited.effect_order = [order[0], order[2], order[1]];
                }
            },
            PresenterEdit::Enable(effect, enabled) => {
                if enabled {
                    edited.enabled_effects = settings.enabled_effects | effect.bit();
                } else if count_ones(settings.enabled_effects) > 1 {
                    edited.enabled_effects = settings.enabled_effects & !effect.bit();
                }
            },
            PresenterEdit::Slide(kind, value) => {
                let inside: u16 = kind.clamp(value);
                match kind {
                    SettingsSliderKind::HighlightContrast => {
                        edited.effect_contrast = inside as u8;
                    },
                    SettingsSliderKind::HighlightRadius => {
                        edited.spotlight_radius = inside;
                    },
                    SettingsSliderKind::MagnifierRadius => {
                        edited.magnifier_radius = inside;
                    },
                    SettingsSliderKind::Magnification => {
                        edited.magnification = inside;
                    },
                    SettingsSliderKind::LaserSize => {
                        edited.effect_size = inside as u8;
                    },
                    SettingsSliderKind::VibrationIntensity => {
                        edited.vibration_intensity = inside as u8;
                    },
                }
            },
            PresenterEdit::LaserColor(color) => {
                edited.effect_color = color;
            },
            PresenterEdit::LensColor(color) => {
                edited.magnifier_color = color;
            },
            PresenterEdit::Switch(switch, on) => {
                match switch {
                    SettingSwitch::CursorControl => {
                        edited.cursor_control = on;
                    },
                    SettingSwitch::Recenter => {
                        edited.recenter_pointer = on;
                    },
                    SettingSwitch::Freeze => {
                        edited.freeze_effect = on;
                    },
                    SettingSwitch::LowBatteryAlert => {
                        edited.low_battery_alert = on;
                    },
                    SettingSwitch::TimerAlert => {
                        edited.haptic_alerts = on;
                    },
                }
            },
            PresenterEdit::TimerMode(mode) => {
                edited.timer_mode = mode;
                if mode == PresenterTimerMode::Countdown && settings.timer_seconds == 0 {
                    edited.timer_seconds = DEFAULT_COUNTDOWN;
                }
            },
            PresenterEdit::TimerMinutes(minutes) => {
                let inside: u16 = if minutes < 1 {
                    1
                } else if minutes > LONGEST_COUNTDOWN {
                    LONGEST_COUNTDOWN
                } else {
                    minutes
                };
                edited.timer_mode = PresenterTimerMode::Countdown;
                edited.timer_seconds = inside * 60;
            },
        }
        edited
    }
}

/// Moving an effect up and the one it passed down again leaves the order alone,
/// and moving never loses an effect.
pub proof fn law_moving_back_restores_the_order(settings: PresenterSettings, index: usize)
    requires
        0 < index < 3,
    ensures
        ({
            let moved = PresenterEdit::MoveUp(index).applied(settings);
            &&& PresenterEdit::MoveDown((index - 1) as usize).applied(moved) == settings
            &&& PresenterEdit::MoveUp(index).applied(moved) == settings
            &&& crate::presenter::complete_order(moved.effect_order)
                == crate::presenter::complete_order(settings.effect_order)
        }),
{
    let moved = PresenterEdit::MoveUp(index).applied(settings);
    let back = PresenterEdit::MoveDown((index - 1) as usize).applied(moved);
    assert(back.effect_order =~= settings.effect_order);
    assert(PresenterEdit::MoveUp(index).applied(moved).effect_order =~= settings.effect_order);
}

/// The last enabled effect cannot be switched off: where some effect was
/// enabled, some effect still is.
pub proof fn law_an_effect_stays_enabled(
    settings: PresenterSettings,
    effect: PresenterEffect,
    enabled: bool,
)
    requires
        settings.enabled_effects != 0,
    ensures
        PresenterEdit::Enable(effect, enabled).applied(settings).enabled_effects != 0,
        enabled ==> effect.in_mask(
            PresenterEdit::Enable(effect, enabled).applied(settings).enabled_effects,
        ),
{
    let mask = settings.enabled_effects;
    let bit = effect.bit_spec();
    reveal_with_fuel(bit_count, 4);
    assert(bit == 1 || bit == 2 || bit == 4);
    assert(mask & !bit == 0 ==> mask == 0 || mask == bit) by (bit_vector)
        requires
            bit == 1u8 || bit == 2u8 || bit == 4u8,
    ;
    assert((mask | bit) & bit != 0 && (mask | bit) != 0) by (bit_vector)
        requires
            bit == 1u8 || bit == 2u8 || bit == 4u8,
    ;
}

/// Wherever a slider is dragged, the stored value lies in its range, and it
/// stands where it was dropped when that is inside.
pub proof fn law_sliders_stay_in_range(
    settings: PresenterSettings,
    kind: SettingsSliderKind,
    value: i32,
)
    ensures
        kind.range().0 <= kind.value_in(PresenterEdit::Slide(kind, value).applied(settings))
            <= kind.range().1,
        kind.range().0 <= value <= kind.range().1 ==> kind.value_in(
            PresenterEdit::Slide(kind, value).applied(settings),
        ) == value,
{
}

/// Whether a character is a decimal digit.
pub open spec fn is_digit(c: char) -> bool {
    '0' <= c <= '9'
}

/// The number that decimal digits spell.
pub open spec fn digits_value(digits: Seq<char>) -> nat
    decreases digits.len(),
{
    if digits.len() == 0 {
        0
    } else {
        digits_value(digits.drop_last()) * 10 + (digits.last() as int - '0' as int) as nat
    }
}

/// The digits of a spelled number: what follows an optional plus sign.
pub open spec fn unsigned_digits(text: Seq<char>) -> Seq<char> {
    if text.len() > 0 && text[0] == '+' {
        text.skip(1)
    } else {
        text
    }
}

/// The number a text spells, when it spells one that fits.
pub open spec fn number_spec(text: Seq<char>) -> Option<u16> {
    let digits = unsigned_digits(text);
    if digits.len() == 0 || exists|i: int| 0 <= i < digits.len() && !is_digit(#[trigger] digits[i]) {
        None
    } else if digits_value(digits) > u16::MAX {
        None
    } else {
        Some(digits_value(digits) as u16)
    }
}

/// More digits never spell a smaller number.
proof fn lemma_digits_grow(digits: Seq<char>, n: int)
    requires
        0 <= n <= digits.len(),
    ensures
        digits_value(digits.take(n)) <= digits_value(digits),
    decreases digits.len(),
{
    if n < digits.len() {
        let rest = digits.drop_last();
        lemma_digits_grow(rest, n);
        assert(rest.take(n) =~= digits.take(n));
    } else {
        assert(digits.take(n) =~= digits);
    }
}

/// The number a text spells, when it spells one that fits.
fn parse_number(text: &Vec<char>) -> (number: Option<u16>)
    ensures
        number == number_spec(text@),
{
    let plus = text.len() > 0 && text[0] == '+';
    let from: usize = if plus {
        1
    } else {
        0
    };
    let digits = slice_chars(text, from, text.len());
    assert(digits@ =~= unsigned_digits(text@));
    if digits.len() == 0 {
        return None;
    }
    let mut i: usize = 0;
    while i < digits.len()
        invariant
            i <= digits@.len(),
            digits@ == unsigned_digits(text@),
            forall|j: int| 0 <= j < i ==> is_digit(#[trigger] digits@[j]),
        decreases digits@.len() - i,
    {
        let c = digits[i];
        if !('0' <= c && c <= '9') {
            assert(!is_digit(digits@[i as int]));
            return None;
        }
        i = i + 1;
    }
    let mut value: u32 = 0;
    let mut k: usize = 0;
    assert(digits@.take(0) =~= Seq::<char>::empty());
    while k < digits.len()
        invariant
            k <= digits@.len(),
            forall|j: int| 0 <= j < digits@.len() ==> is_digit(#[trigger] digits@[j]),
            value == digits_value(digits@.take(k as int)),
            value <= 65535,
            digits@ == unsigned_digits(text@),
            digits@.len() > 0,
        decreases digits@.len() - k,
    {
        proof {
            assert(digits@.take(k + 1).drop_last() =~= digits@.take(k as int));
            assert(digits@.take(k + 1).last() == digits@[k as int]);
            assert(is_digit(digits@[k as int]));
            lemma_digits_grow(digits@, k + 1);
        }
        value = value * 10 + (digits[k] as u32 - '0' as u32);
        if value > 65535 {
            return None;
        }
        k = k + 1;
    }
    assert(digits@.take(k as int) =~= digits@);
    Some(value as u16)
}

/// The edit that a typed number of minutes makes, none when it is no number.
pub fn custom_timer(text: &str) -> (edit: Option<PresenterEdit>)
    ensures
        edit == match number_spec(trim(text@)) {
            Some(minutes) => Some(PresenterEdit::TimerMinutes(minutes)),
            None => None,
        },
{
    match parse_number(&trim_chars(&chars_of(text))) {
        Some(minutes) => Some(PresenterEdit::TimerMinutes(minutes)),
        None => None,
    }
}

/// The edit that a typed color makes, none when it is no color.
pub fn custom_color(text: &str, lens: bool) -> (edit: Option<PresenterEdit>)
    ensures
        edit == match parse_rgb_spec(text@) {
            Some(color) => Some(
                if lens {
                    PresenterEdit::LensColor(color)
                } else {
                    PresenterEdit::LaserColor(color)
                },
            ),
            None => None,
        },
{
    match parse_rgb(text) {
        Some(color) => Some(
            if lens {
                PresenterEdit::LensColor(color)
            } else {
                PresenterEdit::LaserColor(color)
            },
        ),
        None => None,
    }
}

impl AppState {
    /// Makes an edit to the presenter settings of a profile and saves them.
    pub fn edit_presenter(&mut self, profile: Option<&str>, edit: PresenterEdit) -> (events:
        StateEvents)
        requires
            edit.exists_in_editor(),
        ensures
            final(self)@ == old(self)@.edited(
                StateModel::with_presenter(
                    old(self)@.device(),
                    str_view(profile),
                    edit.applied(old(self)@.presenter(str_view(profile))),
                ),
            ),
            events@ == if old(self)@.key() is Some {
                old(self)@.presenter_event()
            } else {
                Seq::empty()
            },
    {
        let settings = self.presenter_settings_for(profile);
        self.commit_presenter_settings_for(profile, edit.apply(settings))
    }
}

/// `n` followed by a unit.
fn with_unit(n: u16, unit: &str) -> (text: String)
    ensures
        text@ == decimal(n as nat) + unit@,
{
    let mut out: Vec<char> = Vec::new();
    push_decimal(&mut out, n as u64);
    push_text(&mut out, unit);
    assert(out@ =~= decimal(n as nat) + unit@);
    string_of(&out)
}

/// What a magnification in percent reads like: a factor with two decimals.
pub open spec fn factor_text(percent: nat) -> Seq<char> {
    decimal(percent / 100) + "."@ + two_digits(percent % 100) + "×"@
}

/// What a magnification in percent reads like.
fn factor(percent: u16) -> (text: String)
    ensures
        text@ == factor_text(percent as nat),
{
    let mut out: Vec<char> = Vec::new();
    push_decimal(&mut out, (percent / 100) as u64);
    push_text(&mut out, ".");
    push_two_digits(&mut out, (percent % 100) as u64);
    push_text(&mut out, "×");
    assert(out@ =~= factor_text(percent as nat));
    string_of(&out)
}

/// A labelled slider.
#[derive(Debug, PartialEq, Eq)]
pub struct SettingSlider {
    /// What it sets.
    pub kind: SettingsSliderKind,
    /// Its label.
    pub label: String,
    /// Its value as text.
    pub value: String,
}

/// A labelled slider, its texts read as characters.
pub struct SliderModel {
    /// What it sets.
    pub kind: SettingsSliderKind,
    /// Its label.
    pub label: Seq<char>,
    /// Its value as text.
    pub value: Seq<char>,
}

impl View for SettingSlider {
    type V = SliderModel;

    open spec fn view(&self) -> SliderModel {
        SliderModel { kind: self.kind, label: self.label@, value: self.value@ }
    }
}

/// What a labelled slider shows.
pub open spec fn slider_text(kind: SettingsSliderKind, settings: PresenterSettings) -> SliderModel {
    let value = kind.value_in(settings) as nat;
    match kind {
        SettingsSliderKind::HighlightContrast => SliderModel {
            kind,
            label: "Contrast"@,
            value: decimal(value) + "%"@,
        },
        SettingsSliderKind::HighlightRadius => SliderModel {
            kind,
            label: "Spotlight size"@,
            value: decimal(value) + " pt"@,
        },
        SettingsSliderKind::MagnifierRadius => SliderModel {
            kind,
            label: "Lens size"@,
            value: decimal(value) + " pt"@,
        },
        SettingsSliderKind::Magnification => SliderModel {
            kind,
            label: "Magnification"@,
            value: factor_text(value),
        },
        SettingsSliderKind::LaserSize => SliderModel {
            kind,
            label: "Laser size"@,
            value: decimal(value) + "%"@,
        },
        SettingsSliderKind::VibrationIntensity => SliderModel {
            kind,
            label: "Vibration intensity"@,
            value: decimal(value) + "%"@,
        },
    }
}

/// What a labelled slider shows.
pub fn setting_slider(kind: SettingsSliderKind, settings: PresenterSettings) -> (slider:
    SettingSlider)
    ensures
        slider@ == slider_text(kind, settings),
{
    let value: u16 = kind.slider(settings).value;
    match kind {
        SettingsSliderKind::HighlightContrast => SettingSlider {
            kind,
            label: "Contrast".to_owned(),
            value: with_unit(value, "%"),
        },
        SettingsSliderKind::HighlightRadius => SettingSlider {
            kind,
            label: "Spotlight size".to_owned(),
            value: with_unit(value, " pt"),
        },
        SettingsSliderKind::MagnifierRadius => SettingSlider {
            kind,
            label: "Lens size".to_owned(),
            value: with_unit(value, " pt"),
        },
        SettingsSliderKind::Magnification => SettingSlider {
            kind,
            label: "Magnification".to_owned(),
            value: factor(value),
        },
        SettingsSliderKind::LaserSize => SettingSlider {
            kind,
            label: "Laser size".to_owned(),
            value: with_unit(value, "%"),
        },
        SettingsSliderKind::VibrationIntensity => SettingSlider {
            kind,
            label: "Vibration intensity".to_owned(),
            value: with_unit(value, "%"),
        },
    }
}

/// The name of an effect.
pub open spec fn effect_title(effect: PresenterEffect) -> Seq<char> {
    match effect {
        PresenterEffect::Highlight => "Highlight"@,
        PresenterEffect::Magnify => "Magnify"@,
        PresenterEffect::DigitalLaser => "Digital laser"@,
    }
}

/// The sliders on the card of an effect.
pub open spec fn card_sliders(effect: PresenterEffect) -> Seq<SettingsSliderKind> {
    match effect {
        PresenterEffect::Highlight => seq![
            SettingsSliderKind::HighlightContrast,
            SettingsSliderKind::HighlightRadius,
        ],
        PresenterEffect::Magnify => seq![
            SettingsSliderKind::MagnifierRadius,
            SettingsSliderKind::Magnification,
        ],
        PresenterEffect::DigitalLaser => seq![SettingsSliderKind::LaserSize],
    }
}

/// The views of a list of sliders.
pub open spec fn sliders_view(sliders: Seq<SettingSlider>) -> Seq<SliderModel> {
    sliders.map_values(|slider: SettingSlider| slider@)
}

/// What sliders of these kinds show.
pub open spec fn slider_texts(kinds: Seq<SettingsSliderKind>, settings: PresenterSettings) -> Seq<
    SliderModel,
> {
    kinds.map_values(|kind: SettingsSliderKind| slider_text(kind, settings))
}

/// The card of an effect.
#[derive(Debug, PartialEq, Eq)]
pub struct EffectCard {
    /// Its place and name.
    pub label: String,
    /// Whether the effect takes part in the cycle.
    pub enabled: bool,
    /// Whether the pointer starts with it.
    pub selected: bool,
    /// Whether it can move up.
    pub can_move_up: bool,
    /// Whether it can move down.
    pub can_move_down: bool,
    /// Its sliders.
    pub sliders: Vec<SettingSlider>,
    /// Whether a preview of the highlight follows.
    pub preview: bool,
    /// The colors of the laser, for the laser.
    pub swatches: Option<Vec<Swatch>>,
}

/// The card of the effect at place `index`.
pub fn effect_card(index: usize, effect: PresenterEffect, settings: PresenterSettings) -> (card:
    EffectCard)
    requires
        index < 3,
    ensures
        card.label@ == decimal((index + 1) as nat) + ". "@ + effect_title(effect),
        card.enabled == effect.in_mask(settings.enabled_effects),
        card.selected == (settings.effect == effect),
        card.can_move_up == (index != 0),
        card.can_move_down == (index != 2),
        sliders_view(card.sliders@) == slider_texts(card_sliders(effect), settings),
        card.preview == (effect == PresenterEffect::Highlight),
        match card.swatches {
            Some(swatches) => effect == PresenterEffect::DigitalLaser && swatches@ == swatches_spec(
                settings.effect_color,
            ),
            None => effect != PresenterEffect::DigitalLaser,
        },
{
    let mut label: Vec<char> = Vec::new();
    push_decimal(&mut label, (index + 1) as u64);
    push_text(&mut label, ". ");
    match effect {
        PresenterEffect::Highlight => push_text(&mut label, "Highlight"),
        PresenterEffect::Magnify => push_text(&mut label, "Magnify"),
        PresenterEffect::DigitalLaser => push_text(&mut label, "Digital laser"),
    }
    assert(label@ =~= decimal((index + 1) as nat) + ". "@ + effect_title(effect));
    let mut sliders: Vec<SettingSlider> = Vec::new();
    match effect {
        PresenterEffect::Highlight => {
            sliders.push(setting_slider(SettingsSliderKind::HighlightContrast, settings));
            sliders.push(setting_slider(SettingsSliderKind::HighlightRadius, settings));
        },
        PresenterEffect::Magnify => {
            sliders.push(setting_slider(SettingsSliderKind::MagnifierRadius, settings));
            sliders.push(setting_slider(SettingsSliderKind::Magnification, settings));
        },
        PresenterEffect::DigitalLaser => {
            sliders.push(setting_slider(SettingsSliderKind::LaserSize, settings));
        },
    }
    assert(sliders_view(sliders@) =~= slider_texts(card_sliders(effect), settings));
    EffectCard {
        label: string_of(&label),
        enabled: settings.effect_enabled(effect),
        selected: settings.effect == effect,
        can_move_up: index != 0,
        can_move_down: index != 2,
        sliders,
        preview: effect == PresenterEffect::Highlight,
        swatches: if effect == PresenterEffect::DigitalLaser {
            Some(color_swatches(settings.effect_color))
        } else {
            None
        },
    }
}

/// A color to choose.
#[derive(Clone, Copy, Debug, PartialEq, Eq, Structural)]
pub struct Swatch {
    /// The color.
    pub color: Rgb,
    /// Whether it is chosen.
    pub selected: bool,
}

/// The colors to choose from.
pub open spec fn swatch_colors() -> Seq<Rgb> {
    seq![
        Rgb::spec_new(0xff, 0x3b, 0x30),
        Rgb::spec_new(0xff, 0x2d, 0x95),
        Rgb::spec_new(0xaf, 0x52, 0xde),
        Rgb::spec_new(0x00, 0x7a, 0xff),
        Rgb::spec_new(0x32, 0xad, 0xe6),
        Rgb::spec_new(0x34, 0xc7, 0x59),
        Rgb::spec_new(0xff, 0xcc, 0x00),
        Rgb::spec_new(0xff, 0xff, 0xff),
    ]
}

/// The colors to choose from, with the chosen one marked.
pub open spec fn swatches_spec(selected: Rgb) -> Seq<Swatch> {
    swatch_colors().map_values(|color: Rgb| Swatch { color, selected: color == selected })
}

/// The colors to choose from, with the chosen one marked.
pub fn color_swatches(selected: Rgb) -> (swatches: Vec<Swatch>)
    ensures
        swatches@ == swatches_spec(selected),
{
    let colors: Vec<Rgb> = vec![
        Rgb::new(0xff, 0x3b, 0x30),
        Rgb::new(0xff, 0x2d, 0x95),
        Rgb::new(0xaf, 0x52, 0xde),
        Rgb::new(0x00, 0x7a, 0xff),
        Rgb::new(0x32, 0xad, 0xe6),
        Rgb::new(0x34, 0xc7, 0x59),
        Rgb::new(0xff, 0xcc, 0x00),
        Rgb::new(0xff, 0xff, 0xff),
    ];
    assert(colors@ =~= swatch_colors());
    let mut swatches: Vec<Swatch> = Vec::new();
    let mut i: usize = 0;
    while i < colors.len()
        invariant
            i <= colors@.len(),
            colors@ == swatch_colors(),
            swatches@ == swatches_spec(selected).take(i as int),
        decreases colors@.len() - i,
    {
        let color = colors[i];
        swatches.push(Swatch { color, selected: color == selected });
        assert(swatches_spec(selected).take(i + 1) =~= swatches_spec(selected).take(i as int).push(
            swatches_spec(selected)[i as int],
        ));
        i = i + 1;
    }
    assert(swatches_spec(selected).take(i as int) =~= swatches_spec(selected));
    swatches
}

/// What the timer setting reads like.
pub open spec fn timer_text(settings: PresenterSettings) -> Seq<char> {
    match settings.timer_mode_spec() {
        PresenterTimerMode::Off => "Timer disabled"@,
        PresenterTimerMode::CurrentTime => "Current time"@,
        PresenterTimerMode::Countdown => "Countdown "@ + decimal(
            (settings.timer_seconds / 60) as nat,
        ) + " min"@,
    }
}

/// What the timer setting reads like.
pub fn presenter_timer_label(settings: PresenterSettings) -> (label: String)
    ensures
        label@ == timer_text(settings),
{
    match settings.normalized_timer_mode() {
        PresenterTimerMode::Off => "Timer disabled".to_owned(),
        PresenterTimerMode::CurrentTime => "Current time".to_owned(),
        PresenterTimerMode::Countdown => {
            let mut out: Vec<char> = Vec::new();
            push_text(&mut out, "Countdown ");
            push_decimal(&mut out, (settings.timer_seconds / 60) as u64);
            push_text(&mut out, " min");
            assert(out@ =~= timer_text(settings));
            string_of(&out)
        },
    }
}

/// A section of the editor.
#[derive(Clone, Copy, Debug, PartialEq, Eq, Structural)]
pub enum PresenterSection {
    /// Buttons and effects.
    Buttons,
    /// The timer.
    Timer,
    /// Vibration.
    Vibration,
}

/// What stands beside a held button on the picture of the device.
#[derive(Clone, Copy, Debug, PartialEq, Eq, Structural)]
pub enum HoldLabel {
    /// What the button is bound to.
    Bound(Action),
    /// That it starts the presentation.
    StartPresentation,
    /// That it blanks the screen.
    BlankScreen,
}

/// The picture of the device with its callouts.
#[derive(Debug, PartialEq, Eq)]
pub struct PresenterStage {
    /// Beside the pointer button.
    pub pointer: String,
    /// Beside Next.
    pub next: HoldLabel,
    /// Beside Back.
    pub back: HoldLabel,
    /// Below it.
    pub caption: String,
}

/// What stands below the picture of the device: how the open section works.
pub open spec fn caption_text(section: PresenterSection) -> Seq<char> {
    match section {
        PresenterSection::Buttons =>
            "Hold Pointer to aim. Double-click cycles effects. While Pointer is held, Next / Back cycles forward / backward."@,
        PresenterSection::Timer =>
            "The timer starts on the first slide navigation and remains visible while presenting."@,
        PresenterSection::Vibration =>
            "Spotlight vibrates for timer and low-battery alerts without interrupting the slide show."@,
    }
}

/// What stands below the picture of the device.
pub fn stage_caption(section: PresenterSection) -> (caption: String)
    ensures
        caption@ == caption_text(section),
{
    match section {
        PresenterSection::Buttons =>
            "Hold Pointer to aim. Double-click cycles effects. While Pointer is held, Next / Back cycles forward / backward.".to_owned(),
        PresenterSection::Timer =>
            "The timer starts on the first slide navigation and remains visible while presenting.".to_owned(),
        PresenterSection::Vibration =>
            "Spotlight vibrates for timer and low-battery alerts without interrupting the slide show.".to_owned(),
    }
}

/// What stands beside the pointer button.
pub open spec fn pointer_text(section: PresenterSection, settings: PresenterSettings) -> Seq<char> {
    match section {
        PresenterSection::Buttons => decimal(bit_count(settings.enabled_effects as nat))
            + " pointer effects"@,
        PresenterSection::Timer => timer_text(settings),
        PresenterSection::Vibration => "Intensity "@ + decimal(settings.vibration_intensity as nat)
            + "%"@,
    }
}

/// The picture of the device with its callouts.
pub fn presenter_stage(
    section: PresenterSection,
    settings: PresenterSettings,
    bindings: &Table<ButtonId, Action>,
) -> (stage: PresenterStage)
    ensures
        stage.pointer@ == pointer_text(section, settings),
        stage.next == match entry(bindings@, ButtonId::PresenterNextHold) {
            Some(action) => HoldLabel::Bound(action),
            None => HoldLabel::StartPresentation,
        },
        stage.back == match entry(bindings@, ButtonId::PresenterBackHold) {
            Some(action) => HoldLabel::Bound(action),
            None => HoldLabel::BlankScreen,
        },
        stage.caption@ == caption_text(section),
{
    let pointer = match section {
        PresenterSection::Buttons => {
            with_unit(count_ones(settings.enabled_effects) as u16, " pointer effects")
        },
        PresenterSection::Timer => presenter_timer_label(settings),
        PresenterSection::Vibration => {
            let mut out: Vec<char> = Vec::new();
            push_text(&mut out, "Intensity ");
            push_decimal(&mut out, settings.vibration_intensity as u64);
            push_text(&mut out, "%");
            assert(out@ =~= pointer_text(section, settings));
            string_of(&out)
        },
    };
    PresenterStage {
        pointer,
        next: match bindings.get(&ButtonId::PresenterNextHold) {
            Some(action) => HoldLabel::Bound(*action),
            None => HoldLabel::StartPresentation,
        },
        back: match bindings.get(&ButtonId::PresenterBackHold) {
            Some(action) => HoldLabel::Bound(*action),
            None => HoldLabel::BlankScreen,
        },
        caption: stage_caption(section),
    }
}

/// What stands where the pointer speed is set.
#[derive(Debug, PartialEq, Eq)]
pub enum SpeedPanel {
    /// A slider, with the level as text.
    Slider(PointerSpeed, String),
    /// Why it could not be read, with a button to try again.
    Retry(String),
    /// Why it can never be read.
    Unsupported(String),
    /// That it is being read.
    Reading,
    /// That there is none.
    Unavailable,
}

/// What a level reads like: counted from one, out of all.
pub open spec fn speed_text(speed: PointerSpeed) -> Seq<char> {
    decimal((speed@ + 1) as nat) + " / "@ + decimal(PointerSpeed::COUNT as nat)
}

/// What stands where the pointer speed is set; a slider and a retry need a
/// device on screen.
pub fn speed_panel(load: PointerSpeedLoad, on_screen: bool) -> (panel: SpeedPanel)
    ensures
        match load@ {
            Load::Ready(speed) => if on_screen {
                panel matches SpeedPanel::Slider(s, text) && s == speed && text@ == speed_text(
                    speed,
                )
            } else {
                panel is Unavailable
            },
            Load::Failed(reason) => if on_screen {
                panel matches SpeedPanel::Retry(text) && text@ == reason
            } else {
                panel is Unavailable
            },
            Load::Unsupported(reason) => panel matches SpeedPanel::Unsupported(text) && text@
                == reason,
            Load::Loading => panel is Reading,
            Load::Unknown => panel is Unavailable,
        },
{
    match load {
        Load::Ready(speed) => if on_screen {
            let level = speed.get();
            let mut out: Vec<char> = Vec::new();
            push_decimal(&mut out, level as u64 + 1);
            push_text(&mut out, " / ");
            push_decimal(&mut out, PointerSpeed::COUNT as u64);
            assert(out@ =~= speed_text(speed));
            SpeedPanel::Slider(speed, string_of(&out))
        } else {
            SpeedPanel::Unavailable
        },
        Load::Failed(reason) => if on_screen {
            SpeedPanel::Retry(reason)
        } else {
            SpeedPanel::Unavailable
        },
        Load::Unsupported(reason) => SpeedPanel::Unsupported(reason),
        Load::Loading => SpeedPanel::Reading,
        Load::Unknown => SpeedPanel::Unavailable,
    }
}

/// A switch with its state.
#[derive(Clone, Copy, Debug, PartialEq, Eq, Structural)]
pub struct SwitchState {
    /// The setting.
    pub switch: SettingSwitch,
    /// Whether it is on.
    pub checked: bool,
}

/// The switches of these settings.
pub open spec fn switches_spec(switches: Seq<SettingSwitch>, settings: PresenterSettings) -> Seq<
    SwitchState,
> {
    switches.map_values(
        |switch: SettingSwitch| SwitchState { switch, checked: switch.on_in(settings) },
    )
}

/// The switches of pointer behavior.
pub open spec fn behavior_switches() -> Seq<SettingSwitch> {
    seq![SettingSwitch::CursorControl, SettingSwitch::Recenter, SettingSwitch::Freeze]
}

/// The switches of alerts.
pub open spec fn alert_switches() -> Seq<SettingSwitch> {
    seq![SettingSwitch::LowBatteryAlert, SettingSwitch::TimerAlert]
}

/// The switches of pointer behavior.
pub fn options_panel(settings: PresenterSettings) -> (switches: Vec<SwitchState>)
    ensures
        switches@ == switches_spec(behavior_switches(), settings),
{
    let switches: Vec<SwitchState> = vec![
        SwitchState {
            switch: SettingSwitch::CursorControl,
            checked: SettingSwitch::CursorControl.checked(settings),
        },
        SwitchState {
            switch: SettingSwitch::Recenter,
            checked: SettingSwitch::Recenter.checked(settings),
        },
        SwitchState {
            switch: SettingSwitch::Freeze,
            checked: SettingSwitch::Freeze.checked(settings),
        },
    ];
    assert(switches@ =~= switches_spec(behavior_switches(), settings));
    switches
}

/// A button of the device with what it does.
#[derive(Clone, Copy, Debug, PartialEq, Eq, Structural)]
pub struct ControlRow {
    /// The button.
    pub button: ButtonId,
    /// What it does, none for the device's own doing.
    pub action: Option<Action>,
}

/// The inspector of buttons and effects.
#[derive(Debug, PartialEq, Eq)]
pub struct ButtonsInspector {
    /// The cards of the effects, in their order.
    pub cards: Vec<EffectCard>,
    /// The colors of the lens' rim.
    pub lens_colors: Vec<Swatch>,
    /// The switches of pointer behavior.
    pub options: Vec<SwitchState>,
    /// The buttons.
    pub rows: Vec<ControlRow>,
}

/// The rows of the buttons.
pub open spec fn control_rows(bindings: Map<ButtonId, Action>) -> Seq<ControlRow> {
    presenter_buttons_spec().map_values(
        |button: ButtonId| ControlRow { button, action: entry(bindings, button) },
    )
}

/// Whether a card is that of the effect at a place.
pub open spec fn card_of(card: EffectCard, index: int, settings: PresenterSettings) -> bool {
    let effect = settings.effect_order_spec()[index];
    &&& card.label@ == decimal((index + 1) as nat) + ". "@ + effect_title(effect)
    &&& card.enabled == effect.in_mask(settings.enabled_effects)
    &&& card.selected == (settings.effect == effect)
    &&& card.can_move_up == (index != 0)
    &&& card.can_move_down == (index != 2)
    &&& sliders_view(card.sliders@) == slider_texts(card_sliders(effect), settings)
    &&& card.preview == (effect == PresenterEffect::Highlight)
    &&& match card.swatches {
        Some(swatches) => effect == PresenterEffect::DigitalLaser && swatches@ == swatches_spec(
            settings.effect_color,
        ),
        None => effect != PresenterEffect::DigitalLaser,
    }
}

/// The inspector of buttons and effects.
pub fn buttons_inspector(settings: PresenterSettings, bindings: &Table<ButtonId, Action>)
    -> (inspector: ButtonsInspector)
    ensures
        inspector.cards@.len() == 3,
        forall|i: int| 0 <= i < 3 ==> card_of(#[trigger] inspector.cards@[i], i, settings),
        inspector.lens_colors@ == swatches_spec(settings.magnifier_color),
        inspector.options@ == switches_spec(behavior_switches(), settings),
        inspector.rows@ == control_rows(bindings@),
{
    let order = settings.normalized_effect_order();
    let mut cards: Vec<EffectCard> = Vec::new();
    cards.push(effect_card(0, order[0], settings));
    cards.push(effect_card(1, order[1], settings));
    cards.push(effect_card(2, order[2], settings));
    let buttons = presenter_buttons();
    let mut rows: Vec<ControlRow> = Vec::new();
    let mut i: usize = 0;
    while i < buttons.len()
        invariant
            i <= buttons@.len(),
            buttons@ == presenter_buttons_spec(),
            rows@ == control_rows(bindings@).take(i as int),
        decreases buttons@.len() - i,
    {
        let button = buttons[i];
        let action = match bindings.get(&button) {
            Some(action) => Some(*action),
            None => None,
        };
        rows.push(ControlRow { button, action });
        assert(control_rows(bindings@).take(i + 1) =~= control_rows(bindings@).take(i as int).push(
            control_rows(bindings@)[i as int],
        ));
        i = i + 1;
    }
    assert(control_rows(bindings@).take(i as int) =~= control_rows(bindings@));
    ButtonsInspector {
        cards,
        lens_colors: color_swatches(settings.magnifier_color),
        options: options_panel(settings),
        rows,
    }
}

/// A choice that may be the chosen one.
#[derive(Clone, Copy, Debug, PartialEq, Eq, Structural)]
pub struct TimerPreset {
    /// Its length in minutes.
    pub minutes: u16,
    /// Whether it is chosen.
    pub selected: bool,
}

/// What the timer can show, which may be what it shows.
#[derive(Clone, Copy, Debug, PartialEq, Eq, Structural)]
pub struct TimerModeChoice {
    /// What it would show.
    pub mode: PresenterTimerMode,
    /// Whether it is chosen.
    pub selected: bool,
}

/// What the timer can show, in the order it is offered.
pub open spec fn mode_choices(settings: PresenterSettings) -> Seq<TimerModeChoice> {
    seq![
        PresenterTimerMode::Off,
        PresenterTimerMode::CurrentTime,
        PresenterTimerMode::Countdown,
    ].map_values(
        |mode: PresenterTimerMode|
            TimerModeChoice { mode, selected: settings.timer_mode_spec() == mode },
    )
}

/// The inspector of the timer.
#[derive(Debug, PartialEq, Eq)]
pub struct TimerInspector {
    /// What the timer shows.
    pub mode: PresenterTimerMode,
    /// What it can show.
    pub modes: Vec<TimerModeChoice>,
    /// The lengths to choose from, while counting down.
    pub presets: Option<Vec<TimerPreset>>,
}

/// The lengths to choose from.
pub open spec fn presets_spec(settings: PresenterSettings) -> Seq<TimerPreset> {
    seq![15u16, 30u16, 60u16].map_values(
        |minutes: u16|
            TimerPreset { minutes, selected: settings.timer_seconds == minutes * 60 },
    )
}

/// The inspector of the timer: lengths are offered while it counts down.
pub fn timer_inspector(settings: PresenterSettings) -> (inspector: TimerInspector)
    ensures
        inspector.mode == settings.timer_mode_spec(),
        inspector.modes@ == mode_choices(settings),
        match inspector.presets {
            Some(presets) => inspector.mode == PresenterTimerMode::Countdown && presets@
                == presets_spec(settings),
            None => inspector.mode != PresenterTimerMode::Countdown,
        },
{
    let mode = settings.normalized_timer_mode();
    let modes: Vec<TimerModeChoice> = vec![
        TimerModeChoice {
            mode: PresenterTimerMode::Off,
            selected: mode == PresenterTimerMode::Off,
        },
        TimerModeChoice {
            mode: PresenterTimerMode::CurrentTime,
            selected: mode == PresenterTimerMode::CurrentTime,
        },
        TimerModeChoice {
            mode: PresenterTimerMode::Countdown,
            selected: mode == PresenterTimerMode::Countdown,
        },
    ];
    assert(modes@ =~= mode_choices(settings));
    let presets = if mode == PresenterTimerMode::Countdown {
        let presets: Vec<TimerPreset> = vec![
            TimerPreset { minutes: 15, selected: settings.timer_seconds == 900 },
            TimerPreset { minutes: 30, selected: settings.timer_seconds == 1800 },
            TimerPreset { minutes: 60, selected: settings.timer_seconds == 3600 },
        ];
        assert(presets@ =~= presets_spec(settings));
        Some(presets)
    } else {
        None
    };
    TimerInspector { mode, modes, presets }
}

/// The inspector of vibration.
#[derive(Debug, PartialEq, Eq)]
pub struct VibrationInspector {
    /// The slider of the intensity.
    pub intensity: SettingSlider,
    /// The switches of alerts.
    pub alerts: Vec<SwitchState>,
}

/// The inspector of vibration.
pub fn vibration_inspector(settings: PresenterSettings) -> (inspector: VibrationInspector)
    ensures
        inspector.intensity@ == slider_text(SettingsSliderKind::VibrationIntensity, settings),
        inspector.alerts@ == switches_spec(alert_switches(), settings),
{
    let alerts: Vec<SwitchState> = vec![
        SwitchState {
            switch: SettingSwitch::LowBatteryAlert,
            checked: SettingSwitch::LowBatteryAlert.checked(settings),
        },
        SwitchState {
            switch: SettingSwitch::TimerAlert,
            checked: SettingSwitch::TimerAlert.checked(settings),
        },
    ];
    assert(alerts@ =~= switches_spec(alert_switches(), settings));
    VibrationInspector {
        intensity: setting_slider(SettingsSliderKind::VibrationIntensity, settings),
        alerts,
    }
}

/// The inspector of the open section.
#[derive(Debug, PartialEq, Eq)]
pub enum Inspector {
    /// Buttons and effects, with the pointer speed.
    Buttons(ButtonsInspector, SpeedPanel),
    /// The timer.
    Timer(TimerInspector),
    /// Vibration.
    Vibration(VibrationInspector),
}

/// What is to be done with the slider of the pointer speed.
#[derive(Clone, Copy, Debug, PartialEq, Eq, Structural)]
pub enum SpeedSlider {
    /// It is made anew for another device, at this level.
    Create {
        /// Lowest level.
        min: u8,
        /// Highest level.
        max: u8,
        /// Where it stands.
        value: u8,
    },
    /// It moves to this level.
    Move(u8),
    /// It stays.
    Keep,
}

/// The presenter editor.
#[derive(Debug, PartialEq, Eq)]
pub struct PresenterControlsView {
    /// The open section.
    pub section: PresenterSection,
    /// The device whose pointer speed the slider shows.
    pub speed_key: Option<DeviceKey>,
    /// The device and profile whose settings the sliders show.
    pub settings_key: Option<(DeviceKey, Option<String>)>,
}

/// The key of a device that may be missing.
pub open spec fn key_view(key: Option<DeviceKey>) -> Option<Seq<char>> {
    match key {
        Some(key) => Some(key@),
        None => None,
    }
}

/// The device and profile the sliders show.
pub open spec fn scope_view(scope: Option<(DeviceKey, Option<String>)>) -> Option<
    (Seq<char>, Option<Seq<char>>),
> {
    match scope {
        Some((key, profile)) => Some((key@, text_view(profile))),
        None => None,
    }
}

/// What the editor shows.
#[derive(Debug, PartialEq, Eq)]
pub struct PresenterPanel {
    /// The sliders to make anew, when they belong to another device or profile.
    pub new_sliders: Option<Vec<SliderSpec>>,
    /// The picture of the device.
    pub stage: PresenterStage,
    /// The inspector of the open section.
    pub inspector: Inspector,
}

impl PresenterControlsView {
    /// The editor before it showed anything.
    pub fn new() -> (view: PresenterControlsView)
        ensures
            view.section == PresenterSection::Buttons,
            view.speed_key is None,
            view.settings_key is None,
    {
        PresenterControlsView {
            section: PresenterSection::Buttons,
            speed_key: None,
            settings_key: None,
        }
    }

    /// Whether the editor repaints on a change.
    pub fn repaints_on(event: &StateEvent) -> (repaints: bool)
        ensures
            repaints == match event@ {
                Event::InventoryChanged => true,
                Event::DeviceSelected(_) => true,
                Event::ForegroundChanged => true,
                Event::BindingsChanged(_) => true,
                Event::PresenterChanged(_) => true,
                _ => false,
            },
    {
        match event {
            Event::InventoryChanged => true,
            Event::DeviceSelected(_) => true,
            Event::ForegroundChanged => true,
            Event::BindingsChanged(_) => true,
            Event::PresenterChanged(_) => true,
            _ => false,
        }
    }

    /// Opens a section.
    pub fn open_section(&mut self, section: PresenterSection)
        ensures
            final(self).section == section,
            final(self).speed_key == old(self).speed_key,
            final(self).settings_key == old(self).settings_key,
    {
        self.section = section;
    }

    /// Keeps the slider of the pointer speed on the device and level that is
    /// shown; `standing` is where the slider stands.
    pub fn ensure_speed_slider(&mut self, key: &DeviceKey, speed: PointerSpeed, standing: u8)
        -> (slider: SpeedSlider)
        ensures
            key_view(final(self).speed_key) == Some(key@),
            final(self).section == old(self).section,
            final(self).settings_key == old(self).settings_key,
            slider == if key_view(old(self).speed_key) != Some(key@) {
                SpeedSlider::Create {
                    min: 0,
                    max: (PointerSpeed::COUNT - 1) as u8,
                    value: speed@,
                }
            } else if standing != speed@ {
                SpeedSlider::Move(speed@)
            } else {
                SpeedSlider::Keep
            },
    {
        let same = match &self.speed_key {
            Some(shown) => shown.same_as(key),
            None => false,
        };
        if same {
            if standing != speed.get() {
                return SpeedSlider::Move(speed.get());
            }
            return SpeedSlider::Keep;
        }
        self.speed_key = Some(key.duplicate());
        SpeedSlider::Create {
            min: PointerSpeed::min().get(),
            max: PointerSpeed::max().get(),
            value: speed.get(),
        }
    }

    /// Keeps the sliders on the device and profile that is shown: the sliders to
    /// make anew, none while they are still the right ones.
    pub fn ensure_settings_sliders(
        &mut self,
        key: DeviceKey,
        profile: Option<String>,
        settings: PresenterSettings,
    ) -> (sliders: Option<Vec<SliderSpec>>)
        ensures
            scope_view(final(self).settings_key) == Some((key@, text_view(profile))),
            final(self).section == old(self).section,
            final(self).speed_key == old(self).speed_key,
            match sliders {
                Some(sliders) => scope_view(old(self).settings_key) != Some(
                    (key@, text_view(profile)),
                ) && sliders@ == settings_sliders_spec(settings),
                None => scope_view(old(self).settings_key) == Some((key@, text_view(profile))),
            },
    {
        let same = match &self.settings_key {
            Some((shown, shown_profile)) => shown.same_as(&key) && match (shown_profile, &profile) {
                (Some(a), Some(b)) => same_text(a.as_str(), b.as_str()),
                (None, None) => true,
                _ => false,
            },
            None => false,
        };
        if same {
            return None;
        }
        self.settings_key = Some((key, profile));
        Some(settings_sliders(settings))
    }

    /// What the editor shows of the state, for the open profile of the device on
    /// screen.
    pub fn render(&mut self, state: &AppState) -> (panel: PresenterPanel)
        ensures
            final(self).section == old(self).section,
            final(self).speed_key == old(self).speed_key,
            match state@.current() {
                Some(record) => {
                    &&& scope_view(final(self).settings_key) == Some(
                        (record.config_key, state@.editing()),
                    )
                    &&& match panel.new_sliders {
                        Some(sliders) => scope_view(old(self).settings_key) != Some(
                            (record.config_key, state@.editing()),
                        ) && sliders@ == settings_sliders_spec(state@.presenter(state@.editing())),
                        None => scope_view(old(self).settings_key) == Some(
                            (record.config_key, state@.editing()),
                        ),
                    }
                },
                None => panel.new_sliders is None && final(self).settings_key == old(
                    self,
                ).settings_key,
            },
            ({
                let settings = state@.presenter(state@.editing());
                let bindings = state@.presenter_actions(state@.editing());
                &&& panel.stage.pointer@ == pointer_text(old(self).section, settings)
                &&& panel.stage.next == HoldLabel::Bound(bindings[ButtonId::PresenterNextHold])
                &&& panel.stage.back == HoldLabel::Bound(bindings[ButtonId::PresenterBackHold])
                &&& panel.stage.caption@ == caption_text(old(self).section)
                &&& match panel.inspector {
                    Inspector::Buttons(inspector, speed) => {
                        &&& old(self).section == PresenterSection::Buttons
                        &&& inspector.cards@.len() == 3
                        &&& forall|i: int|
                            0 <= i < 3 ==> card_of(#[trigger] inspector.cards@[i], i, settings)
                        &&& inspector.lens_colors@ == swatches_spec(settings.magnifier_color)
                        &&& inspector.options@ == switches_spec(behavior_switches(), settings)
                        &&& inspector.rows@ == control_rows(bindings)
                        &&& match state@.current() {
                            Some(record) => match load_at(state@.speeds, record.config_key) {
                                Load::Ready(level) => speed matches SpeedPanel::Slider(s, text)
                                    && s == level && text@ == speed_text(level),
                                Load::Failed(reason) => speed matches SpeedPanel::Retry(text)
                                    && text@ == reason,
                                Load::Unsupported(reason) => speed matches SpeedPanel::Unsupported(
                                    text,
                                ) && text@ == reason,
                                Load::Loading => speed is Reading,
                                Load::Unknown => speed is Unavailable,
                            },
                            None => speed is Unavailable,
                        }
                    },
                    Inspector::Timer(inspector) => {
                        &&& old(self).section == PresenterSection::Timer
                        &&& inspector.mode == settings.timer_mode_spec()
                        &&& inspector.modes@ == mode_choices(settings)
                        &&& match inspector.presets {
                            Some(presets) => inspector.mode == PresenterTimerMode::Countdown
                                && presets@ == presets_spec(settings),
                            None => inspector.mode != PresenterTimerMode::Countdown,
                        }
                    },
                    Inspector::Vibration(inspector) => {
                        &&& old(self).section == PresenterSection::Vibration
                        &&& inspector.intensity@ == slider_text(
                            SettingsSliderKind::VibrationIntensity,
                            settings,
                        )
                        &&& inspector.alerts@ == switches_spec(alert_switches(), settings)
                    },
                }
            }),
    {
        let profile = state.editing_app();
        let settings = state.presenter_settings();
        let bindings = match &profile {
            Some(app) => state.presenter_bindings_for_profile(Some(app.as_str())),
            None => state.presenter_bindings_for_profile(None),
        };
        let key = match state.current_record() {
            Some(record) => Some(record.device_key()),
            None => None,
        };
        let on_screen = key.is_some();
        let new_sliders = match key {
            Some(key) => self.ensure_settings_sliders(key, profile, settings),
            None => None,
        };
        let stage = presenter_stage(self.section, settings, &bindings);
        let inspector = match self.section {
            PresenterSection::Buttons => Inspector::Buttons(
                buttons_inspector(settings, &bindings),
                speed_panel(state.pointer_speed_status(), on_screen),
            ),
            PresenterSection::Timer => Inspector::Timer(timer_inspector(settings)),
            PresenterSection::Vibration => Inspector::Vibration(vibration_inspector(settings)),
        };
        PresenterPanel { new_sliders, stage, inspector }
    }
}

} // verus!
