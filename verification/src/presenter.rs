//! Presenter settings shared by the agent, the desktop window and the overlay,
//! and the pointer-speed level of the device.

use vstd::prelude::*;
use crate::color::Rgb;
use crate::order::Duplicate;

verus! {

/// Visual mode the host renders around the presenter's pointer.
#[derive(Clone, Copy, Debug, PartialEq, Eq, Structural)]
pub enum PresenterEffect {
    /// A small coloured dot follows the pointer.
    DigitalLaser,
    /// A circular clear area stays visible while the rest of the display is dimmed.
    Highlight,
    /// A circular lens shows a magnified composite of the desktop.
    Magnify,
}

impl Default for PresenterEffect {
    fn default() -> (effect: Self)
        ensures
            effect == PresenterEffect::Highlight,
    {
        PresenterEffect::Highlight
    }
}

impl PresenterEffect {
    /// Bit of the effect in a mask of enabled effects.
    pub open spec fn bit_spec(self) -> u8 {
        match self {
            PresenterEffect::DigitalLaser => 0b001,
            PresenterEffect::Highlight => 0b010,
            PresenterEffect::Magnify => 0b100,
        }
    }

    /// Bit of the effect in a mask of enabled effects.
    pub fn bit(self) -> (bit: u8)
        ensures
            bit == self.bit_spec(),
    {
        match self {
            PresenterEffect::DigitalLaser => 0b001,
            PresenterEffect::Highlight => 0b010,
            PresenterEffect::Magnify => 0b100,
        }
    }

    /// Whether a mask holds the effect's bit.
    pub open spec fn in_mask(self, mask: u8) -> bool {
        mask & self.bit_spec() != 0
    }
}

/// What the presenter's timer shows.
#[derive(Clone, Copy, Debug, PartialEq, Eq, Structural)]
pub enum PresenterTimerMode {
    /// No timer.
    Off,
    /// Count down from the configured duration.
    Countdown,
    /// The local wall-clock time.
    CurrentTime,
}

impl Default for PresenterTimerMode {
    fn default() -> (mode: Self)
        ensures
            mode == PresenterTimerMode::Off,
    {
        PresenterTimerMode::Off
    }
}

/// Stored host-side presenter settings.
#[derive(Clone, Copy, Debug, PartialEq, Eq)]
pub struct PresenterSettings {
    /// Effect the pointer action shows.
    pub effect: PresenterEffect,
    /// Mask of the effects in the top-button cycle.
    pub enabled_effects: u8,
    /// Order in which the effects cycle.
    pub effect_order: [PresenterEffect; 3],
    /// Timer duration in seconds; zero disables the timer.
    pub timer_seconds: u16,
    /// What the timer shows.
    pub timer_mode: PresenterTimerMode,
    /// Whether expiry asks for a vibration.
    pub haptic_alerts: bool,
    /// Whether a low battery asks for a vibration.
    pub low_battery_alert: bool,
    /// Vibration strength as a percentage.
    pub vibration_intensity: u8,
    /// Recenter the pointer on the active display before a pointer action.
    pub recenter_pointer: bool,
    /// Keep the host cursor visible inside the effect.
    pub cursor_control: bool,
    /// Keep the effect on screen after the top button is released.
    pub freeze_effect: bool,
    /// Effect size percentage, `50..=200`.
    pub effect_size: u8,
    /// Effect contrast percentage, `25..=100`.
    pub effect_contrast: u8,
    /// Radius of the clear area in screen points, `40..=320`.
    pub spotlight_radius: u16,
    /// Radius of the lens in screen points, `40..=260`.
    pub magnifier_radius: u16,
    /// Magnification percentage, `100..=500`; `2..=5` stand for `200..=500`.
    pub magnification: u16,
    /// Colour of the laser dot.
    pub effect_color: Rgb,
    /// Colour of the lens rim.
    pub magnifier_color: Rgb,
}

impl View for PresenterSettings {
    type V = PresenterSettings;

    open spec fn view(&self) -> PresenterSettings {
        *self
    }
}

impl Duplicate for PresenterSettings {
    fn duplicate(&self) -> (copy: Self) {
        *self
    }
}

/// Mask of all three effects.
pub const ALL_EFFECTS: u8 = 0b111;

/// Whether three effects are pairwise different.
pub open spec fn complete_order(order: [PresenterEffect; 3]) -> bool {
    order@[0] != order@[1] && order@[0] != order@[2] && order@[1] != order@[2]
}

/// The order in which the effects cycle when nothing valid is stored.
pub open spec fn default_order_spec() -> [PresenterEffect; 3] {
    [PresenterEffect::Highlight, PresenterEffect::Magnify, PresenterEffect::DigitalLaser]
}

/// The order in which the effects cycle when nothing valid is stored.
pub fn default_effect_order() -> (order: [PresenterEffect; 3])
    ensures
        order == default_order_spec(),
{
    let order = [PresenterEffect::Highlight, PresenterEffect::Magnify, PresenterEffect::DigitalLaser];
    assert(order =~= default_order_spec());
    order
}

/// The settings a device starts with.
pub open spec fn default_settings_spec() -> PresenterSettings {
    PresenterSettings {
        effect: PresenterEffect::Highlight,
        enabled_effects: ALL_EFFECTS,
        effect_order: default_order_spec(),
        timer_seconds: 0,
        timer_mode: PresenterTimerMode::Off,
        haptic_alerts: true,
        low_battery_alert: true,
        vibration_intensity: 50,
        recenter_pointer: false,
        cursor_control: true,
        freeze_effect: false,
        effect_size: 100,
        effect_contrast: 100,
        spotlight_radius: 140,
        magnifier_radius: 110,
        magnification: 200,
        effect_color: Rgb::spec_new(0xff, 0x3b, 0x30),
        magnifier_color: Rgb::spec_new(0xff, 0xff, 0xff),
    }
}

impl Default for PresenterSettings {
    fn default() -> (settings: Self)
        ensures
            settings == default_settings_spec(),
    {
        PresenterSettings {
            effect: PresenterEffect::Highlight,
            enabled_effects: ALL_EFFECTS,
            effect_order: default_effect_order(),
            timer_seconds: 0,
            timer_mode: PresenterTimerMode::Off,
            haptic_alerts: true,
            low_battery_alert: true,
            vibration_intensity: 50,
            recenter_pointer: false,
            cursor_control: true,
            freeze_effect: false,
            effect_size: 100,
            effect_contrast: 100,
            spotlight_radius: 140,
            magnifier_radius: 110,
            magnification: 200,
            effect_color: Rgb::new(0xff, 0x3b, 0x30),
            magnifier_color: Rgb::new(0xff, 0xff, 0xff),
        }
    }
}

impl PresenterSettings {
    /// Whether two settings agree in every field.
    pub fn same_as(&self, other: &PresenterSettings) -> (same: bool)
        ensures
            same == (*self == *other),
    {
        let order = self.effect_order[0] == other.effect_order[0] && self.effect_order[1]
            == other.effect_order[1] && self.effect_order[2] == other.effect_order[2];
        proof {
            if order {
                assert(self.effect_order =~= other.effect_order);
            }
        }
        order && self.effect == other.effect && self.enabled_effects == other.enabled_effects
            && self.timer_seconds == other.timer_seconds && self.timer_mode == other.timer_mode
            && self.haptic_alerts == other.haptic_alerts && self.low_battery_alert
            == other.low_battery_alert && self.vibration_intensity == other.vibration_intensity
            && self.recenter_pointer == other.recenter_pointer && self.cursor_control
            == other.cursor_control && self.freeze_effect == other.freeze_effect
            && self.effect_size == other.effect_size && self.effect_contrast
            == other.effect_contrast && self.spotlight_radius == other.spotlight_radius
            && self.magnifier_radius == other.magnifier_radius && self.magnification
            == other.magnification && self.effect_color == other.effect_color
            && self.magnifier_color == other.magnifier_color
    }

    /// Whether these are the defaults, which may be left out of a stored device.
    pub fn is_default(&self) -> (default: bool)
        ensures
            default == (*self == default_settings_spec()),
    {
        let reference = PresenterSettings::default();
        self.same_as(&reference)
    }

    /// Whether an effect takes part in the top-button cycle.
    pub fn effect_enabled(self, effect: PresenterEffect) -> (enabled: bool)
        ensures
            enabled == effect.in_mask(self.enabled_effects),
    {
        self.enabled_effects & effect.bit() != 0
    }

    /// The enabled mask without unknown bits, or the configured effect alone
    /// when nothing is left.
    pub open spec fn normalized_mask(self) -> u8 {
        if self.enabled_effects & ALL_EFFECTS == 0 {
            self.effect.bit_spec()
        } else {
            self.enabled_effects & ALL_EFFECTS
        }
    }

    /// The enabled mask with at least one usable effect.
    pub fn normalized_enabled_effects(self) -> (mask: u8)
        ensures
            mask == self.normalized_mask(),
            exists|effect: PresenterEffect| effect.in_mask(mask),
            mask & ALL_EFFECTS == mask,
    {
        let mask: u8 = self.enabled_effects & ALL_EFFECTS;
        let ghost effects: u8 = self.enabled_effects;
        let result: u8 = if mask == 0 {
            self.effect.bit()
        } else {
            mask
        };
        proof {
            lemma_mask(effects);
            lemma_mask(result);
            assert(0b001u8 & 0b001u8 != 0 && 0b010u8 & 0b010u8 != 0 && 0b100u8 & 0b100u8 != 0
                && 0b001u8 & 0b111u8 == 0b001u8 && 0b010u8 & 0b111u8 == 0b010u8 && 0b100u8
                & 0b111u8 == 0b100u8) by (bit_vector);
            if mask == 0 {
                assert(self.effect.in_mask(result));
            } else if PresenterEffect::DigitalLaser.in_mask(result) {
            } else if PresenterEffect::Highlight.in_mask(result) {
            } else {
                assert(PresenterEffect::Magnify.in_mask(result));
            }
        }
        result
    }

    /// The timer mode: a stored duration without a mode counts down.
    pub open spec fn timer_mode_spec(self) -> PresenterTimerMode {
        if self.timer_mode == PresenterTimerMode::Off && self.timer_seconds > 0 {
            PresenterTimerMode::Countdown
        } else {
            self.timer_mode
        }
    }

    /// The timer mode: a stored duration without a mode counts down.
    pub fn normalized_timer_mode(self) -> (mode: PresenterTimerMode)
        ensures
            mode == self.timer_mode_spec(),
    {
        if self.timer_mode == PresenterTimerMode::Off && self.timer_seconds > 0 {
            PresenterTimerMode::Countdown
        } else {
            self.timer_mode
        }
    }

    /// A complete effect order without repeats: the stored one, or the default.
    pub open spec fn effect_order_spec(self) -> [PresenterEffect; 3] {
        if complete_order(self.effect_order) {
            self.effect_order
        } else {
            default_order_spec()
        }
    }

    /// A complete effect order without repeats: the stored one, or the default.
    pub fn normalized_effect_order(self) -> (order: [PresenterEffect; 3])
        ensures
            order == self.effect_order_spec(),
            complete_order(order),
    {
        let first = self.effect_order[0];
        let second = self.effect_order[1];
        let third = self.effect_order[2];
        if first == second || first == third || second == third {
            default_effect_order()
        } else {
            self.effect_order
        }
    }

    /// The magnification percentage within the supported range.
    pub open spec fn magnification_spec(self) -> int {
        if 2 <= self.magnification <= 5 {
            self.magnification * 100
        } else if self.magnification < 100 {
            100
        } else if self.magnification <= 500 {
            self.magnification as int
        } else {
            500
        }
    }

    /// The magnification percentage within the supported range.
    pub fn normalized_magnification(self) -> (percent: u16)
        ensures
            percent == self.magnification_spec(),
            100 <= percent <= 500,
    {
        if 2 <= self.magnification && self.magnification <= 5 {
            self.magnification * 100
        } else if self.magnification < 100 {
            100
        } else if self.magnification <= 500 {
            self.magnification
        } else {
            500
        }
    }
}

/// What a mask cut to the three effects holds.
pub proof fn lemma_mask(mask: u8)
    ensures
        (mask & ALL_EFFECTS) & ALL_EFFECTS == mask & ALL_EFFECTS,
        forall|effect: PresenterEffect| effect.in_mask(mask & ALL_EFFECTS) == effect.in_mask(mask),
        (mask & ALL_EFFECTS == 0) == (forall|effect: PresenterEffect| !effect.in_mask(mask)),
{
    assert((mask & 0b111) & 0b111 == mask & 0b111 && (mask & 0b111) & 0b001 == mask & 0b001 && (mask
        & 0b111) & 0b010 == mask & 0b010 && (mask & 0b111) & 0b100 == mask & 0b100) by (bit_vector);
    assert((mask & 0b111 == 0) == (mask & 0b001 == 0 && mask & 0b010 == 0 && mask & 0b100 == 0))
        by (bit_vector);
    assert forall|effect: PresenterEffect| effect.in_mask(mask & ALL_EFFECTS) == effect.in_mask(mask) by {
        match effect {
            PresenterEffect::DigitalLaser => {},
            PresenterEffect::Highlight => {},
            PresenterEffect::Magnify => {},
        }
    }
    if forall|effect: PresenterEffect| !effect.in_mask(mask) {
        assert(!PresenterEffect::DigitalLaser.in_mask(mask));
        assert(!PresenterEffect::Highlight.in_mask(mask));
        assert(!PresenterEffect::Magnify.in_mask(mask));
    }
}

/// Normalizing settings twice changes nothing more: a normalized mask, timer
/// mode and magnification stay as they are.
pub proof fn law_normalization_is_stable(settings: PresenterSettings, normal: PresenterSettings)
    requires
        normal.effect == settings.effect,
        normal.enabled_effects == settings.normalized_mask(),
        normal.timer_seconds == settings.timer_seconds,
        normal.timer_mode == settings.timer_mode_spec(),
        normal.magnification == settings.magnification_spec(),
    ensures
        normal.normalized_mask() == normal.enabled_effects,
        normal.timer_mode_spec() == normal.timer_mode,
        normal.magnification_spec() == normal.magnification,
{
    lemma_mask(settings.enabled_effects);
    lemma_mask(normal.enabled_effects);
    assert(0b001u8 & 0b111u8 == 0b001u8 && 0b010u8 & 0b111u8 == 0b010u8 && 0b100u8 & 0b111u8
        == 0b100u8) by (bit_vector);
}

/// Pointer-speed level of the device, one of ten.
#[derive(Clone, Copy, Debug, PartialEq, Eq, Structural)]
pub struct PointerSpeed(u8);

impl View for PointerSpeed {
    type V = u8;

    closed spec fn view(&self) -> u8 {
        self.0
    }
}

impl PointerSpeed {
    /// Number of levels.
    pub const COUNT: u8 = 10;

    #[verifier::type_invariant]
    spec fn in_range(self) -> bool {
        self.0 < 10
    }

    /// The slowest level.
    pub fn min() -> (speed: PointerSpeed)
        ensures
            speed@ == 0,
    {
        PointerSpeed(0)
    }

    /// The fastest level.
    pub fn max() -> (speed: PointerSpeed)
        ensures
            speed@ == Self::COUNT - 1,
    {
        PointerSpeed(9)
    }

    /// The level `value`, when the device has it.
    pub fn new(value: u8) -> (speed: Option<PointerSpeed>)
        ensures
            match speed {
                Some(s) => value < Self::COUNT && s@ == value,
                None => value >= Self::COUNT,
            },
    {
        if value < Self::COUNT {
            Some(PointerSpeed(value))
        } else {
            None
        }
    }

    /// The level, `0..=9`.
    pub fn get(self) -> (level: u8)
        ensures
            level == self@,
            level < Self::COUNT,
    {
        proof {
            use_type_invariant(&self);
        }
        self.0
    }
}

impl Default for PointerSpeed {
    fn default() -> (speed: Self)
        ensures
            speed@ == 9,
    {
        PointerSpeed(9)
    }
}

} // verus!
