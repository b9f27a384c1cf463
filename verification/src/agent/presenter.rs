//! Host-side runtime of the presenter: the visual effect on screen, its cycle,
//! and the presentation timer.
//!
//! Times are milliseconds of one monotonic clock that the caller reads. Every
//! change that observers must see advances the generation, so the caller wakes
//! them whenever the generation moved.

use vstd::prelude::*;
use crate::color::Rgb;
use crate::order::Duplicate;
use crate::presenter::{
    complete_order, lemma_mask, PresenterEffect, PresenterSettings, PresenterTimerMode, ALL_EFFECTS,
};
use crate::route::DeviceRoute;

verus! {

/// One vibration the device is asked for.
#[derive(Debug, PartialEq, Eq)]
pub struct PresenterHapticRequest {
    /// Presenter that is to vibrate.
    pub route: DeviceRoute,
    /// Intensity percentage, `0..=100`.
    pub intensity: u8,
}

/// What is on screen and running.
#[derive(Clone, Copy, Debug, PartialEq, Eq)]
pub struct RuntimeState {
    /// Number of the state, never zero.
    pub generation: u64,
    /// Settings in force.
    pub configured: PresenterSettings,
    /// Effect the pointer button shows.
    pub selected_effect: PresenterEffect,
    /// Effect on screen.
    pub effect: Option<PresenterEffect>,
    /// When the countdown ends.
    pub timer_deadline: Option<u64>,
    /// Whether the wall-clock time is shown.
    pub timer_current_time: bool,
    /// Whether a timer runs.
    pub timer_started: bool,
    /// Where a frozen effect stays.
    pub frozen_position: Option<(i32, i32)>,
    /// Whether the pointer button is held.
    pub pointer_held: bool,
}

/// Presenter state shared by the agent's actions.
#[derive(Debug, PartialEq, Eq)]
pub struct PresenterManager {
    /// What is on screen and running.
    pub state: RuntimeState,
    /// The presenter that the last action came from.
    pub active_route: Option<DeviceRoute>,
}

/// What the overlay draws.
#[derive(Clone, Copy, Debug, PartialEq, Eq)]
pub struct PresenterOverlay {
    /// The effect.
    pub effect: PresenterEffect,
    /// What is left of the countdown.
    pub timer_remaining_ms: Option<u32>,
    /// Whether the wall-clock time is shown.
    pub timer_current_time: bool,
    /// Effect size percentage.
    pub effect_size: u8,
    /// Effect contrast percentage.
    pub effect_contrast: u8,
    /// Colour of the laser dot.
    pub effect_color: Rgb,
    /// Colour of the lens rim.
    pub magnifier_color: Rgb,
    /// Where a frozen effect stays.
    pub frozen_position: Option<(i32, i32)>,
    /// Whether the host cursor stays visible.
    pub cursor_control: bool,
    /// Radius of the clear area.
    pub spotlight_radius: u16,
    /// Radius of the lens.
    pub magnifier_radius: u16,
    /// Magnification percentage.
    pub magnification: u16,
}

/// What an observer sees of one state.
#[derive(Clone, Copy, Debug, PartialEq, Eq)]
pub struct PresenterObservation {
    /// Number of the state.
    pub generation: u64,
    /// What the overlay draws, if anything.
    pub overlay: Option<PresenterOverlay>,
}

/// Which way the effects cycle.
#[derive(Clone, Copy, Debug, PartialEq, Eq, Structural)]
pub enum CycleDirection {
    /// To the next effect in the order.
    Forward,
    /// To the previous effect in the order.
    Backward,
}

/// What keeps a started timer going.
#[derive(Clone, Copy, Debug, PartialEq, Eq, Structural)]
pub enum TimerTask {
    /// Nothing: no timer was started.
    Nothing,
    /// The countdown ticks.
    Countdown {
        /// Its whole length.
        seconds: u16,
    },
    /// The time of day is refreshed.
    Clock,
}

/// What the countdown does next.
#[derive(Debug, PartialEq, Eq)]
pub enum TimerTick {
    /// Nothing runs any more.
    Stopped,
    /// The time is up.
    Expired {
        /// The vibration that says so.
        haptic: Option<PresenterHapticRequest>,
    },
    /// Sleep, then tick again.
    Sleep {
        /// The five-minute warning, when it is due.
        haptic: Option<PresenterHapticRequest>,
        /// Whether the five-minute warning was given.
        warning_sent: bool,
        /// How long to sleep.
        millis: u64,
    },
}

/// The number of the state after `generation`: zero is skipped.
pub open spec fn next_generation(generation: u64) -> u64 {
    if generation == u64::MAX {
        1
    } else {
        (generation + 1) as u64
    }
}

/// `value` moved into `low..=high`.
pub open spec fn clamped(value: int, low: int, high: int) -> int {
    if value < low {
        low
    } else if value > high {
        high
    } else {
        value
    }
}

/// Settings with every field in its supported range.
pub open spec fn normalized(settings: PresenterSettings) -> PresenterSettings {
    PresenterSettings {
        enabled_effects: settings.normalized_mask(),
        effect_order: settings.effect_order_spec(),
        effect_size: clamped(settings.effect_size as int, 50, 200) as u8,
        effect_contrast: clamped(settings.effect_contrast as int, 25, 100) as u8,
        spotlight_radius: clamped(settings.spotlight_radius as int, 40, 320) as u16,
        magnifier_radius: clamped(settings.magnifier_radius as int, 40, 260) as u16,
        magnification: settings.magnification_spec() as u16,
        vibration_intensity: clamped(settings.vibration_intensity as int, 0, 100) as u8,
        timer_mode: settings.timer_mode_spec(),
        ..settings
    }
}

/// The effect that settings select: the configured one when it is enabled, else
/// the first enabled one in order.
pub open spec fn configured_effect_spec(settings: PresenterSettings) -> PresenterEffect {
    let order = settings.effect_order_spec()@;
    let mask = settings.enabled_effects;
    if settings.effect.in_mask(mask) {
        settings.effect
    } else if order[0].in_mask(mask) {
        order[0]
    } else if order[1].in_mask(mask) {
        order[1]
    } else if order[2].in_mask(mask) {
        order[2]
    } else {
        PresenterEffect::Highlight
    }
}

/// Where `effect` stands in a complete order.
pub open spec fn place(order: Seq<PresenterEffect>, effect: PresenterEffect) -> int {
    if order[0] == effect {
        0
    } else if order[1] == effect {
        1
    } else {
        2
    }
}

/// The effect that cycling from `current` reaches: the first enabled one behind
/// it in the direction, and `current` itself when no other is enabled.
pub open spec fn cycled(
    settings: PresenterSettings,
    current: PresenterEffect,
    direction: CycleDirection,
) -> PresenterEffect {
    let order = settings.effect_order_spec()@;
    let start = place(order, current);
    let step: int = if direction == CycleDirection::Forward {
        1
    } else {
        2
    };
    let first = order[(start + step) % 3];
    let second = order[(start + 2 * step) % 3];
    if first.in_mask(settings.enabled_effects) {
        first
    } else if second.in_mask(settings.enabled_effects) {
        second
    } else {
        current
    }
}

/// Whether settings are as [`PresenterManager::set_configured_settings`] keeps them.
pub open spec fn is_normalized(settings: PresenterSettings) -> bool {
    normalized(settings) == settings
}

/// Whether a countdown of `seconds` warns with `left` milliseconds to go.
pub open spec fn tick_warns(left: u64, seconds: u16, warning_sent: bool) -> bool {
    !warning_sent && left <= 300_000 && seconds > 300
}

/// How long a countdown sleeps with `left` milliseconds to go.
pub open spec fn tick_sleep(left: u64) -> u64 {
    if left < 250 {
        left
    } else {
        250
    }
}

/// How strongly a low battery vibrates, if at all.
pub open spec fn battery_alert(settings: PresenterSettings) -> Option<u8> {
    if settings.low_battery_alert && settings.vibration_intensity > 0 {
        Some(clamped(settings.vibration_intensity as int, 0, 100) as u8)
    } else {
        None
    }
}

impl RuntimeState {
    /// What always holds of the runtime: it is numbered, its settings are in
    /// range and the selected effect is an enabled one.
    pub open spec fn valid(self) -> bool {
        &&& self.generation > 0
        &&& is_normalized(self.configured)
        &&& self.selected_effect.in_mask(self.configured.enabled_effects)
    }

    /// The same state under the next number.
    pub open spec fn bumped(self) -> RuntimeState {
        RuntimeState { generation: next_generation(self.generation), ..self }
    }

    /// What is left of the countdown at `now`.
    pub open spec fn remaining_spec(self, now: u64) -> Option<u64> {
        match self.timer_deadline {
            Some(deadline) => Some(
                if deadline > now {
                    (deadline - now) as u64
                } else {
                    0
                },
            ),
            None => None,
        }
    }

    /// The state once nothing is on screen and no timer runs.
    pub open spec fn stopped(self) -> RuntimeState {
        (RuntimeState {
            effect: None,
            timer_deadline: None,
            timer_current_time: false,
            timer_started: false,
            frozen_position: None,
            ..self
        }).bumped()
    }

    /// The state once `effect` is on screen with a timer.
    pub open spec fn timed(
        self,
        effect: PresenterEffect,
        deadline: Option<u64>,
        current_time: bool,
    ) -> RuntimeState {
        (RuntimeState {
            effect: Some(effect),
            timer_deadline: deadline,
            timer_current_time: current_time,
            timer_started: true,
            frozen_position: None,
            ..self
        }).bumped()
    }

    /// The state once `effect` replaced what was on screen.
    pub open spec fn showing(self, effect: Option<PresenterEffect>) -> RuntimeState {
        (RuntimeState { effect, frozen_position: None, ..self }).bumped()
    }

    /// The state once `settings` took effect. A changed default or a selection
    /// that is no longer enabled selects anew; a visible effect or a running
    /// timer is announced.
    pub open spec fn configured_with(self, settings: PresenterSettings) -> RuntimeState {
        let normal = normalized(settings);
        if self.configured == normal {
            self
        } else {
            let next = RuntimeState {
                configured: normal,
                selected_effect: if self.configured.effect != normal.effect
                    || !self.selected_effect.in_mask(normal.enabled_effects) {
                    configured_effect_spec(normal)
                } else {
                    self.selected_effect
                },
                ..self
            };
            if self.effect is Some || self.timer_started {
                next.bumped()
            } else {
                next
            }
        }
    }

    /// The state once the pointer button went down: a frozen effect is
    /// dismissed, anything else shows the selected effect.
    pub open spec fn pressed(self) -> RuntimeState {
        if self.frozen_position is Some && self.effect is Some {
            (RuntimeState { effect: None, frozen_position: None, pointer_held: false, ..self }).bumped()
        } else {
            (RuntimeState {
                pointer_held: true,
                frozen_position: None,
                effect: Some(self.selected_effect),
                ..self
            }).bumped()
        }
    }

    /// The state once the pointer button came up at `cursor`.
    pub open spec fn pointer_up(self, cursor: Option<(i32, i32)>) -> RuntimeState {
        if !self.pointer_held {
            self
        } else if self.configured.freeze_effect {
            (RuntimeState { pointer_held: false, frozen_position: cursor, ..self }).bumped()
        } else {
            (RuntimeState { pointer_held: false, effect: None, frozen_position: None, ..self }).bumped()
        }
    }

    /// The state once the effects cycled: the selection moves, and what is on
    /// screen with it.
    pub open spec fn cycling(self, direction: CycleDirection) -> RuntimeState {
        let current = match self.effect {
            Some(effect) => effect,
            None => self.selected_effect,
        };
        let next = cycled(self.configured, current, direction);
        RuntimeState {
            selected_effect: next,
            effect: if self.effect is Some {
                Some(next)
            } else {
                None
            },
            ..self
        }
    }

    /// The state once the configured timer was started at `now`.
    pub open spec fn with_configured_timer(self, now: u64) -> RuntimeState {
        match self.configured.timer_mode {
            PresenterTimerMode::Off => self,
            PresenterTimerMode::Countdown => if self.configured.timer_seconds > 0 {
                self.timed(
                    self.selected_effect,
                    Some((now + self.configured.timer_seconds * 1000) as u64),
                    false,
                )
            } else {
                self
            },
            PresenterTimerMode::CurrentTime => self.timed(self.selected_effect, None, true),
        }
    }

    /// What keeps the configured timer going once it was started.
    pub open spec fn timer_task(self) -> TimerTask {
        match self.configured.timer_mode {
            PresenterTimerMode::Off => TimerTask::Nothing,
            PresenterTimerMode::Countdown => if self.configured.timer_seconds > 0 {
                TimerTask::Countdown { seconds: self.configured.timer_seconds }
            } else {
                TimerTask::Nothing
            },
            PresenterTimerMode::CurrentTime => TimerTask::Clock,
        }
    }

    /// Whether a timer alert vibrates, given whether a presenter was heard from.
    pub open spec fn vibrates(self, heard: bool) -> bool {
        self.configured.haptic_alerts && self.configured.vibration_intensity > 0 && heard
    }

    /// What an observer sees at `now`.
    pub open spec fn observed(self, now: u64) -> PresenterObservation {
        PresenterObservation {
            generation: self.generation,
            overlay: match self.effect {
                None => None,
                Some(effect) => Some(
                    PresenterOverlay {
                        effect,
                        timer_remaining_ms: match self.remaining_spec(now) {
                            None => None,
                            Some(left) => Some(
                                if left > u32::MAX {
                                    u32::MAX
                                } else {
                                    left as u32
                                },
                            ),
                        },
                        timer_current_time: self.timer_current_time,
                        effect_size: self.configured.effect_size,
                        effect_contrast: self.configured.effect_contrast,
                        effect_color: self.configured.effect_color,
                        magnifier_color: self.configured.magnifier_color,
                        frozen_position: self.frozen_position,
                        cursor_control: self.configured.cursor_control,
                        spotlight_radius: self.configured.spotlight_radius,
                        magnifier_radius: self.configured.magnifier_radius,
                        magnification: self.configured.magnification_spec() as u16,
                    },
                ),
            },
        }
    }
}

/// Moves the state to its next number.
pub fn bump_locked(state: &mut RuntimeState)
    ensures
        *final(state) == old(state).bumped(),
{
    let next: u64 = state.generation.wrapping_add(1);
    state.generation = if next < 1 {
        1
    } else {
        next
    };
}

/// The effect that settings select.
pub fn configured_effect(settings: &PresenterSettings) -> (effect: PresenterEffect)
    ensures
        effect == configured_effect_spec(*settings),
{
    if settings.effect_enabled(settings.effect) {
        return settings.effect;
    }
    let order = settings.normalized_effect_order();
    if settings.effect_enabled(order[0]) {
        order[0]
    } else if settings.effect_enabled(order[1]) {
        order[1]
    } else if settings.effect_enabled(order[2]) {
        order[2]
    } else {
        PresenterEffect::Highlight
    }
}

/// Moves the selection, and what is on screen with it, along the effect order.
pub fn cycle_locked(state: &mut RuntimeState, direction: CycleDirection)
    ensures
        *final(state) == old(state).cycling(direction),
{
    let settings = state.configured;
    let effects = settings.normalized_effect_order();
    let visible = state.effect.is_some();
    let current = match state.effect {
        Some(effect) => effect,
        None => state.selected_effect,
    };
    let start: usize = if effects[0] == current {
        0
    } else if effects[1] == current {
        1
    } else {
        2
    };
    let step: usize = match direction {
        CycleDirection::Forward => 1,
        CycleDirection::Backward => 2,
    };
    let first = effects[(start + step) % 3];
    let second = effects[(start + 2 * step) % 3];
    let next = if settings.effect_enabled(first) {
        first
    } else if settings.effect_enabled(second) {
        second
    } else {
        current
    };
    state.selected_effect = next;
    state.effect = if visible {
        Some(next)
    } else {
        None
    };
}

/// `value` moved into `low..=high`.
fn clamp_u8(value: u8, low: u8, high: u8) -> (result: u8)
    requires
        low <= high,
    ensures
        result == clamped(value as int, low as int, high as int),
{
    if value < low {
        low
    } else if value > high {
        high
    } else {
        value
    }
}

/// `value` moved into `low..=high`.
fn clamp_u16(value: u16, low: u16, high: u16) -> (result: u16)
    requires
        low <= high,
    ensures
        result == clamped(value as int, low as int, high as int),
{
    if value < low {
        low
    } else if value > high {
        high
    } else {
        value
    }
}

/// Moves every setting into its supported range.
pub fn normalize(settings: PresenterSettings) -> (normal: PresenterSettings)
    ensures
        normal == normalized(settings),
{
    let mut normal = settings;
    normal.enabled_effects = settings.normalized_enabled_effects();
    normal.effect_order = settings.normalized_effect_order();
    normal.effect_size = clamp_u8(settings.effect_size, 50, 200);
    normal.effect_contrast = clamp_u8(settings.effect_contrast, 25, 100);
    normal.spotlight_radius = clamp_u16(settings.spotlight_radius, 40, 320);
    normal.magnifier_radius = clamp_u16(settings.magnifier_radius, 40, 260);
    normal.magnification = settings.normalized_magnification();
    normal.vibration_intensity = clamp_u8(settings.vibration_intensity, 0, 100);
    normal.timer_mode = settings.normalized_timer_mode();
    normal
}

impl Default for PresenterManager {
    fn default() -> (manager: Self)
        ensures
            manager.state.valid(),
            manager.state.generation == 1,
            manager.state.configured == crate::presenter::default_settings_spec(),
            manager.state.selected_effect == PresenterEffect::Highlight,
            manager.state.effect is None,
            manager.state.timer_deadline is None,
            !manager.state.timer_current_time,
            !manager.state.timer_started,
            manager.state.frozen_position is None,
            !manager.state.pointer_held,
            manager.active_route is None,
    {
        let configured = PresenterSettings::default();
        let selected_effect = configured_effect(&configured);
        proof {
            assert(0b111u8 & 0b111u8 == 0b111u8 && 0b111u8 & 0b010u8 != 0) by (bit_vector);
            assert(configured.effect_order =~= configured.effect_order_spec());
        }
        PresenterManager {
            state: RuntimeState {
                generation: 1,
                configured,
                selected_effect,
                effect: None,
                timer_deadline: None,
                timer_current_time: false,
                timer_started: false,
                frozen_position: None,
                pointer_held: false,
            },
            active_route: None,
        }
    }
}

impl PresenterManager {
    fn set_effect(&mut self, effect: Option<PresenterEffect>)
        ensures
            final(self).state == old(self).state.showing(effect),
            final(self).active_route == old(self).active_route,
    {
        self.state.effect = effect;
        self.state.frozen_position = None;
        bump_locked(&mut self.state);
    }

    /// Shows one effect until it is replaced or canceled.
    pub fn show(&mut self, effect: PresenterEffect)
        ensures
            final(self).state == old(self).state.showing(Some(effect)),
            final(self).active_route == old(self).active_route,
    {
        self.set_effect(Some(effect));
    }

    /// Shows one effect, or takes it off screen when it is there already.
    pub fn toggle(&mut self, effect: PresenterEffect)
        ensures
            final(self).state == old(self).state.showing(
                if old(self).state.effect == Some(effect) {
                    None
                } else {
                    Some(effect)
                },
            ),
            final(self).active_route == old(self).active_route,
    {
        let shown = match self.state.effect {
            Some(active) => active == effect,
            None => false,
        };
        self.set_effect(
            if shown {
                None
            } else {
                Some(effect)
            },
        );
    }

    /// Replaces the settings that all presenter actions use.
    pub fn set_configured_settings(&mut self, settings: PresenterSettings)
        ensures
            final(self).state == old(self).state.configured_with(settings),
            final(self).active_route == old(self).active_route,
    {
        let settings = normalize(settings);
        if self.state.configured.same_as(&settings) {
            return;
        }
        let changed = self.state.configured.effect != settings.effect;
        self.state.configured = settings;
        if changed || !self.state.configured.effect_enabled(self.state.selected_effect) {
            self.state.selected_effect = configured_effect(&self.state.configured);
        }
        if self.state.effect.is_some() || self.state.timer_started {
            bump_locked(&mut self.state);
        }
    }

    /// Remembers the presenter that the current action came from.
    pub fn set_active_route(&mut self, route: DeviceRoute)
        ensures
            final(self).state == old(self).state,
            final(self).active_route == Some(route),
    {
        self.active_route = Some(route);
    }

    /// The vibration that a low battery asks for.
    pub fn alert_low_battery(&self, route: DeviceRoute, settings: PresenterSettings) -> (request: Option<
        PresenterHapticRequest,
    >)
        ensures
            request == if settings.low_battery_alert && settings.vibration_intensity > 0 {
                Some(
                    PresenterHapticRequest {
                        route,
                        intensity: clamped(settings.vibration_intensity as int, 0, 100) as u8,
                    },
                )
            } else {
                None
            },
            (request is Some) == (battery_alert(settings) is Some),
            request matches Some(r) ==> Some(r.intensity) == battery_alert(settings) && r.route
                == route,
    {
        if settings.low_battery_alert && settings.vibration_intensity > 0 {
            Some(
                PresenterHapticRequest {
                    route,
                    intensity: clamp_u8(settings.vibration_intensity, 0, 100),
                },
            )
        } else {
            None
        }
    }

    /// Whether the pointer action first recenters the cursor.
    pub fn should_recenter(&self) -> (recenter: bool)
        ensures
            recenter == self.state.configured.recenter_pointer,
    {
        self.state.configured.recenter_pointer
    }

    /// Whether the pointer button is held.
    pub fn pointer_is_held(&self) -> (held: bool)
        ensures
            held == self.state.pointer_held,
    {
        self.state.pointer_held
    }

    /// Toggles the selected effect.
    pub fn show_configured(&mut self)
        ensures
            final(self).state == old(self).state.showing(
                if old(self).state.effect == Some(old(self).state.selected_effect) {
                    None
                } else {
                    Some(old(self).state.selected_effect)
                },
            ),
            final(self).active_route == old(self).active_route,
    {
        let effect = self.state.selected_effect;
        self.toggle(effect);
    }

    /// Handles the pointer button going down.
    pub fn pointer_pressed(&mut self)
        ensures
            final(self).state == old(self).state.pressed(),
            final(self).active_route == old(self).active_route,
    {
        if self.state.frozen_position.is_some() && self.state.effect.is_some() {
            self.state.effect = None;
            self.state.frozen_position = None;
            self.state.pointer_held = false;
        } else {
            self.state.pointer_held = true;
            self.state.frozen_position = None;
            self.state.effect = Some(self.state.selected_effect);
        }
        bump_locked(&mut self.state);
    }

    /// Handles the pointer button coming up with the cursor at `cursor`.
    pub fn pointer_released(&mut self, cursor: Option<(i32, i32)>)
        ensures
            final(self).state == old(self).state.pointer_up(cursor),
            final(self).active_route == old(self).active_route,
    {
        if !self.state.pointer_held {
            return;
        }
        self.state.pointer_held = false;
        if self.state.configured.freeze_effect {
            self.state.frozen_position = cursor;
        } else {
            self.state.effect = None;
            self.state.frozen_position = None;
        }
        bump_locked(&mut self.state);
    }

    fn cycle(&mut self, direction: CycleDirection)
        ensures
            final(self).state == (RuntimeState {
                frozen_position: None,
                ..old(self).state.cycling(direction)
            }).bumped(),
            final(self).active_route == old(self).active_route,
    {
        cycle_locked(&mut self.state, direction);
        self.state.frozen_position = None;
        bump_locked(&mut self.state);
    }

    /// Moves to the next enabled effect.
    pub fn cycle_forward(&mut self)
        ensures
            final(self).state == (RuntimeState {
                frozen_position: None,
                ..old(self).state.cycling(CycleDirection::Forward)
            }).bumped(),
            final(self).active_route == old(self).active_route,
    {
        self.cycle(CycleDirection::Forward);
    }

    /// Moves to the previous enabled effect.
    pub fn cycle_backward(&mut self)
        ensures
            final(self).state == (RuntimeState {
                frozen_position: None,
                ..old(self).state.cycling(CycleDirection::Backward)
            }).bumped(),
            final(self).active_route == old(self).active_route,
    {
        self.cycle(CycleDirection::Backward);
    }

    /// Starts the configured timer on the first slide navigation; later ones do
    /// not restart it.
    pub fn start_configured_timer_once(&mut self, now: u64) -> (task: TimerTask)
        requires
            now + 65_535_000 <= u64::MAX,
        ensures
            final(self).state == if old(self).state.timer_started {
                old(self).state
            } else {
                old(self).state.with_configured_timer(now)
            },
            task == if old(self).state.timer_started {
                TimerTask::Nothing
            } else {
                old(self).state.timer_task()
            },
            final(self).active_route == old(self).active_route,
    {
        if self.state.timer_started {
            return TimerTask::Nothing;
        }
        self.start_configured_timer(now)
    }

    /// What keeps the configured timer going once it was started.
    pub fn configured_timer_task(&self) -> (task: TimerTask)
        ensures
            task == self.state.timer_task(),
    {
        let seconds: u16 = self.state.configured.timer_seconds;
        match self.state.configured.timer_mode {
            PresenterTimerMode::Off => TimerTask::Nothing,
            PresenterTimerMode::Countdown => if seconds > 0 {
                TimerTask::Countdown { seconds }
            } else {
                TimerTask::Nothing
            },
            PresenterTimerMode::CurrentTime => TimerTask::Clock,
        }
    }

    /// Starts or restarts the configured timer, and says what keeps it going.
    pub fn start_configured_timer(&mut self, now: u64) -> (task: TimerTask)
        requires
            now + 65_535_000 <= u64::MAX,
        ensures
            final(self).state == old(self).state.with_configured_timer(now),
            task == old(self).state.timer_task(),
            final(self).active_route == old(self).active_route,
    {
        let task = self.configured_timer_task();
        let effect = self.state.selected_effect;
        let seconds: u16 = self.state.configured.timer_seconds;
        match self.state.configured.timer_mode {
            PresenterTimerMode::Off => {},
            PresenterTimerMode::Countdown => {
                self.start_timer(effect, seconds, now);
            },
            PresenterTimerMode::CurrentTime => {
                self.start_current_time(effect);
            },
        }
        task
    }

    /// Starts a countdown while showing `effect`; [`Self::timer_tick`] runs it.
    pub fn start_timer(&mut self, effect: PresenterEffect, seconds: u16, now: u64)
        requires
            now + 65_535_000 <= u64::MAX,
        ensures
            final(self).state == if seconds == 0 {
                old(self).state
            } else {
                old(self).state.timed(effect, Some((now + seconds * 1000) as u64), false)
            },
            final(self).active_route == old(self).active_route,
    {
        if seconds == 0 {
            return;
        }
        let deadline: u64 = now + (seconds as u64) * 1000;
        self.set_timed_state(effect, Some(deadline), false);
    }

    /// Shows `effect` with the wall-clock time; [`Self::current_time_active`]
    /// says how long it is refreshed.
    pub fn start_current_time(&mut self, effect: PresenterEffect)
        ensures
            final(self).state == old(self).state.timed(effect, None, true),
            final(self).active_route == old(self).active_route,
    {
        self.set_timed_state(effect, None, true);
    }

    /// Takes everything off screen and stops the timer.
    pub fn clear(&mut self)
        ensures
            final(self).state == (RuntimeState {
                pointer_held: false,
                ..old(self).state
            }).stopped(),
            final(self).active_route == old(self).active_route,
    {
        self.state.pointer_held = false;
        self.stop_timer();
    }

    /// What an observer sees at `now`.
    pub fn snapshot(&self, now: u64) -> (seen: PresenterObservation)
        ensures
            seen == self.state.observed(now),
    {
        let settings = self.state.configured;
        let overlay = match self.state.effect {
            None => None,
            Some(effect) => {
                let timer_remaining_ms = match self.remaining(now) {
                    None => None,
                    Some(left) => Some(
                        if left > u32::MAX as u64 {
                            u32::MAX
                        } else {
                            left as u32
                        },
                    ),
                };
                Some(
                    PresenterOverlay {
                        effect,
                        timer_remaining_ms,
                        timer_current_time: self.state.timer_current_time,
                        effect_size: settings.effect_size,
                        effect_contrast: settings.effect_contrast,
                        effect_color: settings.effect_color,
                        magnifier_color: settings.magnifier_color,
                        frozen_position: self.state.frozen_position,
                        cursor_control: settings.cursor_control,
                        spotlight_radius: settings.spotlight_radius,
                        magnifier_radius: settings.magnifier_radius,
                        magnification: settings.normalized_magnification(),
                    },
                )
            },
        };
        PresenterObservation { generation: self.state.generation, overlay }
    }

    /// What an observer that knows the state `since` is answered at `now`: the
    /// current state once it is another one, or once the wait has run out.
    pub fn observe(&self, since: u64, waited: bool, now: u64) -> (seen: Option<PresenterObservation>)
        ensures
            seen == if self.state.generation != since || waited {
                Some(self.state.observed(now))
            } else {
                None
            },
    {
        if self.state.generation != since || waited {
            Some(self.snapshot(now))
        } else {
            None
        }
    }

    fn set_timed_state(
        &mut self,
        effect: PresenterEffect,
        timer_deadline: Option<u64>,
        timer_current_time: bool,
    )
        ensures
            final(self).state == old(self).state.timed(effect, timer_deadline, timer_current_time),
            final(self).active_route == old(self).active_route,
    {
        self.state.effect = Some(effect);
        self.state.timer_deadline = timer_deadline;
        self.state.timer_current_time = timer_current_time;
        self.state.timer_started = true;
        self.state.frozen_position = None;
        bump_locked(&mut self.state);
    }

    fn stop_timer(&mut self)
        ensures
            final(self).state == old(self).state.stopped(),
            final(self).active_route == old(self).active_route,
    {
        self.state.effect = None;
        self.state.timer_deadline = None;
        self.state.timer_current_time = false;
        self.state.timer_started = false;
        self.state.frozen_position = None;
        bump_locked(&mut self.state);
    }

    /// What is left of the countdown at `now`.
    pub fn remaining(&self, now: u64) -> (left: Option<u64>)
        ensures
            left == self.state.remaining_spec(now),
    {
        match self.state.timer_deadline {
            Some(deadline) => Some(
                if deadline > now {
                    deadline - now
                } else {
                    0
                },
            ),
            None => None,
        }
    }

    /// Announces a tick of a running timer.
    pub fn bump(&mut self)
        ensures
            final(self).state == if old(self).state.timer_started {
                old(self).state.bumped()
            } else {
                old(self).state
            },
            final(self).active_route == old(self).active_route,
    {
        if self.state.timer_started {
            bump_locked(&mut self.state);
        }
    }

    /// Whether the wall-clock time is still shown.
    pub fn current_time_active(&self) -> (active: bool)
        ensures
            active == (self.state.timer_started && self.state.timer_current_time),
    {
        self.state.timer_started && self.state.timer_current_time
    }

    /// The vibration a timer alert asks for: none when alerts are off, the
    /// intensity is zero, or no presenter was heard from.
    pub fn timer_haptic_request(&self) -> (request: Option<PresenterHapticRequest>)
        ensures
            match request {
                Some(r) => self.state.configured.haptic_alerts
                    && self.state.configured.vibration_intensity > 0 && self.active_route is Some
                    && r.route@ == (self.active_route->0)@ && r.intensity
                    == self.state.configured.vibration_intensity,
                None => !self.state.configured.haptic_alerts
                    || self.state.configured.vibration_intensity == 0 || self.active_route is None,
            },
            (request is Some) == self.state.vibrates(self.active_route is Some),
    {
        if !self.state.configured.haptic_alerts || self.state.configured.vibration_intensity == 0 {
            return None;
        }
        match &self.active_route {
            Some(route) => Some(
                PresenterHapticRequest {
                    route: route.duplicate(),
                    intensity: self.state.configured.vibration_intensity,
                },
            ),
            None => None,
        }
    }

    /// One turn of the countdown of `seconds` at `now`: it stops when the timer
    /// was taken away, expires when nothing is left, and otherwise sleeps at
    /// most a quarter of a second. A countdown of more than five minutes warns
    /// once when five minutes are left.
    pub fn timer_tick(&mut self, now: u64, seconds: u16, warning_sent: bool) -> (tick: TimerTick)
        ensures
            final(self).active_route == old(self).active_route,
            match old(self).state.remaining_spec(now) {
                None => tick is Stopped && final(self).state == old(self).state,
                Some(left) => if left == 0 {
                    &&& tick is Expired
                    &&& final(self).state == old(self).state.stopped()
                    &&& (tick->Expired_haptic is Some) == (
                    old(self).state.configured.haptic_alerts
                        && old(self).state.configured.vibration_intensity > 0 && old(
                        self,
                    ).active_route is Some)
                    &&& tick->Expired_haptic matches Some(r) ==> r.route@ == (
                    old(self).active_route->0)@ && r.intensity == old(
                        self,
                    ).state.configured.vibration_intensity
                } else {
                    let warns = !warning_sent && left <= 300_000 && seconds > 300;
                    &&& tick is Sleep
                    &&& final(self).state == old(self).state
                    &&& tick->warning_sent == (warning_sent || warns)
                    &&& tick->millis == if left < 250 {
                        left
                    } else {
                        250
                    }
                    &&& (tick->Sleep_haptic is Some) == (warns && old(
                        self,
                    ).state.configured.haptic_alerts && old(
                        self,
                    ).state.configured.vibration_intensity > 0 && old(self).active_route is Some)
                    &&& tick->Sleep_haptic matches Some(r) ==> r.route@ == (
                    old(self).active_route->0)@ && r.intensity == old(
                        self,
                    ).state.configured.vibration_intensity
                },
            },
            (tick is Stopped) == (old(self).state.timer_deadline is None),
            tick is Expired ==> (tick->Expired_haptic is Some) == old(self).state.vibrates(
                old(self).active_route is Some,
            ),
            (tick is Expired) == (old(self).state.remaining_spec(now) == Some(0u64)),
            tick matches TimerTick::Sleep { haptic, warning_sent: warned, millis } ==> {
                let left = old(self).state.remaining_spec(now)->0;
                &&& millis == tick_sleep(left)
                &&& warned == (warning_sent || tick_warns(left, seconds, warning_sent))
                &&& (haptic is Some) == (tick_warns(left, seconds, warning_sent) && old(
                    self,
                ).state.vibrates(old(self).active_route is Some))
            },
    {
        let left: u64 = match self.remaining(now) {
            None => {
                return TimerTick::Stopped;
            },
            Some(left) => left,
        };
        if left == 0 {
            let haptic = self.timer_haptic_request();
            self.stop_timer();
            return TimerTick::Expired { haptic };
        }
        let warns = !warning_sent && left <= 300_000 && seconds > 300;
        let haptic = if warns {
            self.timer_haptic_request()
        } else {
            None
        };
        TimerTick::Sleep {
            haptic,
            warning_sent: warning_sent || warns,
            millis: if left < 250 {
                left
            } else {
                250
            },
        }
    }
}

/// The number of a state is never zero and always differs from the one before.
pub proof fn law_generation_moves(generation: u64)
    ensures
        next_generation(generation) > 0,
        next_generation(generation) != generation,
{
}

proof fn lemma_enabled_is_found(settings: PresenterSettings)
    requires
        is_normalized(settings),
    ensures
        configured_effect_spec(settings).in_mask(settings.enabled_effects),
        exists|e: PresenterEffect| e.in_mask(settings.enabled_effects),
        complete_order(settings.effect_order_spec()),
{
    let order = settings.effect_order_spec()@;
    lemma_mask(settings.enabled_effects);
    assert(0b001u8 & 0b001u8 != 0 && 0b010u8 & 0b010u8 != 0 && 0b100u8 & 0b100u8 != 0)
        by (bit_vector);
    assert(settings.normalized_mask() == settings.enabled_effects);
    if settings.enabled_effects & ALL_EFFECTS == 0 {
        assert(settings.effect.in_mask(settings.enabled_effects));
    }
    let e = choose|e: PresenterEffect| e.in_mask(settings.enabled_effects);
    assert(order[0] == e || order[1] == e || order[2] == e);
}

/// Normalizing settings once is enough.
pub proof fn law_normalize_is_idempotent(settings: PresenterSettings)
    ensures
        is_normalized(normalized(settings)),
{
    let normal = normalized(settings);
    lemma_mask(settings.enabled_effects);
    assert(0b001u8 & 0b111u8 == 0b001u8 && 0b010u8 & 0b111u8 == 0b010u8 && 0b100u8 & 0b111u8
        == 0b100u8) by (bit_vector);
    assert(normal.effect_order_spec() =~= normal.effect_order);
}

/// Every operation keeps what always holds of the runtime.
pub proof fn law_operations_keep_validity(
    state: RuntimeState,
    settings: PresenterSettings,
    effect: Option<PresenterEffect>,
    direction: CycleDirection,
    cursor: Option<(i32, i32)>,
    now: u64,
)
    requires
        state.valid(),
    ensures
        state.configured_with(settings).valid(),
        state.showing(effect).valid(),
        state.pressed().valid(),
        state.pointer_up(cursor).valid(),
        state.cycling(direction).valid(),
        state.with_configured_timer(now).valid(),
        state.stopped().valid(),
{
    law_normalize_is_idempotent(settings);
    lemma_enabled_is_found(normalized(settings));
    lemma_enabled_is_found(state.configured);
    let order = state.configured.effect_order_spec()@;
    let current = match state.effect {
        Some(e) => e,
        None => state.selected_effect,
    };
    let start = place(order, current);
    assert(order[start] == current);
    let e = choose|e: PresenterEffect| e.in_mask(state.configured.enabled_effects);
    assert(order[0] == e || order[1] == e || order[2] == e);
}

/// The effect that cycling selects is enabled, and it is another one whenever
/// another one is enabled.
pub proof fn law_cycle_reaches_an_enabled_effect(
    settings: PresenterSettings,
    current: PresenterEffect,
    other: PresenterEffect,
    direction: CycleDirection,
)
    requires
        other != current,
        other.in_mask(settings.enabled_effects),
    ensures
        cycled(settings, current, direction).in_mask(settings.enabled_effects),
        cycled(settings, current, direction) != current,
{
    let order = settings.effect_order_spec()@;
    let start = place(order, current);
    assert(order[start] == current);
    assert(order[0] == other || order[1] == other || order[2] == other);
}

/// From an enabled effect, cycling back undoes cycling forward.
pub proof fn law_cycle_back_undoes_forward(settings: PresenterSettings, current: PresenterEffect)
    requires
        current.in_mask(settings.enabled_effects),
    ensures
        cycled(
            settings,
            cycled(settings, current, CycleDirection::Forward),
            CycleDirection::Backward,
        ) == current,
{
    let order = settings.effect_order_spec()@;
    let start = place(order, current);
    assert(order[start] == current);
}

/// With freezing on, a press and release pin the effect and the next press and
/// release take it off screen; with freezing off the first release does.
pub proof fn law_freeze_is_a_two_state_interaction(state: RuntimeState, cursor: (i32, i32))
    requires
        state.frozen_position is None,
    ensures
        !state.configured.freeze_effect ==> state.pressed().pointer_up(Some(cursor)).effect is None,
        state.configured.freeze_effect ==> {
            let pinned = state.pressed().pointer_up(Some(cursor));
            &&& pinned.effect == Some(state.selected_effect)
            &&& pinned.frozen_position == Some(cursor)
            &&& pinned.pressed().pointer_up(Some(cursor)).effect is None
            &&& pinned.pressed().pointer_up(Some(cursor)).frozen_position is None
        },
{
}

} // verus!
