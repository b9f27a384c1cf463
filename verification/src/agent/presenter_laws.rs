//! What the presenter runtime shows and when, said of times, masks and
//! percentages.

use vstd::prelude::*;
use crate::agent::presenter::{
    battery_alert, configured_effect_spec, cycled, normalized, tick_sleep, tick_warns,
    CycleDirection, RuntimeState, TimerTask,
};
use crate::presenter::{
    default_settings_spec, lemma_mask, PresenterEffect, PresenterSettings, PresenterTimerMode,
    ALL_EFFECTS,
};

verus! {

/// While an effect is on screen, an observer sees the time between now and the
/// end of the countdown, nothing once that is past, and never more than 32 bits
/// hold; without a countdown no time is seen, and without an effect nothing is.
pub proof fn law_the_time_left_is_seen(state: RuntimeState, now: u64, deadline: u64)
    ensures
        (state.observed(now).overlay is Some) == (state.effect is Some),
        state.observed(now).generation == state.generation,
        state.observed(now).overlay matches Some(seen) ==> {
            &&& state.effect == Some(seen.effect)
            &&& (seen.timer_remaining_ms is Some) == (state.timer_deadline is Some)
            &&& state.timer_deadline == Some(deadline) ==> {
                let left = seen.timer_remaining_ms->0;
                &&& deadline <= now ==> left == 0
                &&& now < deadline && deadline - now <= 0xffff_ffff ==> now + left == deadline
                &&& now + 0xffff_ffff < deadline ==> left == 0xffff_ffff
            }
        },
{
}

/// What is on screen is drawn as the settings say, where it is frozen and with or
/// without the clock as the state says.
pub proof fn law_an_overlay_is_drawn_as_configured(state: RuntimeState, now: u64)
    requires
        state.effect is Some,
    ensures
        ({
            let seen = state.observed(now).overlay->0;
            &&& seen.timer_current_time == state.timer_current_time
            &&& seen.frozen_position == state.frozen_position
            &&& seen.effect_size == state.configured.effect_size
            &&& seen.effect_contrast == state.configured.effect_contrast
            &&& seen.effect_color == state.configured.effect_color
            &&& seen.magnifier_color == state.configured.magnifier_color
            &&& seen.cursor_control == state.configured.cursor_control
            &&& seen.spotlight_radius == state.configured.spotlight_radius
            &&& seen.magnifier_radius == state.configured.magnifier_radius
            &&& 100 <= state.configured.magnification <= 500 ==> seen.magnification
                == state.configured.magnification
        }),
{
}

/// A countdown of `s` seconds shows its whole length when it starts, a millisecond
/// less with each that passes, and nothing left from its end on.
pub proof fn law_a_started_countdown_shows_its_length(
    state: RuntimeState,
    effect: PresenterEffect,
    seconds: u16,
    start: u64,
    elapsed: u64,
)
    requires
        seconds > 0,
        start + 65_535_000 <= u64::MAX,
        start + elapsed <= u64::MAX,
    ensures
        ({
            let running = state.timed(effect, Some((start + seconds * 1000) as u64), false);
            let seen = running.observed((start + elapsed) as u64).overlay;
            &&& running.timer_started
            &&& !running.timer_current_time
            &&& seen is Some && seen->0.effect == effect
            &&& elapsed <= seconds * 1000 ==> seen->0.timer_remaining_ms == Some(
                (seconds * 1000 - elapsed) as u32,
            )
            &&& elapsed >= seconds * 1000 ==> seen->0.timer_remaining_ms == Some(0u32)
        }),
{
}

/// A countdown sleeps a quarter of a second at a time, never past its end and never for
/// nothing while some of it is left.
pub proof fn law_a_countdown_never_oversleeps(left: u64)
    ensures
        tick_sleep(left) <= left,
        tick_sleep(left) <= 250,
        left > 0 ==> tick_sleep(left) > 0,
        left >= 250 ==> tick_sleep(left) == 250,
        left <= 250 ==> tick_sleep(left) == left,
{
}

/// A countdown of more than five minutes warns at the first turn that finds five minutes
/// or less to go, and never again; a shorter one does not warn.
pub proof fn law_five_minutes_are_warned_of_once(left: u64, seconds: u16, sent: bool)
    ensures
        seconds <= 5 * 60 ==> !tick_warns(left, seconds, sent),
        left > 5 * 60 * 1000 ==> !tick_warns(left, seconds, sent),
        seconds > 5 * 60 && left <= 5 * 60 * 1000 ==> tick_warns(left, seconds, false),
        !tick_warns(left, seconds, true),
{
}

/// An alert vibrates exactly where alerts are on, the intensity is not zero, and a
/// presenter was heard from.
pub proof fn law_alerts_vibrate_where_they_are_wanted(state: RuntimeState, heard: bool)
    ensures
        state.vibrates(heard) ==> heard,
        !state.configured.haptic_alerts ==> !state.vibrates(heard),
        state.configured.vibration_intensity == 0 ==> !state.vibrates(heard),
        state.configured.haptic_alerts && state.configured.vibration_intensity != 0
            ==> state.vibrates(true),
{
}

/// A low battery vibrates where that is on, with the set intensity and with no more than
/// a hundred percent.
pub proof fn law_a_low_battery_vibrates_where_it_is_wanted(settings: PresenterSettings)
    ensures
        !settings.low_battery_alert ==> battery_alert(settings) is None,
        settings.vibration_intensity == 0 ==> battery_alert(settings) is None,
        settings.low_battery_alert && 0 < settings.vibration_intensity <= 100 ==> battery_alert(
            settings,
        ) == Some(settings.vibration_intensity),
        settings.low_battery_alert && settings.vibration_intensity > 100 ==> battery_alert(settings)
            == Some(100u8),
{
}

/// Starting the configured timer does what its mode says: nothing when it is off
/// or counts down from zero, a countdown of its seconds on the selected effect, or
/// the time of day on it. What is to keep it going agrees with what is shown.
pub proof fn law_the_configured_timer_is_what_starts(state: RuntimeState, now: u64)
    requires
        now + 65_535_000 <= u64::MAX,
    ensures
        ({
            let after = state.with_configured_timer(now);
            let seen = after.observed(now).overlay;
            let counts = state.configured.timer_mode == PresenterTimerMode::Countdown
                && state.configured.timer_seconds > 0;
            let clock = state.configured.timer_mode == PresenterTimerMode::CurrentTime;
            &&& !counts && !clock ==> after == state && state.timer_task() == TimerTask::Nothing
            &&& counts ==> {
                &&& seen is Some && seen->0.effect == state.selected_effect
                &&& seen->0.timer_remaining_ms == Some(
                    (state.configured.timer_seconds * 1000) as u32,
                )
                &&& !seen->0.timer_current_time
                &&& state.timer_task() == (TimerTask::Countdown {
                    seconds: state.configured.timer_seconds,
                })
            }
            &&& clock ==> {
                &&& seen is Some && seen->0.effect == state.selected_effect
                &&& seen->0.timer_remaining_ms is None
                &&& seen->0.timer_current_time
                &&& state.timer_task() == TimerTask::Clock
            }
            &&& counts || clock ==> {
                &&& after.timer_started
                &&& after.frozen_position is None
                &&& after.generation != state.generation
                &&& after.configured == state.configured
                &&& after.selected_effect == state.selected_effect
                &&& after.pointer_held == state.pointer_held
            }
        }),
{
}

/// Stopping takes the effect and every timer away and announces it; the settings
/// and the selection stay.
pub proof fn law_stopping_leaves_nothing_running(state: RuntimeState, now: u64)
    ensures
        ({
            let after = state.stopped();
            &&& after.observed(now).overlay is None
            &&& after.remaining_spec(now) is None
            &&& !after.timer_started
            &&& !after.timer_current_time
            &&& after.frozen_position is None
            &&& after.generation != state.generation
            &&& after.configured == state.configured
            &&& after.selected_effect == state.selected_effect
            &&& after.pointer_held == state.pointer_held
        }),
{
}

/// Showing puts exactly that on screen, not frozen, and announces it; the timer
/// goes on.
pub proof fn law_showing_replaces_what_was_on_screen(
    state: RuntimeState,
    effect: Option<PresenterEffect>,
)
    ensures
        ({
            let after = state.showing(effect);
            &&& after.effect == effect
            &&& after.frozen_position is None
            &&& after.generation != state.generation
            &&& after.timer_deadline == state.timer_deadline
            &&& after.timer_current_time == state.timer_current_time
            &&& after.timer_started == state.timer_started
            &&& after.configured == state.configured
            &&& after.selected_effect == state.selected_effect
            &&& after.pointer_held == state.pointer_held
        }),
{
}

/// A press shows the selected effect and holds it, except that it takes a frozen
/// effect off screen without holding anything; either way it is announced, and the
/// timer, the settings and the selection stay.
pub proof fn law_a_press_shows_or_dismisses(state: RuntimeState)
    ensures
        ({
            let after = state.pressed();
            let frozen = state.effect is Some && state.frozen_position is Some;
            &&& !frozen ==> after.effect == Some(state.selected_effect) && after.pointer_held
            &&& frozen ==> after.effect is None && !after.pointer_held
            &&& after.frozen_position is None
            &&& after.generation != state.generation
            &&& after.timer_deadline == state.timer_deadline
            &&& after.timer_current_time == state.timer_current_time
            &&& after.timer_started == state.timer_started
            &&& after.configured == state.configured
            &&& after.selected_effect == state.selected_effect
        }),
{
}

/// A release without a press changes nothing. A release ends the press: with
/// freezing the effect stays where the cursor is, without it the effect goes;
/// either way it is announced, and the timer, the settings and the selection stay.
pub proof fn law_a_release_freezes_or_hides(state: RuntimeState, cursor: Option<(i32, i32)>)
    ensures
        ({
            let after = state.pointer_up(cursor);
            &&& !state.pointer_held ==> after == state
            &&& state.pointer_held ==> {
                &&& !after.pointer_held
                &&& state.configured.freeze_effect ==> after.effect == state.effect
                    && after.frozen_position == cursor
                &&& !state.configured.freeze_effect ==> after.effect is None
                    && after.frozen_position is None
                &&& after.generation != state.generation
            }
            &&& after.timer_deadline == state.timer_deadline
            &&& after.timer_current_time == state.timer_current_time
            &&& after.timer_started == state.timer_started
            &&& after.configured == state.configured
            &&& after.selected_effect == state.selected_effect
        }),
{
}

/// Whether a mask holds an effect: the laser in its first bit, the highlight in its
/// second, the lens in its third.
pub open spec fn mask_has(mask: u8, effect: PresenterEffect) -> bool {
    match effect {
        PresenterEffect::DigitalLaser => mask & 1 != 0,
        PresenterEffect::Highlight => mask & 2 != 0,
        PresenterEffect::Magnify => mask & 4 != 0,
    }
}

/// Whether three effects are pairwise different.
pub open spec fn different(order: Seq<PresenterEffect>) -> bool {
    order[0] != order[1] && order[1] != order[2] && order[0] != order[2]
}

/// Cycling goes along the stored order: forward to the effect behind the current
/// one, else, where that one is not enabled, to the one behind that; backward the
/// other way round. Where neither is enabled the current effect stays.
pub proof fn law_cycling_follows_the_order(settings: PresenterSettings, i: int)
    requires
        0 <= i < 3,
        different(settings.effect_order@),
    ensures
        ({
            let order = settings.effect_order@;
            let mask = settings.enabled_effects;
            let current = order[i];
            let behind = order[if i == 2 {
                0
            } else {
                i + 1
            }];
            let before = order[if i == 0 {
                2
            } else {
                i - 1
            }];
            &&& mask_has(mask, behind) ==> cycled(settings, current, CycleDirection::Forward)
                == behind
            &&& mask_has(mask, before) ==> cycled(settings, current, CycleDirection::Backward)
                == before
            &&& !mask_has(mask, behind) && mask_has(mask, before) ==> cycled(
                settings,
                current,
                CycleDirection::Forward,
            ) == before
            &&& !mask_has(mask, before) && mask_has(mask, behind) ==> cycled(
                settings,
                current,
                CycleDirection::Backward,
            ) == behind
            &&& !mask_has(mask, before) && !mask_has(mask, behind) ==> cycled(
                settings,
                current,
                CycleDirection::Forward,
            ) == current && cycled(settings, current, CycleDirection::Backward) == current
        }),
{
}

/// Without a stored order of all three effects, cycling goes from the highlight to
/// the lens to the laser and back to the highlight.
pub proof fn law_an_incomplete_order_cycles_by_default(settings: PresenterSettings)
    requires
        !different(settings.effect_order@),
        settings.enabled_effects & 1 != 0,
        settings.enabled_effects & 2 != 0,
        settings.enabled_effects & 4 != 0,
    ensures
        cycled(settings, PresenterEffect::Highlight, CycleDirection::Forward)
            == PresenterEffect::Magnify,
        cycled(settings, PresenterEffect::Magnify, CycleDirection::Forward)
            == PresenterEffect::DigitalLaser,
        cycled(settings, PresenterEffect::DigitalLaser, CycleDirection::Forward)
            == PresenterEffect::Highlight,
        cycled(settings, PresenterEffect::Highlight, CycleDirection::Backward)
            == PresenterEffect::DigitalLaser,
        cycled(settings, PresenterEffect::DigitalLaser, CycleDirection::Backward)
            == PresenterEffect::Magnify,
        cycled(settings, PresenterEffect::Magnify, CycleDirection::Backward)
            == PresenterEffect::Highlight,
{
}

/// Cycling starts from what is on screen, or from the selection where nothing is;
/// the selection moves, what is on screen moves with it, and nothing appears.
/// Everything else stays.
pub proof fn law_cycling_moves_the_selection(state: RuntimeState, direction: CycleDirection)
    ensures
        ({
            let after = state.cycling(direction);
            let from = if state.effect is Some {
                state.effect->0
            } else {
                state.selected_effect
            };
            &&& after.selected_effect == cycled(state.configured, from, direction)
            &&& state.effect is Some ==> after.effect == Some(after.selected_effect)
            &&& state.effect is None ==> after.effect is None
            &&& after.generation == state.generation
            &&& after.configured == state.configured
            &&& after.timer_deadline == state.timer_deadline
            &&& after.timer_current_time == state.timer_current_time
            &&& after.timer_started == state.timer_started
            &&& after.frozen_position == state.frozen_position
            &&& after.pointer_held == state.pointer_held
        }),
{
}

/// The effect that settings select is the configured one where it is enabled, else
/// the first enabled one in the stored order, else the highlight.
pub proof fn law_the_first_enabled_effect_is_selected(settings: PresenterSettings)
    requires
        different(settings.effect_order@),
    ensures
        ({
            let order = settings.effect_order@;
            let mask = settings.enabled_effects;
            let chosen = configured_effect_spec(settings);
            &&& mask_has(mask, settings.effect) ==> chosen == settings.effect
            &&& !mask_has(mask, settings.effect) ==> {
                &&& mask_has(mask, order[0]) ==> chosen == order[0]
                &&& !mask_has(mask, order[0]) && mask_has(mask, order[1]) ==> chosen == order[1]
                &&& !mask_has(mask, order[0]) && !mask_has(mask, order[1]) && mask_has(
                    mask,
                    order[2],
                ) ==> chosen == order[2]
                &&& !mask_has(mask, order[0]) && !mask_has(mask, order[1]) && !mask_has(
                    mask,
                    order[2],
                ) ==> chosen == PresenterEffect::Highlight
            }
        }),
{
}

/// Whether `moved` is `value` where that lies between the ends, and else the end
/// that is nearer.
pub open spec fn moved_between(moved: int, value: int, low: int, high: int) -> bool {
    &&& low <= moved <= high
    &&& low <= value <= high ==> moved == value
    &&& value < low ==> moved == low
    &&& value > high ==> moved == high
}

/// Settings in force are in range, field by field: what is in range already stays,
/// what is not goes to the nearer end, an empty mask becomes the configured effect
/// alone, an order that misses an effect becomes the default one, and a duration
/// without a mode counts down. Nothing else changes.
pub proof fn law_settings_are_moved_into_range(settings: PresenterSettings)
    ensures
        ({
            let normal = normalized(settings);
            let same = settings;
            &&& moved_between(normal.effect_size as int, same.effect_size as int, 50, 200)
            &&& moved_between(normal.effect_contrast as int, same.effect_contrast as int, 25, 100)
            &&& moved_between(normal.spotlight_radius as int, same.spotlight_radius as int, 40, 320)
            &&& moved_between(normal.magnifier_radius as int, same.magnifier_radius as int, 40, 260)
            &&& moved_between(
                normal.vibration_intensity as int,
                same.vibration_intensity as int,
                0,
                100,
            )
            &&& 2 <= same.magnification <= 5 ==> normal.magnification == 100 * same.magnification
            &&& !(2 <= same.magnification <= 5) ==> moved_between(
                normal.magnification as int,
                same.magnification as int,
                100,
                500,
            )
            &&& forall|e: PresenterEffect| #[trigger]
                mask_has(normal.enabled_effects, e) == if exists|other: PresenterEffect|
                    mask_has(same.enabled_effects, other) {
                    mask_has(same.enabled_effects, e)
                } else {
                    e == same.effect
                }
            &&& normal.enabled_effects <= 7
            &&& different(same.effect_order@) ==> normal.effect_order == same.effect_order
            &&& !different(same.effect_order@) ==> {
                &&& normal.effect_order@[0] == PresenterEffect::Highlight
                &&& normal.effect_order@[1] == PresenterEffect::Magnify
                &&& normal.effect_order@[2] == PresenterEffect::DigitalLaser
            }
            &&& normal.timer_mode == if same.timer_mode == PresenterTimerMode::Off
                && same.timer_seconds > 0 {
                PresenterTimerMode::Countdown
            } else {
                same.timer_mode
            }
            &&& normal.effect == same.effect
            &&& normal.timer_seconds == same.timer_seconds
            &&& normal.haptic_alerts == same.haptic_alerts
            &&& normal.low_battery_alert == same.low_battery_alert
            &&& normal.recenter_pointer == same.recenter_pointer
            &&& normal.cursor_control == same.cursor_control
            &&& normal.freeze_effect == same.freeze_effect
            &&& normal.effect_color == same.effect_color
            &&& normal.magnifier_color == same.magnifier_color
        }),
{
    let normal = normalized(settings);
    let mask = settings.enabled_effects;
    lemma_mask(mask);
    assert(mask & 7 <= 7) by (bit_vector);
    assert(1u8 & 1u8 != 0 && 1u8 & 2u8 == 0 && 1u8 & 4u8 == 0 && 2u8 & 1u8 == 0 && 2u8 & 2u8 != 0
        && 2u8 & 4u8 == 0 && 4u8 & 1u8 == 0 && 4u8 & 2u8 == 0 && 4u8 & 4u8 != 0) by (bit_vector);
    assert forall|e: PresenterEffect| #[trigger] e.in_mask(mask) == mask_has(mask, e) by {}
    assert forall|e: PresenterEffect| #[trigger] e.in_mask(mask & ALL_EFFECTS) == mask_has(
        mask & ALL_EFFECTS,
        e,
    ) by {}
    assert forall|e: PresenterEffect| #[trigger]
        mask_has(normal.enabled_effects, e) == if exists|other: PresenterEffect|
            mask_has(mask, other) {
            mask_has(mask, e)
        } else {
            e == settings.effect
        } by {
        assert(e.in_mask(mask) == mask_has(mask, e));
        assert(e.in_mask(mask & ALL_EFFECTS) == mask_has(mask & ALL_EFFECTS, e));
        if exists|other: PresenterEffect| mask_has(mask, other) {
            let other = choose|other: PresenterEffect| mask_has(mask, other);
            assert(other.in_mask(mask));
        } else {
            assert forall|x: PresenterEffect| !x.in_mask(mask) by {
                assert(!mask_has(mask, x));
            }
        }
    }
}

/// New settings take effect as they are moved into range. What is selected stays
/// where it is still enabled and the configured effect did not change, and is
/// otherwise what the new settings select. A change is announced exactly where
/// something is on screen or a timer runs; what is on screen and running stays.
pub proof fn law_new_settings_take_effect(state: RuntimeState, settings: PresenterSettings)
    ensures
        ({
            let normal = normalized(settings);
            let after = state.configured_with(settings);
            let reselects = state.configured.effect != settings.effect || !mask_has(
                normal.enabled_effects,
                state.selected_effect,
            );
            let busy = state.effect is Some || state.timer_started;
            &&& after.configured == normal
            &&& state.configured == normal ==> after == state
            &&& state.configured != normal ==> {
                &&& reselects ==> after.selected_effect == configured_effect_spec(normal)
                &&& !reselects ==> after.selected_effect == state.selected_effect
                &&& busy == (after.generation != state.generation)
            }
            &&& after.effect == state.effect
            &&& after.timer_deadline == state.timer_deadline
            &&& after.timer_current_time == state.timer_current_time
            &&& after.timer_started == state.timer_started
            &&& after.frozen_position == state.frozen_position
            &&& after.pointer_held == state.pointer_held
        }),
{
}

/// A device starts with every effect enabled on the highlight, without a timer and
/// at half vibration; these settings are in range.
pub proof fn law_the_defaults_are_in_range()
    ensures
        normalized(default_settings_spec()) == default_settings_spec(),
        configured_effect_spec(default_settings_spec()) == PresenterEffect::Highlight,
        default_settings_spec().timer_mode == PresenterTimerMode::Off,
        default_settings_spec().vibration_intensity == 50,
{
    assert(0b111u8 & 0b111u8 == 0b111u8 && 0b111u8 & 0b010u8 != 0) by (bit_vector);
    let settings = default_settings_spec();
    assert(settings.effect_order_spec() =~= settings.effect_order);
}

} // verus!
