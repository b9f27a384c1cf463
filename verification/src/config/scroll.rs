//! How strongly wheels scroll.

use vstd::prelude::*;

verus! {

/// The weakest thumb wheel.
pub const THUMBWHEEL_MIN: u8 = 1;

/// The strongest thumb wheel.
pub const THUMBWHEEL_MAX: u8 = 100;

/// A thumb wheel that was never adjusted.
pub const THUMBWHEEL_DEFAULT: u8 = 14;

/// The weakest vertical wheel.
pub const VERTICAL_MIN: u8 = 1;

/// The strongest vertical wheel.
pub const VERTICAL_MAX: u8 = 10;

/// A vertical wheel that was never adjusted.
pub const VERTICAL_DEFAULT: u8 = 1;

/// `level`, moved to the nearest end of `low..=high` when it lies outside.
pub open spec fn within(level: int, low: int, high: int) -> int {
    if level < low {
        low
    } else if level > high {
        high
    } else {
        level
    }
}

/// How strongly a thumb wheel scrolls.
#[derive(Clone, Copy, Debug, PartialEq, Eq, Structural)]
pub struct ThumbwheelSensitivity {
    /// The level.
    pub level: u8,
}

impl ThumbwheelSensitivity {
    /// Whether the level is one that a wheel can be set to.
    pub open spec fn valid(self) -> bool {
        THUMBWHEEL_MIN <= self.level <= THUMBWHEEL_MAX
    }

    /// The sensitivity of this level, when there is one.
    pub fn try_new(level: u8) -> (sensitivity: Option<ThumbwheelSensitivity>)
        ensures
            sensitivity == if (ThumbwheelSensitivity { level }).valid() {
                Some(ThumbwheelSensitivity { level })
            } else {
                None
            },
    {
        if level < THUMBWHEEL_MIN || level > THUMBWHEEL_MAX {
            None
        } else {
            Some(ThumbwheelSensitivity { level })
        }
    }

    /// The sensitivity nearest to this level.
    pub fn nearest(level: i64) -> (sensitivity: ThumbwheelSensitivity)
        ensures
            sensitivity.valid(),
            sensitivity.level == within(level as int, THUMBWHEEL_MIN as int, THUMBWHEEL_MAX as int),
    {
        let level: u8 = if level < THUMBWHEEL_MIN as i64 {
            THUMBWHEEL_MIN
        } else if level > THUMBWHEEL_MAX as i64 {
            THUMBWHEEL_MAX
        } else {
            level as u8
        };
        ThumbwheelSensitivity { level }
    }
}

impl Default for ThumbwheelSensitivity {
    fn default() -> (sensitivity: Self)
        ensures
            sensitivity == (ThumbwheelSensitivity { level: THUMBWHEEL_DEFAULT }),
            sensitivity.valid(),
    {
        ThumbwheelSensitivity { level: THUMBWHEEL_DEFAULT }
    }
}

/// How strongly the main wheel scrolls.
#[derive(Clone, Copy, Debug, PartialEq, Eq, Structural)]
pub struct VerticalScrollSensitivity {
    /// The level.
    pub level: u8,
}

impl VerticalScrollSensitivity {
    /// Whether the level is one that a wheel can be set to.
    pub open spec fn valid(self) -> bool {
        VERTICAL_MIN <= self.level <= VERTICAL_MAX
    }

    /// The sensitivity of this level, when there is one.
    pub fn try_new(level: u8) -> (sensitivity: Option<VerticalScrollSensitivity>)
        ensures
            sensitivity == if (VerticalScrollSensitivity { level }).valid() {
                Some(VerticalScrollSensitivity { level })
            } else {
                None
            },
    {
        if level < VERTICAL_MIN || level > VERTICAL_MAX {
            None
        } else {
            Some(VerticalScrollSensitivity { level })
        }
    }

    /// The sensitivity nearest to this level.
    pub fn nearest(level: i64) -> (sensitivity: VerticalScrollSensitivity)
        ensures
            sensitivity.valid(),
            sensitivity.level == within(level as int, VERTICAL_MIN as int, VERTICAL_MAX as int),
    {
        let level: u8 = if level < VERTICAL_MIN as i64 {
            VERTICAL_MIN
        } else if level > VERTICAL_MAX as i64 {
            VERTICAL_MAX
        } else {
            level as u8
        };
        VerticalScrollSensitivity { level }
    }
}

impl Default for VerticalScrollSensitivity {
    fn default() -> (sensitivity: Self)
        ensures
            sensitivity == (VerticalScrollSensitivity { level: VERTICAL_DEFAULT }),
            sensitivity.valid(),
    {
        VerticalScrollSensitivity { level: VERTICAL_DEFAULT }
    }
}

} // verus!
