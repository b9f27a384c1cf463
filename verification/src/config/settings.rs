//! Preferences of the application.

use vstd::prelude::*;
use crate::config::scroll::{
    ThumbwheelSensitivity, VerticalScrollSensitivity, THUMBWHEEL_DEFAULT, VERTICAL_DEFAULT,
};

verus! {

/// Which application a mouse profile follows.
#[derive(Clone, Copy, Debug, PartialEq, Eq, Structural)]
pub enum MouseProfileTarget {
    /// The one under the pointer.
    Pointer,
    /// The one in front.
    Focused,
}

/// Preferences of the application.
#[derive(Clone, Copy, Debug, PartialEq, Eq, Structural)]
pub struct AppSettings {
    /// Whether wheels scroll smoothly.
    pub smooth_scroll: bool,
    /// How strongly thumb wheels scroll.
    pub thumbwheel_sensitivity: ThumbwheelSensitivity,
    /// How strongly main wheels scroll.
    pub vertical_scroll_sensitivity: VerticalScrollSensitivity,
    /// Which application a mouse profile follows.
    pub mouse_profile_target: MouseProfileTarget,
}

impl AppSettings {
    /// The preferences of a first start.
    pub open spec fn initial() -> AppSettings {
        AppSettings {
            smooth_scroll: false,
            thumbwheel_sensitivity: ThumbwheelSensitivity { level: THUMBWHEEL_DEFAULT },
            vertical_scroll_sensitivity: VerticalScrollSensitivity { level: VERTICAL_DEFAULT },
            mouse_profile_target: MouseProfileTarget::Pointer,
        }
    }
}

impl Default for AppSettings {
    fn default() -> (settings: Self)
        ensures
            settings == AppSettings::initial(),
    {
        AppSettings {
            smooth_scroll: false,
            thumbwheel_sensitivity: ThumbwheelSensitivity::default(),
            vertical_scroll_sensitivity: VerticalScrollSensitivity::default(),
            mouse_profile_target: MouseProfileTarget::Pointer,
        }
    }
}

} // verus!
