//! What the presenter's editor says: the texts that depend on what is shown.

use vstd::prelude::*;
use crate::desktop::presenter_panel::{PresenterSection, SettingSwitch, SpeedPanel};
use crate::presenter::PresenterTimerMode;
use crate::text::{decimal, push_decimal, push_text, string_of};

verus! {

/// A title with what it explains.
#[derive(Debug, PartialEq, Eq)]
pub struct Heading {
    /// The title.
    pub title: String,
    /// The explanation.
    pub subtitle: String,
}

impl View for Heading {
    type V = (Seq<char>, Seq<char>);

    open spec fn view(&self) -> (Seq<char>, Seq<char>) {
        (self.title@, self.subtitle@)
    }
}

/// A heading with these texts.
fn heading(title: &str, subtitle: &str) -> (heading: Heading)
    ensures
        heading@ == (title@, subtitle@),
{
    Heading { title: title.to_owned(), subtitle: subtitle.to_owned() }
}

/// The button that opens a section.
pub fn section_label(section: PresenterSection) -> (label: String)
    ensures
        label@ == match section {
            PresenterSection::Buttons => "Buttons"@,
            PresenterSection::Timer => "Timer"@,
            PresenterSection::Vibration => "Vibration"@,
        },
{
    match section {
        PresenterSection::Buttons => "Buttons".to_owned(),
        PresenterSection::Timer => "Timer".to_owned(),
        PresenterSection::Vibration => "Vibration".to_owned(),
    }
}

/// What stands above the inspector of a section.
pub fn inspector_heading(section: PresenterSection) -> (above: Heading)
    ensures
        above@ == match section {
            PresenterSection::Buttons => (
                "Buttons & pointer"@,
                "Configure motion, ordered pointer effects, and every physical press."@,
            ),
            PresenterSection::Timer => (
                "Presentation timer"@,
                "Track elapsed context or count down to a vibration alert."@,
            ),
            PresenterSection::Vibration => (
                "Vibration"@,
                "Use the Spotlight motor for quiet presentation alerts."@,
            ),
        },
{
    match section {
        PresenterSection::Buttons => heading(
            "Buttons & pointer",
            "Configure motion, ordered pointer effects, and every physical press.",
        ),
        PresenterSection::Timer => heading(
            "Presentation timer",
            "Track elapsed context or count down to a vibration alert.",
        ),
        PresenterSection::Vibration => heading(
            "Vibration",
            "Use the Spotlight motor for quiet presentation alerts.",
        ),
    }
}

/// What stands beside a switch.
pub fn switch_text(switch: SettingSwitch) -> (beside: Heading)
    ensures
        beside@ == match switch {
            SettingSwitch::CursorControl => (
                "Cursor control"@,
                "Interact with links and video controls while pointing."@,
            ),
            SettingSwitch::Recenter => (
                "Recenter effects"@,
                "Move the effect to the display center when slides change."@,
            ),
            SettingSwitch::Freeze => (
                "Freeze after release"@,
                "Keep the active effect visible after releasing Pointer."@,
            ),
            SettingSwitch::LowBatteryAlert => (
                "Low battery alert"@,
                "Vibrate once when the presenter reaches low charge."@,
            ),
            SettingSwitch::TimerAlert => (
                "Timer alert"@,
                "Vibrate when the configured countdown finishes."@,
            ),
        },
{
    match switch {
        SettingSwitch::CursorControl => heading(
            "Cursor control",
            "Interact with links and video controls while pointing.",
        ),
        SettingSwitch::Recenter => heading(
            "Recenter effects",
            "Move the effect to the display center when slides change.",
        ),
        SettingSwitch::Freeze => heading(
            "Freeze after release",
            "Keep the active effect visible after releasing Pointer.",
        ),
        SettingSwitch::LowBatteryAlert => heading(
            "Low battery alert",
            "Vibrate once when the presenter reaches low charge.",
        ),
        SettingSwitch::TimerAlert => heading(
            "Timer alert",
            "Vibrate when the configured countdown finishes.",
        ),
    }
}

/// The button that chooses what the timer shows.
pub fn timer_mode_label(mode: PresenterTimerMode) -> (label: String)
    ensures
        label@ == match mode {
            PresenterTimerMode::Off => "Off"@,
            PresenterTimerMode::CurrentTime => "Clock"@,
            PresenterTimerMode::Countdown => "Countdown"@,
        },
{
    match mode {
        PresenterTimerMode::Off => "Off".to_owned(),
        PresenterTimerMode::CurrentTime => "Clock".to_owned(),
        PresenterTimerMode::Countdown => "Countdown".to_owned(),
    }
}

/// The button that chooses a length.
pub fn preset_label(minutes: u16) -> (label: String)
    ensures
        label@ == decimal(minutes as nat) + " min"@,
{
    let mut out: Vec<char> = Vec::new();
    push_decimal(&mut out, minutes as u64);
    push_text(&mut out, " min");
    assert(out@ =~= decimal(minutes as nat) + " min"@);
    string_of(&out)
}

/// What stands in place of the slider of the pointer speed, where there is none.
pub fn speed_message(panel: &SpeedPanel) -> (message: Option<String>)
    ensures
        match *panel {
            SpeedPanel::Slider(_, _) => message is None,
            SpeedPanel::Retry(reason) => message matches Some(text) && text@ == reason@,
            SpeedPanel::Unsupported(reason) => message matches Some(text) && text@ == reason@,
            SpeedPanel::Reading => message matches Some(text) && text@ == "Reading pointer speed…"@,
            SpeedPanel::Unavailable => message matches Some(text) && text@
                == "Pointer speed unavailable"@,
        },
{
    match panel {
        SpeedPanel::Slider(_, _) => None,
        SpeedPanel::Retry(reason) => Some(reason.clone()),
        SpeedPanel::Unsupported(reason) => Some(reason.clone()),
        SpeedPanel::Reading => Some("Reading pointer speed…".to_owned()),
        SpeedPanel::Unavailable => Some("Pointer speed unavailable".to_owned()),
    }
}

} // verus!
