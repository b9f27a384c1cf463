//! The overlay: what it draws, and when.

use openlogi::agent::presenter::{PresenterManager, PresenterOverlay};
use openlogi::color::Rgb;
use openlogi::overlay::{
    asks_for_screen_capture, capture_magnification, effect_drawing, effect_position,
    effect_radius_hundredths, lens_anchor, lens_picture, opaque,
    overlay_app_id, presenter_windows, timer_label, Capture, CursorAction, CursorVisibility,
    EffectDrawing, Magnifier, PresenterWindows, RingEvent, RingHost, RingStage, TimerLabel,
};
use openlogi::presenter::PresenterEffect;

fn overlay() -> PresenterOverlay {
    let mut manager = PresenterManager::default();
    manager.show(PresenterEffect::Highlight);
    manager.snapshot(0).overlay.expect("an effect is on screen")
}

fn reads(remaining: u32) -> TimerLabel {
    timer_label(&PresenterOverlay { timer_remaining_ms: Some(remaining), ..overlay() })
}

#[test]
fn a_countdown_reads_whole_seconds_and_zero_only_at_its_end() {
    assert_eq!(timer_label(&overlay()), TimerLabel::Hidden);
    assert_eq!(reads(65_000), TimerLabel::Remaining("01:05".into()));
    assert_eq!(reads(64_001), TimerLabel::Remaining("01:05".into()));
    assert_eq!(reads(1), TimerLabel::Remaining("00:01".into()));
    assert_eq!(reads(0), TimerLabel::Remaining("00:00".into()));
    assert_eq!(reads(6_000_000), TimerLabel::Remaining("100:00".into()));
    let clock = PresenterOverlay { timer_current_time: true, ..overlay() };
    assert_eq!(timer_label(&clock), TimerLabel::Clock);
}

#[test]
fn the_radius_follows_the_effect() {
    let laser = PresenterOverlay {
        effect: PresenterEffect::DigitalLaser,
        effect_size: 150,
        ..overlay()
    };
    assert_eq!(effect_radius_hundredths(&laser), 1050);
    let lens = PresenterOverlay {
        effect: PresenterEffect::Magnify,
        magnifier_radius: 90,
        ..overlay()
    };
    assert_eq!(effect_radius_hundredths(&lens), 9000);
    assert_eq!(opaque(Rgb::new(0x12, 0x34, 0x56)), 0x1234_56ff);
    assert_eq!(overlay_app_id(3), "openlogi-presenter-overlay-3");
}

#[test]
fn each_effect_draws_its_own_shape_in_its_own_color() {
    let shown = |effect| PresenterOverlay {
        effect,
        effect_contrast: 40,
        effect_color: Rgb::new(0x12, 0x34, 0x56),
        magnifier_color: Rgb::new(0xab, 0xcd, 0xef),
        ..overlay()
    };
    assert_eq!(
        effect_drawing(&shown(PresenterEffect::DigitalLaser)),
        EffectDrawing::Dot { rgba: 0x1234_56ff }
    );
    assert_eq!(
        effect_drawing(&shown(PresenterEffect::Highlight)),
        EffectDrawing::ClearArea { contrast: 40 }
    );
    assert_eq!(
        effect_drawing(&shown(PresenterEffect::Magnify)),
        EffectDrawing::Lens { rgba: 0xabcd_efff }
    );
}

#[test]
fn a_frozen_effect_stays_where_it_was_frozen() {
    assert_eq!(effect_position(Some((1, 2)), Some((3, 4))), Some((1, 2)));
    assert_eq!(effect_position(Some((1, 2)), None), Some((1, 2)));
    assert_eq!(effect_position(None, Some((3, 4))), Some((3, 4)));
    assert_eq!(effect_position::<(i32, i32)>(None, None), None);
}

#[test]
fn the_cursor_is_hidden_once_and_shown_where_it_was_hidden() {
    let mut cursor = CursorVisibility::new();
    assert_eq!(cursor.sync(false, true), CursorAction::Hide);
    cursor.hid(Some(2));
    assert_eq!(cursor.sync(false, true), CursorAction::Keep);
    assert_eq!(cursor.sync(false, false), CursorAction::Show(Some(2)));
    assert_eq!(cursor.release(), CursorAction::Show(None));
}

#[test]
fn frames_are_asked_for_only_under_the_lens() {
    assert!(asks_for_screen_capture(None, PresenterEffect::Magnify));
    assert!(!asks_for_screen_capture(Some(PresenterEffect::Magnify), PresenterEffect::Magnify));
    assert!(!asks_for_screen_capture(None, PresenterEffect::Highlight));
    let mut lens: Magnifier<u8> = Magnifier { frame: None };
    assert!(lens.update(Some(4), PresenterEffect::Magnify, true));
    assert!(!lens.update(None, PresenterEffect::Magnify, false));
    assert_eq!(lens.frame, Some(4));
    lens.disconnected();
    assert_eq!(lens.frame, None);
    assert!(!lens.update(None, PresenterEffect::Highlight, true));
    assert_eq!(lens.frame, None);
    assert_eq!(capture_magnification(20), 100);
    assert_eq!(capture_magnification(900), 500);
}

#[test]
fn a_capture_becomes_a_round_picture_with_red_first() {
    let mut bytes = vec![0u8; 4 * 20];
    for row in 0..4u8 {
        for column in 0..4u8 {
            let at = usize::from(row) * 20 + usize::from(column) * 4;
            bytes[at..at + 4].copy_from_slice(&[row, column, 100 + row * 4 + column, 9]);
        }
    }
    let capture = Capture { width: 4, height: 4, row_stride: 20, bits_per_pixel: 32, bytes };
    let frame = lens_picture(&capture).expect("a readable capture");
    assert_eq!((frame.width, frame.height, frame.rgba.len()), (4, 4, 64));
    assert_eq!(frame.rgba[..4], [100, 0, 0, 0], "the corner lies outside the circle");
    let inside = (4 + 1) * 4;
    assert_eq!(frame.rgba[inside..inside + 4], [105, 1, 1, 255]);
}

#[test]
fn rows_count_by_what_they_hold_and_not_by_their_stride() {
    // The last row may end behind the stride, as long as the bytes are there.
    let capture = |height, row_stride, length| Capture {
        width: 2,
        height,
        row_stride,
        bits_per_pixel: 32,
        bytes: (0..length).collect(),
    };
    let frame = lens_picture(&capture(2, 4, 12)).expect("both rows hold their pixels");
    assert_eq!(frame.rgba[..3], [2, 1, 0]);
    assert_eq!(frame.rgba[8..11], [6, 5, 4]);
    assert!(lens_picture(&capture(2, 4, 11)).is_none());
    let empty = lens_picture(&capture(0, 4, 0)).expect("no row lacks a pixel");
    assert_eq!((empty.width, empty.height, empty.rgba.len()), (2, 0, 0));
}

#[test]
fn a_picture_that_no_machine_holds_is_refused() {
    let capture = Capture {
        width: 1 << 30,
        height: 1 << 31,
        row_stride: 0,
        bits_per_pixel: 32,
        bytes: Vec::new(),
    };
    assert!(lens_picture(&capture).is_none());
}

#[test]
fn the_lens_stands_where_its_frame_was_captured() {
    assert_eq!(lens_anchor(Some((3, 4)), (10, 20)), (3, 4));
    assert_eq!(lens_anchor(None, (10, 20)), (10, 20));
}

#[test]
fn a_capture_that_cannot_be_read_gives_no_picture() {
    let capture = |bits_per_pixel, bytes| Capture {
        width: 1,
        height: 2,
        row_stride: 8,
        bits_per_pixel,
        bytes,
    };
    assert!(lens_picture(&capture(24, vec![0; 16])).is_none());
    assert!(lens_picture(&capture(32, vec![0; 15])).is_none());
    assert!(lens_picture(&capture(32, vec![0; 16])).is_some());
    let endless = Capture {
        width: 1,
        height: usize::MAX,
        row_stride: 8,
        bits_per_pixel: 32,
        bytes: vec![0; 16],
    };
    assert!(lens_picture(&endless).is_none());
}

#[test]
fn the_ring_is_placed_opened_and_shown_for_one_invocation() {
    let mut host = RingHost::new();
    let effects = host.step(RingEvent::Observed(Some(4)));
    assert_eq!(host.stage, RingStage::Place(4));
    assert!(effects.cancel.is_none());
    host.step(RingEvent::Done(true));
    assert_eq!(host.stage, RingStage::Open(4));
    host.step(RingEvent::Done(true));
    assert_eq!(host.stage, RingStage::Show(4));
    let mut refused = RingHost::new();
    refused.step(RingEvent::Observed(Some(5)));
    assert_eq!(refused.step(RingEvent::Done(false)).cancel, Some(5));
}

#[test]
fn presenter_windows_open_with_the_first_overlay() {
    assert!(matches!(presenter_windows(0, true), PresenterWindows::OpenAll));
    assert!(matches!(presenter_windows(2, true), PresenterWindows::UpdateAll));
    assert!(matches!(presenter_windows(2, false), PresenterWindows::CloseAll));
}
