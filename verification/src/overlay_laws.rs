//! What the overlay draws, said of pixels, of colors and of a ring's life.

use vstd::prelude::*;
use crate::agent::presenter::PresenterOverlay;
use crate::color::Rgb;
use crate::overlay::{
    countdown_text, cursor_action, drawing_spec, lemma_place, newest_frame, opaque_spec,
    radius_hundredths, seconds_left, windows_spec, Capture, CursorAction, EffectDrawing,
    PresenterWindows, RingEvent, RingHost, RingStage,
};
use crate::presenter::PresenterEffect;
use crate::text::{decimal, two_digits};

verus! {

/// The square of the distance from the center of a pixel to the middle of a
/// picture, in quarters of a square pixel.
pub open spec fn distance_squared(width: int, height: int, row: int, column: int) -> int {
    (2 * column + 1 - width) * (2 * column + 1 - width) + (2 * row + 1 - height) * (2 * row + 1
        - height)
}

/// A pixel of the lens' picture has red, green and blue of its pixel in the
/// capture, which holds them the other way round behind the padding of the rows
/// above; it is opaque exactly when its center lies within half the shorter side
/// of the middle of the picture, and else it is transparent.
pub proof fn law_the_lens_is_a_circle(capture: Capture, row: int, column: int)
    requires
        0 <= row < capture.height,
        0 <= column < capture.width,
    ensures
        ({
            let place = (row * capture.width + column) * 4;
            let source = row * capture.row_stride + column * 4;
            let width = capture.width as int;
            let height = capture.height as int;
            let near = distance_squared(width, height, row, column);
            &&& capture.byte(place) == capture.bytes@[source + 2]
            &&& capture.byte(place + 1) == capture.bytes@[source + 1]
            &&& capture.byte(place + 2) == capture.bytes@[source]
            &&& capture.byte(place + 3) == 255 || capture.byte(place + 3) == 0
            &&& (capture.byte(place + 3) == 255) == (near <= width * width && near <= height
                * height)
        }),
{
    let width = capture.width as int;
    let height = capture.height as int;
    lemma_place(width, row, column, 0);
    lemma_place(width, row, column, 1);
    lemma_place(width, row, column, 2);
    lemma_place(width, row, column, 3);
    if width < height {
        assert(width * width <= height * height) by (nonlinear_arith)
            requires
                0 <= width < height,
        ;
    } else {
        assert(height * height <= width * width) by (nonlinear_arith)
            requires
                0 <= height <= width,
        ;
    }
}

/// In a square picture with an odd side the whole row through the middle is
/// opaque, from its first pixel to its last, and so is the whole column.
pub proof fn law_the_lens_fills_the_picture(capture: Capture, n: int, k: int)
    requires
        n % 2 == 1,
        capture.width == n,
        capture.height == n,
        0 <= k < n,
    ensures
        capture.pixel_byte(n / 2, k, 3) == 255,
        capture.pixel_byte(k, n / 2, 3) == 255,
        capture.pixel_byte(n / 2, 0, 3) == 255,
        capture.pixel_byte(n / 2, n - 1, 3) == 255,
{
    let d = 2 * k + 1 - n;
    assert(2 * (n / 2) + 1 - n == 0);
    assert(0int * 0int == 0) by (nonlinear_arith);
    assert(d * d <= n * n) by (nonlinear_arith)
        requires
            -n <= d <= n,
            n >= 0,
    ;
    let e = 1 - n;
    assert(e * e <= n * n) by (nonlinear_arith)
        requires
            e == 1 - n,
            n >= 1,
    ;
    let f = n - 1;
    assert(f * f <= n * n) by (nonlinear_arith)
        requires
            f == n - 1,
            n >= 1,
    ;
    assert(2 * (n - 1) + 1 - n == f);
    assert(2 * 0 + 1 - n == e);
}

/// The corners of a square picture are transparent from a side of four on.
pub proof fn law_the_lens_leaves_the_corners(capture: Capture, n: int)
    requires
        n >= 4,
        capture.width == n,
        capture.height == n,
    ensures
        capture.pixel_byte(0, 0, 3) == 0,
        capture.pixel_byte(0, n - 1, 3) == 0,
        capture.pixel_byte(n - 1, 0, 3) == 0,
        capture.pixel_byte(n - 1, n - 1, 3) == 0,
{
    let e = 1 - n;
    let f = n - 1;
    assert(e * e == f * f && f * f + f * f > n * n) by (nonlinear_arith)
        requires
            e == 1 - n,
            f == n - 1,
            n >= 4,
    ;
    assert(2 * (n - 1) + 1 - n == f);
    assert(2 * 0 + 1 - n == e);
}

/// A pixel no farther from the middle than an opaque one is opaque.
pub proof fn law_the_lens_has_no_holes(
    capture: Capture,
    row: int,
    column: int,
    nearer_row: int,
    nearer_column: int,
)
    requires
        capture.pixel_byte(row, column, 3) == 255,
        distance_squared(
            capture.width as int,
            capture.height as int,
            nearer_row,
            nearer_column,
        ) <= distance_squared(capture.width as int, capture.height as int, row, column),
    ensures
        capture.pixel_byte(nearer_row, nearer_column, 3) == 255,
{
}

/// A countdown under 100 minutes reads as two digits of minutes, a colon and two
/// digits of seconds, which together are the time left rounded up to a second.
pub proof fn law_a_countdown_reads_as_minutes_and_seconds(millis: nat)
    requires
        millis <= 5_999_000,
    ensures
        ({
            let text = countdown_text(millis);
            let tens = text[0] as int - '0' as int;
            let ones = text[1] as int - '0' as int;
            let second_tens = text[3] as int - '0' as int;
            let second_ones = text[4] as int - '0' as int;
            let shown = (tens * 10 + ones) * 60 + second_tens * 10 + second_ones;
            &&& text.len() == 5
            &&& text[2] == ':'
            &&& 0 <= tens <= 9 && 0 <= ones <= 9
            &&& 0 <= second_tens <= 5 && 0 <= second_ones <= 9
            &&& millis <= shown * 1000 < millis + 1000
        }),
{
    reveal_strlit(":");
    let seconds = seconds_left(millis);
    lemma_two_digits(seconds / 60);
    lemma_two_digits(seconds % 60);
    let text = countdown_text(millis);
    let minutes = two_digits(seconds / 60);
    let rest = two_digits(seconds % 60);
    assert(text[0] == minutes[0] && text[1] == minutes[1]);
    assert(text[3] == rest[0] && text[4] == rest[1]);
}

proof fn lemma_two_digits(n: nat)
    requires
        n < 100,
    ensures
        two_digits(n).len() == 2,
        two_digits(n)[0] as int - '0' as int == n / 10,
        two_digits(n)[1] as int - '0' as int == n % 10,
{
    if n >= 10 {
        assert(decimal(n / 10) == seq![crate::text::decimal_digit(n / 10)]);
        assert(decimal(n) == decimal(n / 10).push(crate::text::decimal_digit(n % 10)));
    }
}

/// A color without transparency is its three components and full opacity, a byte
/// each.
pub proof fn law_an_opaque_color_keeps_its_components(color: Rgb)
    ensures
        ({
            let value = opaque_spec(color);
            &&& value % 256 == 255
            &&& (value / 256) % 256 == color.spec_components().2
            &&& (value / 0x1_0000) % 256 == color.spec_components().1
            &&& value / 0x100_0000 == color.spec_components().0
        }),
{
}

/// The clear area and the lens have their own radius; the laser dot has seven points at
/// its full size and grows with it.
pub proof fn law_an_effect_has_its_radius(overlay: PresenterOverlay)
    ensures
        overlay.effect == PresenterEffect::Highlight ==> radius_hundredths(overlay) == 100
            * overlay.spotlight_radius,
        overlay.effect == PresenterEffect::Magnify ==> radius_hundredths(overlay) == 100
            * overlay.magnifier_radius,
        overlay.effect == PresenterEffect::DigitalLaser && overlay.effect_size == 100
            ==> radius_hundredths(overlay) == 700,
        overlay.effect == PresenterEffect::DigitalLaser ==> 100 * radius_hundredths(overlay) == 700
            * overlay.effect_size,
{
}

/// Whether four bytes are three components and full opacity.
pub open spec fn spells(rgba: u32, components: (u8, u8, u8)) -> bool {
    &&& rgba / 0x100_0000 == components.0
    &&& (rgba / 0x1_0000) % 256 == components.1
    &&& (rgba / 256) % 256 == components.2
    &&& rgba % 256 == 255
}

/// The laser is a dot in its color, the highlight an area as clear as its contrast says,
/// and the lens has a rim in its own color; both colors are opaque.
pub proof fn law_an_effect_is_drawn_in_its_color(overlay: PresenterOverlay)
    ensures
        ({
            let drawing = drawing_spec(overlay);
            let laser = overlay.effect_color.spec_components();
            let rim = overlay.magnifier_color.spec_components();
            &&& overlay.effect == PresenterEffect::DigitalLaser ==> drawing is Dot && spells(
                drawing->Dot_rgba,
                laser,
            )
            &&& overlay.effect == PresenterEffect::Highlight ==> drawing
                == (EffectDrawing::ClearArea { contrast: overlay.effect_contrast })
            &&& overlay.effect == PresenterEffect::Magnify ==> drawing is Lens && spells(
                drawing->Lens_rgba,
                rim,
            )
        }),
{
}

/// The cursor is hidden only on the view's display and only while it is not to stay
/// usable, and once; it is shown again, where it was hidden, as soon as it is to stay
/// usable or leaves the display.
pub proof fn law_the_cursor_is_hidden_once_and_shown_again(hidden_on: Option<u32>, here: bool)
    ensures
        cursor_action(hidden_on, true, here) == CursorAction::Show(hidden_on),
        cursor_action(hidden_on, false, false) == CursorAction::Show(hidden_on),
        cursor_action(None, false, true) == CursorAction::Hide,
        hidden_on is Some ==> cursor_action(hidden_on, false, true) == CursorAction::Keep,
{
}

/// A lens shows the newest frame there is, and none once another effect is on screen.
pub proof fn law_a_lens_shows_the_newest_frame(
    frame: Option<int>,
    newest: Option<int>,
    effect: PresenterEffect,
)
    ensures
        effect != PresenterEffect::Magnify ==> newest_frame(frame, newest, effect) is None,
        newest is Some ==> newest_frame(frame, newest, PresenterEffect::Magnify) == newest,
        newest is None ==> newest_frame(frame, newest, PresenterEffect::Magnify) == frame,
{
}

/// Windows are opened where none is, told of what changed where some are, and closed
/// where there is nothing to show.
pub proof fn law_windows_follow_what_is_shown(open: nat)
    ensures
        windows_spec(open, false) == PresenterWindows::CloseAll,
        windows_spec(0, true) == PresenterWindows::OpenAll,
        open > 0 ==> windows_spec(open, true) == PresenterWindows::UpdateAll,
{
}

/// A ring that the agent wants is placed, then opened, then shown: only the third
/// success opens a window and lets it expire, and nothing is given back.
pub proof fn law_a_wanted_ring_is_shown_in_three_steps(host: RingHost, session: u64)
    ensures
        ({
            let wanted = host.stepped(RingEvent::Observed(Some(session)));
            let placed = wanted.stepped(RingEvent::Done(true));
            let opened = placed.stepped(RingEvent::Done(true));
            let shown = opened.stepped(RingEvent::Done(true));
            &&& wanted == (RingHost { stage: RingStage::Place(session), open: false })
            &&& placed == (RingHost { stage: RingStage::Open(session), open: false })
            &&& opened == (RingHost { stage: RingStage::Show(session), open: false })
            &&& shown == (RingHost { stage: RingStage::Idle, open: true })
            &&& host.effects(RingEvent::Observed(Some(session))).close == host.open
            &&& host.effects(RingEvent::Observed(Some(session))).cancel is None
            &&& !host.effects(RingEvent::Observed(Some(session))).start_timer
            &&& wanted.effects(RingEvent::Done(true)) == placed.effects(RingEvent::Done(true))
            &&& !wanted.effects(RingEvent::Done(true)).close
            &&& !wanted.effects(RingEvent::Done(true)).start_timer
            &&& wanted.effects(RingEvent::Done(true)).cancel is None
            &&& opened.effects(RingEvent::Done(true)).start_timer
            &&& !opened.effects(RingEvent::Done(true)).close
            &&& opened.effects(RingEvent::Done(true)).cancel is None
        }),
{
}

/// A ring that cannot be placed, or not be shown in its place, is given back to
/// the agent by its session, and a window that was opened for it is closed; one
/// whose window did not open is not given back. No window is left in any case.
pub proof fn law_a_ring_that_fails_is_given_back(host: RingHost, session: u64)
    ensures
        ({
            let wanted = host.stepped(RingEvent::Observed(Some(session)));
            let placed = wanted.stepped(RingEvent::Done(true));
            let opened = placed.stepped(RingEvent::Done(true));
            let gone = RingHost { stage: RingStage::Idle, open: false };
            &&& wanted.stepped(RingEvent::Done(false)) == gone
            &&& placed.stepped(RingEvent::Done(false)) == gone
            &&& opened.stepped(RingEvent::Done(false)) == gone
            &&& wanted.effects(RingEvent::Done(false)).cancel == Some(session)
            &&& !wanted.effects(RingEvent::Done(false)).close
            &&& placed.effects(RingEvent::Done(false)).cancel is None
            &&& !placed.effects(RingEvent::Done(false)).close
            &&& opened.effects(RingEvent::Done(false)).cancel == Some(session)
            &&& opened.effects(RingEvent::Done(false)).close
            &&& !wanted.effects(RingEvent::Done(false)).start_timer
            &&& !placed.effects(RingEvent::Done(false)).start_timer
            &&& !opened.effects(RingEvent::Done(false)).start_timer
        }),
{
}

/// When the agent wants no ring, a shown one is closed and one that is being
/// prepared is dropped, and nothing is given back: the agent knows.
pub proof fn law_an_unwanted_ring_goes(host: RingHost)
    ensures
        host.stepped(RingEvent::Observed(None)) == (RingHost {
            stage: RingStage::Idle,
            open: false,
        }),
        host.effects(RingEvent::Observed(None)).close == host.open,
        host.effects(RingEvent::Observed(None)).cancel is None,
        !host.effects(RingEvent::Observed(None)).start_timer,
{
}

/// A ring whose time is over is given back by its session exactly while its window
/// is there, and the window itself stays until the agent no longer wants it. What
/// is done while nothing is being prepared changes nothing.
pub proof fn law_an_expired_ring_is_given_back_once(
    host: RingHost,
    session: u64,
    present: bool,
    worked: bool,
)
    ensures
        host.stepped(RingEvent::Expired(session, present)) == host,
        host.effects(RingEvent::Expired(session, present)).cancel == if present {
            Some(session)
        } else {
            None
        },
        !host.effects(RingEvent::Expired(session, present)).close,
        !host.effects(RingEvent::Expired(session, present)).start_timer,
        host.stage == RingStage::Idle ==> {
            &&& host.stepped(RingEvent::Done(worked)) == host
            &&& host.effects(RingEvent::Done(worked)).cancel is None
            &&& !host.effects(RingEvent::Done(worked)).close
            &&& !host.effects(RingEvent::Done(worked)).start_timer
        },
{
}

/// A capture can become a picture exactly when it has four bytes a pixel, its
/// bytes reach to the end of its rows and of its last row's pixels, and the picture
/// can be held.
pub proof fn law_what_a_capture_needs(capture: Capture)
    ensures
        capture.readable() ==> capture.bits_per_pixel == 32 && capture.bytes@.len()
            >= capture.row_stride * capture.height && capture.width <= 0xffff_ffff && capture.height
            <= 0xffff_ffff,
        capture.bits_per_pixel != 32 ==> !capture.readable(),
        capture.bytes@.len() < capture.row_stride * capture.height ==> !capture.readable(),
        capture.readable() && capture.row_stride >= 4 * capture.width ==> capture.rows_complete(),
        capture.rows_complete() && capture.height > 0 ==> forall|row: int, column: int|
            0 <= row < capture.height && 0 <= column < capture.width
                ==> 0 <= #[trigger] source_of(capture, row, column) && source_of(
                capture,
                row,
                column,
            ) + 3 < capture.bytes@.len(),
{
    let height = capture.height as int;
    let stride = capture.row_stride as int;
    if capture.readable() && stride >= 4 * capture.width && height > 0 {
        assert((height - 1) * stride + stride == stride * height) by (nonlinear_arith);
    }
    if capture.rows_complete() && height > 0 {
        assert forall|row: int, column: int|
            0 <= row < capture.height && 0 <= column < capture.width implies 0
            <= #[trigger] source_of(capture, row, column) && source_of(capture, row, column) + 3
            < capture.bytes@.len() by {
            assert(0 <= row * stride <= (height - 1) * stride) by (nonlinear_arith)
                requires
                    0 <= row <= height - 1,
                    stride >= 0,
            ;
        }
    }
}

/// Where the first byte of a pixel stands in a capture.
pub open spec fn source_of(capture: Capture, row: int, column: int) -> int {
    row * capture.row_stride + column * 4
}

} // verus!
