//! The overlay process: what it shows of the presenter and of the ring, and the
//! pixels of the magnifier.

use vstd::prelude::*;
use crate::agent::presenter::PresenterOverlay;
use crate::color::Rgb;
use crate::presenter::PresenterEffect;
use crate::text::{decimal, push_decimal, push_text, push_two_digits, string_of, two_digits};

verus! {

/// What stands beside the pointer.
#[derive(Debug, PartialEq, Eq)]
pub enum TimerLabel {
    /// Nothing.
    Hidden,
    /// The time of day.
    Clock,
    /// What is left of the countdown.
    Remaining(String),
}

/// Whole seconds that are not over yet.
pub open spec fn seconds_left(millis: nat) -> nat {
    (millis + 999) / 1000
}

/// A countdown as minutes and seconds.
pub open spec fn countdown_text(millis: nat) -> Seq<char> {
    two_digits(seconds_left(millis) / 60) + ":"@ + two_digits(seconds_left(millis) % 60)
}

/// What stands beside the pointer: the time of day before the countdown.
pub fn timer_label(overlay: &PresenterOverlay) -> (label: TimerLabel)
    ensures
        match label {
            TimerLabel::Clock => overlay.timer_current_time,
            TimerLabel::Remaining(text) => !overlay.timer_current_time
                && overlay.timer_remaining_ms is Some && text@ == countdown_text(
                overlay.timer_remaining_ms->0 as nat,
            ),
            TimerLabel::Hidden => !overlay.timer_current_time && overlay.timer_remaining_ms is None,
        },
{
    if overlay.timer_current_time {
        return TimerLabel::Clock;
    }
    match overlay.timer_remaining_ms {
        None => TimerLabel::Hidden,
        Some(millis) => {
            let seconds: u64 = (millis as u64 + 999) / 1000;
            let mut out: Vec<char> = Vec::new();
            push_two_digits(&mut out, seconds / 60);
            push_text(&mut out, ":");
            push_two_digits(&mut out, seconds % 60);
            assert(out@ =~= countdown_text(millis as nat));
            TimerLabel::Remaining(string_of(&out))
        },
    }
}

/// A countdown never reads as over while some of it is left, and reads as over
/// when none is.
pub proof fn law_a_countdown_reads_zero_only_at_its_end(millis: nat)
    ensures
        (seconds_left(millis) == 0) == (millis == 0),
        seconds_left(millis) * 1000 >= millis,
        seconds_left(millis) * 1000 < millis + 1000,
{
}

/// The radius of the effect in hundredths of a point.
pub open spec fn radius_hundredths(overlay: PresenterOverlay) -> int {
    match overlay.effect {
        PresenterEffect::DigitalLaser => 7 * overlay.effect_size,
        PresenterEffect::Highlight => 100 * overlay.spotlight_radius,
        PresenterEffect::Magnify => 100 * overlay.magnifier_radius,
    }
}

/// The radius of the effect in hundredths of a point. The laser is a dot of
/// seven points, scaled by its size in percent.
pub fn effect_radius_hundredths(overlay: &PresenterOverlay) -> (radius: u32)
    ensures
        radius == radius_hundredths(*overlay),
        radius == match overlay.effect {
            PresenterEffect::DigitalLaser => 7 * overlay.effect_size,
            PresenterEffect::Highlight => 100 * overlay.spotlight_radius,
            PresenterEffect::Magnify => 100 * overlay.magnifier_radius,
        },
{
    match overlay.effect {
        PresenterEffect::DigitalLaser => 7 * overlay.effect_size as u32,
        PresenterEffect::Highlight => 100 * overlay.spotlight_radius as u32,
        PresenterEffect::Magnify => 100 * overlay.magnifier_radius as u32,
    }
}

/// Where the effect is: where it was frozen, or else at the cursor.
pub fn effect_position<P: Copy>(frozen: Option<P>, cursor: Option<P>) -> (at: Option<P>)
    ensures
        at == if frozen is Some {
            frozen
        } else {
            cursor
        },
{
    match frozen {
        Some(_) => frozen,
        None => cursor,
    }
}

/// What an effect draws.
#[derive(Clone, Copy, Debug, PartialEq, Eq, Structural)]
pub enum EffectDrawing {
    /// A dot.
    Dot {
        /// Its color.
        rgba: u32,
    },
    /// Everything dimmed but a clear area.
    ClearArea {
        /// How much of the dimming applies, in percent.
        contrast: u8,
    },
    /// A lens.
    Lens {
        /// The color of its rim.
        rgba: u32,
    },
}

/// What the effect of an overlay draws.
pub open spec fn drawing_spec(overlay: PresenterOverlay) -> EffectDrawing {
    match overlay.effect {
        PresenterEffect::DigitalLaser => EffectDrawing::Dot {
            rgba: opaque_spec(overlay.effect_color) as u32,
        },
        PresenterEffect::Highlight => EffectDrawing::ClearArea {
            contrast: overlay.effect_contrast,
        },
        PresenterEffect::Magnify => EffectDrawing::Lens {
            rgba: opaque_spec(overlay.magnifier_color) as u32,
        },
    }
}

/// What the effect of an overlay draws.
pub fn effect_drawing(overlay: &PresenterOverlay) -> (drawing: EffectDrawing)
    ensures
        drawing == drawing_spec(*overlay),
        match overlay.effect {
            PresenterEffect::DigitalLaser => drawing matches EffectDrawing::Dot { rgba } && rgba
                == opaque_spec(overlay.effect_color),
            PresenterEffect::Highlight => drawing == (EffectDrawing::ClearArea {
                contrast: overlay.effect_contrast,
            }),
            PresenterEffect::Magnify => drawing matches EffectDrawing::Lens { rgba } && rgba
                == opaque_spec(overlay.magnifier_color),
        },
{
    match overlay.effect {
        PresenterEffect::DigitalLaser => EffectDrawing::Dot { rgba: opaque(overlay.effect_color) },
        PresenterEffect::Highlight => EffectDrawing::ClearArea {
            contrast: overlay.effect_contrast,
        },
        PresenterEffect::Magnify => EffectDrawing::Lens { rgba: opaque(overlay.magnifier_color) },
    }
}

/// A color without transparency, as `0xRRGGBBAA`.
pub open spec fn opaque_spec(color: Rgb) -> int {
    color.spec_components().0 * 0x100_0000 + color.spec_components().1 * 0x1_0000
        + color.spec_components().2 * 0x100 + 0xff
}

/// A color without transparency, as `0xRRGGBBAA`.
pub fn opaque(color: Rgb) -> (value: u32)
    ensures
        value == opaque_spec(color),
{
    let (red, green, blue) = color.components();
    red as u32 * 0x100_0000 + green as u32 * 0x1_0000 + blue as u32 * 0x100 + 0xff
}

/// The identity of the overlay window of a display.
pub fn overlay_app_id(display: u64) -> (id: String)
    ensures
        id@ == "openlogi-presenter-overlay-"@ + decimal(display as nat),
{
    let mut out: Vec<char> = Vec::new();
    push_text(&mut out, "openlogi-presenter-overlay-");
    push_decimal(&mut out, display);
    assert(out@ =~= "openlogi-presenter-overlay-"@ + decimal(display as nat));
    string_of(&out)
}

/// What to do with the system's cursor.
#[derive(Clone, Copy, Debug, PartialEq, Eq, Structural)]
pub enum CursorAction {
    /// Show it again, on the display it was hidden on, if it was.
    Show(Option<u32>),
    /// Hide it where it is.
    Hide,
    /// Leave it.
    Keep,
}

/// What to do with the cursor: where it is hidden, whether it stays usable and whether
/// it is on the view's display.
pub open spec fn cursor_action(
    hidden_on: Option<u32>,
    cursor_control: bool,
    cursor_here: bool,
) -> CursorAction {
    if cursor_control || !cursor_here {
        CursorAction::Show(hidden_on)
    } else if hidden_on is None {
        CursorAction::Hide
    } else {
        CursorAction::Keep
    }
}

/// Whether a view hid the system's cursor, and on which display.
#[derive(Clone, Copy, Debug, PartialEq, Eq, Structural)]
pub struct CursorVisibility {
    /// The display the cursor is hidden on.
    pub hidden_on: Option<u32>,
}

impl CursorVisibility {
    /// A view that hid nothing.
    pub fn new() -> (visibility: CursorVisibility)
        ensures
            visibility.hidden_on is None,
    {
        CursorVisibility { hidden_on: None }
    }

    /// What to do with the cursor, given whether it stays usable and whether it
    /// is on the view's display. It is shown when it stays usable or left the
    /// display, and hidden once otherwise.
    pub fn sync(&mut self, cursor_control: bool, cursor_here: bool) -> (action: CursorAction)
        ensures
            action == cursor_action(old(self).hidden_on, cursor_control, cursor_here),
            final(self).hidden_on == if action is Show {
                None
            } else {
                old(self).hidden_on
            },
            action == if cursor_control || !cursor_here {
                CursorAction::Show(old(self).hidden_on)
            } else if old(self).hidden_on is None {
                CursorAction::Hide
            } else {
                CursorAction::Keep
            },
            final(self).hidden_on == if cursor_control || !cursor_here {
                None
            } else {
                old(self).hidden_on
            },
    {
        if cursor_control || !cursor_here {
            let hidden = self.hidden_on;
            self.hidden_on = None;
            CursorAction::Show(hidden)
        } else if self.hidden_on.is_none() {
            CursorAction::Hide
        } else {
            CursorAction::Keep
        }
    }

    /// Takes on which display the cursor was hidden, if it could be.
    pub fn hid(&mut self, display: Option<u32>)
        ensures
            final(self).hidden_on == display,
    {
        self.hidden_on = display;
    }

    /// What to do with the cursor when the view goes away.
    pub fn release(&mut self) -> (action: CursorAction)
        ensures
            action == CursorAction::Show(old(self).hidden_on),
            final(self).hidden_on is None,
    {
        let hidden = self.hidden_on;
        self.hidden_on = None;
        CursorAction::Show(hidden)
    }
}

/// Whether the permission to capture the screen is asked for when the effect
/// changes from `before`, none for a new view.
pub fn asks_for_screen_capture(before: Option<PresenterEffect>, effect: PresenterEffect) -> (asks:
    bool)
    ensures
        asks == (effect == PresenterEffect::Magnify && before != Some(PresenterEffect::Magnify)),
{
    match before {
        Some(before) => before != PresenterEffect::Magnify && effect == PresenterEffect::Magnify,
        None => effect == PresenterEffect::Magnify,
    }
}

/// The frame of a lens after a newer one may have come in.
pub open spec fn newest_frame<F>(
    frame: Option<F>,
    newest: Option<F>,
    effect: PresenterEffect,
) -> Option<F> {
    if effect != PresenterEffect::Magnify {
        None
    } else if newest is Some {
        newest
    } else {
        frame
    }
}

/// The lens of a view: the last frame captured for it.
#[derive(Debug, PartialEq, Eq)]
pub struct Magnifier<F> {
    /// The frame.
    pub frame: Option<F>,
}

impl<F> Magnifier<F> {
    /// Takes the newest frame that came in, and says whether to ask for another:
    /// only while the lens is the effect and the cursor is here.
    pub fn update(&mut self, newest: Option<F>, effect: PresenterEffect, cursor_here: bool)
        -> (request: bool)
        ensures
            final(self).frame == newest_frame(old(self).frame, newest, effect),
            request == (effect == PresenterEffect::Magnify && cursor_here),
            final(self).frame == if effect != PresenterEffect::Magnify {
                None
            } else if newest is Some {
                newest
            } else {
                old(self).frame
            },
    {
        if effect != PresenterEffect::Magnify {
            self.frame = None;
            return false;
        }
        if newest.is_some() {
            self.frame = newest;
        }
        cursor_here
    }

    /// Forgets the frame: nobody captures any more.
    pub fn disconnected(&mut self)
        ensures
            final(self).frame is None,
    {
        self.frame = None;
    }
}

/// The magnification a frame is captured at, in percent.
pub fn capture_magnification(percent: u16) -> (inside: u16)
    ensures
        inside == if percent < 100 {
            100
        } else if percent > 500 {
            500
        } else {
            percent
        },
{
    if percent < 100 {
        100
    } else if percent > 500 {
        500
    } else {
        percent
    }
}

/// Where the lens stands: where its frame was captured, so that the lens and the
/// pixels in it belong together, or at the cursor while there is no frame.
pub fn lens_anchor<P: Copy>(frame: Option<P>, cursor: P) -> (at: P)
    ensures
        at == match frame {
            Some(captured) => captured,
            None => cursor,
        },
{
    match frame {
        Some(captured) => captured,
        None => cursor,
    }
}

/// A captured picture, four bytes a pixel with blue first, its rows padded.
#[derive(Debug, PartialEq, Eq)]
pub struct Capture {
    /// Pixels in a row.
    pub width: usize,
    /// Rows.
    pub height: usize,
    /// Bytes from one row to the next.
    pub row_stride: usize,
    /// Bits in a pixel.
    pub bits_per_pixel: usize,
    /// The bytes.
    pub bytes: Vec<u8>,
}

/// A picture, four bytes a pixel with red first, its rows without padding.
#[derive(Debug, PartialEq, Eq)]
pub struct Frame {
    /// Pixels in a row.
    pub width: u32,
    /// Rows.
    pub height: u32,
    /// The bytes.
    pub rgba: Vec<u8>,
}

impl Capture {
    /// Whether the capture can be read at all.
    pub open spec fn readable(self) -> bool {
        &&& self.width <= u32::MAX
        &&& self.height <= u32::MAX
        &&& self.bits_per_pixel == 32
        &&& self.row_stride * self.height <= self.bytes@.len()
    }

    /// Whether every row holds its pixels: the last one does.
    pub open spec fn rows_complete(self) -> bool {
        self.height == 0 || (self.height - 1) * self.row_stride + self.width * 4
            <= self.bytes@.len()
    }

    /// Whether a machine can hold the picture.
    pub open spec fn picture_fits(self) -> bool {
        self.width * 4 <= usize::MAX && self.width * 4 * self.height <= isize::MAX
    }

    /// Whether a pixel lies in the circle that fills the picture: the distance
    /// of its center from the middle, in half pixels.
    pub open spec fn in_circle(self, row: int, column: int) -> bool {
        let dx = 2 * column + 1 - self.width;
        let dy = 2 * row + 1 - self.height;
        let side = if self.width < self.height {
            self.width as int
        } else {
            self.height as int
        };
        dx * dx + dy * dy <= side * side
    }

    /// A byte of a pixel as it should come out: red, green, blue, and whether it
    /// lies in the circle.
    pub open spec fn pixel_byte(self, row: int, column: int, channel: int) -> u8 {
        let at = row * self.row_stride + column * 4;
        if channel == 0 {
            self.bytes@[at + 2]
        } else if channel == 1 {
            self.bytes@[at + 1]
        } else if channel == 2 {
            self.bytes@[at]
        } else if self.in_circle(row, column) {
            255
        } else {
            0
        }
    }

    /// A byte of the picture by its place.
    pub open spec fn byte(self, index: int) -> u8 {
        self.pixel_byte(
            index / 4 / (self.width as int),
            index / 4 % (self.width as int),
            index % 4,
        )
    }
}

/// Calls `image::RgbaImage::from_raw` and takes the bytes out again with
/// `into_raw`: there is a picture of this size exactly when the bytes suffice for
/// it, and its bytes are the ones given. Where four times the width is more than
/// a machine word holds, nothing is said of when there is one.
#[verifier::external_body]
fn rgba_image(width: u32, height: u32, rgba: Vec<u8>) -> (raw: Option<Vec<u8>>)
    ensures
        match raw {
            Some(raw) => raw@ == rgba@ && width * height * 4 <= rgba@.len(),
            None => width * height * 4 > rgba@.len() || width * 4 > usize::MAX,
        },
{
    image::RgbaImage::from_raw(width, height, rgba).map(|image| image.into_raw())
}

/// What pixel `column` of row `row` becomes.
fn convert_pixel(capture: &Capture, row: usize, column: usize, out: &mut Vec<u8>)
    requires
        capture.readable(),
        capture.rows_complete(),
        row < capture.height,
        column < capture.width,
    ensures
        final(out)@ == old(out)@ + seq![
            capture.pixel_byte(row as int, column as int, 0),
            capture.pixel_byte(row as int, column as int, 1),
            capture.pixel_byte(row as int, column as int, 2),
            capture.pixel_byte(row as int, column as int, 3),
        ],
{
    let total: usize = capture.bytes.len();
    proof {
        assert(0 <= row * capture.row_stride) by (nonlinear_arith)
            requires
                row >= 0,
                capture.row_stride >= 0,
        ;
        assert(row * capture.row_stride <= (capture.height - 1) * capture.row_stride)
            by (nonlinear_arith)
            requires
                row <= capture.height - 1,
                capture.row_stride >= 0,
        ;
        assert(row * capture.row_stride + capture.width * 4 <= total);
    }
    let at: usize = row * capture.row_stride + column * 4;
    let width: i128 = capture.width as i128;
    let height: i128 = capture.height as i128;
    let dx: i128 = 2 * (column as i128) + 1 - width;
    let dy: i128 = 2 * (row as i128) + 1 - height;
    let side: i128 = if width < height {
        width
    } else {
        height
    };
    proof {
        assert(-0x1_0000_0000 <= dx <= 0x1_0000_0000);
        assert(-0x1_0000_0000 <= dy <= 0x1_0000_0000);
        assert(0 <= dx * dx <= 0x1_0000_0000 * 0x1_0000_0000) by (nonlinear_arith)
            requires
                -0x1_0000_0000 <= dx <= 0x1_0000_0000,
        ;
        assert(0 <= dy * dy <= 0x1_0000_0000 * 0x1_0000_0000) by (nonlinear_arith)
            requires
                -0x1_0000_0000 <= dy <= 0x1_0000_0000,
        ;
        assert(0 <= side * side <= 0x1_0000_0000 * 0x1_0000_0000) by (nonlinear_arith)
            requires
                0 <= side <= 0x1_0000_0000,
        ;
    }
    let inside = dx * dx + dy * dy <= side * side;
    out.push(capture.bytes[at + 2]);
    out.push(capture.bytes[at + 1]);
    out.push(capture.bytes[at]);
    out.push(
        if inside {
            255
        } else {
            0
        },
    );
    assert(out@ =~= old(out)@ + seq![
        capture.pixel_byte(row as int, column as int, 0),
        capture.pixel_byte(row as int, column as int, 1),
        capture.pixel_byte(row as int, column as int, 2),
        capture.pixel_byte(row as int, column as int, 3),
    ]);
}

/// Where the bytes of a pixel stand in the picture.
pub(crate) proof fn lemma_place(width: int, row: int, column: int, channel: int)
    requires
        0 <= column < width,
        0 <= row,
        0 <= channel < 4,
    ensures
        ((row * width + column) * 4 + channel) / 4 / width == row,
        ((row * width + column) * 4 + channel) / 4 % width == column,
        ((row * width + column) * 4 + channel) % 4 == channel,
{
    let place = row * width + column;
    assert(row * width >= 0) by (nonlinear_arith)
        requires
            row >= 0,
            width > 0,
    ;
    assert((place * 4 + channel) / 4 == place);
    assert(place / width == row && place % width == column) by {
        vstd::arithmetic::div_mod::lemma_fundamental_div_mod_converse(place, width, row, column);
    }
}

/// Turns a capture into the lens' picture: padding dropped, blue and red
/// swapped, and everything outside the circle transparent. None for a capture
/// that is too large, has another pixel format or is cut short.
pub fn lens_picture(capture: &Capture) -> (frame: Option<Frame>)
    ensures
        match frame {
            Some(frame) => {
                &&& capture.readable()
                &&& capture.rows_complete()
                &&& capture.picture_fits()
                &&& frame.width == capture.width
                &&& frame.height == capture.height
                &&& frame.rgba@.len() == capture.width * capture.height * 4
                &&& forall|i: int|
                    0 <= i < frame.rgba@.len() ==> #[trigger] frame.rgba@[i] == capture.byte(i)
            },
            None => !capture.readable() || !capture.rows_complete() || !capture.picture_fits(),
        },
{
    let width = capture.width;
    let height = capture.height;
    let stride = capture.row_stride;
    if width as u64 > u32::MAX as u64 || height as u64 > u32::MAX as u64 || capture.bits_per_pixel
        != 32 {
        return None;
    }
    let total: usize = capture.bytes.len();
    match stride.checked_mul(height) {
        None => {
            return None;
        },
        Some(needed) => {
            if total < needed {
                return None;
            }
        },
    }
    let row_bytes: usize = match width.checked_mul(4) {
        Some(row_bytes) => row_bytes,
        None => {
            return None;
        },
    };
    match row_bytes.checked_mul(height) {
        None => {
            assert(!capture.picture_fits());
            return None;
        },
        Some(size) => {
            if size > isize::MAX as usize {
                return None;
            }
        },
    }
    if height > 0 {
        proof {
            assert((height - 1) * stride <= stride * height) by (nonlinear_arith)
                requires
                    height >= 1,
                    stride >= 0,
            ;
            assert(0 <= (height - 1) * stride) by (nonlinear_arith)
                requires
                    height >= 1,
                    stride >= 0,
            ;
        }
        if total - (height - 1) * stride < row_bytes {
            return None;
        }
    }
    let mut rgba: Vec<u8> = Vec::new();
    let mut row: usize = 0;
    assert(0 * (width as int) == 0) by (nonlinear_arith);
    while row < height
        invariant
            row <= height,
            width == capture.width,
            height == capture.height,
            capture.readable(),
            capture.rows_complete(),
            rgba@.len() == row * width * 4,
            forall|i: int| 0 <= i < rgba@.len() ==> #[trigger] rgba@[i] == capture.byte(i),
        decreases height - row,
    {
        let mut column: usize = 0;
        while column < width
            invariant
                row < height,
                column <= width,
                width == capture.width,
                height == capture.height,
                capture.readable(),
                capture.rows_complete(),
                rgba@.len() == (row * width + column) * 4,
                forall|i: int| 0 <= i < rgba@.len() ==> #[trigger] rgba@[i] == capture.byte(i),
            decreases width - column,
        {
            let ghost before = rgba@;
            convert_pixel(capture, row, column, &mut rgba);
            proof {
                lemma_place(width as int, row as int, column as int, 0);
                lemma_place(width as int, row as int, column as int, 1);
                lemma_place(width as int, row as int, column as int, 2);
                lemma_place(width as int, row as int, column as int, 3);
                assert forall|i: int| 0 <= i < rgba@.len() implies #[trigger] rgba@[i]
                    == capture.byte(i) by {
                    if i < before.len() {
                        assert(rgba@[i] == before[i]);
                    }
                }
            }
            column = column + 1;
        }
        proof {
            assert((row * width + width) * 4 == (row + 1) * width * 4) by (nonlinear_arith);
        }
        row = row + 1;
    }
    proof {
        assert(height * width * 4 == width * height * 4) by (nonlinear_arith);
    }
    match rgba_image(width as u32, height as u32, rgba) {
        Some(rgba) => Some(Frame { width: width as u32, height: height as u32, rgba }),
        None => None,
    }
}

/// What the ring's window is doing.
#[derive(Clone, Copy, Debug, PartialEq, Eq, Structural)]
pub enum RingStage {
    /// Nothing.
    Idle,
    /// Finding the display for a session's ring.
    Place(u64),
    /// Opening a window for it.
    Open(u64),
    /// Bringing the window to its place.
    Show(u64),
}

/// What happened to the ring.
#[derive(Clone, Copy, Debug, PartialEq, Eq, Structural)]
pub enum RingEvent {
    /// The agent wants this session's ring shown, or none.
    Observed(Option<u64>),
    /// Whether what was being done worked.
    Done(bool),
    /// The time of a shown ring is over; whether its window was still there.
    Expired(u64, bool),
}

/// What is to be done about it.
#[derive(Clone, Copy, Debug, PartialEq, Eq, Structural)]
pub struct RingEffects {
    /// Close the window that shows a ring.
    pub close: bool,
    /// Tell the agent that the ring of this session is gone.
    pub cancel: Option<u64>,
    /// Let the shown ring expire.
    pub start_timer: bool,
}

/// The ring's window.
#[derive(Clone, Copy, Debug, PartialEq, Eq, Structural)]
pub struct RingHost {
    /// What it is doing.
    pub stage: RingStage,
    /// Whether a window shows a ring.
    pub open: bool,
}

impl RingHost {
    /// What always holds: a new window is prepared only after the old one went.
    pub open spec fn valid(self) -> bool {
        self.stage != RingStage::Idle ==> !self.open
    }

    /// What an event makes of the window.
    pub open spec fn stepped(self, event: RingEvent) -> RingHost {
        match event {
            RingEvent::Observed(None) => RingHost { stage: RingStage::Idle, open: false },
            RingEvent::Observed(Some(session)) => RingHost {
                stage: RingStage::Place(session),
                open: false,
            },
            RingEvent::Done(worked) => match self.stage {
                RingStage::Place(session) => RingHost {
                    stage: if worked {
                        RingStage::Open(session)
                    } else {
                        RingStage::Idle
                    },
                    ..self
                },
                RingStage::Open(session) => RingHost {
                    stage: if worked {
                        RingStage::Show(session)
                    } else {
                        RingStage::Idle
                    },
                    ..self
                },
                RingStage::Show(_) => RingHost { stage: RingStage::Idle, open: worked },
                RingStage::Idle => self,
            },
            RingEvent::Expired(_, _) => self,
        }
    }

    /// What is to be done about an event. A ring whose display or place cannot
    /// be found is given back to the agent, and so is one that expires; a window
    /// that did not even open is only logged.
    pub open spec fn effects(self, event: RingEvent) -> RingEffects {
        let quiet = RingEffects { close: false, cancel: None, start_timer: false };
        match event {
            RingEvent::Observed(_) => RingEffects { close: self.open, ..quiet },
            RingEvent::Done(worked) => match self.stage {
                RingStage::Place(session) => if worked {
                    quiet
                } else {
                    RingEffects { cancel: Some(session), ..quiet }
                },
                RingStage::Open(_) => quiet,
                RingStage::Show(session) => if worked {
                    RingEffects { start_timer: true, ..quiet }
                } else {
                    RingEffects { close: true, cancel: Some(session), ..quiet }
                },
                RingStage::Idle => quiet,
            },
            RingEvent::Expired(session, present) => if present {
                RingEffects { cancel: Some(session), ..quiet }
            } else {
                quiet
            },
        }
    }

    /// No window.
    pub fn new() -> (host: RingHost)
        ensures
            host == (RingHost { stage: RingStage::Idle, open: false }),
            host.valid(),
    {
        RingHost { stage: RingStage::Idle, open: false }
    }

    /// Takes an event.
    pub fn step(&mut self, event: RingEvent) -> (effects: RingEffects)
        ensures
            *final(self) == old(self).stepped(event),
            effects == old(self).effects(event),
            old(self).valid() ==> final(self).valid(),
    {
        let quiet = RingEffects { close: false, cancel: None, start_timer: false };
        match event {
            RingEvent::Observed(session) => {
                let close = self.open;
                self.open = false;
                self.stage = match session {
                    Some(session) => RingStage::Place(session),
                    None => RingStage::Idle,
                };
                RingEffects { close, cancel: None, start_timer: false }
            },
            RingEvent::Done(worked) => match self.stage {
                RingStage::Place(session) => {
                    if worked {
                        self.stage = RingStage::Open(session);
                        quiet
                    } else {
                        self.stage = RingStage::Idle;
                        RingEffects { close: false, cancel: Some(session), start_timer: false }
                    }
                },
                RingStage::Open(session) => {
                    self.stage = if worked {
                        RingStage::Show(session)
                    } else {
                        RingStage::Idle
                    };
                    quiet
                },
                RingStage::Show(session) => {
                    self.stage = RingStage::Idle;
                    self.open = worked;
                    if worked {
                        RingEffects { close: false, cancel: None, start_timer: true }
                    } else {
                        RingEffects { close: true, cancel: Some(session), start_timer: false }
                    }
                },
                RingStage::Idle => quiet,
            },
            RingEvent::Expired(session, present) => {
                if present {
                    RingEffects { close: false, cancel: Some(session), start_timer: false }
                } else {
                    quiet
                }
            },
        }
    }
}

/// What is to be done with the presenter's windows, one for each display.
#[derive(Clone, Copy, Debug, PartialEq, Eq, Structural)]
pub enum PresenterWindows {
    /// Open one on each display.
    OpenAll,
    /// Hand the new state to the open ones.
    UpdateAll,
    /// Close the open ones.
    CloseAll,
}

/// What is to be done with the presenter's windows.
pub open spec fn windows_spec(open: nat, showing: bool) -> PresenterWindows {
    if !showing {
        PresenterWindows::CloseAll
    } else if open == 0 {
        PresenterWindows::OpenAll
    } else {
        PresenterWindows::UpdateAll
    }
}

/// What is to be done with the presenter's windows, given how many are open and
/// whether there is something to show.
pub fn presenter_windows(open: usize, showing: bool) -> (action: PresenterWindows)
    ensures
        action == windows_spec(open as nat, showing),
        action == if !showing {
            PresenterWindows::CloseAll
        } else if open == 0 {
            PresenterWindows::OpenAll
        } else {
            PresenterWindows::UpdateAll
        },
{
    if !showing {
        PresenterWindows::CloseAll
    } else if open == 0 {
        PresenterWindows::OpenAll
    } else {
        PresenterWindows::UpdateAll
    }
}

} // verus!
