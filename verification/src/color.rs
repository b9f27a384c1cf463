//! Colours, and the `#RRGGBB` spelling the presenter panel accepts.

use vstd::prelude::*;
use crate::order::Duplicate;
use crate::text::{chars_of, hex_digit, hex_value, strip_leading, strip_leading_chars, trim, trim_chars};

verus! {

/// Red, green and blue components of a colour.
#[derive(Clone, Copy, Debug, PartialEq, Eq, Structural)]
pub struct Rgb {
    red: u8,
    green: u8,
    blue: u8,
}

impl View for Rgb {
    type V = Rgb;

    open spec fn view(&self) -> Rgb {
        *self
    }
}

impl Duplicate for Rgb {
    fn duplicate(&self) -> (copy: Self) {
        *self
    }
}

impl Rgb {
    /// The colour with these components.
    pub closed spec fn spec_new(red: u8, green: u8, blue: u8) -> Rgb {
        Rgb { red, green, blue }
    }

    /// The components, red first.
    pub closed spec fn spec_components(self) -> (u8, u8, u8) {
        (self.red, self.green, self.blue)
    }

    /// The colour with these components.
    pub fn new(red: u8, green: u8, blue: u8) -> (color: Rgb)
        ensures
            color == Rgb::spec_new(red, green, blue),
            color.spec_components() == (red, green, blue),
    {
        Rgb { red, green, blue }
    }

    /// The components, red first.
    pub fn components(self) -> (parts: (u8, u8, u8))
        ensures
            parts == self.spec_components(),
            self == Rgb::spec_new(parts.0, parts.1, parts.2),
    {
        (self.red, self.green, self.blue)
    }

    /// The colour as `0xRRGGBB`.
    pub fn packed(self) -> (value: u32)
        ensures
            value == self.spec_components().0 * 0x1_0000 + self.spec_components().1 * 0x100
                + self.spec_components().2,
    {
        let red: u32 = self.red as u32;
        let green: u32 = self.green as u32;
        let blue: u32 = self.blue as u32;
        red * 0x1_0000 + green * 0x100 + blue
    }
}

/// The text between the white space around it and after its leading `#` signs.
pub open spec fn rgb_body(value: Seq<char>) -> Seq<char> {
    strip_leading(trim(value), '#')
}

/// The digit at `i` of a colour body: a sign in front of the digits counts as zero.
pub open spec fn rgb_digit(body: Seq<char>, i: int) -> Option<u8> {
    if i == 0 && body[0] == '+' {
        Some(0)
    } else {
        hex_value(body[i])
    }
}

/// The colour that `value` spells: six hexadecimal digits, the first of which
/// may be a plus sign, inside white space and behind any number of `#` signs.
pub open spec fn parse_rgb_spec(value: Seq<char>) -> Option<Rgb> {
    let body = rgb_body(value);
    if body.len() == 6 && forall|i: int| 0 <= i < 6 ==> (#[trigger] rgb_digit(body, i)) is Some {
        Some(
            Rgb::spec_new(
                (rgb_digit(body, 0)->0 * 16 + rgb_digit(body, 1)->0) as u8,
                (rgb_digit(body, 2)->0 * 16 + rgb_digit(body, 3)->0) as u8,
                (rgb_digit(body, 4)->0 * 16 + rgb_digit(body, 5)->0) as u8,
            ),
        )
    } else {
        None
    }
}

/// Reads a colour component from two digits.
fn component(body: &Vec<char>, at: usize) -> (value: Option<u8>)
    requires
        body@.len() == 6,
        at < 5,
    ensures
        match value {
            Some(v) => rgb_digit(body@, at as int) is Some && rgb_digit(body@, at + 1) is Some
                && v == (rgb_digit(body@, at as int)->0 * 16 + rgb_digit(body@, at + 1)->0) as u8,
            None => rgb_digit(body@, at as int) is None || rgb_digit(body@, at + 1) is None,
        },
{
    let high = if at == 0 && body[0] == '+' {
        Some(0u8)
    } else {
        hex_digit(body[at])
    };
    match (high, hex_digit(body[at + 1])) {
        (Some(h), Some(l)) => Some(h * 16 + l),
        _ => None,
    }
}

/// Reads a colour written as `#RRGGBB`.
pub fn parse_rgb(value: &str) -> (color: Option<Rgb>)
    ensures
        color == parse_rgb_spec(value@),
{
    let body = strip_leading_chars(&trim_chars(&chars_of(value)), '#');
    if body.len() != 6 {
        return None;
    }
    match (component(&body, 0), component(&body, 2), component(&body, 4)) {
        (Some(red), Some(green), Some(blue)) => {
            assert forall|i: int| 0 <= i < 6 implies (#[trigger] rgb_digit(body@, i)) is Some by {
                if i == 0 || i == 1 {
                } else if i == 2 || i == 3 {
                } else {
                    assert(i == 4 || i == 5);
                }
            }
            Some(Rgb::new(red, green, blue))
        },
        _ => None,
    }
}

} // verus!
