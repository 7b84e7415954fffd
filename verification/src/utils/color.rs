use vstd::prelude::*;

verus! {

/// An RGBA colour, one byte per channel.
#[derive(Clone, Copy, Debug, PartialEq, Eq, Structural)]
pub struct Color {
    pub r: u8,
    pub g: u8,
    pub b: u8,
    pub a: u8,
}

/// Whether `c` is one of `0-9`, `a-f` or `A-F`.
pub open spec fn is_hex_digit(c: char) -> bool {
    ('0' <= c && c <= '9') || ('a' <= c && c <= 'f') || ('A' <= c && c <= 'F')
}

/// The number that a hexadecimal digit stands for.
pub open spec fn hex_digit_value(c: char) -> int
    recommends
        is_hex_digit(c),
{
    if '0' <= c && c <= '9' {
        c as int - '0' as int
    } else if 'a' <= c && c <= 'f' {
        c as int - 'a' as int + 10
    } else {
        c as int - 'A' as int + 10
    }
}

/// The byte written as the two hexadecimal digits `hi` and `lo`.
pub open spec fn hex_pair_value(hi: char, lo: char) -> int
    recommends
        is_hex_digit(hi),
        is_hex_digit(lo),
{
    16 * hex_digit_value(hi) + hex_digit_value(lo)
}

/// Whether `text` has the shape `#RRGGBB` or `#RRGGBBAA`.
pub open spec fn is_color_text(text: Seq<char>) -> bool {
    &&& text.len() == 7 || text.len() == 9
    &&& text[0] == '#'
    &&& forall|i: int| 1 <= i < text.len() ==> is_hex_digit(#[trigger] text[i])
}

/// The colour that a well-formed text denotes. Without an alpha pair the
/// alpha channel is zero.
pub open spec fn color_of_text(text: Seq<char>) -> Color
    recommends
        is_color_text(text),
{
    Color {
        r: hex_pair_value(text[1], text[2]) as u8,
        g: hex_pair_value(text[3], text[4]) as u8,
        b: hex_pair_value(text[5], text[6]) as u8,
        a: if text.len() == 9 {
            hex_pair_value(text[7], text[8]) as u8
        } else {
            0
        },
    }
}

/// The 32-bit pixel value `0xAARRGGBB` of a colour.
pub open spec fn pixel_of(c: Color) -> int {
    c.a as int * 0x100_0000 + c.r as int * 0x1_0000 + c.g as int * 0x100 + c.b as int
}

/// Reads one hexadecimal digit.
pub fn hex_digit(c: char) -> (d: Option<u8>)
    ensures
        d is Some <==> is_hex_digit(c),
        d is Some ==> d.unwrap() as int == hex_digit_value(c),
        d is Some ==> d.unwrap() < 16,
{
    let code: u32 = c as u32;
    if 0x30 <= code && code <= 0x39 {
        Some((code - 0x30) as u8)
    } else if 0x61 <= code && code <= 0x66 {
        Some((code - 0x61 + 10) as u8)
    } else if 0x41 <= code && code <= 0x46 {
        Some((code - 0x41 + 10) as u8)
    } else {
        None
    }
}

/// Reads the two hexadecimal digits of `text` that start at `at`.
fn hex_pair(text: &str, at: usize) -> (v: Option<u8>)
    requires
        at <= 7,
        at + 1 < text@.len(),
    ensures
        v is Some <==> is_hex_digit(text@[at as int]) && is_hex_digit(text@[at + 1]),
        v is Some ==> v.unwrap() as int == hex_pair_value(text@[at as int], text@[at + 1]),
{
    let hi = hex_digit(text.get_char(at));
    let lo = hex_digit(text.get_char(at + 1));
    match (hi, lo) {
        (Some(h), Some(l)) => Some(h * 16 + l),
        _ => None,
    }
}

impl Color {
    /// Opaque black.
    pub fn new() -> (c: Color)
        ensures
            c == (Color { r: 0, g: 0, b: 0, a: 255 }),
    {
        Color { r: 0, g: 0, b: 0, a: 255 }
    }

    /// Parses `#RRGGBB` or `#RRGGBBAA`. Any other text is refused.
    pub fn parse(text: &str) -> (c: Option<Color>)
        ensures
            c == if is_color_text(text@) {
                Some(color_of_text(text@))
            } else {
                None
            },
    {
        let n = text.unicode_len();
        if n != 7 && n != 9 {
            return None;
        }
        if text.get_char(0) != '#' {
            return None;
        }
        let r = match hex_pair(text, 1) {
            Some(v) => v,
            None => { return None; },
        };
        let g = match hex_pair(text, 3) {
            Some(v) => v,
            None => { return None; },
        };
        let b = match hex_pair(text, 5) {
            Some(v) => v,
            None => { return None; },
        };
        let a = if n == 9 {
            match hex_pair(text, 7) {
                Some(v) => v,
                None => { return None; },
            }
        } else {
            0
        };
        Some(Color { r, g, b, a })
    }

    /// The colour that a well-formed text denotes. A text of another
    /// shape is a defect of the configuration and is not taken here:
    /// `Settings::new` refuses a configuration that holds one.
    pub fn from_text(text: &str) -> (c: Color)
        requires
            is_color_text(text@),
        ensures
            c == color_of_text(text@),
    {
        Color::parse(text).unwrap()
    }

    /// The pixel value `0xAARRGGBB` that the display server takes.
    pub fn pixel(self) -> (p: u32)
        ensures
            p as int == pixel_of(self),
    {
        (self.a as u32) * 0x100_0000 + (self.r as u32) * 0x1_0000 + (self.g as u32) * 0x100 + (
        self.b as u32)
    }
}

} // verus!
