//! TUI colors
//!
//! Bytes are shown in colors that depend on their value, which gives some
//! visual guidance when reading memory.
//! https://simonomi.dev/blog/color-code-your-bytes/

use vstd::prelude::*;

verus! {

/// A text color
#[derive(Clone, Copy, Debug, PartialEq, Eq, Structural)]
pub enum TextColor {
    /// 24-bit color
    Rgb(u8, u8, u8),
    /// The terminal's white
    White,
    /// The terminal's gray
    Gray,
    /// The terminal's green
    Green,
    /// The terminal's red
    Red,
}

/// The color of a byte whose high nibble is `nibble`, for bytes other than
/// `0x00` and `0xFF`
pub open spec fn nibble_color(nibble: u8) -> TextColor {
    if nibble == 0 {
        TextColor::Rgb(0xFF, 0x71, 0xA9)
    } else if nibble == 1 {
        TextColor::Rgb(0xFF, 0x7A, 0x78)
    } else if nibble == 2 {
        TextColor::Rgb(0xFF, 0x81, 0x23)
    } else if nibble == 3 {
        TextColor::Rgb(0xF7, 0x93, 0x00)
    } else if nibble == 4 {
        TextColor::Rgb(0xE6, 0x9F, 0x00)
    } else if nibble == 5 {
        TextColor::Rgb(0xC1, 0xB2, 0x00)
    } else if nibble == 6 {
        TextColor::Rgb(0x82, 0xC6, 0x00)
    } else if nibble == 7 {
        TextColor::Rgb(0x00, 0xD5, 0x00)
    } else if nibble == 8 {
        TextColor::Rgb(0x00, 0xD4, 0x59)
    } else if nibble == 9 {
        TextColor::Rgb(0x00, 0xD0, 0x91)
    } else if nibble == 10 {
        TextColor::Rgb(0x00, 0xCC, 0xBB)
    } else if nibble == 11 {
        TextColor::Rgb(0x00, 0xC7, 0xDE)
    } else if nibble == 12 {
        TextColor::Rgb(0x00, 0xBE, 0xFF)
    } else if nibble == 13 {
        TextColor::Rgb(0x6C, 0xAF, 0xFF)
    } else if nibble == 14 {
        TextColor::Rgb(0xB2, 0x98, 0xFF)
    } else {
        TextColor::Rgb(0xFF, 0x4D, 0xFF)
    }
}

/// The color of a byte: gray for `0x00`, white for `0xFF`, and otherwise a
/// hue chosen by its high nibble, running from red through green and blue to
/// pink
pub open spec fn byte_color(value: u8) -> TextColor {
    if value == 0 {
        TextColor::Rgb(0x80, 0x80, 0x80)
    } else if value == 0xFF {
        TextColor::White
    } else {
        nibble_color(value / 16)
    }
}

/// The TUI's value-dependent colors
pub struct Styles;

impl Styles {
    /// The colors
    pub fn new() -> (r: Self)
        ensures
            r == Styles,
    {
        Styles
    }

    /// Color of a boolean flag: green when set, red when clear
    pub fn bool(&self, value: bool) -> (r: TextColor)
        ensures
            r == (if value {
                TextColor::Green
            } else {
                TextColor::Red
            }),
    {
        if value {
            TextColor::Green
        } else {
            TextColor::Red
        }
    }

    /// Color of an 8-bit value
    pub fn u8(&self, value: u8) -> (r: TextColor)
        ensures
            r == byte_color(value),
    {
        if value == 0 {
            return TextColor::Rgb(0x80, 0x80, 0x80);
        }
        if value == 0xFF {
            return TextColor::White;
        }
        let nibble = value / 16;
        if nibble == 0 {
            TextColor::Rgb(0xFF, 0x71, 0xA9)
        } else if nibble == 1 {
            TextColor::Rgb(0xFF, 0x7A, 0x78)
        } else if nibble == 2 {
            TextColor::Rgb(0xFF, 0x81, 0x23)
        } else if nibble == 3 {
            TextColor::Rgb(0xF7, 0x93, 0x00)
        } else if nibble == 4 {
            TextColor::Rgb(0xE6, 0x9F, 0x00)
        } else if nibble == 5 {
            TextColor::Rgb(0xC1, 0xB2, 0x00)
        } else if nibble == 6 {
            TextColor::Rgb(0x82, 0xC6, 0x00)
        } else if nibble == 7 {
            TextColor::Rgb(0x00, 0xD5, 0x00)
        } else if nibble == 8 {
            TextColor::Rgb(0x00, 0xD4, 0x59)
        } else if nibble == 9 {
            TextColor::Rgb(0x00, 0xD0, 0x91)
        } else if nibble == 10 {
            TextColor::Rgb(0x00, 0xCC, 0xBB)
        } else if nibble == 11 {
            TextColor::Rgb(0x00, 0xC7, 0xDE)
        } else if nibble == 12 {
            TextColor::Rgb(0x00, 0xBE, 0xFF)
        } else if nibble == 13 {
            TextColor::Rgb(0x6C, 0xAF, 0xFF)
        } else if nibble == 14 {
            TextColor::Rgb(0xB2, 0x98, 0xFF)
        } else {
            TextColor::Rgb(0xFF, 0x4D, 0xFF)
        }
    }

    /// Color of a 16-bit value: that of its high byte
    pub fn u16(&self, value: u16) -> (r: TextColor)
        ensures
            r == byte_color((value / 256) as u8),
    {
        self.u8((value / 256) as u8)
    }
}

} // verus!
