//! The 16-color basic palette and its SGR parameters.

use vstd::prelude::*;

verus! {

/// One of the 16 colors of the original ANSI terminal palette.
///
/// The first eight render with foreground parameters 30-37; the bright
/// variants with 90-97. Background parameters are the same values
/// shifted by 10 (40-47 and 100-107).
#[derive(Copy, Clone, Debug, PartialEq, Eq, Structural)]
pub enum BasicColor {
    Black,
    Red,
    Green,
    Yellow,
    Blue,
    Magenta,
    Cyan,
    LightGray,
    Gray,
    LightRed,
    LightGreen,
    LightYellow,
    LightBlue,
    LightMagenta,
    LightCyan,
    White,
}

/// The SGR parameter that selects `c` as the foreground color.
pub open spec fn fg_code_spec(c: BasicColor) -> u8 {
    match c {
        BasicColor::Black => 30,
        BasicColor::Red => 31,
        BasicColor::Green => 32,
        BasicColor::Yellow => 33,
        BasicColor::Blue => 34,
        BasicColor::Magenta => 35,
        BasicColor::Cyan => 36,
        BasicColor::LightGray => 37,
        BasicColor::Gray => 90,
        BasicColor::LightRed => 91,
        BasicColor::LightGreen => 92,
        BasicColor::LightYellow => 93,
        BasicColor::LightBlue => 94,
        BasicColor::LightMagenta => 95,
        BasicColor::LightCyan => 96,
        BasicColor::White => 97,
    }
}

/// The SGR parameter that selects `c` as the background color:
/// always the foreground parameter shifted by 10.
pub open spec fn bg_code_spec(c: BasicColor) -> u8 {
    (fg_code_spec(c) + 10) as u8
}

impl BasicColor {
    /// The SGR parameter for `ESC[<code>m` selecting this color as foreground.
    pub fn as_foreground_color(self) -> (code: u8)
        ensures
            code == fg_code_spec(self),
    {
        match self {
            BasicColor::Black => 30,
            BasicColor::Red => 31,
            BasicColor::Green => 32,
            BasicColor::Yellow => 33,
            BasicColor::Blue => 34,
            BasicColor::Magenta => 35,
            BasicColor::Cyan => 36,
            BasicColor::LightGray => 37,
            BasicColor::Gray => 90,
            BasicColor::LightRed => 91,
            BasicColor::LightGreen => 92,
            BasicColor::LightYellow => 93,
            BasicColor::LightBlue => 94,
            BasicColor::LightMagenta => 95,
            BasicColor::LightCyan => 96,
            BasicColor::White => 97,
        }
    }

    /// The SGR parameter for `ESC[<code>m` selecting this color as background.
    pub fn as_background_color(self) -> (code: u8)
        ensures
            code == bg_code_spec(self),
    {
        self.as_foreground_color() + 10
    }
}

/// Foreground and background parameters of every basic color differ by the
/// fixed offset 10, every foreground parameter lies in 30-37 or 90-97, and
/// within each role no two colors share a parameter.
pub proof fn lemma_basic_color_codes(a: BasicColor, b: BasicColor)
    ensures
        bg_code_spec(a) == fg_code_spec(a) + 10,
        30 <= fg_code_spec(a) <= 37 || 90 <= fg_code_spec(a) <= 97,
        fg_code_spec(a) == fg_code_spec(b) ==> a == b,
        bg_code_spec(a) == bg_code_spec(b) ==> a == b,
{
}

} // verus!
