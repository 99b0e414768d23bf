//! The 256-entry indexed ("ANSI") palette.

use vstd::prelude::*;

verus! {

/// A color of the 256-entry indexed terminal palette.
///
/// Every byte value is a valid index: 0-15 are the basic palette,
/// 16-231 a 6x6x6 color cube, and 232-255 a grayscale ramp.
#[derive(Copy, Clone, Debug, PartialEq, Eq, Structural)]
pub struct AnsiColor(pub u8);

impl AnsiColor {
    /// Wraps a palette index; every byte value is valid.
    pub fn from_num(color: u8) -> (c: Self)
        ensures
            c.0 == color,
    {
        AnsiColor(color)
    }

    /// The raw palette index.
    pub fn as_num(self) -> (n: u8)
        ensures
            n == self.0,
    {
        self.0
    }
}

impl core::convert::From<u8> for AnsiColor {
    fn from(color: u8) -> (c: Self) {
        AnsiColor(color)
    }
}

impl vstd::std_specs::convert::FromSpecImpl<u8> for AnsiColor {
    open spec fn obeys_from_spec() -> bool {
        true
    }

    open spec fn from_spec(color: u8) -> AnsiColor {
        AnsiColor(color)
    }
}

} // verus!
