//! 24-bit RGB color, and the conversion from an indexed-palette entry to
//! the RGB value a standard terminal emulator shows for it.

use vstd::prelude::*;

verus! {

/// A 24-bit color: three independent channels, each 0-255.
#[derive(Copy, Clone, Debug, PartialEq, Eq, Structural)]
pub struct RgbColor {
    pub red: u8,
    pub green: u8,
    pub blue: u8,
}

impl RgbColor {
    pub fn new(red: u8, green: u8, blue: u8) -> (c: Self)
        ensures
            c == (RgbColor { red, green, blue }),
    {
        RgbColor { red, green, blue }
    }

    pub fn get_red(self) -> (v: u8)
        ensures
            v == self.red,
    {
        self.red
    }

    pub fn get_green(self) -> (v: u8)
        ensures
            v == self.green,
    {
        self.green
    }

    pub fn get_blue(self) -> (v: u8)
        ensures
            v == self.blue,
    {
        self.blue
    }
}

/// The RGB value of basic-palette entry `i`: the standard VGA-derived
/// table of eight half-intensity colors followed by eight bright ones.
pub open spec fn basic_rgb_spec(i: u8) -> RgbColor
    recommends
        i < 16,
{
    if i == 0 {
        RgbColor { red: 0, green: 0, blue: 0 }
    } else if i == 1 {
        RgbColor { red: 128, green: 0, blue: 0 }
    } else if i == 2 {
        RgbColor { red: 0, green: 128, blue: 0 }
    } else if i == 3 {
        RgbColor { red: 128, green: 128, blue: 0 }
    } else if i == 4 {
        RgbColor { red: 0, green: 0, blue: 128 }
    } else if i == 5 {
        RgbColor { red: 128, green: 0, blue: 128 }
    } else if i == 6 {
        RgbColor { red: 0, green: 128, blue: 128 }
    } else if i == 7 {
        RgbColor { red: 192, green: 192, blue: 192 }
    } else if i == 8 {
        RgbColor { red: 128, green: 128, blue: 128 }
    } else if i == 9 {
        RgbColor { red: 255, green: 0, blue: 0 }
    } else if i == 10 {
        RgbColor { red: 0, green: 255, blue: 0 }
    } else if i == 11 {
        RgbColor { red: 255, green: 255, blue: 0 }
    } else if i == 12 {
        RgbColor { red: 0, green: 0, blue: 255 }
    } else if i == 13 {
        RgbColor { red: 255, green: 0, blue: 255 }
    } else if i == 14 {
        RgbColor { red: 0, green: 255, blue: 255 }
    } else {
        RgbColor { red: 255, green: 255, blue: 255 }
    }
}

/// The base-6 digit of a cube index that selects the red level.
pub open spec fn cube_red_digit(i: u8) -> int
    recommends
        16 <= i <= 231,
{
    (i - 16) / 36
}

/// The base-6 digit of a cube index that selects the green level.
pub open spec fn cube_green_digit(i: u8) -> int
    recommends
        16 <= i <= 231,
{
    ((i - 16) / 6) % 6
}

/// The base-6 digit of a cube index that selects the blue level.
pub open spec fn cube_blue_digit(i: u8) -> int
    recommends
        16 <= i <= 231,
{
    (i - 16) % 6
}

/// The channel value a cube digit stands for: 0 stays 0, and a nonzero
/// digit `d` becomes `d * 40 + 55`.
pub open spec fn cube_channel_spec(d: int) -> u8
    recommends
        0 <= d < 6,
{
    if d == 0 {
        0
    } else {
        (d * 40 + 55) as u8
    }
}

/// The channel value shared by all three channels of grayscale-ramp
/// entry `i`: `(i - 232) * 10 + 8`.
pub open spec fn gray_channel_spec(i: u8) -> u8
    recommends
        232 <= i,
{
    ((i - 232) * 10 + 8) as u8
}

/// The RGB value a standard terminal emulator shows for indexed-palette
/// entry `i`, over the whole byte range: the fixed basic table below 16,
/// the 6x6x6 cube for 16-231, and the grayscale ramp above 231.
pub open spec fn rgb_of_index(i: u8) -> RgbColor {
    if i < 16 {
        basic_rgb_spec(i)
    } else if i <= 231 {
        RgbColor {
            red: cube_channel_spec(cube_red_digit(i)),
            green: cube_channel_spec(cube_green_digit(i)),
            blue: cube_channel_spec(cube_blue_digit(i)),
        }
    } else {
        RgbColor {
            red: gray_channel_spec(i),
            green: gray_channel_spec(i),
            blue: gray_channel_spec(i),
        }
    }
}

fn basic_rgb(i: u8) -> (rgb: RgbColor)
    requires
        i < 16,
    ensures
        rgb == basic_rgb_spec(i),
{
    match i {
        0 => RgbColor { red: 0, green: 0, blue: 0 },
        1 => RgbColor { red: 128, green: 0, blue: 0 },
        2 => RgbColor { red: 0, green: 128, blue: 0 },
        3 => RgbColor { red: 128, green: 128, blue: 0 },
        4 => RgbColor { red: 0, green: 0, blue: 128 },
        5 => RgbColor { red: 128, green: 0, blue: 128 },
        6 => RgbColor { red: 0, green: 128, blue: 128 },
        7 => RgbColor { red: 192, green: 192, blue: 192 },
        8 => RgbColor { red: 128, green: 128, blue: 128 },
        9 => RgbColor { red: 255, green: 0, blue: 0 },
        10 => RgbColor { red: 0, green: 255, blue: 0 },
        11 => RgbColor { red: 255, green: 255, blue: 0 },
        12 => RgbColor { red: 0, green: 0, blue: 255 },
        13 => RgbColor { red: 255, green: 0, blue: 255 },
        14 => RgbColor { red: 0, green: 255, blue: 255 },
        _ => RgbColor { red: 255, green: 255, blue: 255 },
    }
}

fn cube_channel(d: u8) -> (v: u8)
    requires
        d < 6,
    ensures
        v == cube_channel_spec(d as int),
{
    if d == 0 {
        0
    } else {
        d * 40 + 55
    }
}

/// The RGB value of indexed-palette entry `index`, for every byte value.
pub fn to_rgb(index: u8) -> (rgb: RgbColor)
    ensures
        rgb == rgb_of_index(index),
{
    if index < 16 {
        basic_rgb(index)
    } else if index <= 231 {
        let n: u8 = index - 16;
        let rd: u8 = n / 36;
        let gd: u8 = (n / 6) % 6;
        let bd: u8 = n % 6;
        proof {
            assert(n / 36 <= 5 && (n / 6) % 6 <= 5 && n % 6 <= 5) by (bit_vector)
                requires
                    n <= 215,
            ;
        }
        RgbColor { red: cube_channel(rd), green: cube_channel(gd), blue: cube_channel(bd) }
    } else {
        let v: u8 = (index - 232) * 10 + 8;
        RgbColor { red: v, green: v, blue: v }
    }
}

/// Below index 16 the palette conversion is exactly the fixed
/// basic-color table.
pub proof fn lemma_to_rgb_basic_range(i: u8)
    requires
        i < 16,
    ensures
        rgb_of_index(i) == basic_rgb_spec(i),
{
}

/// Above index 231 the palette conversion is a pure gray: all three
/// channels are equal, at `(i - 232) * 10 + 8`.
pub proof fn lemma_to_rgb_gray_range(i: u8)
    requires
        232 <= i,
    ensures
        rgb_of_index(i).red == rgb_of_index(i).green,
        rgb_of_index(i).green == rgb_of_index(i).blue,
        rgb_of_index(i).red == (i - 232) * 10 + 8,
{
}

/// For every cube index the three extracted base-6 digits lie in 0-5,
/// and reassembling them as `16 + red*36 + green*6 + blue` recovers the
/// index.
pub proof fn lemma_cube_digits_round_trip(i: u8)
    requires
        16 <= i <= 231,
    ensures
        0 <= cube_red_digit(i) <= 5,
        0 <= cube_green_digit(i) <= 5,
        0 <= cube_blue_digit(i) <= 5,
        16 + cube_red_digit(i) * 36 + cube_green_digit(i) * 6 + cube_blue_digit(i) == i,
{
    let n: u8 = (i - 16) as u8;
    assert(n / 36 <= 5 && (n / 6) % 6 <= 5 && n % 6 <= 5 && 36 * (n / 36) + 6 * ((n / 6) % 6) + (
    n % 6) == n) by (bit_vector)
        requires
            n <= 215,
    ;
}

} // verus!
