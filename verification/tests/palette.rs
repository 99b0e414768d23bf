//! The indexed-palette to RGB conversion over its three ranges.

use chalk_rs::rgb_chalk::{to_rgb, RgbColor};

#[test]
fn basic_range_matches_fixed_table() {
    let table: Vec<(u8, u8, u8)> = vec![
        (0, 0, 0),
        (128, 0, 0),
        (0, 128, 0),
        (128, 128, 0),
        (0, 0, 128),
        (128, 0, 128),
        (0, 128, 128),
        (192, 192, 192),
        (128, 128, 128),
        (255, 0, 0),
        (0, 255, 0),
        (255, 255, 0),
        (0, 0, 255),
        (255, 0, 255),
        (0, 255, 255),
        (255, 255, 255),
    ];
    for (i, (r, g, b)) in table.iter().enumerate() {
        assert_eq!(to_rgb(i as u8), RgbColor::new(*r, *g, *b));
    }
    assert_eq!(to_rgb(1), RgbColor::new(128, 0, 0));
}

#[test]
fn cube_range_digits_and_round_trip() {
    for i in 16u16..=231 {
        let i = i as u8;
        let n = i - 16;
        let rd = n / 36;
        let gd = (n / 6) % 6;
        let bd = n % 6;
        assert!(rd <= 5 && gd <= 5 && bd <= 5);
        assert_eq!(16 + rd * 36 + gd * 6 + bd, i);
        let channel = |d: u8| if d == 0 { 0 } else { d * 40 + 55 };
        assert_eq!(to_rgb(i), RgbColor::new(channel(rd), channel(gd), channel(bd)));
    }
    assert_eq!(to_rgb(196), RgbColor::new(255, 0, 0));
    assert_eq!(to_rgb(16), RgbColor::new(0, 0, 0));
    assert_eq!(to_rgb(231), RgbColor::new(255, 255, 255));
}

#[test]
fn gray_range_is_even_ramp() {
    for i in 232u16..=255 {
        let i = i as u8;
        let v = (i - 232) * 10 + 8;
        let rgb = to_rgb(i);
        assert_eq!(rgb.get_red(), v);
        assert_eq!(rgb.get_green(), v);
        assert_eq!(rgb.get_blue(), v);
    }
    assert_eq!(to_rgb(232), RgbColor::new(8, 8, 8));
    assert_eq!(to_rgb(255), RgbColor::new(238, 238, 238));
}

#[test]
fn conversion_is_deterministic_and_total() {
    for i in 0u16..=255 {
        let i = i as u8;
        assert_eq!(to_rgb(i), to_rgb(i));
    }
}
