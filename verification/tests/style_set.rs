//! The attribute set on its own, apart from any chalk.

use chalk_rs::ansi_chalk::AnsiColor;
use chalk_rs::style::StyleMap;
use chalk_rs::ChalkType;

#[test]
fn fresh_style_renders_empty() {
    let style = StyleMap::new();
    assert_eq!(style.render(), "");
}

#[test]
fn reset_style_renders_empty() {
    let mut style = StyleMap::new();
    style.bold();
    style.double_underline();
    style.blink();
    style.italic();
    style.invert();
    style.conceal();
    style.strikethrough();
    assert_ne!(style.render(), "");
    style.reset_style();
    assert_eq!(style.render(), "");
}

#[test]
fn weight_is_last_wins() {
    let mut style = StyleMap::new();
    style.bold();
    assert_eq!(style.render(), "\x1b[1m");
    style.dim();
    assert_eq!(style.render(), "\x1b[2m");
    assert!(style.is_dim());
    assert!(!style.is_bold());
    style.reset_weight();
    assert_eq!(style.render(), "");
    assert!(style.is_normal_weight());
}

#[test]
fn underline_is_last_wins() {
    let mut style = StyleMap::new();
    style.double_underline();
    assert_eq!(style.render(), "\x1b[21m");
    assert_eq!(style.num_underlines(), 2);
    style.underline();
    assert_eq!(style.render(), "\x1b[4m");
    assert_eq!(style.num_underlines(), 1);
    assert!(style.is_single_underlined());
    assert!(!style.is_double_underlined());
    assert!(style.has_underlines());
    style.no_underline();
    assert_eq!(style.render(), "");
    assert_eq!(style.num_underlines(), 0);
    assert!(!style.has_underlines());
}

#[test]
fn each_toggle_renders_its_own_code() {
    let mut style = StyleMap::new();
    style.blink();
    assert_eq!(style.render(), "\x1b[6m");
    assert!(style.is_blinking());
    style.stop_blink();

    style.italic();
    assert_eq!(style.render(), "\x1b[3m");
    assert!(style.is_italicized());
    style.unitalic();

    style.invert();
    assert_eq!(style.render(), "\x1b[7m");
    assert!(style.is_inverted());
    style.uninvert();

    style.conceal();
    assert_eq!(style.render(), "\x1b[8m");
    assert!(style.is_hidden());
    style.unhide();

    style.strikethrough();
    assert_eq!(style.render(), "\x1b[9m");
    assert!(style.has_strikethrough());
    style.unstrike();

    assert_eq!(style.render(), "");
}

#[test]
fn ansi_color_round_trips_its_index() {
    for i in 0u16..=255 {
        let i = i as u8;
        assert_eq!(AnsiColor::from_num(i).as_num(), i);
        assert_eq!(AnsiColor::from(i), AnsiColor::from_num(i));
    }
}

#[test]
fn chalk_type_constructors_pick_their_variant() {
    assert_eq!(ChalkType::default(), ChalkType::DefaultColor);
    assert_eq!(ChalkType::red(), ChalkType::red());
    assert_ne!(ChalkType::red(), ChalkType::green());
    assert_eq!(ChalkType::gray(), ChalkType::grey());
    assert_eq!(ChalkType::gray(), ChalkType::light_black());
    assert_eq!(ChalkType::light_gray(), ChalkType::light_grey());
    assert_ne!(ChalkType::gray(), ChalkType::light_gray());
    assert_eq!(ChalkType::ansi(7), ChalkType::ansi(7));
    assert_ne!(ChalkType::ansi(7), ChalkType::ansi(8));
    assert_eq!(ChalkType::rgb(1, 2, 3), ChalkType::rgb(1, 2, 3));
    assert_ne!(ChalkType::rgb(1, 2, 3), ChalkType::rgb(1, 2, 4));
}
