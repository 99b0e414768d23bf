//! End-to-end behavior of the `Chalk` facade.

use chalk_rs::basic_chalk::BasicColor;
use chalk_rs::Chalk;

#[test]
fn is_setup() {
    let mut red = Chalk::new();
    red.red();
    assert_eq!(red.wrap("This is red"), "\x1b[31mThis is red\x1b[0m");
    let mut blue = Chalk::new();
    blue.blue();
    assert_eq!(blue.wrap("This is blue"), "\x1b[34mThis is blue\x1b[0m");
}

#[test]
fn basic_color() {
    let mut chalk = Chalk::new();
    chalk.blue();
    assert_eq!(chalk.wrap("This is blue"), "\x1b[34mThis is blue\x1b[0m");
    chalk.bg_white();
    chalk.black();
    assert_eq!(
        chalk.wrap("This is black"),
        "\x1b[30m\x1b[107mThis is black\x1b[0m"
    );
}

#[test]
fn wrap_basic_red() {
    let mut chalk = Chalk::new();
    chalk.red();
    assert_eq!(chalk.wrap("hi"), "\x1b[31mhi\x1b[0m");
}

#[test]
fn wrap_indexed_foreground() {
    let mut chalk = Chalk::new();
    chalk.ansi(196);
    assert_eq!(chalk.wrap("hi"), "\x1b[38;5;196mhi\x1b[0m");
}

#[test]
fn wrap_rgb_both_roles() {
    let mut chalk = Chalk::new();
    chalk.rgb(10, 20, 30);
    chalk.bg_rgb(1, 2, 3);
    assert_eq!(chalk.wrap("x"), "\x1b[38;2;10;20;30m\x1b[48;2;1;2;3mx\x1b[0m");
}

#[test]
fn wrap_always_ends_with_reset() {
    let mut plain = Chalk::new();
    assert!(plain.wrap("text").ends_with("\x1b[0m"));
    plain.default_color();
    plain.default_background();
    assert!(plain.wrap("").ends_with("\x1b[0m"));

    let mut busy = Chalk::new();
    busy.light_magenta();
    busy.bg_ansi(17);
    busy.bold();
    busy.double_underline();
    busy.blink();
    busy.italic();
    busy.invert();
    busy.conceal();
    busy.strikethrough();
    assert!(busy.wrap("text").ends_with("\x1b[0m"));
}

#[test]
fn background_setter_leaves_foreground_alone() {
    let mut chalk = Chalk::new();
    chalk.red();
    let fg_before = chalk.foreground_to_string();
    chalk.bg_blue();
    assert_eq!(chalk.foreground_to_string(), fg_before);
    assert_eq!(chalk.background_to_string(), "\x1b[44m");

    let bg_before = chalk.background_to_string();
    chalk.green();
    assert_eq!(chalk.background_to_string(), bg_before);
    assert_eq!(chalk.foreground_to_string(), "\x1b[32m");
}

#[test]
fn color_model_switch_replaces_whole_role() {
    let mut chalk = Chalk::new();
    chalk.red();
    chalk.rgb(1, 2, 3);
    assert_eq!(chalk.foreground_to_string(), "\x1b[38;2;1;2;3m");
    chalk.ansi(7);
    assert_eq!(chalk.foreground_to_string(), "\x1b[38;5;7m");
    chalk.default_color();
    assert_eq!(chalk.foreground_to_string(), "");
}

#[test]
fn style_reset_then_underline_renders_only_underline() {
    let mut chalk = Chalk::new();
    chalk.bold();
    chalk.reset_style();
    chalk.underline();
    assert_eq!(chalk.wrap("x"), "\x1b[4mx\x1b[0m");
}

#[test]
fn double_then_single_underline_is_single() {
    let mut chalk = Chalk::new();
    chalk.double_underline();
    chalk.underline();
    assert_eq!(chalk.wrap("x"), "\x1b[4mx\x1b[0m");
    assert_eq!(chalk.num_underlines(), 1);
    assert!(chalk.is_single_underlined());
    assert!(!chalk.is_double_underlined());
}

#[test]
fn string_is_wrap() {
    let mut chalk = Chalk::new();
    chalk.yellow();
    assert_eq!(chalk.string("this is yellow"), chalk.wrap("this is yellow"));
    assert_eq!(chalk.string("this is yellow"), "\x1b[33mthis is yellow\x1b[0m");
}

#[test]
fn render_concatenates_three_fragments() {
    let mut chalk = Chalk::new();
    chalk.cyan();
    chalk.bg_magenta();
    chalk.dim();
    assert_eq!(chalk.render(), "\x1b[36m\x1b[45m\x1b[2m");
    assert_eq!(
        chalk.render(),
        format!(
            "{}{}{}",
            chalk.foreground_to_string(),
            chalk.background_to_string(),
            "\x1b[2m"
        )
    );
}

#[test]
fn style_render_order_is_canonical() {
    let mut chalk = Chalk::new();
    chalk.strikethrough();
    chalk.conceal();
    chalk.invert();
    chalk.italic();
    chalk.blink();
    chalk.underline();
    chalk.bold();
    assert_eq!(
        chalk.render(),
        "\x1b[1m\x1b[4m\x1b[6m\x1b[3m\x1b[7m\x1b[8m\x1b[9m"
    );
}

#[test]
fn gray_aliases_agree() {
    let mut a = Chalk::new();
    let mut b = Chalk::new();
    a.gray();
    b.grey();
    assert_eq!(a.foreground_to_string(), b.foreground_to_string());
    b.light_black();
    assert_eq!(a.foreground_to_string(), b.foreground_to_string());
    a.light_gray();
    b.light_grey();
    assert_eq!(a.foreground_to_string(), b.foreground_to_string());
    assert_eq!(a.foreground_to_string(), "\x1b[37m");
}

#[test]
fn every_basic_foreground_and_background() {
    let colors = vec![
        (BasicColor::Black, 30u8),
        (BasicColor::Red, 31),
        (BasicColor::Green, 32),
        (BasicColor::Yellow, 33),
        (BasicColor::Blue, 34),
        (BasicColor::Magenta, 35),
        (BasicColor::Cyan, 36),
        (BasicColor::LightGray, 37),
        (BasicColor::Gray, 90),
        (BasicColor::LightRed, 91),
        (BasicColor::LightGreen, 92),
        (BasicColor::LightYellow, 93),
        (BasicColor::LightBlue, 94),
        (BasicColor::LightMagenta, 95),
        (BasicColor::LightCyan, 96),
        (BasicColor::White, 97),
    ];
    for (color, code) in colors.iter() {
        assert_eq!(color.as_foreground_color(), *code);
        assert_eq!(color.as_background_color(), *code + 10);
    }
    // No two variants share a code in the same role.
    for (i, (_, a)) in colors.iter().enumerate() {
        for (j, (_, b)) in colors.iter().enumerate() {
            if i != j {
                assert_ne!(a, b);
                assert_ne!(a + 10, b + 10);
            }
        }
    }
}

#[test]
fn chalk_style_queries_follow_setters() {
    let mut chalk = Chalk::new();
    assert!(chalk.is_normal_weight());
    assert!(!chalk.is_bold());
    assert!(!chalk.is_dim());
    chalk.bold();
    assert!(chalk.is_bold());
    chalk.dim();
    assert!(chalk.is_dim());
    assert!(!chalk.is_bold());
    chalk.reset_weight();
    assert!(chalk.is_normal_weight());

    assert_eq!(chalk.num_underlines(), 0);
    assert!(!chalk.has_underlines());
    chalk.double_underline();
    assert_eq!(chalk.num_underlines(), 2);
    assert!(chalk.has_underlines());
    assert!(chalk.is_double_underlined());
    chalk.no_underline();
    assert_eq!(chalk.num_underlines(), 0);

    chalk.italic();
    assert!(chalk.is_italicized());
    chalk.unitalicize();
    assert!(!chalk.is_italicized());

    chalk.blink();
    assert!(chalk.is_blinking());
    chalk.stop_blink();
    assert!(!chalk.is_blinking());

    chalk.invert();
    assert!(chalk.is_inverted());
    chalk.uninvert();
    assert!(!chalk.is_inverted());

    chalk.conceal();
    assert!(chalk.is_hidden());
    chalk.unhide();
    assert!(!chalk.is_hidden());

    chalk.strikethrough();
    assert!(chalk.has_strikethrough());
    chalk.unstrike();
    assert!(!chalk.has_strikethrough());
}
