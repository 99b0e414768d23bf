//! Terminal text styling through ANSI SGR escape sequences.
//!
//! The crate offers three color models (the 16-color basic palette, the
//! 256-entry indexed palette, and 24-bit RGB), a composable set of text
//! attributes, and a `Chalk` facade that renders a chosen foreground,
//! background and attribute set into the exact escape string a terminal
//! expects around a piece of text.

use vstd::prelude::*;
use vstd::string::StringExecFns;

pub mod ansi_chalk;
pub mod basic_chalk;
pub mod rgb_chalk;
pub mod sgr;
pub mod style;

use crate::ansi_chalk::AnsiColor;
use crate::basic_chalk::{bg_code_spec, fg_code_spec, BasicColor};
use crate::rgb_chalk::RgbColor;
use crate::sgr::{csi_seq, dec_seq, push_csi, push_dec, push_sgr, reset_seq, sgr_seq};
use crate::style::{plain_style, style_fragment, underline_count, StyleMap, Underline, Weight};

verus! {

/// A color request: one of the three color models, or the terminal's
/// own default color.
#[derive(Copy, Clone, Debug, PartialEq, Eq, Structural)]
pub enum ChalkType {
    DefaultColor,
    BasicColor(BasicColor),
    AnsiColor(AnsiColor),
    RgbColor(RgbColor),
}

impl ChalkType {
    /// The terminal's default color: no escape fragment at all.
    pub fn default() -> (t: Self)
        ensures
            t == ChalkType::DefaultColor,
    {
        ChalkType::DefaultColor
    }

    pub fn black() -> (t: Self)
        ensures
            t == ChalkType::BasicColor(BasicColor::Black),
    {
        ChalkType::BasicColor(BasicColor::Black)
    }

    pub fn red() -> (t: Self)
        ensures
            t == ChalkType::BasicColor(BasicColor::Red),
    {
        ChalkType::BasicColor(BasicColor::Red)
    }

    pub fn green() -> (t: Self)
        ensures
            t == ChalkType::BasicColor(BasicColor::Green),
    {
        ChalkType::BasicColor(BasicColor::Green)
    }

    pub fn yellow() -> (t: Self)
        ensures
            t == ChalkType::BasicColor(BasicColor::Yellow),
    {
        ChalkType::BasicColor(BasicColor::Yellow)
    }

    pub fn blue() -> (t: Self)
        ensures
            t == ChalkType::BasicColor(BasicColor::Blue),
    {
        ChalkType::BasicColor(BasicColor::Blue)
    }

    pub fn magenta() -> (t: Self)
        ensures
            t == ChalkType::BasicColor(BasicColor::Magenta),
    {
        ChalkType::BasicColor(BasicColor::Magenta)
    }

    pub fn cyan() -> (t: Self)
        ensures
            t == ChalkType::BasicColor(BasicColor::Cyan),
    {
        ChalkType::BasicColor(BasicColor::Cyan)
    }

    pub fn light_gray() -> (t: Self)
        ensures
            t == ChalkType::BasicColor(BasicColor::LightGray),
    {
        ChalkType::BasicColor(BasicColor::LightGray)
    }

    /// The same color as `light_gray`, under its other spelling.
    pub fn light_grey() -> (t: Self)
        ensures
            t == ChalkType::BasicColor(BasicColor::LightGray),
    {
        Self::light_gray()
    }

    pub fn gray() -> (t: Self)
        ensures
            t == ChalkType::BasicColor(BasicColor::Gray),
    {
        ChalkType::BasicColor(BasicColor::Gray)
    }

    /// The same color as `gray`, under its other spelling.
    pub fn grey() -> (t: Self)
        ensures
            t == ChalkType::BasicColor(BasicColor::Gray),
    {
        Self::gray()
    }

    /// The same color as `gray`: bright black is gray.
    pub fn light_black() -> (t: Self)
        ensures
            t == ChalkType::BasicColor(BasicColor::Gray),
    {
        Self::gray()
    }

    pub fn light_red() -> (t: Self)
        ensures
            t == ChalkType::BasicColor(BasicColor::LightRed),
    {
        ChalkType::BasicColor(BasicColor::LightRed)
    }

    pub fn light_green() -> (t: Self)
        ensures
            t == ChalkType::BasicColor(BasicColor::LightGreen),
    {
        ChalkType::BasicColor(BasicColor::LightGreen)
    }

    pub fn light_yellow() -> (t: Self)
        ensures
            t == ChalkType::BasicColor(BasicColor::LightYellow),
    {
        ChalkType::BasicColor(BasicColor::LightYellow)
    }

    pub fn light_blue() -> (t: Self)
        ensures
            t == ChalkType::BasicColor(BasicColor::LightBlue),
    {
        ChalkType::BasicColor(BasicColor::LightBlue)
    }

    pub fn light_magenta() -> (t: Self)
        ensures
            t == ChalkType::BasicColor(BasicColor::LightMagenta),
    {
        ChalkType::BasicColor(BasicColor::LightMagenta)
    }

    pub fn light_cyan() -> (t: Self)
        ensures
            t == ChalkType::BasicColor(BasicColor::LightCyan),
    {
        ChalkType::BasicColor(BasicColor::LightCyan)
    }

    pub fn white() -> (t: Self)
        ensures
            t == ChalkType::BasicColor(BasicColor::White),
    {
        ChalkType::BasicColor(BasicColor::White)
    }

    /// An indexed-palette color; every byte value is a valid index.
    pub fn ansi(color: u8) -> (t: Self)
        ensures
            t == ChalkType::AnsiColor(AnsiColor(color)),
    {
        ChalkType::AnsiColor(AnsiColor::from_num(color))
    }

    /// A 24-bit color from three independent channels.
    pub fn rgb(r: u8, g: u8, b: u8) -> (t: Self)
        ensures
            t == ChalkType::RgbColor(RgbColor { red: r, green: g, blue: b }),
    {
        ChalkType::RgbColor(RgbColor::new(r, g, b))
    }
}

/// The escape fragment that selects `t` as the foreground color:
/// nothing for the default, `ESC[<30-37|90-97>m` for a basic color,
/// `ESC[38;5;<index>m` for an indexed color, and
/// `ESC[38;2;<r>;<g>;<b>m` for an RGB color.
pub open spec fn fg_fragment(t: ChalkType) -> Seq<char> {
    match t {
        ChalkType::DefaultColor => Seq::empty(),
        ChalkType::BasicColor(c) => sgr_seq(fg_code_spec(c)),
        ChalkType::AnsiColor(c) => csi_seq() + seq!['3', '8', ';', '5', ';'] + dec_seq(c.0)
            + seq!['m'],
        ChalkType::RgbColor(c) => csi_seq() + seq!['3', '8', ';', '2', ';'] + dec_seq(c.red)
            + seq![';'] + dec_seq(c.green) + seq![';'] + dec_seq(c.blue) + seq!['m'],
    }
}

/// The escape fragment that selects `t` as the background color: the
/// same shapes as the foreground fragment, with parameter 48 in place
/// of 38 and the basic codes shifted by 10.
pub open spec fn bg_fragment(t: ChalkType) -> Seq<char> {
    match t {
        ChalkType::DefaultColor => Seq::empty(),
        ChalkType::BasicColor(c) => sgr_seq(bg_code_spec(c)),
        ChalkType::AnsiColor(c) => csi_seq() + seq!['4', '8', ';', '5', ';'] + dec_seq(c.0)
            + seq!['m'],
        ChalkType::RgbColor(c) => csi_seq() + seq!['4', '8', ';', '2', ';'] + dec_seq(c.red)
            + seq![';'] + dec_seq(c.green) + seq![';'] + dec_seq(c.blue) + seq!['m'],
    }
}

/// A terminal styler: a foreground color, a background color, and a set
/// of text attributes, each fully independent of the other two.
#[derive(Copy, Clone, Debug, PartialEq, Eq, Structural)]
pub struct Chalk {
    pub foreground: ChalkType,
    pub background: ChalkType,
    pub style: StyleMap,
}

/// The full escape prefix a chalk puts before its text: the foreground
/// fragment, then the background fragment, then the attribute fragment.
pub open spec fn render_spec(c: Chalk) -> Seq<char> {
    fg_fragment(c.foreground) + bg_fragment(c.background) + style_fragment(c.style)
}

/// What wrapping `text` in a chalk produces: the escape prefix, the text
/// itself, and the unconditional reset sequence `ESC[0m`.
pub open spec fn wrap_spec(c: Chalk, text: Seq<char>) -> Seq<char> {
    render_spec(c) + text + reset_seq()
}

impl Chalk {
    /// A styler with no color override and no attributes: it wraps text
    /// between an empty prefix and the reset sequence.
    pub fn new() -> (c: Self)
        ensures
            c == (Chalk {
                foreground: ChalkType::DefaultColor,
                background: ChalkType::DefaultColor,
                style: plain_style(),
            }),
    {
        Chalk {
            foreground: ChalkType::default(),
            background: ChalkType::default(),
            style: StyleMap::new(),
        }
    }

    /// Renders the foreground color's escape fragment.
    pub fn foreground_to_string(&self) -> (r: String)
        ensures
            r@ == fg_fragment(self.foreground),
    {
        let mut out = String::new();
        match &self.foreground {
            ChalkType::DefaultColor => {},
            ChalkType::BasicColor(c) => push_sgr(&mut out, c.as_foreground_color()),
            ChalkType::AnsiColor(c) => {
                push_csi(&mut out);
                out.append("38;5;");
                push_dec(&mut out, c.as_num());
                out.append("m");
                proof {
                    reveal_strlit("38;5;");
                    reveal_strlit("m");
                }
            },
            ChalkType::RgbColor(c) => {
                push_csi(&mut out);
                out.append("38;2;");
                push_dec(&mut out, c.get_red());
                out.append(";");
                push_dec(&mut out, c.get_green());
                out.append(";");
                push_dec(&mut out, c.get_blue());
                out.append("m");
                proof {
                    reveal_strlit("38;2;");
                    reveal_strlit(";");
                    reveal_strlit("m");
                }
            },
        }
        proof {
            assert(out@ =~= fg_fragment(self.foreground));
        }
        out
    }

    /// Renders the background color's escape fragment.
    pub fn background_to_string(&self) -> (r: String)
        ensures
            r@ == bg_fragment(self.background),
    {
        let mut out = String::new();
        match &self.background {
            ChalkType::DefaultColor => {},
            ChalkType::BasicColor(c) => push_sgr(&mut out, c.as_background_color()),
            ChalkType::AnsiColor(c) => {
                push_csi(&mut out);
                out.append("48;5;");
                push_dec(&mut out, c.as_num());
                out.append("m");
                proof {
                    reveal_strlit("48;5;");
                    reveal_strlit("m");
                }
            },
            ChalkType::RgbColor(c) => {
                push_csi(&mut out);
                out.append("48;2;");
                push_dec(&mut out, c.get_red());
                out.append(";");
                push_dec(&mut out, c.get_green());
                out.append(";");
                push_dec(&mut out, c.get_blue());
                out.append("m");
                proof {
                    reveal_strlit("48;2;");
                    reveal_strlit(";");
                    reveal_strlit("m");
                }
            },
        }
        proof {
            assert(out@ =~= bg_fragment(self.background));
        }
        out
    }

    /// Renders the whole escape prefix: foreground, background, then
    /// attributes.
    pub fn render(&self) -> (r: String)
        ensures
            r@ == render_spec(*self),
    {
        let mut out = self.foreground_to_string();
        let bg = self.background_to_string();
        out.append(bg.as_str());
        let st = self.style.render();
        out.append(st.as_str());
        proof {
            assert(out@ =~= render_spec(*self));
        }
        out
    }

    /// Wraps `text` between this chalk's escape prefix and the reset
    /// sequence, so no styling leaks onto later output.
    pub fn wrap(&self, text: &str) -> (r: String)
        ensures
            r@ == wrap_spec(*self, text@),
    {
        let mut out = self.render();
        out.append(text);
        push_sgr(&mut out, 0);
        proof {
            assert(out@ =~= wrap_spec(*self, text@));
        }
        out
    }

    /// Formats `text` with this chalk's styling; the same as `wrap`.
    pub fn string(&self, text: &str) -> (r: String)
        ensures
            r@ == wrap_spec(*self, text@),
    {
        self.wrap(text)
    }
}

impl Chalk {
    /// Returns the foreground to the terminal's default color.
    pub fn default_color(&mut self)
        ensures
            *final(self) == (Chalk { foreground: ChalkType::DefaultColor, ..*old(self) }),
    {
        self.foreground = ChalkType::default();
    }

    pub fn black(&mut self)
        ensures
            *final(self) == (Chalk {
                foreground: ChalkType::BasicColor(BasicColor::Black),
                ..*old(self)
            }),
    {
        self.foreground = ChalkType::black();
    }

    pub fn red(&mut self)
        ensures
            *final(self) == (Chalk {
                foreground: ChalkType::BasicColor(BasicColor::Red),
                ..*old(self)
            }),
    {
        self.foreground = ChalkType::red();
    }

    pub fn green(&mut self)
        ensures
            *final(self) == (Chalk {
                foreground: ChalkType::BasicColor(BasicColor::Green),
                ..*old(self)
            }),
    {
        self.foreground = ChalkType::green();
    }

    pub fn yellow(&mut self)
        ensures
            *final(self) == (Chalk {
                foreground: ChalkType::BasicColor(BasicColor::Yellow),
                ..*old(self)
            }),
    {
        self.foreground = ChalkType::yellow();
    }

    pub fn blue(&mut self)
        ensures
            *final(self) == (Chalk {
                foreground: ChalkType::BasicColor(BasicColor::Blue),
                ..*old(self)
            }),
    {
        self.foreground = ChalkType::blue();
    }

    pub fn magenta(&mut self)
        ensures
            *final(self) == (Chalk {
                foreground: ChalkType::BasicColor(BasicColor::Magenta),
                ..*old(self)
            }),
    {
        self.foreground = ChalkType::magenta();
    }

    pub fn cyan(&mut self)
        ensures
            *final(self) == (Chalk {
                foreground: ChalkType::BasicColor(BasicColor::Cyan),
                ..*old(self)
            }),
    {
        self.foreground = ChalkType::cyan();
    }

    pub fn light_gray(&mut self)
        ensures
            *final(self) == (Chalk {
                foreground: ChalkType::BasicColor(BasicColor::LightGray),
                ..*old(self)
            }),
    {
        self.foreground = ChalkType::light_gray();
    }

    pub fn light_grey(&mut self)
        ensures
            *final(self) == (Chalk {
                foreground: ChalkType::BasicColor(BasicColor::LightGray),
                ..*old(self)
            }),
    {
        self.foreground = ChalkType::light_grey();
    }

    pub fn gray(&mut self)
        ensures
            *final(self) == (Chalk {
                foreground: ChalkType::BasicColor(BasicColor::Gray),
                ..*old(self)
            }),
    {
        self.foreground = ChalkType::gray();
    }

    pub fn grey(&mut self)
        ensures
            *final(self) == (Chalk {
                foreground: ChalkType::BasicColor(BasicColor::Gray),
                ..*old(self)
            }),
    {
        self.foreground = ChalkType::grey();
    }

    /// Bright black is gray: the same foreground as `gray`.
    pub fn light_black(&mut self)
        ensures
            *final(self) == (Chalk {
                foreground: ChalkType::BasicColor(BasicColor::Gray),
                ..*old(self)
            }),
    {
        self.foreground = ChalkType::light_black();
    }

    pub fn light_red(&mut self)
        ensures
            *final(self) == (Chalk {
                foreground: ChalkType::BasicColor(BasicColor::LightRed),
                ..*old(self)
            }),
    {
        self.foreground = ChalkType::light_red();
    }

    pub fn light_green(&mut self)
        ensures
            *final(self) == (Chalk {
                foreground: ChalkType::BasicColor(BasicColor::LightGreen),
                ..*old(self)
            }),
    {
        self.foreground = ChalkType::light_green();
    }

    pub fn light_yellow(&mut self)
        ensures
            *final(self) == (Chalk {
                foreground: ChalkType::BasicColor(BasicColor::LightYellow),
                ..*old(self)
            }),
    {
        self.foreground = ChalkType::light_yellow();
    }

    pub fn light_blue(&mut self)
        ensures
            *final(self) == (Chalk {
                foreground: ChalkType::BasicColor(BasicColor::LightBlue),
                ..*old(self)
            }),
    {
        self.foreground = ChalkType::light_blue();
    }

    pub fn light_magenta(&mut self)
        ensures
            *final(self) == (Chalk {
                foreground: ChalkType::BasicColor(BasicColor::LightMagenta),
                ..*old(self)
            }),
    {
        self.foreground = ChalkType::light_magenta();
    }

    pub fn light_cyan(&mut self)
        ensures
            *final(self) == (Chalk {
                foreground: ChalkType::BasicColor(BasicColor::LightCyan),
                ..*old(self)
            }),
    {
        self.foreground = ChalkType::light_cyan();
    }

    pub fn white(&mut self)
        ensures
            *final(self) == (Chalk {
                foreground: ChalkType::BasicColor(BasicColor::White),
                ..*old(self)
            }),
    {
        self.foreground = ChalkType::white();
    }

    /// Sets the foreground to an indexed-palette color, replacing any
    /// previous foreground of any model.
    pub fn ansi(&mut self, color: u8)
        ensures
            *final(self) == (Chalk {
                foreground: ChalkType::AnsiColor(AnsiColor(color)),
                ..*old(self)
            }),
    {
        self.foreground = ChalkType::ansi(color);
    }

    /// Sets the foreground to a 24-bit color, replacing any previous
    /// foreground of any model.
    pub fn rgb(&mut self, r: u8, g: u8, b: u8)
        ensures
            *final(self) == (Chalk {
                foreground: ChalkType::RgbColor(RgbColor { red: r, green: g, blue: b }),
                ..*old(self)
            }),
    {
        self.foreground = ChalkType::rgb(r, g, b);
    }
}

impl Chalk {
    /// Returns the background to the terminal's default color.
    pub fn default_background(&mut self)
        ensures
            *final(self) == (Chalk { background: ChalkType::DefaultColor, ..*old(self) }),
    {
        self.background = ChalkType::default();
    }

    pub fn bg_black(&mut self)
        ensures
            *final(self) == (Chalk {
                background: ChalkType::BasicColor(BasicColor::Black),
                ..*old(self)
            }),
    {
        self.background = ChalkType::black();
    }

    pub fn bg_red(&mut self)
        ensures
            *final(self) == (Chalk {
                background: ChalkType::BasicColor(BasicColor::Red),
                ..*old(self)
            }),
    {
        self.background = ChalkType::red();
    }

    pub fn bg_green(&mut self)
        ensures
            *final(self) == (Chalk {
                background: ChalkType::BasicColor(BasicColor::Green),
                ..*old(self)
            }),
    {
        self.background = ChalkType::green();
    }

    pub fn bg_yellow(&mut self)
        ensures
            *final(self) == (Chalk {
                background: ChalkType::BasicColor(BasicColor::Yellow),
                ..*old(self)
            }),
    {
        self.background = ChalkType::yellow();
    }

    pub fn bg_blue(&mut self)
        ensures
            *final(self) == (Chalk {
                background: ChalkType::BasicColor(BasicColor::Blue),
                ..*old(self)
            }),
    {
        self.background = ChalkType::blue();
    }

    pub fn bg_magenta(&mut self)
        ensures
            *final(self) == (Chalk {
                background: ChalkType::BasicColor(BasicColor::Magenta),
                ..*old(self)
            }),
    {
        self.background = ChalkType::magenta();
    }

    pub fn bg_cyan(&mut self)
        ensures
            *final(self) == (Chalk {
                background: ChalkType::BasicColor(BasicColor::Cyan),
                ..*old(self)
            }),
    {
        self.background = ChalkType::cyan();
    }

    pub fn bg_light_gray(&mut self)
        ensures
            *final(self) == (Chalk {
                background: ChalkType::BasicColor(BasicColor::LightGray),
                ..*old(self)
            }),
    {
        self.background = ChalkType::light_gray();
    }

    pub fn bg_light_grey(&mut self)
        ensures
            *final(self) == (Chalk {
                background: ChalkType::BasicColor(BasicColor::LightGray),
                ..*old(self)
            }),
    {
        self.background = ChalkType::light_grey();
    }

    pub fn bg_gray(&mut self)
        ensures
            *final(self) == (Chalk {
                background: ChalkType::BasicColor(BasicColor::Gray),
                ..*old(self)
            }),
    {
        self.background = ChalkType::gray();
    }

    pub fn bg_grey(&mut self)
        ensures
            *final(self) == (Chalk {
                background: ChalkType::BasicColor(BasicColor::Gray),
                ..*old(self)
            }),
    {
        self.background = ChalkType::grey();
    }

    /// Bright black is gray: the same background as `bg_gray`.
    pub fn bg_light_black(&mut self)
        ensures
            *final(self) == (Chalk {
                background: ChalkType::BasicColor(BasicColor::Gray),
                ..*old(self)
            }),
    {
        self.background = ChalkType::light_black();
    }

    pub fn bg_light_red(&mut self)
        ensures
            *final(self) == (Chalk {
                background: ChalkType::BasicColor(BasicColor::LightRed),
                ..*old(self)
            }),
    {
        self.background = ChalkType::light_red();
    }

    pub fn bg_light_green(&mut self)
        ensures
            *final(self) == (Chalk {
                background: ChalkType::BasicColor(BasicColor::LightGreen),
                ..*old(self)
            }),
    {
        self.background = ChalkType::light_green();
    }

    pub fn bg_light_yellow(&mut self)
        ensures
            *final(self) == (Chalk {
                background: ChalkType::BasicColor(BasicColor::LightYellow),
                ..*old(self)
            }),
    {
        self.background = ChalkType::light_yellow();
    }

    pub fn bg_light_blue(&mut self)
        ensures
            *final(self) == (Chalk {
                background: ChalkType::BasicColor(BasicColor::LightBlue),
                ..*old(self)
            }),
    {
        self.background = ChalkType::light_blue();
    }

    pub fn bg_light_magenta(&mut self)
        ensures
            *final(self) == (Chalk {
                background: ChalkType::BasicColor(BasicColor::LightMagenta),
                ..*old(self)
            }),
    {
        self.background = ChalkType::light_magenta();
    }

    pub fn bg_light_cyan(&mut self)
        ensures
            *final(self) == (Chalk {
                background: ChalkType::BasicColor(BasicColor::LightCyan),
                ..*old(self)
            }),
    {
        self.background = ChalkType::light_cyan();
    }

    pub fn bg_white(&mut self)
        ensures
            *final(self) == (Chalk {
                background: ChalkType::BasicColor(BasicColor::White),
                ..*old(self)
            }),
    {
        self.background = ChalkType::white();
    }

    /// Sets the background to an indexed-palette color, replacing any
    /// previous background of any model.
    pub fn bg_ansi(&mut self, color: u8)
        ensures
            *final(self) == (Chalk {
                background: ChalkType::AnsiColor(AnsiColor(color)),
                ..*old(self)
            }),
    {
        self.background = ChalkType::ansi(color);
    }

    /// Sets the background to a 24-bit color, replacing any previous
    /// background of any model.
    pub fn bg_rgb(&mut self, r: u8, g: u8, b: u8)
        ensures
            *final(self) == (Chalk {
                background: ChalkType::RgbColor(RgbColor { red: r, green: g, blue: b }),
                ..*old(self)
            }),
    {
        self.background = ChalkType::rgb(r, g, b);
    }
}

impl Chalk {
    /// Turns every text attribute off; the colors stay as they are.
    pub fn reset_style(&mut self)
        ensures
            *final(self) == (Chalk { style: plain_style(), ..*old(self) }),
    {
        self.style.reset_style();
    }

    pub fn reset_weight(&mut self)
        ensures
            *final(self) == (Chalk {
                style: (StyleMap { weight: Weight::Normal, ..old(self).style }),
                ..*old(self)
            }),
    {
        self.style.reset_weight();
    }

    pub fn bold(&mut self)
        ensures
            *final(self) == (Chalk {
                style: (StyleMap { weight: Weight::Bold, ..old(self).style }),
                ..*old(self)
            }),
    {
        self.style.bold();
    }

    pub fn dim(&mut self)
        ensures
            *final(self) == (Chalk {
                style: (StyleMap { weight: Weight::Dim, ..old(self).style }),
                ..*old(self)
            }),
    {
        self.style.dim();
    }

    pub fn is_normal_weight(&self) -> (r: bool)
        ensures
            r == (self.style.weight == Weight::Normal),
    {
        self.style.is_normal_weight()
    }

    pub fn is_bold(&self) -> (r: bool)
        ensures
            r == (self.style.weight == Weight::Bold),
    {
        self.style.is_bold()
    }

    pub fn is_dim(&self) -> (r: bool)
        ensures
            r == (self.style.weight == Weight::Dim),
    {
        self.style.is_dim()
    }

    pub fn italic(&mut self)
        ensures
            *final(self) == (Chalk {
                style: (StyleMap { italic: true, ..old(self).style }),
                ..*old(self)
            }),
    {
        self.style.italic();
    }

    pub fn unitalicize(&mut self)
        ensures
            *final(self) == (Chalk {
                style: (StyleMap { italic: false, ..old(self).style }),
                ..*old(self)
            }),
    {
        self.style.unitalic();
    }

    pub fn is_italicized(&self) -> (r: bool)
        ensures
            r == self.style.italic,
    {
        self.style.is_italicized()
    }

    pub fn no_underline(&mut self)
        ensures
            *final(self) == (Chalk {
                style: (StyleMap { underline: Underline::Off, ..old(self).style }),
                ..*old(self)
            }),
    {
        self.style.no_underline();
    }

    pub fn underline(&mut self)
        ensures
            *final(self) == (Chalk {
                style: (StyleMap { underline: Underline::Single, ..old(self).style }),
                ..*old(self)
            }),
    {
        self.style.underline();
    }

    pub fn double_underline(&mut self)
        ensures
            *final(self) == (Chalk {
                style: (StyleMap { underline: Underline::Double, ..old(self).style }),
                ..*old(self)
            }),
    {
        self.style.double_underline();
    }

    pub fn num_underlines(&self) -> (r: u8)
        ensures
            r == underline_count(self.style.underline),
    {
        self.style.num_underlines()
    }

    pub fn has_underlines(&self) -> (r: bool)
        ensures
            r == (self.style.underline != Underline::Off),
    {
        self.style.has_underlines()
    }

    pub fn is_single_underlined(&self) -> (r: bool)
        ensures
            r == (self.style.underline == Underline::Single),
    {
        self.style.is_single_underlined()
    }

    pub fn is_double_underlined(&self) -> (r: bool)
        ensures
            r == (self.style.underline == Underline::Double),
    {
        self.style.is_double_underlined()
    }

    pub fn stop_blink(&mut self)
        ensures
            *final(self) == (Chalk {
                style: (StyleMap { blink: false, ..old(self).style }),
                ..*old(self)
            }),
    {
        self.style.stop_blink();
    }

    pub fn blink(&mut self)
        ensures
            *final(self) == (Chalk {
                style: (StyleMap { blink: true, ..old(self).style }),
                ..*old(self)
            }),
    {
        self.style.blink();
    }

    pub fn is_blinking(&self) -> (r: bool)
        ensures
            r == self.style.blink,
    {
        self.style.is_blinking()
    }

    pub fn invert(&mut self)
        ensures
            *final(self) == (Chalk {
                style: (StyleMap { invert: true, ..old(self).style }),
                ..*old(self)
            }),
    {
        self.style.invert();
    }

    pub fn uninvert(&mut self)
        ensures
            *final(self) == (Chalk {
                style: (StyleMap { invert: false, ..old(self).style }),
                ..*old(self)
            }),
    {
        self.style.uninvert();
    }

    pub fn is_inverted(&self) -> (r: bool)
        ensures
            r == self.style.invert,
    {
        self.style.is_inverted()
    }

    /// Hides the text.
    pub fn conceal(&mut self)
        ensures
            *final(self) == (Chalk {
                style: (StyleMap { hidden: true, ..old(self).style }),
                ..*old(self)
            }),
    {
        self.style.conceal();
    }

    pub fn unhide(&mut self)
        ensures
            *final(self) == (Chalk {
                style: (StyleMap { hidden: false, ..old(self).style }),
                ..*old(self)
            }),
    {
        self.style.unhide();
    }

    pub fn is_hidden(&self) -> (r: bool)
        ensures
            r == self.style.hidden,
    {
        self.style.is_hidden()
    }

    pub fn strikethrough(&mut self)
        ensures
            *final(self) == (Chalk {
                style: (StyleMap { strikethrough: true, ..old(self).style }),
                ..*old(self)
            }),
    {
        self.style.strikethrough();
    }

    pub fn unstrike(&mut self)
        ensures
            *final(self) == (Chalk {
                style: (StyleMap { strikethrough: false, ..old(self).style }),
                ..*old(self)
            }),
    {
        self.style.unstrike();
    }

    pub fn has_strikethrough(&self) -> (r: bool)
        ensures
            r == self.style.strikethrough,
    {
        self.style.has_strikethrough()
    }
}

/// Whatever colors or attributes were set, and however often, wrapped
/// text always ends with the four-character reset sequence `ESC[0m`.
pub proof fn lemma_wrap_ends_with_reset(c: Chalk, text: Seq<char>)
    ensures
        wrap_spec(c, text).len() >= 4,
        wrap_spec(c, text).subrange(
            wrap_spec(c, text).len() - 4,
            wrap_spec(c, text).len() as int,
        ) == reset_seq(),
{
    assert(reset_seq().len() == 4);
    assert(wrap_spec(c, text).subrange(
        wrap_spec(c, text).len() - 4,
        wrap_spec(c, text).len() as int,
    ) =~= reset_seq());
}

/// The three parts of a chalk are orthogonal: replacing the background
/// never changes the foreground's fragment or the attribute fragment,
/// and replacing the foreground never changes the background's fragment
/// or the attribute fragment.
pub proof fn lemma_color_roles_independent(c: Chalk, color: ChalkType)
    ensures
        fg_fragment((Chalk { background: color, ..c }).foreground) == fg_fragment(c.foreground),
        style_fragment((Chalk { background: color, ..c }).style) == style_fragment(c.style),
        bg_fragment((Chalk { foreground: color, ..c }).background) == bg_fragment(c.background),
        style_fragment((Chalk { foreground: color, ..c }).style) == style_fragment(c.style),
{
}

} // verus!
