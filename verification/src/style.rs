//! The composable set of text attributes and its SGR rendering.

use vstd::prelude::*;
use crate::sgr::{push_sgr, sgr_seq};

verus! {

/// The weight of the text: at most one of bold and dim at a time.
#[derive(Copy, Clone, Debug, PartialEq, Eq, Structural)]
pub enum Weight {
    Normal,
    Bold,
    Dim,
}

/// The underline state: at most one of single and double at a time.
#[derive(Copy, Clone, Debug, PartialEq, Eq, Structural)]
pub enum Underline {
    Off,
    Single,
    Double,
}

/// An unordered set of independent text attributes.
///
/// Weight and underline are single-valued (the last selection wins);
/// the remaining attributes are independent toggles.
#[derive(Copy, Clone, Debug, PartialEq, Eq, Structural)]
pub struct StyleMap {
    pub weight: Weight,
    pub underline: Underline,
    pub italic: bool,
    pub blink: bool,
    pub invert: bool,
    pub hidden: bool,
    pub strikethrough: bool,
}

/// The attribute set with every attribute off: what a fresh styler
/// starts with and what a style reset returns to.
pub open spec fn plain_style() -> StyleMap {
    StyleMap {
        weight: Weight::Normal,
        underline: Underline::Off,
        italic: false,
        blink: false,
        invert: false,
        hidden: false,
        strikethrough: false,
    }
}

/// The escape fragment of the weight attribute: bold is SGR 1, dim SGR 2.
pub open spec fn weight_fragment(w: Weight) -> Seq<char> {
    match w {
        Weight::Normal => Seq::empty(),
        Weight::Bold => sgr_seq(1),
        Weight::Dim => sgr_seq(2),
    }
}

/// The escape fragment of the underline attribute: single underline is
/// SGR 4, double underline SGR 21.
pub open spec fn underline_fragment(u: Underline) -> Seq<char> {
    match u {
        Underline::Off => Seq::empty(),
        Underline::Single => sgr_seq(4),
        Underline::Double => sgr_seq(21),
    }
}

/// The escape fragment of an independent toggle with the given SGR code.
pub open spec fn flag_fragment(on: bool, code: u8) -> Seq<char> {
    if on {
        sgr_seq(code)
    } else {
        Seq::empty()
    }
}

/// How many underlines the underline state draws: 0, 1 or 2.
pub open spec fn underline_count(u: Underline) -> u8 {
    match u {
        Underline::Off => 0,
        Underline::Single => 1,
        Underline::Double => 2,
    }
}

/// The full escape fragment of an attribute set: one `ESC[<code>m` block
/// per active attribute, in the fixed canonical order weight, underline,
/// blink (SGR 6), italic (SGR 3), inverse (SGR 7), hidden (SGR 8),
/// strikethrough (SGR 9), so the output does not depend on call order.
pub open spec fn style_fragment(s: StyleMap) -> Seq<char> {
    weight_fragment(s.weight) + underline_fragment(s.underline) + flag_fragment(s.blink, 6)
        + flag_fragment(s.italic, 3) + flag_fragment(s.invert, 7) + flag_fragment(s.hidden, 8)
        + flag_fragment(s.strikethrough, 9)
}

impl StyleMap {
    /// An attribute set with every attribute off.
    pub fn new() -> (s: Self)
        ensures
            s == plain_style(),
    {
        StyleMap {
            weight: Weight::Normal,
            underline: Underline::Off,
            italic: false,
            blink: false,
            invert: false,
            hidden: false,
            strikethrough: false,
        }
    }

    /// Renders the active attributes as their escape fragment.
    pub fn render(&self) -> (r: String)
        ensures
            r@ == style_fragment(*self),
    {
        let mut out = String::new();
        match self.weight {
            Weight::Normal => {},
            Weight::Bold => push_sgr(&mut out, 1),
            Weight::Dim => push_sgr(&mut out, 2),
        }
        match self.underline {
            Underline::Off => {},
            Underline::Single => push_sgr(&mut out, 4),
            Underline::Double => push_sgr(&mut out, 21),
        }
        if self.blink {
            push_sgr(&mut out, 6);
        }
        if self.italic {
            push_sgr(&mut out, 3);
        }
        if self.invert {
            push_sgr(&mut out, 7);
        }
        if self.hidden {
            push_sgr(&mut out, 8);
        }
        if self.strikethrough {
            push_sgr(&mut out, 9);
        }
        proof {
            assert(out@ =~= style_fragment(*self));
        }
        out
    }

    /// Turns every attribute off again.
    pub fn reset_style(&mut self)
        ensures
            *final(self) == plain_style(),
    {
        self.weight = Weight::Normal;
        self.underline = Underline::Off;
        self.italic = false;
        self.blink = false;
        self.invert = false;
        self.hidden = false;
        self.strikethrough = false;
    }

    /// Returns the weight to normal.
    pub fn reset_weight(&mut self)
        ensures
            *final(self) == (StyleMap { weight: Weight::Normal, ..*old(self) }),
    {
        self.weight = Weight::Normal;
    }

    /// Makes the text bold; replaces dim if dim was selected.
    pub fn bold(&mut self)
        ensures
            *final(self) == (StyleMap { weight: Weight::Bold, ..*old(self) }),
    {
        self.weight = Weight::Bold;
    }

    /// Makes the text dim; replaces bold if bold was selected.
    pub fn dim(&mut self)
        ensures
            *final(self) == (StyleMap { weight: Weight::Dim, ..*old(self) }),
    {
        self.weight = Weight::Dim;
    }

    pub fn is_normal_weight(&self) -> (r: bool)
        ensures
            r == (self.weight == Weight::Normal),
    {
        self.weight == Weight::Normal
    }

    pub fn is_bold(&self) -> (r: bool)
        ensures
            r == (self.weight == Weight::Bold),
    {
        self.weight == Weight::Bold
    }

    pub fn is_dim(&self) -> (r: bool)
        ensures
            r == (self.weight == Weight::Dim),
    {
        self.weight == Weight::Dim
    }

    /// Makes the text italic.
    pub fn italic(&mut self)
        ensures
            *final(self) == (StyleMap { italic: true, ..*old(self) }),
    {
        self.italic = true;
    }

    /// Makes the text non-italic.
    pub fn unitalic(&mut self)
        ensures
            *final(self) == (StyleMap { italic: false, ..*old(self) }),
    {
        self.italic = false;
    }

    pub fn is_italicized(&self) -> (r: bool)
        ensures
            r == self.italic,
    {
        self.italic
    }

    /// Removes any underline.
    pub fn no_underline(&mut self)
        ensures
            *final(self) == (StyleMap { underline: Underline::Off, ..*old(self) }),
    {
        self.underline = Underline::Off;
    }

    /// Underlines the text once; replaces a double underline.
    pub fn underline(&mut self)
        ensures
            *final(self) == (StyleMap { underline: Underline::Single, ..*old(self) }),
    {
        self.underline = Underline::Single;
    }

    /// Underlines the text twice; replaces a single underline.
    pub fn double_underline(&mut self)
        ensures
            *final(self) == (StyleMap { underline: Underline::Double, ..*old(self) }),
    {
        self.underline = Underline::Double;
    }

    pub fn num_underlines(&self) -> (r: u8)
        ensures
            r == underline_count(self.underline),
    {
        match self.underline {
            Underline::Off => 0,
            Underline::Single => 1,
            Underline::Double => 2,
        }
    }

    pub fn has_underlines(&self) -> (r: bool)
        ensures
            r == (self.underline != Underline::Off),
    {
        !(self.underline == Underline::Off)
    }

    pub fn is_single_underlined(&self) -> (r: bool)
        ensures
            r == (self.underline == Underline::Single),
    {
        self.underline == Underline::Single
    }

    pub fn is_double_underlined(&self) -> (r: bool)
        ensures
            r == (self.underline == Underline::Double),
    {
        self.underline == Underline::Double
    }

    /// Stops the text blinking.
    pub fn stop_blink(&mut self)
        ensures
            *final(self) == (StyleMap { blink: false, ..*old(self) }),
    {
        self.blink = false;
    }

    /// Makes the text blink.
    pub fn blink(&mut self)
        ensures
            *final(self) == (StyleMap { blink: true, ..*old(self) }),
    {
        self.blink = true;
    }

    pub fn is_blinking(&self) -> (r: bool)
        ensures
            r == self.blink,
    {
        self.blink
    }

    /// Swaps foreground and background when rendered.
    pub fn invert(&mut self)
        ensures
            *final(self) == (StyleMap { invert: true, ..*old(self) }),
    {
        self.invert = true;
    }

    /// Stops swapping foreground and background.
    pub fn uninvert(&mut self)
        ensures
            *final(self) == (StyleMap { invert: false, ..*old(self) }),
    {
        self.invert = false;
    }

    pub fn is_inverted(&self) -> (r: bool)
        ensures
            r == self.invert,
    {
        self.invert
    }

    /// Hides the text.
    pub fn conceal(&mut self)
        ensures
            *final(self) == (StyleMap { hidden: true, ..*old(self) }),
    {
        self.hidden = true;
    }

    /// Shows the text again.
    pub fn unhide(&mut self)
        ensures
            *final(self) == (StyleMap { hidden: false, ..*old(self) }),
    {
        self.hidden = false;
    }

    pub fn is_hidden(&self) -> (r: bool)
        ensures
            r == self.hidden,
    {
        self.hidden
    }

    /// Strikes the text through.
    pub fn strikethrough(&mut self)
        ensures
            *final(self) == (StyleMap { strikethrough: true, ..*old(self) }),
    {
        self.strikethrough = true;
    }

    /// Removes the strikethrough.
    pub fn unstrike(&mut self)
        ensures
            *final(self) == (StyleMap { strikethrough: false, ..*old(self) }),
    {
        self.strikethrough = false;
    }

    pub fn has_strikethrough(&self) -> (r: bool)
        ensures
            r == self.strikethrough,
    {
        self.strikethrough
    }
}

/// An attribute set with every attribute off renders as the empty
/// fragment.
pub proof fn lemma_plain_style_renders_empty()
    ensures
        style_fragment(plain_style()) == Seq::<char>::empty(),
{
    assert(style_fragment(plain_style()) =~= Seq::<char>::empty());
}

/// Underline selection is last-wins: selecting a single underline leads
/// to the same attribute set, and so to the same rendered fragment,
/// whether or not a double underline was selected before.
pub proof fn lemma_underline_last_wins(s: StyleMap)
    ensures
        (StyleMap { underline: Underline::Single, ..(StyleMap { underline: Underline::Double, ..s }) })
            == (StyleMap { underline: Underline::Single, ..s }),
        style_fragment(StyleMap { underline: Underline::Single, ..s }) == weight_fragment(s.weight)
            + sgr_seq(4) + flag_fragment(s.blink, 6) + flag_fragment(s.italic, 3) + flag_fragment(
            s.invert,
            7,
        ) + flag_fragment(s.hidden, 8) + flag_fragment(s.strikethrough, 9),
{
}

} // verus!
