//! Building blocks for SGR (Select Graphic Rendition) escape fragments.
//!
//! Every fragment this crate emits has the shape `ESC [ <digits and ;> m`.
//! The spec functions here pin down, character by character, what those
//! fragments contain; the exec functions build them and are proved to
//! match.

use vstd::prelude::*;
use vstd::string::StringExecFns;

verus! {

/// The character a single decimal digit renders as.
pub open spec fn digit_char(d: int) -> char
    recommends
        0 <= d < 10,
{
    if d == 0 {
        '0'
    } else if d == 1 {
        '1'
    } else if d == 2 {
        '2'
    } else if d == 3 {
        '3'
    } else if d == 4 {
        '4'
    } else if d == 5 {
        '5'
    } else if d == 6 {
        '6'
    } else if d == 7 {
        '7'
    } else if d == 8 {
        '8'
    } else {
        '9'
    }
}

/// The decimal rendering of a byte, without leading zeros
/// (except that 0 itself renders as "0").
pub open spec fn dec_seq(n: u8) -> Seq<char> {
    if n < 10 {
        seq![digit_char(n as int)]
    } else if n < 100 {
        seq![digit_char(n as int / 10), digit_char(n as int % 10)]
    } else {
        seq![
            digit_char(n as int / 100),
            digit_char((n as int / 10) % 10),
            digit_char(n as int % 10),
        ]
    }
}

/// The two-character control sequence introducer `ESC [`.
pub open spec fn csi_seq() -> Seq<char> {
    seq!['\x1b', '[']
}

/// A complete one-parameter SGR sequence `ESC [ <code> m`.
pub open spec fn sgr_seq(code: u8) -> Seq<char> {
    csi_seq() + dec_seq(code) + seq!['m']
}

/// The reset sequence `ESC [ 0 m`, which clears every color and attribute.
pub open spec fn reset_seq() -> Seq<char> {
    sgr_seq(0)
}

fn digit_str(d: u8) -> (r: &'static str)
    requires
        d < 10,
    ensures
        r@ == seq![digit_char(d as int)],
{
    let r: &'static str = match d {
        0 => "0",
        1 => "1",
        2 => "2",
        3 => "3",
        4 => "4",
        5 => "5",
        6 => "6",
        7 => "7",
        8 => "8",
        _ => "9",
    };
    proof {
        reveal_strlit("0");
        reveal_strlit("1");
        reveal_strlit("2");
        reveal_strlit("3");
        reveal_strlit("4");
        reveal_strlit("5");
        reveal_strlit("6");
        reveal_strlit("7");
        reveal_strlit("8");
        reveal_strlit("9");
        assert(r@ =~= seq![digit_char(d as int)]);
    }
    r
}

/// Appends the decimal rendering of `n` to `out`.
pub fn push_dec(out: &mut String, n: u8)
    ensures
        final(out)@ == old(out)@ + dec_seq(n),
{
    if n < 10 {
        out.append(digit_str(n));
        proof {
            assert(out@ =~= old(out)@ + dec_seq(n));
        }
    } else if n < 100 {
        out.append(digit_str(n / 10));
        out.append(digit_str(n % 10));
        proof {
            assert(out@ =~= old(out)@ + dec_seq(n));
        }
    } else {
        out.append(digit_str(n / 100));
        out.append(digit_str((n / 10) % 10));
        out.append(digit_str(n % 10));
        proof {
            assert(out@ =~= old(out)@ + dec_seq(n));
        }
    }
}

/// Appends the control sequence introducer `ESC [` to `out`.
pub fn push_csi(out: &mut String)
    ensures
        final(out)@ == old(out)@ + csi_seq(),
{
    out.append("\x1b[");
    proof {
        reveal_strlit("\x1b[");
        assert(out@ =~= old(out)@ + csi_seq());
    }
}

/// Appends the complete SGR sequence `ESC [ <code> m` to `out`.
pub fn push_sgr(out: &mut String, code: u8)
    ensures
        final(out)@ == old(out)@ + sgr_seq(code),
{
    push_csi(out);
    push_dec(out, code);
    out.append("m");
    proof {
        reveal_strlit("m");
        assert(out@ =~= old(out)@ + sgr_seq(code));
    }
}

} // verus!
