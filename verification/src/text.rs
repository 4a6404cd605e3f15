//! Building text: decimal numbers and characters appended to a string.

use vstd::prelude::*;
use vstd::string::*;
use crate::interp::model::{decimal, digit_char, digits};

verus! {

/// Appends one character to a string. This stands for `String::push` of the
/// standard library, whose documentation says that it appends the given
/// character to the end of the string. It serves where a character that is
/// known only when the program runs becomes text: the text of a character
/// value.
#[verifier::external_body]
pub(crate) fn push_char(s: &mut String, c: char)
    ensures
        final(s)@ == old(s)@.push(c),
{
    s.push(c)
}

/// Whether a string holds the characters of a string slice.
pub fn holds(s: &String, text: &str) -> (r: bool)
    ensures
        r == (s@ == text@),
{
    let other = String::from_str(text);
    *s == other
}

/// The text of the decimal digit `d`: one character.
pub fn digit(d: u8) -> (s: &'static str)
    requires
        d < 10,
    ensures
        s@ == seq![digit_char(d as nat)],
{
    proof {
        reveal_strlit("0");
        reveal_strlit("1");
        reveal_strlit("2");
        reveal_strlit("3");
        reveal_strlit("4");
        reveal_strlit("5");
        reveal_strlit("6");
        reveal_strlit("7");
        reveal_strlit("8");
        reveal_strlit("9");
    }
    let s = if d == 0 {
        "0"
    } else if d == 1 {
        "1"
    } else if d == 2 {
        "2"
    } else if d == 3 {
        "3"
    } else if d == 4 {
        "4"
    } else if d == 5 {
        "5"
    } else if d == 6 {
        "6"
    } else if d == 7 {
        "7"
    } else if d == 8 {
        "8"
    } else {
        "9"
    };
    assert(s@ =~= seq![digit_char(d as nat)]);
    s
}

/// Appends the decimal digits of `n`.
pub fn write_digits(n: u128, out: &mut String)
    ensures
        final(out)@ == old(out)@ + digits(n as nat),
    decreases n,
{
    if n >= 10 {
        write_digits(n / 10, out);
    }
    let d: u8 = (n % 10) as u8;
    out.append(digit(d));
    proof {
        if n >= 10 {
            assert(final(out)@ =~= old(out)@ + digits((n / 10) as nat).push(
                digit_char((n % 10) as nat),
            ));
        } else {
            assert(final(out)@ =~= old(out)@ + seq![digit_char(n as nat)]);
        }
    }
}

/// Appends `i` in decimal, with a leading `-` when it is negative.
pub fn write_decimal(i: i128, out: &mut String)
    ensures
        final(out)@ == old(out)@ + decimal(i as int),
{
    if i < 0 {
        proof {
            reveal_strlit("-");
        }
        out.append("-");
        assert(out@ =~= old(out)@ + seq!['-']);
        let magnitude: u128 = if i == i128::MIN {
            0x8000_0000_0000_0000_0000_0000_0000_0000u128
        } else {
            (-i) as u128
        };
        write_digits(magnitude, out);
        assert(out@ =~= old(out)@ + (seq!['-'] + digits((-i) as nat)));
    } else {
        write_digits(i as u128, out);
    }
}

} // verus!
