//! Moments as text: seconds, a colon, and the subseconds padded with
//! zeros to three places.
use crate::moment::Moment;
use vstd::prelude::*;
use vstd::string::StringExecFns;

verus! {

/// The character of a decimal digit.
pub open spec fn digit_char(d: int) -> char {
    if d == 0 {
        '0'
    } else if d == 1 {
        '1'
    } else if d == 2 {
        '2'
    } else if d == 3 {
        '3'
    } else if d == 4 {
        '4'
    } else if d == 5 {
        '5'
    } else if d == 6 {
        '6'
    } else if d == 7 {
        '7'
    } else if d == 8 {
        '8'
    } else {
        '9'
    }
}

/// The decimal digits of a number, most significant first, without
/// leading zeros.
pub open spec fn decimal(n: nat) -> Seq<char>
    decreases n,
{
    if n < 10 {
        seq![digit_char(n as int)]
    } else {
        decimal(n / 10).push(digit_char((n % 10) as int))
    }
}

/// A number in decimal, with a minus sign where it is below zero.
pub open spec fn signed_decimal(n: int) -> Seq<char> {
    if n < 0 {
        seq!['-'] + decimal((-n) as nat)
    } else {
        decimal(n as nat)
    }
}

/// A number in decimal, filled with zeros to a width of three; a minus
/// sign counts towards the width and stands before the zeros.
pub open spec fn padded_decimal(n: int) -> Seq<char> {
    if n < 0 {
        if -n < 10 {
            seq!['-', '0'] + decimal((-n) as nat)
        } else {
            seq!['-'] + decimal((-n) as nat)
        }
    } else if n < 10 {
        seq!['0', '0'] + decimal(n as nat)
    } else if n < 100 {
        seq!['0'] + decimal(n as nat)
    } else {
        decimal(n as nat)
    }
}

/// A moment as text.
pub open spec fn moment_text(t: Moment) -> Seq<char> {
    signed_decimal(t.s as int) + seq![':'] + padded_decimal(t.m as int)
}

/// The text of a decimal digit.
fn digit_text(d: u64) -> (r: &'static str)
    requires
        d < 10,
    ensures
        r@ == seq![digit_char(d as int)],
{
    proof {
        reveal_strlit("0");
        reveal_strlit("1");
        reveal_strlit("2");
        reveal_strlit("3");
        reveal_strlit("4");
        reveal_strlit("5");
        reveal_strlit("6");
        reveal_strlit("7");
        reveal_strlit("8");
        reveal_strlit("9");
    }
    let r = if d == 0 {
        "0"
    } else if d == 1 {
        "1"
    } else if d == 2 {
        "2"
    } else if d == 3 {
        "3"
    } else if d == 4 {
        "4"
    } else if d == 5 {
        "5"
    } else if d == 6 {
        "6"
    } else if d == 7 {
        "7"
    } else if d == 8 {
        "8"
    } else {
        "9"
    };
    r
}

/// Appends the decimal digits of `n` to `out`.
pub fn append_decimal(out: &mut String, n: u64)
    ensures
        final(out)@ == old(out)@ + decimal(n as nat),
    decreases n,
{
    if n >= 10 {
        append_decimal(out, n / 10);
    }
    out.append(digit_text(n % 10));
}

/// Appends `n` in decimal to `out`, with a minus sign where it is below
/// zero.
pub fn append_signed(out: &mut String, n: i32)
    ensures
        final(out)@ == old(out)@ + signed_decimal(n as int),
{
    if n < 0 {
        out.append("-");
        proof {
            reveal_strlit("-");
        }
    }
    append_decimal(out, magnitude(n));
}

/// The size of a number that fits 32 bits.
fn magnitude(n: i32) -> (r: u64)
    ensures
        r == (if n < 0 {
            -n
        } else {
            n as int
        }),
{
    if n < 0 {
        (-(n as i64)) as u64
    } else {
        n as u64
    }
}

impl Moment {
    /// The moment as text: the seconds, a colon, and the subseconds filled
    /// with zeros to three places, as in `3:040`.
    pub fn to_text(&self) -> (r: String)
        ensures
            r@ == moment_text(*self),
    {
        proof {
            reveal_strlit("-");
            reveal_strlit(":");
            reveal_strlit("0");
            reveal_strlit("00");
            reveal_strlit("-0");
        }
        let mut out = String::new();
        append_signed(&mut out, self.s);
        out.append(":");
        let size = magnitude(self.m);
        if self.m < 0 {
            if size < 10 {
                out.append("-0");
            } else {
                out.append("-");
            }
        } else if size < 10 {
            out.append("00");
        } else if size < 100 {
            out.append("0");
        }
        append_decimal(&mut out, size);
        out
    }
}

} // verus!
