//! Whole numbers written in decimal.
use vstd::prelude::*;
use vstd::string::StrSliceExecFns;

verus! {

/// A decimal digit.
pub open spec fn is_digit(c: char) -> bool {
    '0' <= c <= '9'
}

/// The value of a decimal digit.
pub open spec fn digit_value(c: char) -> nat {
    (c as u32 - '0' as u32) as nat
}

/// The number that a run of digits writes.
pub open spec fn digits_value(digits: Seq<char>) -> nat
    decreases digits.len(),
{
    if digits.len() == 0 {
        0
    } else {
        digits_value(digits.drop_last()) * 10 + digit_value(digits.last())
    }
}

/// One digit or more, and nothing else.
pub open spec fn all_digits(text: Seq<char>) -> bool {
    text.len() > 0 && forall|i: int| 0 <= i < text.len() ==> is_digit(#[trigger] text[i])
}

/// The number that a text writes in decimal with an optional sign; `None`
/// for a text that is no such number. `signed` says whether a minus sign
/// is accepted; a plus sign always is.
pub open spec fn written_number(text: Seq<char>, signed: bool) -> Option<int> {
    if text.len() > 0 && text[0] == '+' {
        if all_digits(text.skip(1)) {
            Some(digits_value(text.skip(1)) as int)
        } else {
            None
        }
    } else if signed && text.len() > 0 && text[0] == '-' {
        if all_digits(text.skip(1)) {
            Some(-(digits_value(text.skip(1)) as int))
        } else {
            None
        }
    } else if all_digits(text) {
        Some(digits_value(text) as int)
    } else {
        None
    }
}

/// The 32-bit unsigned number that a text writes, if it writes one.
pub open spec fn written_u32(text: Seq<char>) -> Option<u32> {
    match written_number(text, false) {
        Some(n) => if n <= u32::MAX {
            Some(n as u32)
        } else {
            None
        },
        None => None,
    }
}

/// The 32-bit signed number that a text writes, if it writes one.
pub open spec fn written_i32(text: Seq<char>) -> Option<i32> {
    match written_number(text, true) {
        Some(n) => if i32::MIN <= n <= i32::MAX {
            Some(n as i32)
        } else {
            None
        },
        None => None,
    }
}

/// A run of digits writes a number no smaller than any of its prefixes.
pub proof fn lemma_digits_value_grows(digits: Seq<char>, upto: int)
    requires
        0 <= upto <= digits.len(),
    ensures
        digits_value(digits.take(upto)) <= digits_value(digits),
    decreases digits.len() - upto,
{
    if upto < digits.len() {
        lemma_digits_value_grows(digits, upto + 1);
        assert(digits.take(upto + 1).drop_last() == digits.take(upto));
    } else {
        assert(digits.take(upto) == digits);
    }
}

/// Reads the digits of `text` from `start` on. The result is their value
/// if there is at least one character, all are digits, and the value is
/// at most `limit`.
fn read_digits(text: &str, start: usize, limit: u64) -> (r: Option<u64>)
    requires
        start <= text@.len(),
        limit <= 0x1_0000_0000,
    ensures
        r == (if all_digits(text@.skip(start as int)) && digits_value(text@.skip(start as int))
            <= limit {
            Some(digits_value(text@.skip(start as int)) as u64)
        } else {
            None
        }),
{
    let len = text.unicode_len();
    let ghost digits = text@.skip(start as int);
    if start == len {
        return None;
    }
    let mut value: u64 = 0;
    let mut i: usize = start;
    while i < len
        invariant
            start <= i <= len,
            len == text@.len(),
            digits == text@.skip(start as int),
            limit <= 0x1_0000_0000,
            value == digits_value(digits.take(i - start)),
            value <= limit,
            forall|k: int| 0 <= k < i - start ==> is_digit(#[trigger] digits[k]),
        decreases len - i,
    {
        let c = text.get_char(i);
        assert(digits[i - start] == c);
        if c < '0' || c > '9' {
            return None;
        }
        let d: u64 = (c as u32 - '0' as u32) as u64;
        proof {
            assert(digits.take(i - start + 1).drop_last() == digits.take(i - start));
            lemma_digits_value_grows(digits, i - start + 1);
        }
        value = value * 10 + d;
        if value > limit {
            return None;
        }
        i += 1;
    }
    assert(digits.take(i - start) == digits);
    Some(value)
}

/// Reads a 32-bit unsigned number written in decimal: an optional plus
/// sign, then digits.
pub fn parse_u32(text: &str) -> (r: Option<u32>)
    ensures
        r == written_u32(text@),
{
    let len = text.unicode_len();
    let start: usize = if len > 0 && text.get_char(0) == '+' {
        1
    } else {
        0
    };
    proof {
        assert(text@.skip(0) == text@);
    }
    match read_digits(text, start, 0xffff_ffff) {
        Some(value) => Some(value as u32),
        None => None,
    }
}

/// Reads a 32-bit signed number written in decimal: an optional sign,
/// then digits.
pub fn parse_i32(text: &str) -> (r: Option<i32>)
    ensures
        r == written_i32(text@),
{
    let len = text.unicode_len();
    proof {
        assert(text@.skip(0) == text@);
    }
    if len > 0 && text.get_char(0) == '-' {
        match read_digits(text, 1, 0x8000_0000) {
            Some(value) => Some((-(value as i64)) as i32),
            None => None,
        }
    } else {
        let start: usize = if len > 0 && text.get_char(0) == '+' {
            1
        } else {
            0
        };
        match read_digits(text, start, 0x7fff_ffff) {
            Some(value) => Some(value as i32),
            None => None,
        }
    }
}

/// Whether a text is, letter for letter, another.
pub fn same_text(text: &str, other: &str) -> (r: bool)
    ensures
        r == (text@ == other@),
{
    text.to_owned() == other.to_owned()
}

} // verus!
