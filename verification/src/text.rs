//! Texts as sequences of characters, and the decimal text of integers as it
//! appears in messages.

use vstd::prelude::*;
use vstd::string::StrSliceExecFns;
use vstd::string::StringExecFns;

verus! {

/// The characters of an optional text.
pub open spec fn optional_text(text: Option<String>) -> Option<Seq<char>> {
    match text {
        Some(text) => Some(text@),
        None => None,
    }
}

/// The characters of each text of a list, in order.
pub open spec fn texts(list: Seq<String>) -> Seq<Seq<char>> {
    list.map_values(|text: String| text@)
}

/// The characters of each word of an argument vector, in order.
pub open spec fn words(list: Seq<&str>) -> Seq<Seq<char>> {
    list.map_values(|word: &str| word@)
}

/// Tells whether two texts hold the same characters.
pub fn same_text(left: &str, right: &str) -> (same: bool)
    ensures
        same == (left@ == right@),
{
    let left = left.to_owned();
    let right = right.to_owned();
    left == right
}

/// The ten decimal digits, in order.
pub const DIGITS: &'static str = "0123456789";

/// The one-character text of a single decimal digit.
pub open spec fn digit_text(digit: int) -> Seq<char>
    recommends
        0 <= digit < 10,
{
    DIGITS@.subrange(digit, digit + 1)
}

/// Decimal text of a natural number: most significant digit first, no
/// leading zeros, `0` for zero.
pub open spec fn natural_text(value: nat) -> Seq<char>
    decreases value,
{
    if value < 10 {
        digit_text(value as int)
    } else {
        natural_text(value / 10) + digit_text((value % 10) as int)
    }
}

/// Decimal text of an integer: a minus sign before the text of the
/// magnitude when the value is negative.
pub open spec fn integer_text(value: int) -> Seq<char> {
    if value < 0 {
        "-"@ + natural_text((-value) as nat)
    } else {
        natural_text(value as nat)
    }
}

fn digit_to_str(digit: u32) -> (text: &'static str)
    requires
        digit < 10,
    ensures
        text@ == digit_text(digit as int),
{
    proof {
        reveal_strlit("0123456789");
    }
    let at: usize = digit as usize;
    DIGITS.substring_char(at, at + 1)
}

/// Writes a natural number in decimal.
pub fn natural_to_string(value: u32) -> (text: String)
    ensures
        text@ == natural_text(value as nat),
    decreases value,
{
    if value < 10 {
        String::from_str(digit_to_str(value))
    } else {
        let head = natural_to_string(value / 10);
        head.concat(digit_to_str(value % 10))
    }
}

/// Writes an integer in decimal.
pub fn integer_to_string(value: i32) -> (text: String)
    ensures
        text@ == integer_text(value as int),
{
    if value < 0 {
        let wide: i64 = value as i64;
        let magnitude: u32 = (-wide) as u32;
        let digits = natural_to_string(magnitude);
        String::from_str("-").concat(digits.as_str())
    } else {
        natural_to_string(value as u32)
    }
}

} // verus!
