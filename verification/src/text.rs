//! Text helpers shared by the other modules.
//!
//! The functions of `str` and of the integers that vstd does not specify are
//! reached through the wrappers below. Trimming and the change of case are
//! only named, by spec functions without a body, so that contracts elsewhere
//! can be exact without restating Unicode's tables; the decimal text of a
//! number is stated in full.

use vstd::prelude::*;

verus! {

/// What `str::trim` returns for a text.
pub uninterp spec fn trimmed(s: Seq<char>) -> Seq<char>;

/// What `str::to_lowercase` returns for a text.
pub uninterp spec fn lowercased(s: Seq<char>) -> Seq<char>;

/// What `str::to_uppercase` returns for a text.
pub uninterp spec fn uppercased(s: Seq<char>) -> Seq<char>;

/// The character that stands for a digit.
pub open spec fn digit_char(d: int) -> char {
    if d == 0 {
        '0'
    } else if d == 1 {
        '1'
    } else if d == 2 {
        '2'
    } else if d == 3 {
        '3'
    } else if d == 4 {
        '4'
    } else if d == 5 {
        '5'
    } else if d == 6 {
        '6'
    } else if d == 7 {
        '7'
    } else if d == 8 {
        '8'
    } else {
        '9'
    }
}

/// The decimal text of a number: its digits, the most significant first,
/// without leading zeros.
pub open spec fn decimal_digits(n: u64) -> Seq<char>
    decreases n,
{
    if n < 10 {
        seq![digit_char(n as int)]
    } else {
        decimal_digits(n / 10).push(digit_char((n % 10) as int))
    }
}

/// The decimal text of a signed number: a minus sign before the digits of a
/// negative one.
pub open spec fn signed_decimal_digits(n: i64) -> Seq<char> {
    if n < 0 {
        seq!['-'] + decimal_digits((-(n as int)) as u64)
    } else {
        decimal_digits(n as u64)
    }
}

/// Calls `i64::to_string`. Not proved: that the text is the decimal text of
/// the number.
#[verifier::external_body]
pub(crate) fn signed_decimal(n: i64) -> (t: String)
    ensures
        t@ == signed_decimal_digits(n),
{
    n.to_string()
}

/// Calls `str::trim`. Not proved: the result is only given its name.
#[verifier::external_body]
pub(crate) fn trim(s: &str) -> (t: &str)
    ensures
        t@ == trimmed(s@),
{
    s.trim()
}

/// Calls `str::to_lowercase`. Not proved: the result is only given its name.
#[verifier::external_body]
pub(crate) fn to_lowercase(s: &str) -> (t: String)
    ensures
        t@ == lowercased(s@),
{
    s.to_lowercase()
}

/// Calls `str::to_uppercase`. Not proved: the result is only given its name.
#[verifier::external_body]
pub(crate) fn to_uppercase(s: &str) -> (t: String)
    ensures
        t@ == uppercased(s@),
{
    s.to_uppercase()
}

/// Calls `u64::to_string`. Not proved: that the text is the decimal text of
/// the number.
#[verifier::external_body]
pub(crate) fn decimal(n: u64) -> (t: String)
    ensures
        t@ == decimal_digits(n),
{
    n.to_string()
}

/// A text is blank when nothing is left of it after trimming.
pub open spec fn blank(s: Seq<char>) -> bool {
    trimmed(s).len() == 0
}

pub fn is_blank(s: &str) -> (b: bool)
    ensures
        b == blank(s@),
{
    trim(s).is_empty()
}

/// Whether two texts hold the same characters.
pub fn same_text(a: &str, b: &str) -> (same: bool)
    ensures
        same == (a@ == b@),
{
    let left = a.to_owned();
    let right = b.to_owned();
    left == right
}

/// `prefix` followed by `tail`.
pub fn join2(prefix: &str, tail: &str) -> (text: String)
    ensures
        text@ == prefix@ + tail@,
{
    let mut text = prefix.to_owned();
    text.append(tail);
    text
}

} // verus!
