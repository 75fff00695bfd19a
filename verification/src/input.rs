//! Numbers as a player types them.
//!
//! A line of input is stripped of the white space around it and then read
//! as a number. Both steps are done by the standard library; this module
//! gives their results a name, so that the functions built on them can say
//! exactly what they return. The number is read as a `u64`, so that what a
//! line means does not go with the width of `usize`.

use core::num::ParseIntError;
use vstd::prelude::*;

verus! {

/// The error of `str::parse` for an integer. Nothing is read from it: text
/// that gives it is text that holds no number.
#[verifier::external_type_specification]
#[verifier::external_body]
pub struct ExParseIntError(core::num::ParseIntError);

/// What `str::trim` returns for `text`: the text without the white space
/// at its start and at its end.
pub uninterp spec fn trimmed(text: Seq<char>) -> Seq<char>;

/// What `str::parse::<u64>` returns for `text`: the number that the text
/// spells in decimal digits, or `None` where it spells none that a `u64`
/// holds.
pub uninterp spec fn parsed_number(text: Seq<char>) -> Option<u64>;

/// Strips the white space around `text` with `str::trim`.
///
/// Trusted, not proved: that the slice that comes back depends on the
/// characters of `text` alone, which gives it the name `trimmed`.
#[verifier::external_body]
fn trim(text: &str) -> (inner: &str)
    ensures
        inner@ == trimmed(text@),
{
    text.trim()
}

/// Reads `text` as a number with `str::parse::<u64>`.
///
/// Trusted, not proved: that whether a number comes back, and which,
/// depends on the characters of `text` alone, which gives the outcome the
/// name `parsed_number`.
#[verifier::external_body]
fn parse_number(text: &str) -> (parsed: Result<u64, ParseIntError>)
    ensures
        parsed_number(text@) == match parsed {
            Ok(number) => Some(number),
            Err(_) => None,
        },
{
    text.parse::<u64>()
}

/// The number that a line of input holds once the white space around it
/// is gone, if it holds one.
pub fn read_number(input: &str) -> (number: Option<u64>)
    ensures
        number == parsed_number(trimmed(input@)),
{
    match parse_number(trim(input)) {
        Ok(number) => Some(number),
        Err(_) => None,
    }
}

} // verus!
