//! The wall clock, read through `chrono`.

use crate::ascii::{is_digit, is_lower, is_upper};
use vstd::prelude::*;

verus! {

/// The pattern in which a time of receipt is written, as in
/// `Oct 28, 2026 22:05:01`.
pub const TIMESTAMP_FORMAT: &'static str = "%b %d, %Y %H:%M:%S";

/// Whether `text` has the shape of a time written in [`TIMESTAMP_FORMAT`]:
/// a month of one capital and two small letters, a day of two digits, a
/// comma, a year of four digits or of a sign and four digits or more, and
/// hour, minute and second of two digits each.
pub open spec fn is_timestamp(text: Seq<char>) -> bool {
    let n = text.len() as int;
    &&& n >= 21
    &&& is_upper(text[0]) && is_lower(text[1]) && is_lower(text[2])
    &&& text[3] == ' '
    &&& is_digit(text[4]) && is_digit(text[5])
    &&& text[6] == ',' && text[7] == ' '
    &&& is_digit(text[8]) || ((text[8] == '+' || text[8] == '-') && n >= 22)
    &&& forall|i: int| 8 < i < n - 9 ==> is_digit(#[trigger] text[i])
    &&& text[n - 9] == ' '
    &&& is_digit(text[n - 8]) && is_digit(text[n - 7])
    &&& text[n - 6] == ':'
    &&& is_digit(text[n - 5]) && is_digit(text[n - 4])
    &&& text[n - 3] == ':'
    &&& is_digit(text[n - 2]) && is_digit(text[n - 1])
}

/// `chrono::Local::now` and `DateTime::format`, written out as a string.
///
/// Trusted: which time is written depends on the moment of the call and on
/// the machine's time zone, so only its shape is claimed, as `chrono`
/// documents the items of the pattern. The pattern is fixed because writing
/// out a pattern that `chrono` cannot parse panics.
#[verifier::external_body]
fn local_time(pattern: &str) -> (text: String)
    requires
        pattern@ == TIMESTAMP_FORMAT@,
    ensures
        is_timestamp(text@),
{
    chrono::Local::now().format(pattern).to_string()
}

/// The current local time, written in [`TIMESTAMP_FORMAT`].
pub fn current_timestamp() -> (text: String)
    ensures
        is_timestamp(text@),
{
    local_time(TIMESTAMP_FORMAT)
}

} // verus!
