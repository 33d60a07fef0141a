//! The wall-clock timestamp that prefixes every line.

use vstd::prelude::*;

verus! {

/// Whether `c` is one of the decimal digits `0` to `9`.
pub open spec fn is_digit(c: char) -> bool {
    '0' <= c && c <= '9'
}

/// The number that the two digits at `at` and `at + 1` of `text` spell.
pub open spec fn two_digits(text: Seq<char>, at: int) -> int {
    (text[at] as int - '0' as int) * 10 + (text[at + 1] as int - '0' as int)
}

/// Whether `text` is a 24-hour time of day written as `HH:MM:SS`: eight
/// characters, three zero-padded two-digit fields separated by colons, the
/// hour at most 23, the minute at most 59 and the second at most 60 (a leap
/// second shows as 60).
pub open spec fn is_clock_text(text: Seq<char>) -> bool {
    &&& text.len() == 8
    &&& is_digit(text[0]) && is_digit(text[1])
    &&& text[2] == ':'
    &&& is_digit(text[3]) && is_digit(text[4])
    &&& text[5] == ':'
    &&& is_digit(text[6]) && is_digit(text[7])
    &&& two_digits(text, 0) <= 23
    &&& two_digits(text, 3) <= 59
    &&& two_digits(text, 6) <= 60
}

/// The current local time of day as text.
///
/// Calls chrono's `Local::now` and renders the result with
/// `DateTime::format("%H:%M:%S")`. What comes back depends on the clock and
/// the time zone of the machine, so the contract states only what holds of
/// every reading: chrono writes each of the three fields as exactly two
/// digits, hours from 00 to 23, minutes from 00 to 59, seconds from 00 to 60,
/// with a colon between them. Nothing is claimed about which time it is.
///
/// `Local::now` itself panics if the system clock reads a moment that chrono
/// cannot represent, such as one before 1970; no argument can rule that out.
#[verifier::external_body]
pub(crate) fn local_clock_text() -> (text: String)
    ensures
        is_clock_text(text@),
{
    chrono::Local::now().format("%H:%M:%S").to_string()
}

} // verus!
