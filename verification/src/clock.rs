//! The time of day for the log lines, read with the `chrono` crate.

use vstd::prelude::*;
use crate::number::{digit_value, is_digit};

verus! {

/// Whether the two characters of `s` from `at` on are decimal digits that write
/// a number of at most `max`.
pub open spec fn two_digits(s: Seq<char>, at: int, max: nat) -> bool {
    &&& is_digit(s[at])
    &&& is_digit(s[at + 1])
    &&& digit_value(s[at]) * 10 + digit_value(s[at + 1]) <= max
}

/// The shape of a time stamp, `HH:MM:SS.mmm (+HH:MM)`: the hour, the minute and
/// the second of the day in two digits each, the milliseconds in three, and in
/// brackets the offset of the time zone with its sign, in hours and minutes, and
/// in seconds too where it has any. The second is 60 within a leap second.
pub open spec fn is_time_stamp(s: Seq<char>) -> bool {
    &&& s.len() == 21 || s.len() == 24
    &&& two_digits(s, 0, 23)
    &&& s[2] == ':'
    &&& two_digits(s, 3, 59)
    &&& s[5] == ':'
    &&& two_digits(s, 6, 60)
    &&& s[8] == '.'
    &&& is_digit(s[9]) && is_digit(s[10]) && is_digit(s[11])
    &&& s[12] == ' '
    &&& s[13] == '('
    &&& (s[14] == '+' || s[14] == '-')
    &&& two_digits(s, 15, 23)
    &&& s[17] == ':'
    &&& two_digits(s, 18, 59)
    &&& s.len() == 24 ==> s[20] == ':' && two_digits(s, 21, 59)
    &&& s.last() == ')'
}

/// `chrono::Local::now`, written out by `DateTime::format`: the local time of the
/// call under the given pattern. Which time and which offset the text shows
/// depends on the clock and on the time zone of the machine; its shape is the
/// one that the pattern asks for, item by item. Any pattern but the one that
/// `timestamp` uses is kept out, because writing out a pattern that `chrono`
/// cannot read panics. So does reading a system clock that is set before 1970.
#[verifier::external_body]
fn local_time_text(pattern: &str) -> (stamp: String)
    requires
        pattern@ == "%H:%M:%S%.3f (%Z)"@,
    ensures
        is_time_stamp(stamp@),
{
    chrono::Local::now().format(pattern).to_string()
}

/// The local time of day with milliseconds and the offset of the time zone, as
/// it heads every log line.
pub fn timestamp() -> (stamp: String)
    ensures
        is_time_stamp(stamp@),
{
    local_time_text("%H:%M:%S%.3f (%Z)")
}

} // verus!
