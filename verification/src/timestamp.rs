use crate::listing::{as_unsigned, to_unsigned};
use vstd::prelude::*;

verus! {

/// The Unix seconds that `chrono` reads out of `input` under the format
/// `format`, taken as a date and time in UTC; nothing where `input` does
/// not match the format.
pub uninterp spec fn naive_seconds(input: Seq<char>, format: Seq<char>) -> Option<i64>;

/// Calls `chrono::NaiveDateTime::parse_from_str` and, on success, reads the
/// date and time as UTC with `and_utc` and as Unix seconds with
/// `timestamp`. Nothing is claimed of the parser but that its answer
/// depends on the two strings alone.
#[verifier::external_body]
fn parse_seconds(input: &str, format: &str) -> (r: Option<i64>)
    ensures
        r == naive_seconds(input@, format@),
{
    match chrono::NaiveDateTime::parse_from_str(input, format) {
        Ok(moment) => Some(moment.and_utc().timestamp()),
        Err(_) => None,
    }
}

/// The Unix seconds that `chrono` reads out of `input` under the format
/// `format`, the offset that the text names taken into account; nothing
/// where `input` does not match the format or names no offset.
pub uninterp spec fn offset_seconds(input: Seq<char>, format: Seq<char>) -> Option<i64>;

/// Calls `chrono::DateTime::parse_from_str` and, on success, reads the
/// moment as Unix seconds with `timestamp`. Nothing is claimed of the parser
/// but that its answer depends on the two strings alone.
#[verifier::external_body]
fn parse_offset_seconds(input: &str, format: &str) -> (r: Option<i64>)
    ensures
        r == offset_seconds(input@, format@),
{
    match chrono::DateTime::parse_from_str(input, format) {
        Ok(moment) => Some(moment.timestamp()),
        Err(_) => None,
    }
}

/// Calls `chrono::Utc::now` and reads it as Unix seconds. The clock decides
/// the answer, so nothing is claimed of it. `chrono` stops the program
/// where the clock stands before 1970.
#[verifier::external_body]
fn unix_now() -> i64 {
    chrono::Utc::now().timestamp()
}

/// The format with an offset, which is tried first; the moment that it
/// reads is converted to UTC.
pub open spec fn offset_format() -> Seq<char> {
    "%Y-%m-%d %H:%M:%S %z"@
}

/// The formats without an offset, in the order in which they are tried;
/// what they read is taken as UTC.
pub open spec fn naive_formats() -> Seq<Seq<char>> {
    seq!["%Y-%m-%d %H:%M:%S"@, "%a %b %d %H:%M:%S %Y"@, "%Y-%m-%dT%H:%M:%S"@]
}

/// The seconds that the first matching format of `formats` gives for
/// `input`, read without an offset; nothing where none matches.
pub open spec fn first_naive(input: Seq<char>, formats: Seq<Seq<char>>) -> Option<i64>
    decreases formats.len(),
{
    if formats.len() == 0 {
        None
    } else {
        match naive_seconds(input, formats[0]) {
            Some(seconds) => Some(seconds),
            None => first_naive(input, formats.skip(1)),
        }
    }
}

/// The Unix seconds that `input` stands for: what the format with an offset
/// reads, or else what the first matching format without one reads; nothing
/// where no format matches.
pub open spec fn first_match(input: Seq<char>) -> Option<i64> {
    match offset_seconds(input, offset_format()) {
        Some(seconds) => Some(seconds),
        None => first_naive(input, naive_formats()),
    }
}

/// The timestamp that a parse result and the current time give: the parsed
/// seconds where there are any, the current time otherwise, read as
/// unsigned.
pub open spec fn timestamp_or_now(parsed: Option<i64>, now: i64) -> int {
    match parsed {
        Some(seconds) => as_unsigned(seconds as int),
        None => as_unsigned(now as int),
    }
}

/// Chooses between a parsed timestamp and the current time.
pub fn resolve_timestamp(parsed: Option<i64>, now: i64) -> (r: u64)
    ensures
        r == timestamp_or_now(parsed, now),
{
    match parsed {
        Some(seconds) => to_unsigned(seconds),
        None => to_unsigned(now),
    }
}

/// Tries the known formats in order and returns the seconds of the first
/// that matches.
pub fn match_timestamp(timestamp_str: &str) -> (r: Option<i64>)
    ensures
        r == first_match(timestamp_str@),
{
    if let Some(seconds) = parse_offset_seconds(timestamp_str, "%Y-%m-%d %H:%M:%S %z") {
        return Some(seconds);
    }
    let formats: [&str; 3] = ["%Y-%m-%d %H:%M:%S", "%a %b %d %H:%M:%S %Y", "%Y-%m-%dT%H:%M:%S"];
    let ghost all = naive_formats();
    let mut i: usize = 0;
    assert(all.skip(0) =~= all);
    while i < 3
        invariant
            i <= 3,
            all == naive_formats(),
            offset_seconds(timestamp_str@, offset_format()) is None,
            forall|j: int| 0 <= j < 3 ==> (#[trigger] formats@[j])@ == all[j],
            first_naive(timestamp_str@, all) == first_naive(timestamp_str@, all.skip(i as int)),
        decreases 3 - i,
    {
        assert(all.skip(i as int)[0] == all[i as int]);
        assert(all.skip(i as int).skip(1) =~= all.skip(i + 1));
        if let Some(seconds) = parse_seconds(timestamp_str, formats[i]) {
            return Some(seconds);
        }
        i = i + 1;
    }
    None
}

/// Parses a timestamp into Unix seconds UTC. The first format that matches
/// decides; where none does, the result is the current time.
pub fn parse_timestamp(timestamp_str: &str) -> (r: u64)
    ensures
        exists|now: i64| r == #[trigger] timestamp_or_now(first_match(timestamp_str@), now),
        first_match(timestamp_str@) matches Some(seconds) ==> r == as_unsigned(seconds as int),
{
    let parsed = match_timestamp(timestamp_str);
    let now: i64 = match parsed {
        Some(_) => 0,
        None => unix_now(),
    };
    let r = resolve_timestamp(parsed, now);
    assert(r == timestamp_or_now(first_match(timestamp_str@), now));
    r
}

} // verus!
