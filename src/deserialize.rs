use vstd::prelude::*;

use chrono::{Datelike, Timelike};

use crate::errors::{DecodeError, Expected};
pub use crate::fields::deserialize_option_csv_encoded_string;
pub use crate::responses::deserialize_api_error;
use crate::text::{ci_eq, i32_value, parse_i32, eq_ignore_ascii_case};

verus! {

/// A time of day, as chrono's `NaiveTime` reports it.
#[derive(Clone, Copy, Debug, PartialEq, Eq, Structural)]
pub struct TimeOfDay {
    pub hour: u32,
    pub minute: u32,
    pub second: u32,
    /// Nanoseconds past the second; a leap second counts from 1_000_000_000.
    pub nanosecond: u32,
}

impl TimeOfDay {
    pub open spec fn is_valid(self) -> bool {
        self.hour < 24 && self.minute < 60 && self.second < 60 && self.nanosecond < 2_000_000_000
    }
}

/// A calendar date with a time of day, as chrono's `NaiveDateTime` reports it.
#[derive(Clone, Copy, Debug, PartialEq, Eq, Structural)]
pub struct DateTime {
    pub year: i32,
    pub month: u32,
    pub day: u32,
    pub time: TimeOfDay,
}

impl DateTime {
    pub open spec fn is_valid(self) -> bool {
        1 <= self.month <= 12 && 1 <= self.day <= 31 && self.time.is_valid()
    }
}

/// Hours on a 12-hour clock, minutes, then AM or PM: `9:08pm`.
pub const TIME_FORMAT: &'static str = "%I:%M%p";

/// Hours on a 12-hour clock, minutes, a space, then AM or PM: `9:08 pm`.
pub const TIME_FORMAT_WITH_SPACE: &'static str = "%I:%M %p";

/// A date, a time and optional fractional seconds: `2023-04-11 18:30:00.000`.
pub const DATE_TIME_FORMAT: &'static str = "%Y-%m-%d %H:%M:%S%.f";

/// What chrono's `NaiveTime::parse_from_str` reads from `text` under `format`, if anything.
pub uninterp spec fn naive_time_parsed(text: Seq<char>, format: Seq<char>) -> Option<TimeOfDay>;

/// What chrono's `NaiveDateTime::parse_from_str` reads from `text` under `format`, if anything.
pub uninterp spec fn naive_date_time_parsed(text: Seq<char>, format: Seq<char>) -> Option<DateTime>;

/// Relies on chrono's `NaiveTime::parse_from_str`: the outcome depends on the text and the
/// format alone, and a time reports an hour of 0-23, a minute and a second of 0-59 and a
/// nanosecond below 2_000_000_000 (`Timelike`).
#[verifier::external_body]
fn parse_naive_time(text: &str, format: &str) -> (r: Option<TimeOfDay>)
    ensures
        r == naive_time_parsed(text@, format@),
        r matches Some(t) ==> t.is_valid(),
{
    match chrono::NaiveTime::parse_from_str(text, format) {
        Ok(t) => Some(
            TimeOfDay { hour: t.hour(), minute: t.minute(), second: t.second(), nanosecond: t.nanosecond() },
        ),
        Err(_) => None,
    }
}

/// Relies on chrono's `NaiveDateTime::parse_from_str`: the outcome depends on the text and the
/// format alone, and a date reports a month of 1-12 and a day of 1-31 (`Datelike`), its time
/// as `Timelike` does.
#[verifier::external_body]
fn parse_naive_date_time(text: &str, format: &str) -> (r: Option<DateTime>)
    ensures
        r == naive_date_time_parsed(text@, format@),
        r matches Some(d) ==> d.is_valid(),
{
    match chrono::NaiveDateTime::parse_from_str(text, format) {
        Ok(d) => {
            let time = TimeOfDay { hour: d.hour(), minute: d.minute(), second: d.second(), nanosecond: d.nanosecond() };
            Some(DateTime { year: d.year(), month: d.month(), day: d.day(), time })
        },
        Err(_) => None,
    }
}

/// `e` reports that the text `value` is not of the shape `expected`.
pub open spec fn is_invalid_value(e: DecodeError, value: Seq<char>, expected: Expected) -> bool {
    e matches DecodeError::InvalidValue { value: v, expected: x } && v@ == value && x == expected
}

/// The outcome of reading `text`: the value read, or an error naming the text and its shape.
pub fn require_parsed<T>(parsed: Option<T>, text: &str, expected: Expected) -> (r: Result<
    T,
    DecodeError,
>)
    ensures
        match parsed {
            Some(v) => r == Ok::<T, DecodeError>(v),
            None => r matches Err(e) && is_invalid_value(e, text@, expected),
        },
{
    match parsed {
        Some(v) => Ok(v),
        None => Err(DecodeError::InvalidValue { value: String::from_str(text), expected }),
    }
}

/// Reads a time of day written as `9:08pm`.
pub fn deserialize_naive_time(text: &str) -> (r: Result<TimeOfDay, DecodeError>)
    ensures
        match naive_time_parsed(text@, TIME_FORMAT@) {
            Some(t) => r == Ok::<TimeOfDay, DecodeError>(t),
            None => r matches Err(e) && is_invalid_value(e, text@, Expected::TimeOfDay),
        },
        r matches Ok(t) ==> t.is_valid(),
{
    require_parsed(parse_naive_time(text, TIME_FORMAT), text, Expected::TimeOfDay)
}

/// Reads a time of day written as `9:08 pm`.
pub fn deserialize_naive_time_with_space(text: &str) -> (r: Result<TimeOfDay, DecodeError>)
    ensures
        match naive_time_parsed(text@, TIME_FORMAT_WITH_SPACE@) {
            Some(t) => r == Ok::<TimeOfDay, DecodeError>(t),
            None => r matches Err(e) && is_invalid_value(e, text@, Expected::TimeOfDayWithSpace),
        },
        r matches Ok(t) ==> t.is_valid(),
{
    require_parsed(
        parse_naive_time(text, TIME_FORMAT_WITH_SPACE),
        text,
        Expected::TimeOfDayWithSpace,
    )
}

/// The marker of a time that is not known yet.
pub const NOT_AVAILABLE: &'static str = "na";

/// Reads a time of day written as `9:08 pm`, or `na` for a time not known yet.
pub fn deserialize_option_naive_time_with_space(text: &str) -> (r: Result<Option<TimeOfDay>, DecodeError>)
    ensures
        text@ == NOT_AVAILABLE@ ==> r == Ok::<Option<TimeOfDay>, DecodeError>(None),
        text@ != NOT_AVAILABLE@ ==> match naive_time_parsed(text@, TIME_FORMAT_WITH_SPACE@) {
            Some(t) => r == Ok::<Option<TimeOfDay>, DecodeError>(Some(t)),
            None => r matches Err(e) && is_invalid_value(e, text@, Expected::TimeOfDayWithSpace),
        },
{
    let a = String::from_str(text);
    let b = String::from_str(NOT_AVAILABLE);
    if a == b {
        Ok(None)
    } else {
        match deserialize_naive_time_with_space(text) {
            Ok(t) => Ok(Some(t)),
            Err(e) => Err(e),
        }
    }
}

/// Reads a date and time written as `2023-04-11 18:30:00.000`.
pub fn deserialize_naive_date_time(text: &str) -> (r: Result<DateTime, DecodeError>)
    ensures
        match naive_date_time_parsed(text@, DATE_TIME_FORMAT@) {
            Some(d) => r == Ok::<DateTime, DecodeError>(d),
            None => r matches Err(e) && is_invalid_value(e, text@, Expected::DateTime),
        },
        r matches Ok(d) ==> d.is_valid(),
{
    require_parsed(parse_naive_date_time(text, DATE_TIME_FORMAT), text, Expected::DateTime)
}

/// The boolean that `text` spells: `true` or `false`, in any ASCII case.
pub open spec fn bool_value(text: Seq<char>) -> Option<bool> {
    if ci_eq(text, "true"@) {
        Some(true)
    } else if ci_eq(text, "false"@) {
        Some(false)
    } else {
        None
    }
}

/// Reads `true` or `false`, in any ASCII case.
pub fn deserialize_bool(text: &str) -> (r: Result<bool, DecodeError>)
    ensures
        match bool_value(text@) {
            Some(b) => r == Ok::<bool, DecodeError>(b),
            None => r matches Err(e) && is_invalid_value(e, text@, Expected::Bool),
        },
{
    if eq_ignore_ascii_case(text, "true") {
        Ok(true)
    } else if eq_ignore_ascii_case(text, "false") {
        Ok(false)
    } else {
        Err(DecodeError::InvalidValue { value: String::from_str(text), expected: Expected::Bool })
    }
}

/// The pieces of `s` between commas, as `str::split(',')` gives them.
pub open spec fn comma_segments(s: Seq<char>) -> Seq<Seq<char>>
    decreases s.len(),
{
    if s.len() == 0 {
        seq![Seq::empty()]
    } else {
        let prev = comma_segments(s.drop_last());
        if s.last() == ',' {
            prev.push(Seq::empty())
        } else {
            prev.update(prev.len() - 1, prev.last().push(s.last()))
        }
    }
}

proof fn lemma_comma_segments_nonempty(s: Seq<char>)
    ensures
        comma_segments(s).len() > 0,
    decreases s.len(),
{
    if s.len() > 0 {
        lemma_comma_segments_nonempty(s.drop_last());
    }
}

/// Folds one more segment into the integers read so far: an empty segment is skipped, any
/// other must be an `i32`, or it is the offending segment.
pub open spec fn add_segment(acc: Result<Seq<i32>, Seq<char>>, seg: Seq<char>) -> Result<
    Seq<i32>,
    Seq<char>,
> {
    match acc {
        Err(bad) => Err(bad),
        Ok(vals) => if seg.len() == 0 {
            Ok(vals)
        } else {
            match i32_value(seg) {
                Some(v) => Ok(vals.push(v)),
                None => Err(seg),
            }
        },
    }
}

/// The integers of the segments, or the first segment that is neither empty nor an `i32`.
pub open spec fn segments_integers(segs: Seq<Seq<char>>) -> Result<Seq<i32>, Seq<char>>
    decreases segs.len(),
{
    if segs.len() == 0 {
        Ok(Seq::empty())
    } else {
        add_segment(segments_integers(segs.drop_last()), segs.last())
    }
}

/// The integers of a comma-separated list, skipping empty segments; or the first segment
/// that is not an integer.
pub open spec fn csv_integers(s: Seq<char>) -> Result<Seq<i32>, Seq<char>> {
    segments_integers(comma_segments(s))
}

/// The fold so far: the integers read, or the offending segment.
spec fn fold_state(out: Seq<i32>, bad: Option<String>) -> Result<Seq<i32>, Seq<char>> {
    match bad {
        Some(b) => Err(b@),
        None => Ok(out),
    }
}

fn take_segment(seg: &str, out: &mut Vec<i32>, bad: &mut Option<String>)
    ensures
        fold_state(final(out)@, *final(bad)) == add_segment(fold_state(old(out)@, *old(bad)), seg@),
{
    if bad.is_none() && seg.unicode_len() > 0 {
        match parse_i32(seg) {
            Some(v) => {
                out.push(v);
            },
            None => {
                *bad = Some(String::from_str(seg));
            },
        }
    }
}

/// Reads comma-separated integers, skipping empty segments.
pub fn decode_csv_integers(text: &str) -> (r: Result<Vec<i32>, DecodeError>)
    ensures
        match csv_integers(text@) {
            Ok(vals) => r matches Ok(v) && v@ == vals,
            Err(bad) => r matches Err(e) && is_invalid_value(e, bad, Expected::IntegerList),
        },
{
    let n = text.unicode_len();
    let mut out: Vec<i32> = Vec::new();
    let mut bad: Option<String> = None;
    let mut start: usize = 0;
    let mut i: usize = 0;
    proof {
        assert(text@.subrange(0, 0) =~= Seq::<char>::empty());
    }
    while i < n
        invariant
            n == text@.len(),
            start <= i <= n,
            comma_segments(text@.subrange(0, i as int)).len() > 0,
            comma_segments(text@.subrange(0, i as int)).last() == text@.subrange(
                start as int,
                i as int,
            ),
            segments_integers(comma_segments(text@.subrange(0, i as int)).drop_last())
                == fold_state(out@, bad),
        decreases n - i,
    {
        let c = text.get_char(i);
        let ghost prefix = text@.subrange(0, i as int);
        let ghost segs = comma_segments(prefix);
        let ghost next = text@.subrange(0, i + 1);
        proof {
            assert(next.drop_last() =~= prefix);
        }
        if c == ',' {
            let seg = text.substring_char(start, i);
            take_segment(seg, &mut out, &mut bad);
            proof {
                assert(segs =~= segs.drop_last().push(segs.last()));
                assert(comma_segments(next).drop_last() =~= segs);
                assert(text@.subrange(i + 1, i + 1) =~= Seq::<char>::empty());
            }
            start = i + 1;
        } else {
            proof {
                assert(text@.subrange(start as int, i + 1) =~= text@.subrange(
                    start as int,
                    i as int,
                ).push(c));
                assert(comma_segments(next).drop_last() =~= segs.drop_last());
            }
        }
        i += 1;
    }
    let seg = text.substring_char(start, n);
    take_segment(seg, &mut out, &mut bad);
    proof {
        let segs = comma_segments(text@.subrange(0, n as int));
        assert(text@.subrange(0, n as int) =~= text@);
        assert(segs =~= segs.drop_last().push(segs.last()));
    }
    match bad {
        Some(b) => Err(DecodeError::InvalidValue { value: b, expected: Expected::IntegerList }),
        None => Ok(out),
    }
}

} // verus!
