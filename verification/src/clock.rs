//! Timestamps in the tipp10 format: a 14-digit decimal number reading
//! `YYYYMMDDHHMMSS`, validated against the calendar.

use vstd::prelude::*;

use chrono::{Datelike, Timelike};

use crate::digits::{all_digits, digit_val, digits_val, is_digit};
use crate::strutil::str_chars;

verus! {

/// Whether `y` is a leap year (Gregorian rule).
pub open spec fn is_leap_year(y: int) -> bool {
    (y % 4 == 0 && y % 100 != 0) || y % 400 == 0
}

/// How many days month `m` of year `y` has.
pub open spec fn days_in_month(y: int, m: int) -> int {
    if m == 2 {
        if is_leap_year(y) {
            29
        } else {
            28
        }
    } else if m == 4 || m == 6 || m == 9 || m == 11 {
        30
    } else {
        31
    }
}

/// Whether the given parts form a valid calendar date and time of day.
pub open spec fn valid_datetime_parts(y: int, mo: int, d: int, h: int, mi: int, s: int) -> bool {
    &&& 0 <= y <= 9999
    &&& 1 <= mo <= 12
    &&& 1 <= d <= days_in_month(y, mo)
    &&& 0 <= h <= 23
    &&& 0 <= mi <= 59
    &&& 0 <= s <= 59
}

/// The 14-digit decimal number encoding the given parts.
pub open spec fn timestamp_of_parts(y: int, mo: int, d: int, h: int, mi: int, s: int) -> int {
    y * 10000000000 + mo * 100000000 + d * 1000000 + h * 10000 + mi * 100 + s
}

/// The year field of a 14-digit timestamp string.
pub open spec fn ts_year(t: Seq<char>) -> int {
    digit_val(t[0]) * 1000 + digit_val(t[1]) * 100 + digit_val(t[2]) * 10 + digit_val(t[3])
}

/// The month field of a 14-digit timestamp string.
pub open spec fn ts_month(t: Seq<char>) -> int {
    digit_val(t[4]) * 10 + digit_val(t[5])
}

/// The day field of a 14-digit timestamp string.
pub open spec fn ts_day(t: Seq<char>) -> int {
    digit_val(t[6]) * 10 + digit_val(t[7])
}

/// The hour field of a 14-digit timestamp string.
pub open spec fn ts_hour(t: Seq<char>) -> int {
    digit_val(t[8]) * 10 + digit_val(t[9])
}

/// The minute field of a 14-digit timestamp string.
pub open spec fn ts_minute(t: Seq<char>) -> int {
    digit_val(t[10]) * 10 + digit_val(t[11])
}

/// The second field of a 14-digit timestamp string.
pub open spec fn ts_second(t: Seq<char>) -> int {
    digit_val(t[12]) * 10 + digit_val(t[13])
}

/// Whether `t` is exactly 14 decimal digits forming a valid calendar datetime.
pub open spec fn valid_timestamp_chars(t: Seq<char>) -> bool {
    &&& t.len() == 14
    &&& all_digits(t)
    &&& valid_datetime_parts(ts_year(t), ts_month(t), ts_day(t), ts_hour(t), ts_minute(t), ts_second(t))
}

/// Validate a candidate timestamp, character by character, and return the
/// encoded number when it is a well-formed calendar datetime.
pub fn validate_timestamp_chars(v: &Vec<char>) -> (r: Option<u64>)
    ensures
        match r {
            Some(x) => valid_timestamp_chars(v@) && x == digits_val(v@),
            None => !valid_timestamp_chars(v@),
        },
{
    if v.len() != 14 {
        return None;
    }
    let mut i: usize = 0;
    while i < 14
        invariant
            i <= 14,
            v@.len() == 14,
            forall|j: int| 0 <= j < i ==> is_digit(#[trigger] v@[j]),
        decreases 14 - i,
    {
        let u = v[i] as u32;
        if u < 48 || u > 57 {
            assert(!is_digit(v@[i as int]));
            return None;
        }
        i = i + 1;
    }
    assert(all_digits(v@));
    let d0 = v[0] as u32 - 48;
    let d1 = v[1] as u32 - 48;
    let d2 = v[2] as u32 - 48;
    let d3 = v[3] as u32 - 48;
    let d4 = v[4] as u32 - 48;
    let d5 = v[5] as u32 - 48;
    let d6 = v[6] as u32 - 48;
    let d7 = v[7] as u32 - 48;
    let d8 = v[8] as u32 - 48;
    let d9 = v[9] as u32 - 48;
    let d10 = v[10] as u32 - 48;
    let d11 = v[11] as u32 - 48;
    let d12 = v[12] as u32 - 48;
    let d13 = v[13] as u32 - 48;
    let y = d0 * 1000 + d1 * 100 + d2 * 10 + d3;
    let mo = d4 * 10 + d5;
    let da = d6 * 10 + d7;
    let h = d8 * 10 + d9;
    let mi = d10 * 10 + d11;
    let se = d12 * 10 + d13;
    if mo < 1 || mo > 12 {
        return None;
    }
    let dim: u32 = if mo == 2 {
        if (y % 4 == 0 && y % 100 != 0) || y % 400 == 0 {
            29
        } else {
            28
        }
    } else if mo == 4 || mo == 6 || mo == 9 || mo == 11 {
        30
    } else {
        31
    };
    assert(dim == days_in_month(y as int, mo as int));
    if da < 1 || da > dim {
        return None;
    }
    if h > 23 || mi > 59 || se > 59 {
        return None;
    }
    let x: u64 = y as u64 * 10000000000 + mo as u64 * 100000000 + da as u64 * 1000000
        + h as u64 * 10000 + mi as u64 * 100 + se as u64;
    proof {
        lemma_digits_val_14(v@);
    }
    Some(x)
}

/// The value of a 14-digit string is the usual base-10 reading of its digits.
proof fn lemma_digits_val_14(t: Seq<char>)
    requires
        t.len() == 14,
    ensures
        digits_val(t) == digit_val(t[0]) * 10000000000000 + digit_val(t[1]) * 1000000000000
            + digit_val(t[2]) * 100000000000 + digit_val(t[3]) * 10000000000
            + digit_val(t[4]) * 1000000000 + digit_val(t[5]) * 100000000
            + digit_val(t[6]) * 10000000 + digit_val(t[7]) * 1000000 + digit_val(t[8]) * 100000
            + digit_val(t[9]) * 10000 + digit_val(t[10]) * 1000 + digit_val(t[11]) * 100
            + digit_val(t[12]) * 10 + digit_val(t[13]),
{
    assert forall|k: int| 1 <= k <= 14 implies #[trigger] digits_val(t.subrange(0, k))
        == digits_val(t.subrange(0, k - 1)) * 10 + digit_val(t[k - 1]) by {
        assert(t.subrange(0, k).drop_last() =~= t.subrange(0, k - 1));
        assert(t.subrange(0, k).last() == t[k - 1]);
    }
    assert(digits_val(t.subrange(0, 0)) == 0);
    assert(t.subrange(0, 14) =~= t);
}

/// A local wall-clock date and time, as plain values.
#[derive(Debug, Clone, Copy)]
pub struct LocalTime {
    pub year: u32,
    pub month: u32,
    pub day: u32,
    pub hour: u32,
    pub minute: u32,
    pub second: u32,
}

impl LocalTime {
    /// The field ranges that the timestamp encoding needs.
    pub open spec fn wf(&self) -> bool {
        &&& self.year <= 9999
        &&& 1 <= self.month <= 12
        &&& 1 <= self.day <= 31
        &&& self.hour <= 23
        &&& self.minute <= 59
        &&& self.second <= 59
    }
}

/// Relies on chrono's `Local::now` and its `Datelike`/`Timelike` accessors,
/// whose documentation fixes the ranges: month 1 to 12, day 1 to 31,
/// hour 0 to 23, minute and second 0 to 59.  Nothing is assumed of the year.
#[verifier::external_body]
fn now_parts() -> (r: (i64, u32, u32, u32, u32, u32))
    ensures
        1 <= r.1 <= 12,
        1 <= r.2 <= 31,
        r.3 <= 23,
        r.4 <= 59,
        r.5 <= 59,
{
    let now = chrono::Local::now();
    (now.year() as i64, now.month(), now.day(), now.hour(), now.minute(), now.second())
}

/// Get tipp10 timestamp from a wall-clock date and time.
pub fn get_timestamp_from_now(datetime: &LocalTime) -> (r: u64)
    requires
        datetime.wf(),
    ensures
        r == timestamp_of_parts(
            datetime.year as int,
            datetime.month as int,
            datetime.day as int,
            datetime.hour as int,
            datetime.minute as int,
            datetime.second as int,
        ),
{
    datetime.year as u64 * 10000000000 + datetime.month as u64 * 100000000
        + datetime.day as u64 * 1000000 + datetime.hour as u64 * 10000
        + datetime.minute as u64 * 100 + datetime.second as u64
}

/// Get the tipp10 timestamp for the current local time.  Years outside
/// 0 to 9999 are clamped so that the encoding stays 14 digits.
pub fn get_timestamp() -> (r: u64)
    ensures
        0 < r < 100000000000000,
{
    let (y, mo, d, h, mi, s) = now_parts();
    let year: u32 = if y < 0 {
        0
    } else if y > 9999 {
        9999
    } else {
        y as u32
    };
    let t = LocalTime { year, month: mo, day: d, hour: h, minute: mi, second: s };
    get_timestamp_from_now(&t)
}

/// Get tipp10 timestamp from string.
pub fn get_datetime_tipp10_format_from_str(datetime_string: &str) -> (r: Result<u64, ()>)
    ensures
        match r {
            Ok(v) => valid_timestamp_chars(datetime_string@) && v == digits_val(
                datetime_string@,
            ),
            Err(()) => !valid_timestamp_chars(datetime_string@),
        },
{
    let chars = str_chars(datetime_string);
    match validate_timestamp_chars(&chars) {
        Some(v) => Ok(v),
        None => Err(()),
    }
}

} // verus!
