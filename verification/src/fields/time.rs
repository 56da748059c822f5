//! Time-of-day and calendar-date fields.
//!
//! A time field reads `hhmmss` with an optional fraction (`hhmmss.ss`); the
//! fraction is kept to millisecond precision, further digits are truncated.
//! A date field reads `ddmmyy`; the two-digit year counts from 2000, and the
//! day must exist in that month of that year.

use vstd::prelude::*;
use crate::errors::DecodeError;
use crate::errors::DecodeErrorV;
use crate::tokens::is_digit;
use crate::tokens::digit_val;
use crate::tokens::spec_scan_token;
use crate::tokens::scan_token;

verus! {

/// A time of day in hours, minutes, seconds and milliseconds.
#[derive(Debug, PartialEq, Eq, Structural, Clone, Copy)]
pub struct Time {
    pub hour: u8,
    pub minute: u8,
    pub second: u8,
    pub milli: u16,
}

/// A calendar date.
#[derive(Debug, PartialEq, Eq, Structural, Clone, Copy)]
pub struct Date {
    pub year: u16,
    pub month: u8,
    pub day: u8,
}

/// A well-formed time of day.
pub open spec fn time_wf(t: Time) -> bool {
    t.hour < 24 && t.minute < 60 && t.second < 60 && t.milli < 1000
}

pub open spec fn leap_year(y: int) -> bool {
    y % 4 == 0 && (y % 100 != 0 || y % 400 == 0)
}

pub open spec fn days_in_month(y: int, m: int) -> int {
    if m == 2 {
        if leap_year(y) {
            29
        } else {
            28
        }
    } else if m == 4 || m == 6 || m == 9 || m == 11 {
        30
    } else {
        31
    }
}

/// A well-formed calendar date.
pub open spec fn date_wf(d: Date) -> bool {
    1 <= d.month <= 12 && 1 <= d.day <= days_in_month(d.year as int, d.month as int)
}

/// The digit at index `i` of `t`, or zero past the end (a short millisecond
/// fraction is padded with zeros).
pub open spec fn frac_digit(t: Seq<u8>, i: int) -> nat {
    if i < t.len() {
        digit_val(t[i])
    } else {
        0
    }
}

/// Whether a non-empty token has the `hhmmss` or `hhmmss.f...` shape.
pub open spec fn time_shape(t: Seq<u8>) -> bool {
    t.len() >= 6 && (forall|k: int| 0 <= k < 6 ==> is_digit(t[k])) && (t.len() == 6 || (t[6] == 46
        && t.len() >= 8 && (forall|k: int| 7 <= k < t.len() ==> is_digit(t[k]))))
}

/// The time a well-shaped token denotes, when its parts are in range.
pub open spec fn spec_time_of_token(t: Seq<u8>) -> Option<Time> {
    if time_shape(t) {
        let hour = 10 * digit_val(t[0]) + digit_val(t[1]);
        let minute = 10 * digit_val(t[2]) + digit_val(t[3]);
        let second = 10 * digit_val(t[4]) + digit_val(t[5]);
        let milli = 100 * frac_digit(t, 7) + 10 * frac_digit(t, 8) + frac_digit(t, 9);
        if hour < 24 && minute < 60 && second < 60 {
            Some(
                Time {
                    hour: hour as u8,
                    minute: minute as u8,
                    second: second as u8,
                    milli: milli as u16,
                },
            )
        } else {
            None
        }
    } else {
        None
    }
}

/// Reads a non-empty token as a time of day.
fn time_of_token(t: &[u8]) -> (r: Option<Time>)
    ensures
        r == spec_time_of_token(t@),
        (match r {
            Some(v) => time_wf(v),
            None => true,
        }),
{
    let n = t.len();
    if n < 6 {
        return None;
    }
    let mut k: usize = 0;
    while k < 6
        invariant
            0 <= k <= 6 <= t@.len(),
            forall|q: int| 0 <= q < k ==> is_digit(t@[q]),
        decreases 6 - k,
    {
        if t[k] < 48 || t[k] > 57 {
            return None;
        }
        k = k + 1;
    }
    if n > 6 {
        if t[6] != 46 || n < 8 {
            return None;
        }
        let mut j: usize = 7;
        while j < n
            invariant
                7 <= j <= n == t@.len(),
                forall|q: int| 7 <= q < j ==> is_digit(t@[q]),
            decreases n - j,
        {
            if t[j] < 48 || t[j] > 57 {
                return None;
            }
            j = j + 1;
        }
    }
    let hour = 10 * (t[0] - 48) + (t[1] - 48);
    let minute = 10 * (t[2] - 48) + (t[3] - 48);
    let second = 10 * (t[4] - 48) + (t[5] - 48);
    let d7: u16 = if n > 7 {
        (t[7] - 48) as u16
    } else {
        0
    };
    let d8: u16 = if n > 8 {
        (t[8] - 48) as u16
    } else {
        0
    };
    let d9: u16 = if n > 9 {
        (t[9] - 48) as u16
    } else {
        0
    };
    let milli: u16 = 100 * d7 + 10 * d8 + d9;
    if hour < 24 && minute < 60 && second < 60 {
        Some(Time { hour, minute, second, milli })
    } else {
        None
    }
}

/// What the optional time field yields.
pub open spec fn spec_parse_time(s: Seq<u8>, c: int) -> Result<(int, Option<Time>), DecodeErrorV> {
    match spec_scan_token(s, c) {
        Err(e) => Err(e),
        Ok((c2, t)) => if t.len() == 0 {
            Ok((c2, None))
        } else {
            match spec_time_of_token(t) {
                Some(v) => Ok((c2, Some(v))),
                None => Err(DecodeErrorV::MalformedField(c, t)),
            }
        },
    }
}

/// Consumes the optional UTC time-of-day field.
pub fn parse_time(s: &[u8], c: usize) -> (r: Result<(usize, Option<Time>), DecodeError>)
    requires
        c <= s@.len() + 1,
        s@.len() < usize::MAX,
    ensures
        (match r {
            Ok((c2, v)) => spec_parse_time(s@, c as int) == Ok::<_, DecodeErrorV>((c2 as int, v)),
            Err(e) => spec_parse_time(s@, c as int) == Err::<(int, Option<Time>), _>(e@),
        }),
        (match r {
            Ok(p) => p.0 <= s@.len() + 1,
            _ => true,
        }),
{
    let (c2, t) = match scan_token(s, c) {
        Ok(x) => x,
        Err(e) => {
            return Err(e);
        },
    };
    if t.len() == 0 {
        return Ok((c2, None));
    }
    match time_of_token(t.as_slice()) {
        Some(v) => Ok((c2, Some(v))),
        None => Err(DecodeError::MalformedField(c, t)),
    }
}

/// The date a six-digit `ddmmyy` token denotes, the year counted from 2000,
/// when the day exists in that month.
pub open spec fn spec_date_of_token(t: Seq<u8>) -> Option<Date> {
    if t.len() == 6 && (forall|k: int| 0 <= k < 6 ==> is_digit(t[k])) {
        let day = 10 * digit_val(t[0]) + digit_val(t[1]);
        let month = 10 * digit_val(t[2]) + digit_val(t[3]);
        let year = 2000 + 10 * digit_val(t[4]) + digit_val(t[5]);
        if 1 <= month <= 12 && 1 <= day <= days_in_month(year as int, month as int) {
            Some(Date { year: year as u16, month: month as u8, day: day as u8 })
        } else {
            None
        }
    } else {
        None
    }
}

/// Reads a non-empty token as a calendar date.
fn date_of_token(t: &[u8]) -> (r: Option<Date>)
    ensures
        r == spec_date_of_token(t@),
        (match r {
            Some(v) => date_wf(v),
            None => true,
        }),
{
    let n = t.len();
    if n != 6 {
        return None;
    }
    let mut k: usize = 0;
    while k < 6
        invariant
            0 <= k <= 6 == t@.len(),
            forall|q: int| 0 <= q < k ==> is_digit(t@[q]),
        decreases 6 - k,
    {
        if t[k] < 48 || t[k] > 57 {
            return None;
        }
        k = k + 1;
    }
    let day = 10 * (t[0] - 48) + (t[1] - 48);
    let month = 10 * (t[2] - 48) + (t[3] - 48);
    let year: u16 = 2000 + 10 * ((t[4] - 48) as u16) + ((t[5] - 48) as u16);
    if !(1 <= month && month <= 12) {
        return None;
    }
    let dim: u8 = if month == 2 {
        if (year % 4 == 0) && (year % 100 != 0 || year % 400 == 0) {
            29
        } else {
            28
        }
    } else if month == 4 || month == 6 || month == 9 || month == 11 {
        30
    } else {
        31
    };
    if 1 <= day && day <= dim {
        Some(Date { year, month, day })
    } else {
        None
    }
}

/// What the optional date field yields.
pub open spec fn spec_parse_date(s: Seq<u8>, c: int) -> Result<(int, Option<Date>), DecodeErrorV> {
    match spec_scan_token(s, c) {
        Err(e) => Err(e),
        Ok((c2, t)) => if t.len() == 0 {
            Ok((c2, None))
        } else {
            match spec_date_of_token(t) {
                Some(v) => Ok((c2, Some(v))),
                None => Err(DecodeErrorV::MalformedField(c, t)),
            }
        },
    }
}

/// Consumes the optional calendar-date field.
pub fn parse_date(s: &[u8], c: usize) -> (r: Result<(usize, Option<Date>), DecodeError>)
    requires
        c <= s@.len() + 1,
        s@.len() < usize::MAX,
    ensures
        (match r {
            Ok((c2, v)) => spec_parse_date(s@, c as int) == Ok::<_, DecodeErrorV>((c2 as int, v)),
            Err(e) => spec_parse_date(s@, c as int) == Err::<(int, Option<Date>), _>(e@),
        }),
        (match r {
            Ok(p) => p.0 <= s@.len() + 1,
            _ => true,
        }),
{
    let (c2, t) = match scan_token(s, c) {
        Ok(x) => x,
        Err(e) => {
            return Err(e);
        },
    };
    if t.len() == 0 {
        return Ok((c2, None));
    }
    match date_of_token(t.as_slice()) {
        Some(v) => Ok((c2, Some(v))),
        None => Err(DecodeError::MalformedField(c, t)),
    }
}

} // verus!
