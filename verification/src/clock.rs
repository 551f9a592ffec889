//! Calendar time: the date and time of day of an instant, as plain numbers.
//! The conversion from seconds since the epoch is done by `chrono`; the
//! offset of the zone is the caller's to give.

use vstd::prelude::*;
use chrono::{Datelike, Timelike};
use crate::text::{decimal, four_digits, push_char, push_decimal, push_two_digits, two_digits};

verus! {

/// A date and a time of day in the proleptic Gregorian calendar.
#[derive(Debug, Clone, Copy, PartialEq, Eq)]
pub struct CivilTime {
    pub year: i32,
    pub month: u32,
    pub day: u32,
    pub hour: u32,
    pub minute: u32,
    pub second: u32,
}

impl CivilTime {
    /// Month, day, hour, minute and second lie in their calendar ranges.
    pub open spec fn wf(self) -> bool {
        &&& 1 <= self.month <= 12
        &&& 1 <= self.day <= 31
        &&& self.hour <= 23
        &&& self.minute <= 59
        &&& self.second <= 59
    }

    /// Whether the fields lie in their calendar ranges.
    pub fn is_valid(&self) -> (r: bool)
        ensures
            r == self.wf(),
    {
        1 <= self.month && self.month <= 12 && 1 <= self.day && self.day <= 31 && self.hour <= 23
            && self.minute <= 59 && self.second <= 59
    }
}

/// A year as text: four digits from 0 to 9999; outside of that a sign and at
/// least four digits.
pub open spec fn year_text(year: int) -> Seq<char> {
    if 0 <= year <= 9999 {
        four_digits(year as nat)
    } else if year < 0 {
        if -year <= 9999 {
            seq!['-'] + four_digits((-year) as nat)
        } else {
            seq!['-'] + decimal((-year) as nat)
        }
    } else {
        seq!['+'] + decimal(year as nat)
    }
}

/// Year and month, as `YYYYMM`.
pub open spec fn month_stamp(t: CivilTime) -> Seq<char> {
    year_text(t.year as int) + two_digits(t.month as nat)
}

/// The full time, as `YYYYMMDDHHMMSS`.
pub open spec fn second_stamp(t: CivilTime) -> Seq<char> {
    month_stamp(t) + two_digits(t.day as nat) + two_digits(t.hour as nat) + two_digits(
        t.minute as nat,
    ) + two_digits(t.second as nat)
}

/// Appends a year.
pub fn push_year(out: &mut String, year: i32)
    ensures
        final(out)@ == old(out)@ + year_text(year as int),
{
    if 0 <= year && year <= 9999 {
        push_two_digits(out, (year / 100) as u32);
        push_two_digits(out, (year % 100) as u32);
        proof {
            assert(final(out)@ =~= old(out)@ + year_text(year as int));
        }
    } else if year < 0 {
        let size: u64 = (-(year as i64)) as u64;
        push_char(out, '-');
        if size <= 9999 {
            push_two_digits(out, (size / 100) as u32);
            push_two_digits(out, (size % 100) as u32);
        } else {
            push_decimal(out, size);
        }
        proof {
            assert(final(out)@ =~= old(out)@ + year_text(year as int));
        }
    } else {
        push_char(out, '+');
        push_decimal(out, year as u64);
        proof {
            assert(final(out)@ =~= old(out)@ + year_text(year as int));
        }
    }
}

/// Appends year and month.
pub fn push_month_stamp(out: &mut String, t: &CivilTime)
    requires
        t.wf(),
    ensures
        final(out)@ == old(out)@ + month_stamp(*t),
{
    push_year(out, t.year);
    push_two_digits(out, t.month);
    proof {
        assert(final(out)@ =~= old(out)@ + month_stamp(*t));
    }
}

/// Appends the full time.
pub fn push_second_stamp(out: &mut String, t: &CivilTime)
    requires
        t.wf(),
    ensures
        final(out)@ == old(out)@ + second_stamp(*t),
{
    push_month_stamp(out, t);
    push_two_digits(out, t.day);
    push_two_digits(out, t.hour);
    push_two_digits(out, t.minute);
    push_two_digits(out, t.second);
    proof {
        assert(final(out)@ =~= old(out)@ + second_stamp(*t));
    }
}

/// Whether the instant `seconds` after the epoch has a calendar time: it lies
/// between the first second of the earliest date that `chrono` represents
/// (`NaiveDate::MIN`, January 1 of the year -262143) and the last second of
/// the latest one (`NaiveDate::MAX`, December 31 of the year 262142).
pub open spec fn representable(seconds: int) -> bool {
    -8_334_601_228_800 <= seconds <= 8_210_266_876_799
}

/// The calendar time that `chrono` gives, in UTC, to the instant `seconds`
/// after the epoch: what `DateTime::from_timestamp` makes of it, read through
/// `Datelike` and `Timelike`.
pub uninterp spec fn utc_calendar(seconds: int) -> CivilTime;

/// `DateTime::from_timestamp` of `chrono`, read through `Datelike` and
/// `Timelike`: the calendar time, in UTC, of the instant `seconds` after the
/// epoch. The result is absent exactly for a number of seconds whose day lies
/// outside `NaiveDate::MIN ..= NaiveDate::MAX`. It is a function of the
/// number alone, so it has a name, and its fields lie in the ranges that
/// `chrono` documents for month, day, hour, minute and second.
#[verifier::external_body]
pub(crate) fn utc_time(seconds: i64) -> (r: Option<CivilTime>)
    ensures
        r.is_some() == representable(seconds as int),
        r matches Some(t) ==> t.wf() && t == utc_calendar(seconds as int),
{
    let t = chrono::DateTime::from_timestamp(seconds, 0)?;
    Some(
        CivilTime {
            year: t.year(),
            month: t.month(),
            day: t.day(),
            hour: t.hour(),
            minute: t.minute(),
            second: t.second(),
        },
    )
}

/// Whether a zone can be `offset` seconds ahead of UTC: less than a day,
/// either way.
pub open spec fn offset_in_range(offset: int) -> bool {
    -86_400 < offset < 86_400
}

/// The calendar time of the instant `seconds` after the epoch in a zone that
/// is `offset` seconds ahead of UTC: the calendar time that UTC has that many
/// seconds later.
pub open spec fn zone_calendar(seconds: int, offset: int) -> CivilTime {
    utc_calendar(seconds + offset)
}

/// Turns an instant into the calendar time of a zone that is `offset`
/// seconds ahead of UTC. There is one exactly when the offset is less than a
/// day and the shifted instant has a calendar time.
pub fn zone_time(seconds: i64, offset: i32) -> (r: Option<CivilTime>)
    ensures
        r.is_some() == (offset_in_range(offset as int) && representable(seconds + offset)),
        r matches Some(t) ==> t.wf() && t == zone_calendar(seconds as int, offset as int),
{
    if offset <= -86_400 || offset >= 86_400 {
        return None;
    }
    match seconds.checked_add(offset as i64) {
        Some(shifted) => utc_time(shifted),
        None => None,
    }
}

} // verus!
