//! Converting a local observation time to UTC.
//!
//! A time is six signed fields (year, month, day, hour, minute, second) that
//! may lie outside their usual ranges: every field counts on from the
//! fields above it, so month 13 is January of the next year, day 0 is the
//! last day of the previous month and hour -1 is 23:00 of the previous day.
//! A month of 0 or below also puts the day on the 31st, so month 0 stands
//! for 31 December of the year before.  The conversion takes the UTC offset (in hours) off the time and writes the
//! resulting instant as a valid date and time of the proleptic Gregorian
//! calendar.
use vstd::prelude::*;

use vstd::arithmetic::div_mod::lemma_fundamental_div_mod_converse;

verus! {

/// A calendar time as six signed fields, in the order
/// (year, month, day, hour, minute, second).
pub type DateParts = (i32, i32, i32, i32, i32, i32);

/// A calendar time whose fields may lie outside their usual ranges.
#[derive(Clone, Copy, Debug, PartialEq, Eq)]
pub struct Moment {
    pub year: i32,
    pub month: i32,
    pub day: i32,
    pub hour: i32,
    pub minute: i32,
    pub second: i32,
}

/// Why a conversion could not be carried out.
#[derive(Clone, Copy, Debug, PartialEq, Eq)]
pub enum TimeError {
    /// The converted time has no year that fits in `i32`.
    Overflow,
}

// ---------------------------------------------------------------------------
// The proleptic Gregorian calendar.
/// Leap years of the proleptic Gregorian calendar.
pub open spec fn gregorian_leap(year: int) -> bool {
    year % 4 == 0 && (year % 100 != 0 || year % 400 == 0)
}

pub open spec fn days_in_month(year: int, month: int) -> int {
    if month == 2 {
        if gregorian_leap(year) {
            29
        } else {
            28
        }
    } else if month == 4 || month == 6 || month == 9 || month == 11 {
        30
    } else {
        31
    }
}

/// Days from 1 January of year 1 to 1 January of `year`, counted backwards
/// for earlier years (`/` is floor division on `int`).
pub open spec fn days_before_year(year: int) -> int {
    let y = year - 1;
    365 * y + y / 4 - y / 100 + y / 400
}

/// Days from 1 January to the first day of `month` in `year`.
pub open spec fn days_before_month(year: int, month: int) -> int {
    let common = if month <= 1 {
        0int
    } else if month == 2 {
        31
    } else if month == 3 {
        59
    } else if month == 4 {
        90
    } else if month == 5 {
        120
    } else if month == 6 {
        151
    } else if month == 7 {
        181
    } else if month == 8 {
        212
    } else if month == 9 {
        243
    } else if month == 10 {
        273
    } else if month == 11 {
        304
    } else {
        334
    };
    common + if month > 2 && gregorian_leap(year) {
        1int
    } else {
        0
    }
}

/// Days from 1970-01-01 to a date whose month lies in `1..=12`.
pub open spec fn unix_day(year: int, month: int, day: int) -> int {
    days_before_year(year) + days_before_month(year, month) + day - 1 - days_before_year(1970)
}

/// Days from 1970-01-01 to a date with any fields: months carry into years
/// (month 13 is January of the next year, month 0 December of the previous
/// one) and the day counts on from the first of the month.
pub open spec fn day_number(year: int, month: int, day: int) -> int {
    let k = year * 12 + (month - 1);
    unix_day(k / 12, k % 12 + 1, 1) + day - 1
}

/// Seconds from 1970-01-01 00:00:00 to the time given by the six fields.
pub open spec fn instant(year: int, month: int, day: int, hour: int, minute: int, second: int) -> int {
    day_number(year, month, day) * 86400 + hour * 3600 + minute * 60 + second
}

/// The six fields are a date and time as written on a calendar and a clock.
pub open spec fn valid_fields(
    year: int,
    month: int,
    day: int,
    hour: int,
    minute: int,
    second: int,
) -> bool {
    &&& 1 <= month <= 12
    &&& 1 <= day <= days_in_month(year, month)
    &&& 0 <= hour < 24
    &&& 0 <= minute < 60
    &&& 0 <= second < 60
}

impl Moment {
    pub open spec fn parts(self) -> DateParts {
        (self.year, self.month, self.day, self.hour, self.minute, self.second)
    }

    pub open spec fn instant(self) -> int {
        instant(
            self.year as int,
            self.month as int,
            self.day as int,
            self.hour as int,
            self.minute as int,
            self.second as int,
        )
    }

    pub open spec fn is_valid(self) -> bool {
        valid_fields(
            self.year as int,
            self.month as int,
            self.day as int,
            self.hour as int,
            self.minute as int,
            self.second as int,
        )
    }

    /// `self` is a valid date and time at the instant `t`.
    pub open spec fn represents(self, t: int) -> bool {
        self.is_valid() && self.instant() == t
    }
}

/// The day of the month that a local time stands for: a month of 0 or below
/// carries into the year and puts the day on the 31st (month 0 is 31
/// December of the year before); otherwise the day as given.
pub open spec fn local_day(month: int, day: int) -> int {
    if month <= 0 {
        31
    } else {
        day
    }
}

/// The instant, in seconds from 1970-01-01 00:00:00 UTC, of a local time
/// `utc_offset` hours ahead of UTC.
pub open spec fn utc_target(
    utc_offset: i32,
    year: i32,
    month: i32,
    day: i32,
    hour: i32,
    minute: i32,
    second: i32,
) -> int {
    instant(
        year as int,
        month as int,
        local_day(month as int, day as int),
        hour as int,
        minute as int,
        second as int,
    ) - 3600 * utc_offset
}

/// The valid UTC date and time of a local time `utc_offset` hours ahead of
/// UTC, or `None` when its year does not fit in `i32`.
pub open spec fn utc_of(
    utc_offset: i32,
    year: i32,
    month: i32,
    day: i32,
    hour: i32,
    minute: i32,
    second: i32,
) -> Option<Moment> {
    let t = utc_target(utc_offset, year, month, day, hour, minute, second);
    if exists|p: Moment| p.represents(t) {
        Some(choose|p: Moment| p.represents(t))
    } else {
        None
    }
}

// ---------------------------------------------------------------------------
// Arithmetic facts.
/// Adding `n` whole divisors moves the quotient by `n` and keeps the remainder.
pub proof fn lemma_floor_shift(x: int, n: int, d: int)
    requires
        d > 0,
    ensures
        (x + n * d) / d == x / d + n,
        (x + n * d) % d == x % d,
{
    let q = x / d;
    let r = x % d;
    vstd::arithmetic::div_mod::lemma_fundamental_div_mod(x, d);
    assert(x == q * d + r) by (nonlinear_arith)
        requires
            x == d * q + r,
    ;
    assert(0 <= r < d) by {
        vstd::arithmetic::div_mod::lemma_mod_bound(x, d);
    }
    assert(x + n * d == (q + n) * d + r) by (nonlinear_arith)
        requires
            x == q * d + r,
    ;
    lemma_fundamental_div_mod_converse(x + n * d, d, q + n, r);
}

/// Going one up from `x` moves the quotient by one exactly when `x + 1` is a
/// multiple of the divisor.
pub proof fn lemma_floor_step(x: int, d: int)
    requires
        d > 0,
    ensures
        (x + 1) / d == x / d + (if (x + 1) % d == 0 {
            1int
        } else {
            0
        }),
{
    let q = x / d;
    let r = x % d;
    vstd::arithmetic::div_mod::lemma_fundamental_div_mod(x, d);
    assert(x == q * d + r) by (nonlinear_arith)
        requires
            x == d * q + r,
    ;
    assert(0 <= r < d) by {
        vstd::arithmetic::div_mod::lemma_mod_bound(x, d);
    }
    if r == d - 1 {
        assert(x + 1 == (q + 1) * d + 0) by (nonlinear_arith)
            requires
                x == q * d + r,
                r == d - 1,
        ;
        lemma_fundamental_div_mod_converse(x + 1, d, q + 1, 0);
    } else {
        lemma_fundamental_div_mod_converse(x + 1, d, q, r + 1);
    }
}

/// A year is one common year plus its leap day past the previous New Year.
pub proof fn lemma_next_year(year: int)
    ensures
        days_before_year(year + 1) == days_before_year(year) + 365 + (if gregorian_leap(year) {
            1int
        } else {
            0
        }),
{
    lemma_floor_step(year - 1, 4);
    lemma_floor_step(year - 1, 100);
    lemma_floor_step(year - 1, 400);
    lemma_divisibility_chain(year);
    let a = year / 4 - (year - 1) / 4;
    let b = year / 100 - (year - 1) / 100;
    let c = year / 400 - (year - 1) / 400;
    assert(days_before_year(year + 1) == days_before_year(year) + 365 + a - b + c);
}

/// A multiple of 400 is a multiple of 100, and a multiple of 100 one of 4.
pub proof fn lemma_divisibility_chain(year: int)
    ensures
        year % 400 == 0 ==> year % 100 == 0,
        year % 100 == 0 ==> year % 4 == 0,
{
    if year % 400 == 0 {
        vstd::arithmetic::div_mod::lemma_fundamental_div_mod(year, 400);
        let q = year / 400;
        assert(year == (4 * q) * 100 + 0) by (nonlinear_arith)
            requires
                year == 400 * q + 0,
        ;
        lemma_fundamental_div_mod_converse(year, 100, 4 * q, 0);
    }
    if year % 100 == 0 {
        vstd::arithmetic::div_mod::lemma_fundamental_div_mod(year, 100);
        let q = year / 100;
        assert(year == (25 * q) * 4 + 0) by (nonlinear_arith)
            requires
                year == 100 * q + 0,
        ;
        lemma_fundamental_div_mod_converse(year, 4, 25 * q, 0);
    }
}

/// Four hundred Gregorian years are 146097 days, and leap years repeat.
pub proof fn lemma_four_centuries(year: int, n: int)
    ensures
        days_before_year(year + 400 * n) == days_before_year(year) + 146097 * n,
        gregorian_leap(year + 400 * n) == gregorian_leap(year),
{
    lemma_floor_shift(year - 1, 100 * n, 4);
    lemma_floor_shift(year - 1, 4 * n, 100);
    lemma_floor_shift(year - 1, n, 400);
    lemma_floor_shift(year, 100 * n, 4);
    lemma_floor_shift(year, 4 * n, 100);
    lemma_floor_shift(year, n, 400);
    assert(year - 1 + 100 * n * 4 == year - 1 + 400 * n);
    assert(year - 1 + 4 * n * 100 == year - 1 + 400 * n);
    assert(year - 1 + n * 400 == year - 1 + 400 * n);
}

/// Later New Years come later, by at least 365 days a year.
pub proof fn lemma_years_ordered(a: int, b: int)
    requires
        a <= b,
    ensures
        days_before_year(a) + 365 * (b - a) <= days_before_year(b),
    decreases b - a,
{
    if a < b {
        lemma_years_ordered(a, b - 1);
        lemma_next_year(b - 1);
    }
}

/// The first of the next month is the length of this month later.
pub proof fn lemma_next_month(year: int, month: int)
    requires
        1 <= month <= 12,
    ensures
        month < 12 ==> unix_day(year, month + 1, 1) == unix_day(year, month, 1) + days_in_month(
            year,
            month,
        ),
        month == 12 ==> unix_day(year + 1, 1, 1) == unix_day(year, 12, 1) + 31,
{
    lemma_next_year(year);
}

/// A month in `1..=12` is its own place in the year.
pub proof fn lemma_day_number_in_range(year: int, month: int, day: int)
    requires
        1 <= month <= 12,
    ensures
        day_number(year, month, day) == unix_day(year, month, day),
{
    lemma_fundamental_div_mod_converse(year * 12 + (month - 1), 12, year, month - 1);
}

/// `v` is a value of `i32`.
pub open spec fn fits_i32(v: int) -> bool {
    i32::MIN <= v <= i32::MAX
}

/// Where a valid date falls in its year.
pub proof fn lemma_date_within_year(year: int, month: int, day: int)
    requires
        1 <= month <= 12,
        1 <= day <= days_in_month(year, month),
    ensures
        unix_day(year, 1, 1) <= unix_day(year, month, day) < unix_day(year + 1, 1, 1),
{
    lemma_next_year(year);
}

/// Two valid dates on the same day number are the same date.
pub proof fn lemma_date_unique(y1: int, m1: int, d1: int, y2: int, m2: int, d2: int)
    requires
        1 <= m1 <= 12,
        1 <= d1 <= days_in_month(y1, m1),
        1 <= m2 <= 12,
        1 <= d2 <= days_in_month(y2, m2),
        unix_day(y1, m1, d1) == unix_day(y2, m2, d2),
    ensures
        y1 == y2 && m1 == m2 && d1 == d2,
{
    lemma_date_within_year(y1, m1, d1);
    lemma_date_within_year(y2, m2, d2);
    if y1 < y2 {
        lemma_years_ordered(y1 + 1, y2);
    } else if y2 < y1 {
        lemma_years_ordered(y2 + 1, y1);
    }
    assert(y1 == y2);
}

/// Two valid dates and times at the same instant are the same.
pub proof fn lemma_fields_unique(
    y1: int,
    m1: int,
    d1: int,
    h1: int,
    i1: int,
    s1: int,
    y2: int,
    m2: int,
    d2: int,
    h2: int,
    i2: int,
    s2: int,
)
    requires
        valid_fields(y1, m1, d1, h1, i1, s1),
        valid_fields(y2, m2, d2, h2, i2, s2),
        instant(y1, m1, d1, h1, i1, s1) == instant(y2, m2, d2, h2, i2, s2),
    ensures
        y1 == y2 && m1 == m2 && d1 == d2 && h1 == h2 && i1 == i2 && s1 == s2,
{
    lemma_day_number_in_range(y1, m1, d1);
    lemma_day_number_in_range(y2, m2, d2);
    let t = instant(y1, m1, d1, h1, i1, s1);
    lemma_fundamental_div_mod_converse(t, 86400, unix_day(y1, m1, d1), h1 * 3600 + i1 * 60 + s1);
    lemma_fundamental_div_mod_converse(t, 86400, unix_day(y2, m2, d2), h2 * 3600 + i2 * 60 + s2);
    lemma_date_unique(y1, m1, d1, y2, m2, d2);
    let tod = h1 * 3600 + i1 * 60 + s1;
    lemma_fundamental_div_mod_converse(tod, 3600, h1, i1 * 60 + s1);
    lemma_fundamental_div_mod_converse(tod, 3600, h2, i2 * 60 + s2);
    lemma_fundamental_div_mod_converse(i1 * 60 + s1, 60, i1, s1);
    lemma_fundamental_div_mod_converse(i1 * 60 + s1, 60, i2, s2);
}

/// Law: an instant has at most one valid date and time.
pub proof fn law_representation_unique(p: Moment, q: Moment, t: int)
    requires
        p.represents(t),
        q.represents(t),
    ensures
        p == q,
{
    lemma_fields_unique(
        p.year as int,
        p.month as int,
        p.day as int,
        p.hour as int,
        p.minute as int,
        p.second as int,
        q.year as int,
        q.month as int,
        q.day as int,
        q.hour as int,
        q.minute as int,
        q.second as int,
    );
}

// ---------------------------------------------------------------------------
// The conversion.
/// Floor division by a positive divisor.
fn div_floor(a: i64, b: i64) -> (q: i64)
    requires
        b > 0,
    ensures
        q == (a as int) / (b as int),
{
    proof {
        let x = a as int;
        let d = b as int;
        vstd::arithmetic::div_mod::lemma_fundamental_div_mod(x, d);
        vstd::arithmetic::div_mod::lemma_mod_bound(x, d);
        let q = x / d;
        let r = x % d;
        assert(i64::MIN <= q <= i64::MAX) by (nonlinear_arith)
            requires
                x == d * q + r,
                0 <= r,
                r < d,
                d > 0,
                i64::MIN <= x <= i64::MAX,
        ;
    }
    match a.checked_div_euclid(b) {
        Some(q) => q,
        None => 0,
    }
}

/// The remainder of floor division by a positive divisor, in `0..b`.
fn rem_floor(a: i64, b: i64) -> (r: i64)
    requires
        b > 0,
    ensures
        r == (a as int) % (b as int),
        0 <= r < b,
{
    proof {
        vstd::arithmetic::div_mod::lemma_mod_bound(a as int, b as int);
    }
    match a.checked_rem_euclid(b) {
        Some(r) => r,
        None => 0,
    }
}

/// Days in a month of the proleptic Gregorian calendar.
fn month_length(year: i64, month: i64) -> (n: i64)
    requires
        1 <= month <= 12,
    ensures
        n == days_in_month(year as int, month as int),
{
    if month == 2 {
        if rem_floor(year, 4) == 0 && (rem_floor(year, 100) != 0 || rem_floor(year, 400) == 0) {
            29
        } else {
            28
        }
    } else if month == 4 || month == 6 || month == 9 || month == 11 {
        30
    } else {
        31
    }
}

/// Converts a local time, `utc_offset` hours ahead of UTC, to UTC.  Fields
/// outside their usual ranges count on from the fields above them (month 13
/// is January of the next year, day 0 the last day of the previous month,
/// hour -1 23:00 of the previous day); a month of 0 or below puts the day on
/// the 31st.  The result is the valid date and time
/// of the same instant in UTC, or `Err(TimeError::Overflow)` when its year
/// does not fit in `i32`.
pub fn utc_offset_accountance(
    utc_offset: i32,
    year: i32,
    month: i32,
    day: i32,
    hour: i32,
    minute: i32,
    second: i32,
) -> (r: Result<DateParts, TimeError>)
    ensures
        match utc_of(utc_offset, year, month, day, hour, minute, second) {
            Some(p) => r == Ok::<DateParts, TimeError>(p.parts()),
            None => r == Err::<DateParts, TimeError>(TimeError::Overflow),
        },
        r matches Ok(p) ==> {
            &&& valid_fields(p.0 as int, p.1 as int, p.2 as int, p.3 as int, p.4 as int, p.5 as int)
            &&& instant(p.0 as int, p.1 as int, p.2 as int, p.3 as int, p.4 as int, p.5 as int)
                == utc_target(utc_offset, year, month, day, hour, minute, second)
        },
{
    let ghost target = utc_target(utc_offset, year, month, day, hour, minute, second);
    // A month of 0 or below puts the day on the 31st.
    let day: i32 = if month <= 0 {
        31
    } else {
        day
    };
    // The shifted time of day in seconds, split into whole days and the rest.
    let seconds: i64 = (hour as i64 - utc_offset as i64) * 3600 + minute as i64 * 60
        + second as i64;
    let carry = div_floor(seconds, 86400);
    let time_of_day = rem_floor(seconds, 86400);
    proof {
        vstd::arithmetic::div_mod::lemma_fundamental_div_mod(seconds as int, 86400);
    }
    let h = div_floor(time_of_day, 3600);
    let rest = rem_floor(time_of_day, 3600);
    let mi = div_floor(rest, 60);
    let s = rem_floor(rest, 60);
    proof {
        vstd::arithmetic::div_mod::lemma_fundamental_div_mod(time_of_day as int, 3600);
        vstd::arithmetic::div_mod::lemma_fundamental_div_mod(rest as int, 60);
    }
    // Months carry into years.
    let months: i64 = year as i64 * 12 + (month as i64 - 1);
    let first_year = div_floor(months, 12);
    let mut m = rem_floor(months, 12) + 1;
    proof {
        vstd::arithmetic::div_mod::lemma_fundamental_div_mod(months as int, 12);
    }
    let ghost target_day = day_number(year as int, month as int, day as int) + carry;
    assert(target == target_day * 86400 + time_of_day);
    // Whole cycles of four centuries, 146097 days each.
    let days: i64 = day as i64 + carry;
    let cycles = div_floor(days - 1, 146097);
    let mut d = rem_floor(days - 1, 146097) + 1;
    proof {
        vstd::arithmetic::div_mod::lemma_fundamental_div_mod(days - 1, 146097);
        lemma_four_centuries(first_year as int, cycles as int);
    }
    let mut y: i64 = first_year + 400 * cycles;
    let ghost start_year = y;
    assert(unix_day(y as int, m as int, 1) + d - 1 == target_day);
    // Month by month to the month that holds the day.
    while d > month_length(y, m)
        invariant
            1 <= m <= 12,
            1 <= d <= 146097,
            start_year <= y <= start_year + 146097 - d,
            -1000000000000 <= start_year <= 1000000000000,
            unix_day(y as int, m as int, 1) + d - 1 == target_day,
        decreases d,
    {
        let length = month_length(y, m);
        proof {
            lemma_next_month(y as int, m as int);
        }
        d = d - length;
        if m == 12 {
            m = 1;
            y = y + 1;
        } else {
            m = m + 1;
        }
    }
    proof {
        lemma_day_number_in_range(y as int, m as int, d as int);
    }
    assert(valid_fields(y as int, m as int, d as int, h as int, mi as int, s as int));
    assert(instant(y as int, m as int, d as int, h as int, mi as int, s as int) == target);
    if y < i32::MIN as i64 || y > i32::MAX as i64 {
        proof {
            assert forall|p: Moment| !p.represents(target) by {
                if p.represents(target) {
                    lemma_fields_unique(
                        p.year as int,
                        p.month as int,
                        p.day as int,
                        p.hour as int,
                        p.minute as int,
                        p.second as int,
                        y as int,
                        m as int,
                        d as int,
                        h as int,
                        mi as int,
                        s as int,
                    );
                }
            }
        }
        return Err(TimeError::Overflow);
    }
    let utc = Moment {
        year: y as i32,
        month: m as i32,
        day: d as i32,
        hour: h as i32,
        minute: mi as i32,
        second: s as i32,
    };
    proof {
        assert(utc.represents(target));
        let c = choose|p: Moment| p.represents(target);
        law_representation_unique(c, utc, target);
    }
    Ok((utc.year, utc.month, utc.day, utc.hour, utc.minute, utc.second))
}

// ---------------------------------------------------------------------------
// Laws of the conversion.
/// Law: a converted time is a valid date and time at the instant of the
/// local time less the offset.
pub proof fn law_conversion_keeps_instant(
    utc_offset: i32,
    year: i32,
    month: i32,
    day: i32,
    hour: i32,
    minute: i32,
    second: i32,
)
    ensures
        utc_of(utc_offset, year, month, day, hour, minute, second) matches Some(p) ==> {
            &&& p.is_valid()
            &&& p.instant() == instant(
                year as int,
                month as int,
                local_day(month as int, day as int),
                hour as int,
                minute as int,
                second as int,
            ) - 3600 * utc_offset
        },
{
}

/// The valid date and time at an instant is what `utc_of` gives, when it has
/// a year that fits in `i32`.
pub proof fn lemma_utc_of_is(p: Moment, utc_offset: i32, fields: Moment)
    requires
        p.represents(
            utc_target(
                utc_offset,
                fields.year,
                fields.month,
                fields.day,
                fields.hour,
                fields.minute,
                fields.second,
            ),
        ),
    ensures
        utc_of(
            utc_offset,
            fields.year,
            fields.month,
            fields.day,
            fields.hour,
            fields.minute,
            fields.second,
        ) == Some(p),
{
    let t = utc_target(
        utc_offset,
        fields.year,
        fields.month,
        fields.day,
        fields.hour,
        fields.minute,
        fields.second,
    );
    let c = choose|q: Moment| q.represents(t);
    law_representation_unique(c, p, t);
}

/// Law: a valid date and time given with offset zero is already in UTC and
/// comes back unchanged.
pub proof fn law_valid_utc_time_unchanged(t: Moment)
    requires
        t.is_valid(),
    ensures
        utc_of(0, t.year, t.month, t.day, t.hour, t.minute, t.second) == Some(t),
{
    lemma_utc_of_is(t, 0, t);
}

/// Law: converting back with the negated offset restores a valid local time.
pub proof fn law_round_trip(utc_offset: i32, local: Moment)
    requires
        local.is_valid(),
        utc_offset != i32::MIN,
        utc_of(
            utc_offset,
            local.year,
            local.month,
            local.day,
            local.hour,
            local.minute,
            local.second,
        ) is Some,
    ensures
        ({
            let u = utc_of(
                utc_offset,
                local.year,
                local.month,
                local.day,
                local.hour,
                local.minute,
                local.second,
            ).unwrap();
            utc_of((-utc_offset) as i32, u.year, u.month, u.day, u.hour, u.minute, u.second)
                == Some(local)
        }),
{
    let u = utc_of(
        utc_offset,
        local.year,
        local.month,
        local.day,
        local.hour,
        local.minute,
        local.second,
    ).unwrap();
    assert(local.represents(
        utc_target((-utc_offset) as i32, u.year, u.month, u.day, u.hour, u.minute, u.second),
    ));
    lemma_utc_of_is(local, (-utc_offset) as i32, u);
}

/// Law: one hour more of offset is one hour earlier in UTC.
pub proof fn law_offset_hour_earlier(utc_offset: i32, local: Moment)
    requires
        utc_offset < i32::MAX,
    ensures
        utc_of(
            (utc_offset + 1) as i32,
            local.year,
            local.month,
            local.day,
            local.hour,
            local.minute,
            local.second,
        ) matches Some(later) ==> utc_of(
            utc_offset,
            local.year,
            local.month,
            local.day,
            local.hour,
            local.minute,
            local.second,
        ) matches Some(earlier) ==> later.instant() == earlier.instant() - 3600,
{
}

/// Law: the offset only enters through the hour, so raising the offset and
/// the hour by the same amount gives the same result.
pub proof fn law_offset_moves_hour(utc_offset: i32, shift: i32, local: Moment)
    requires
        fits_i32(utc_offset + shift),
        fits_i32(local.hour + shift),
    ensures
        utc_of(
            (utc_offset + shift) as i32,
            local.year,
            local.month,
            local.day,
            (local.hour + shift) as i32,
            local.minute,
            local.second,
        ) == utc_of(
            utc_offset,
            local.year,
            local.month,
            local.day,
            local.hour,
            local.minute,
            local.second,
        ),
{
    assert(utc_target(
        (utc_offset + shift) as i32,
        local.year,
        local.month,
        local.day,
        (local.hour + shift) as i32,
        local.minute,
        local.second,
    ) == utc_target(
        utc_offset,
        local.year,
        local.month,
        local.day,
        local.hour,
        local.minute,
        local.second,
    ));
}

} // verus!
