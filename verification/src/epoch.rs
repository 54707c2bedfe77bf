//! The UNIX timestamp of an observation time.
//!
//! The observation time is first converted to UTC (see `calendar`); the UTC
//! fields are then written as `year-month-day hour:minute:second`, parsed by
//! chrono with the pattern `%Y-%-m-%-d %-H:%-M:%-S`, and chrono's timestamp of
//! the parsed time is returned.
use vstd::prelude::*;

use chrono::{NaiveDateTime, TimeZone, Utc};

use crate::calendar::{
    days_in_month, lemma_day_number_in_range, law_valid_utc_time_unchanged, unix_day,
    utc_offset_accountance, utc_of, utc_target, DateParts, Moment, TimeError,
};

verus! {

/// Why no timestamp could be computed.
#[derive(Clone, Copy, Debug, PartialEq, Eq)]
pub enum EpochError {
    /// The conversion to UTC overflowed an `i32` field.
    Overflow,
    /// chrono does not accept the converted fields as a date and time.
    InvalidDateTime,
}

/// The fields that chrono parses back from the text `year-month-day
/// hour:minute:second` with the pattern `%Y-%-m-%-d %-H:%-M:%-S`: a year of
/// at most four digits (or a negative year not before chrono's first year), a
/// real calendar date, an hour below 24, a minute below 60 and a second up to
/// 60 (a leap second).
pub open spec fn chrono_accepts(t: Moment) -> bool {
    &&& -262143 <= t.year <= 9999
    &&& 1 <= t.month <= 12
    &&& 1 <= t.day <= days_in_month(t.year as int, t.month as int)
    &&& 0 <= t.hour <= 23
    &&& 0 <= t.minute <= 59
    &&& 0 <= t.second <= 60
}

/// Non-leap seconds from 1970-01-01 00:00:00 UTC; a leap second counts as
/// the second before it.
pub open spec fn unix_seconds(t: Moment) -> int {
    let second = if t.second == 60 {
        59
    } else {
        t.second as int
    };
    unix_day(t.year as int, t.month as int, t.day as int) * 86400 + t.hour * 3600 + t.minute
        * 60 + second
}

/// Writes the fields with `format!("{}-{}-{} {}:{}:{}", ..)`, parses the text
/// with `chrono::NaiveDateTime::parse_from_str` and the pattern
/// `%Y-%-m-%-d %-H:%-M:%-S`, and returns `Utc.from_utc_datetime(..).timestamp()`
/// of the parsed time.  Trusted: chrono parses the text exactly when the fields
/// meet `chrono_accepts`, and its timestamp counts the non-leap seconds since
/// the UNIX epoch, which is `unix_seconds`.
#[verifier::external_body]
fn chrono_utc_timestamp(t: Moment) -> (stamp: Option<i64>)
    ensures
        stamp is Some <==> chrono_accepts(t),
        stamp matches Some(s) ==> s == unix_seconds(t),
{
    let input_time = format!(
        "{}-{}-{} {}:{}:{}",
        t.year,
        t.month,
        t.day,
        t.hour,
        t.minute,
        t.second
    );
    match NaiveDateTime::parse_from_str(&input_time, "%Y-%-m-%-d %-H:%-M:%-S") {
        Ok(naive_dt) => Some(Utc.from_utc_datetime(&naive_dt).timestamp()),
        Err(_) => None,
    }
}

/// chrono's dates reach from year -262143 to year 9999 in this text form.
pub open spec fn in_chrono_range(year: int) -> bool {
    -262143 <= year <= 9999
}

/// The UNIX timestamp of a local observation time `utc_offset` hours ahead of
/// UTC: the seconds from 1970-01-01 00:00:00 UTC to it.
/// `Err(EpochError::Overflow)` when the UTC time has no year that fits in
/// `i32`, `Err(EpochError::InvalidDateTime)` when its year lies outside
/// chrono's range.
pub fn get_epoch(
    utc_offset: i32,
    year: i32,
    month: i32,
    day: i32,
    hour: i32,
    minute: i32,
    second: i32,
) -> (r: Result<i64, EpochError>)
    ensures
        match utc_of(utc_offset, year, month, day, hour, minute, second) {
            None => r == Err::<i64, EpochError>(EpochError::Overflow),
            Some(utc) => if in_chrono_range(utc.year as int) {
                r matches Ok(s) && s == utc_target(
                    utc_offset,
                    year,
                    month,
                    day,
                    hour,
                    minute,
                    second,
                )
            } else {
                r == Err::<i64, EpochError>(EpochError::InvalidDateTime)
            },
        },
{
    let utc: DateParts = match utc_offset_accountance(
        utc_offset,
        year,
        month,
        day,
        hour,
        minute,
        second,
    ) {
        Ok(parts) => parts,
        Err(TimeError::Overflow) => {
            return Err(EpochError::Overflow);
        },
    };
    let t = Moment {
        year: utc.0,
        month: utc.1,
        day: utc.2,
        hour: utc.3,
        minute: utc.4,
        second: utc.5,
    };
    proof {
        lemma_day_number_in_range(t.year as int, t.month as int, t.day as int);
        assert(unix_seconds(t) == t.instant());
    }
    match chrono_utc_timestamp(t) {
        Some(epoch) => Ok(epoch),
        None => Err(EpochError::InvalidDateTime),
    }
}

/// Law: a valid date and time given in UTC (offset zero) within chrono's
/// range is not moved; its timestamp is the count of non-leap seconds since
/// the UNIX epoch.
pub proof fn law_epoch_of_utc_time(t: Moment)
    requires
        t.is_valid(),
        in_chrono_range(t.year as int),
    ensures
        utc_of(0, t.year, t.month, t.day, t.hour, t.minute, t.second) == Some(t),
        utc_target(0, t.year, t.month, t.day, t.hour, t.minute, t.second) == unix_seconds(t),
        unix_seconds(t) == unix_day(t.year as int, t.month as int, t.day as int) * 86400 + t.hour
            * 3600 + t.minute * 60 + t.second,
{
    law_valid_utc_time_unchanged(t);
    lemma_day_number_in_range(t.year as int, t.month as int, t.day as int);
}

/// Law: one hour more of offset makes the timestamp one hour (3600 seconds)
/// earlier.
pub proof fn law_epoch_offset_hour(utc_offset: i32, local: Moment)
    requires
        utc_offset < i32::MAX,
    ensures
        utc_target(
            (utc_offset + 1) as i32,
            local.year,
            local.month,
            local.day,
            local.hour,
            local.minute,
            local.second,
        ) == utc_target(
            utc_offset,
            local.year,
            local.month,
            local.day,
            local.hour,
            local.minute,
            local.second,
        ) - 3600,
{
}

} // verus!
