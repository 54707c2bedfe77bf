use star_map::calendar::{utc_offset_accountance, TimeError};

#[test]
fn time_already_in_utc_is_kept() {
    assert_eq!(
        utc_offset_accountance(0, 2020, 10, 26, 3, 43, 30),
        Ok((2020, 10, 26, 3, 43, 30))
    );
}

#[test]
fn east_of_greenwich_moves_into_previous_day() {
    assert_eq!(
        utc_offset_accountance(5, 2020, 10, 26, 3, 43, 30),
        Ok((2020, 10, 25, 22, 43, 30))
    );
    assert_eq!(
        utc_offset_accountance(7, 2020, 1, 1, 3, 0, 0),
        Ok((2019, 12, 31, 20, 0, 0))
    );
    assert_eq!(
        utc_offset_accountance(14, 2000, 1, 1, 0, 0, 0),
        Ok((1999, 12, 31, 10, 0, 0))
    );
}

#[test]
fn west_of_greenwich_moves_into_next_year() {
    assert_eq!(
        utc_offset_accountance(-5, 2020, 12, 31, 20, 0, 0),
        Ok((2021, 1, 1, 1, 0, 0))
    );
}

#[test]
fn end_of_february() {
    assert_eq!(utc_offset_accountance(-5, 2020, 2, 29, 20, 0, 0), Ok((2020, 3, 1, 1, 0, 0)));
    assert_eq!(utc_offset_accountance(-5, 2021, 2, 28, 20, 0, 0), Ok((2021, 3, 1, 1, 0, 0)));
    assert_eq!(utc_offset_accountance(0, 2021, 2, 29, 0, 0, 0), Ok((2021, 3, 1, 0, 0, 0)));
    // 1900 is not a leap year of the Gregorian calendar.
    assert_eq!(utc_offset_accountance(0, 1900, 2, 29, 0, 0, 0), Ok((1900, 3, 1, 0, 0, 0)));
}

#[test]
fn borrowed_minute_is_sixty_seconds() {
    assert_eq!(
        utc_offset_accountance(0, 2020, 10, 26, 3, 44, -1),
        Ok((2020, 10, 26, 3, 43, 59))
    );
    assert_eq!(
        utc_offset_accountance(0, 2020, 3, 1, 0, 0, -1),
        Ok((2020, 2, 29, 23, 59, 59))
    );
    assert_eq!(
        utc_offset_accountance(0, 2020, 1, 1, 0, -1, 0),
        Ok((2019, 12, 31, 23, 59, 0))
    );
}

#[test]
fn fields_out_of_range_count_on() {
    assert_eq!(utc_offset_accountance(0, 2020, 4, 31, 12, 0, 0), Ok((2020, 5, 1, 12, 0, 0)));
    assert_eq!(utc_offset_accountance(0, 2020, 13, 5, 0, 0, 0), Ok((2021, 1, 5, 0, 0, 0)));
    assert_eq!(utc_offset_accountance(0, 2000, -25, 1, 0, 0, 0), Ok((1997, 12, 1, 0, 0, 0)));
    assert_eq!(utc_offset_accountance(0, 2016, 12, 31, 23, 59, 60), Ok((2017, 1, 1, 0, 0, 0)));
    assert_eq!(utc_offset_accountance(0, 2020, 3, 0, 0, 0, 70), Ok((2020, 2, 29, 0, 1, 10)));
    assert_eq!(utc_offset_accountance(0, 2020, 1, -400, 0, 0, 0), Ok((2018, 11, 26, 0, 0, 0)));
    assert_eq!(
        utc_offset_accountance(0, 2020, 1, 1, 0, 0, 34560000),
        Ok((2021, 2, 4, 0, 0, 0))
    );
    assert_eq!(
        utc_offset_accountance(0, 2020, 1, 1, -100000, 0, 0),
        Ok((2008, 8, 4, 8, 0, 0))
    );
}

#[test]
fn month_zero_is_last_day_of_previous_year() {
    assert_eq!(utc_offset_accountance(0, 2020, 0, 5, 0, 0, 0), Ok((2019, 12, 31, 0, 0, 0)));
    assert_eq!(utc_offset_accountance(0, 2020, 0, 31, 0, 0, 0), Ok((2019, 12, 31, 0, 0, 0)));
    assert_eq!(
        utc_offset_accountance(0, 2020, 0, 5, 12, 30, 0),
        Ok((2019, 12, 31, 12, 30, 0))
    );
    assert_eq!(utc_offset_accountance(0, 2020, -12, 5, 0, 0, 0), Ok((2018, 12, 31, 0, 0, 0)));
}

#[test]
fn extreme_fields() {
    assert!(utc_offset_accountance(i32::MAX, 2020, i32::MIN, i32::MIN, i32::MIN, i32::MIN, i32::MIN).is_ok());
    assert!(utc_offset_accountance(i32::MIN, 2020, i32::MAX, i32::MAX, i32::MAX, i32::MAX, i32::MAX).is_ok());
}

#[test]
fn year_overflow_is_reported() {
    assert_eq!(
        utc_offset_accountance(0, i32::MAX, 13, 1, 0, 0, 0),
        Err(TimeError::Overflow)
    );
    assert_eq!(
        utc_offset_accountance(1, i32::MIN, 1, 1, 0, 0, 0),
        Err(TimeError::Overflow)
    );
    assert_eq!(
        utc_offset_accountance(0, i32::MAX, 12, 31, 23, 59, 59),
        Ok((i32::MAX, 12, 31, 23, 59, 59))
    );
}

#[test]
fn converted_times_are_valid() {
    for offset in -14..=14 {
        for day in [0, 1, 28, 29, 30, 31, 32] {
            for month in [0, 1, 2, 4, 12, 13] {
                let (_, m, d, h, mi, s) =
                    utc_offset_accountance(offset, 2020, month, day, 23, 59, 59).unwrap();
                assert!((0..60).contains(&s));
                assert!((0..60).contains(&mi));
                assert!((0..24).contains(&h));
                assert!((1..=12).contains(&m));
                assert!(d >= 1 && d <= 31);
            }
        }
    }
}

#[test]
fn converting_back_restores_the_local_time() {
    for offset in -12..=14 {
        for (y, mo, d, h) in [(2020, 2, 29, 20), (2021, 2, 28, 1), (1999, 12, 31, 23), (2000, 1, 1, 0)] {
            let (uy, um, ud, uh, umi, us) =
                utc_offset_accountance(offset, y, mo, d, h, 30, 15).unwrap();
            assert_eq!(
                utc_offset_accountance(-offset, uy, um, ud, uh, umi, us),
                Ok((y, mo, d, h, 30, 15))
            );
        }
    }
}

#[test]
fn offset_and_hour_move_together() {
    for shift in -30..30 {
        assert_eq!(
            utc_offset_accountance(3 + shift, 2020, 6, 30, 10 + shift, 15, 0),
            utc_offset_accountance(3, 2020, 6, 30, 10, 15, 0)
        );
    }
}
