use star_map::epoch::{get_epoch, EpochError};

#[test]
fn epoch_of_utc_time() {
    assert_eq!(get_epoch(0, 2020, 10, 26, 3, 43, 30), Ok(1603683810));
    assert_eq!(get_epoch(0, 1970, 1, 1, 0, 0, 0), Ok(0));
    assert_eq!(get_epoch(0, 2000, 2, 29, 12, 0, 0), Ok(951825600));
}

#[test]
fn epoch_after_conversion() {
    assert_eq!(get_epoch(5, 2020, 10, 26, 3, 43, 30), Ok(1603665810));
    assert_eq!(get_epoch(-5, 2020, 12, 31, 20, 0, 0), Ok(1609462800));
    assert_eq!(get_epoch(7, 2020, 1, 1, 3, 0, 0), Ok(1577822400));
    assert_eq!(get_epoch(-5, 2020, 2, 29, 20, 0, 0), Ok(1583024400));
}

#[test]
fn epoch_extreme_years() {
    assert_eq!(get_epoch(0, 9999, 12, 31, 23, 59, 59), Ok(253402300799));
    assert_eq!(get_epoch(0, 1, 1, 1, 0, 0, 0), Ok(-62135596800));
    assert_eq!(get_epoch(0, -1, 1, 1, 0, 0, 0), Ok(-62198755200));
    assert_eq!(get_epoch(0, 10000, 1, 1, 0, 0, 0), Err(EpochError::InvalidDateTime));
    assert_eq!(get_epoch(-1, 9999, 12, 31, 23, 0, 0), Err(EpochError::InvalidDateTime));
    assert_eq!(get_epoch(0, -300000, 1, 1, 0, 0, 0), Err(EpochError::InvalidDateTime));
}

#[test]
fn epoch_of_days_past_month_end() {
    assert_eq!(get_epoch(0, 2021, 2, 29, 0, 0, 0), Ok(1614556800));
    assert_eq!(get_epoch(0, 1900, 2, 29, 0, 0, 0), Ok(-2203891200));
}

#[test]
fn epoch_of_empty_month_field() {
    // An empty month field reads as 0, which stands for 31 December.
    assert_eq!(get_epoch(0, 2020, 0, 5, 0, 0, 0), Ok(1577750400));
}

#[test]
fn epoch_overflow() {
    assert_eq!(get_epoch(0, i32::MAX, 13, 1, 0, 0, 0), Err(EpochError::Overflow));
}

#[test]
fn one_more_hour_of_offset_is_an_hour_earlier() {
    for offset in -12..14 {
        let here = get_epoch(offset, 2020, 1, 1, 0, 0, 0).unwrap();
        let east = get_epoch(offset + 1, 2020, 1, 1, 0, 0, 0).unwrap();
        assert_eq!(east, here - 3600);
    }
}

#[test]
fn consecutive_seconds_have_consecutive_epochs() {
    let a = get_epoch(0, 2024, 2, 29, 23, 59, 58).unwrap();
    let b = get_epoch(0, 2024, 2, 29, 23, 59, 59).unwrap();
    let c = get_epoch(0, 2024, 3, 1, 0, 0, 0).unwrap();
    assert_eq!(b, a + 1);
    assert_eq!(c, b + 1);
}
