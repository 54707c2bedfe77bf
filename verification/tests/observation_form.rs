use star_map::form::{Action, Message, ObservationForm};

#[test]
fn new_form_is_empty() {
    let form = ObservationForm::new();
    assert!(form.location.is_empty());
    assert!(form.second.is_empty());
}

#[test]
fn edits_replace_one_field() {
    let mut form = ObservationForm::new();
    assert_eq!(form.update(Message::LocationChanged("Boise".to_string())), Action::Nothing);
    assert_eq!(form.update(Message::YearChanged("2020".to_string())), Action::Nothing);
    assert_eq!(form.update(Message::YearChanged("2021".to_string())), Action::Nothing);
    assert_eq!(form.update(Message::SecondChanged("30".to_string())), Action::Nothing);
    assert_eq!(form.location, "Boise");
    assert_eq!(form.year, "2021");
    assert_eq!(form.second, "30");
    assert_eq!(form.month, "");
    assert_eq!(form.altitude, "");
}

#[test]
fn every_field_has_its_message() {
    let mut form = ObservationForm::new();
    form.update(Message::AltitudeChanged("26.7".to_string()));
    form.update(Message::AzimuthChanged("46".to_string()));
    form.update(Message::MonthChanged("10".to_string()));
    form.update(Message::DayChanged("26".to_string()));
    form.update(Message::HourChanged("3".to_string()));
    form.update(Message::MinuteChanged("43".to_string()));
    assert_eq!(
        (
            form.altitude.as_str(),
            form.azimuth.as_str(),
            form.month.as_str(),
            form.day.as_str(),
            form.hour.as_str(),
            form.minute.as_str()
        ),
        ("26.7", "46", "10", "26", "3", "43")
    );
}

#[test]
fn fetch_request_leaves_form_alone() {
    let mut form = ObservationForm::new();
    form.update(Message::DayChanged("26".to_string()));
    assert_eq!(form.update(Message::FetchStar), Action::FetchStar);
    assert_eq!(form.day, "26");
    assert!(form.location.is_empty());
}
