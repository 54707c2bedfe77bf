//! The observation form: the text the user typed, and what each user event
//! does to it.  Looking a star up (the network calls and the coordinate
//! arithmetic) is left to the caller, which is told so by the returned action.
use vstd::prelude::*;

verus! {

/// The events of the star finder's window.
#[derive(Debug, Clone)]
pub enum Message {
    LocationChanged(String),
    AltitudeChanged(String),
    AzimuthChanged(String),
    YearChanged(String),
    MonthChanged(String),
    DayChanged(String),
    HourChanged(String),
    MinuteChanged(String),
    SecondChanged(String),
    FetchStar,
}

/// What the caller has to do after an event.
#[derive(Debug, Clone, Copy, PartialEq, Eq)]
pub enum Action {
    /// Only the form changed.
    Nothing,
    /// Look up the star described by the form.
    FetchStar,
}

/// The text fields of the form, as typed.
#[derive(Debug, Clone)]
pub struct ObservationForm {
    /// Nearest zip code or city name of the observation spot.
    pub location: String,
    pub altitude: String,
    pub azimuth: String,
    pub year: String,
    pub month: String,
    pub day: String,
    pub hour: String,
    pub minute: String,
    pub second: String,
}

impl ObservationForm {
    pub open spec fn all_empty(self) -> bool {
        &&& self.location@.len() == 0
        &&& self.altitude@.len() == 0
        &&& self.azimuth@.len() == 0
        &&& self.year@.len() == 0
        &&& self.month@.len() == 0
        &&& self.day@.len() == 0
        &&& self.hour@.len() == 0
        &&& self.minute@.len() == 0
        &&& self.second@.len() == 0
    }

    /// The form after `message`: an edit replaces the text of its field and
    /// leaves the others; a look-up request leaves the form as it is.
    pub open spec fn after(self, message: Message) -> ObservationForm {
        match message {
            Message::LocationChanged(s) => ObservationForm { location: s, ..self },
            Message::AltitudeChanged(s) => ObservationForm { altitude: s, ..self },
            Message::AzimuthChanged(s) => ObservationForm { azimuth: s, ..self },
            Message::YearChanged(s) => ObservationForm { year: s, ..self },
            Message::MonthChanged(s) => ObservationForm { month: s, ..self },
            Message::DayChanged(s) => ObservationForm { day: s, ..self },
            Message::HourChanged(s) => ObservationForm { hour: s, ..self },
            Message::MinuteChanged(s) => ObservationForm { minute: s, ..self },
            Message::SecondChanged(s) => ObservationForm { second: s, ..self },
            Message::FetchStar => self,
        }
    }

    /// The text fields by position: location, altitude, azimuth, year,
    /// month, day, hour, minute, second.
    pub open spec fn field(self, i: int) -> String {
        if i == 0 {
            self.location
        } else if i == 1 {
            self.altitude
        } else if i == 2 {
            self.azimuth
        } else if i == 3 {
            self.year
        } else if i == 4 {
            self.month
        } else if i == 5 {
            self.day
        } else if i == 6 {
            self.hour
        } else if i == 7 {
            self.minute
        } else {
            self.second
        }
    }

    /// The position of the field an edit message is about and its new
    /// text; `None` for the look-up request.
    pub open spec fn edit_of(message: Message) -> Option<(int, String)> {
        match message {
            Message::LocationChanged(s) => Some((0, s)),
            Message::AltitudeChanged(s) => Some((1, s)),
            Message::AzimuthChanged(s) => Some((2, s)),
            Message::YearChanged(s) => Some((3, s)),
            Message::MonthChanged(s) => Some((4, s)),
            Message::DayChanged(s) => Some((5, s)),
            Message::HourChanged(s) => Some((6, s)),
            Message::MinuteChanged(s) => Some((7, s)),
            Message::SecondChanged(s) => Some((8, s)),
            Message::FetchStar => None,
        }
    }

    pub open spec fn action_for(message: Message) -> Action {
        match message {
            Message::FetchStar => Action::FetchStar,
            _ => Action::Nothing,
        }
    }

    /// An empty form.
    pub fn new() -> (form: ObservationForm)
        ensures
            form.all_empty(),
    {
        ObservationForm {
            location: String::new(),
            altitude: String::new(),
            azimuth: String::new(),
            year: String::new(),
            month: String::new(),
            day: String::new(),
            hour: String::new(),
            minute: String::new(),
            second: String::new(),
        }
    }

    /// Applies one event of the window to the form and says whether a star
    /// has to be looked up.
    pub fn update(&mut self, message: Message) -> (action: Action)
        ensures
            *final(self) == old(self).after(message),
            action == ObservationForm::action_for(message),
            message is FetchStar ==> action == Action::FetchStar && *final(self) == *old(self),
            !(message is FetchStar) ==> action == Action::Nothing,
            forall|i: int|
                0 <= i < 9 ==> #[trigger] final(self).field(i) == match ObservationForm::edit_of(
                    message,
                ) {
                    Some((j, text)) => if j == i {
                        text
                    } else {
                        old(self).field(i)
                    },
                    None => old(self).field(i),
                },
    {
        match message {
            Message::LocationChanged(location) => {
                self.location = location;
                Action::Nothing
            },
            Message::AltitudeChanged(altitude) => {
                self.altitude = altitude;
                Action::Nothing
            },
            Message::AzimuthChanged(azimuth) => {
                self.azimuth = azimuth;
                Action::Nothing
            },
            Message::YearChanged(year) => {
                self.year = year;
                Action::Nothing
            },
            Message::MonthChanged(month) => {
                self.month = month;
                Action::Nothing
            },
            Message::DayChanged(day) => {
                self.day = day;
                Action::Nothing
            },
            Message::HourChanged(hour) => {
                self.hour = hour;
                Action::Nothing
            },
            Message::MinuteChanged(minute) => {
                self.minute = minute;
                Action::Nothing
            },
            Message::SecondChanged(second) => {
                self.second = second;
                Action::Nothing
            },
            Message::FetchStar => Action::FetchStar,
        }
    }
}

/// Law: a look-up request leaves every field of the form as it was.
pub proof fn law_fetch_leaves_form(f: ObservationForm)
    ensures
        f.after(Message::FetchStar) == f,
        ObservationForm::action_for(Message::FetchStar) == Action::FetchStar,
{
}

/// Law: an edit sets the field it names to its text, leaves the other eight
/// fields as they were, and asks for no look-up.
pub proof fn law_edit_changes_only_its_field(f: ObservationForm, message: Message, i: int)
    requires
        0 <= i < 9,
        ObservationForm::edit_of(message) is Some,
    ensures
        ({
            let (j, text) = ObservationForm::edit_of(message).unwrap();
            &&& 0 <= j < 9
            &&& f.after(message).field(j) == text
            &&& i != j ==> f.after(message).field(i) == f.field(i)
            &&& ObservationForm::action_for(message) == Action::Nothing
        }),
{
}

} // verus!
