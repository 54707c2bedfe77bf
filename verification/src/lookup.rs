//! Looking a star up: the order of the four outside steps (timestamp,
//! location, equatorial coordinates, catalogue), what each step is given, and
//! what is kept when a step fails.
//!
//! The caller performs each step and reports its outcome; the coordinates
//! are of a type chosen by the caller and are only passed along.
use vstd::prelude::*;

verus! {

/// Which outcome the look-up waits for.
#[derive(Clone, Copy, Debug, PartialEq, Eq, Structural)]
pub enum LookupStage {
    /// No look-up is running.
    Idle,
    Epoch,
    Location,
    Equatorial,
    Star,
}

/// The outside step the caller has to perform next.
#[derive(Debug)]
pub enum LookupAction<C> {
    /// Compute the UNIX timestamp of the observation with this UTC offset.
    FindEpoch { utc_offset: i32 },
    /// Ask for the location's coordinates and UTC offset at this timestamp.
    FindLocation { epoch: i64 },
    /// Convert the observed star's position for this place and offset.
    FindEquatorial { latitude: C, longitude: C, utc_offset: i32 },
    /// Ask the catalogue for stars near these equatorial coordinates.
    FindStar { ra: C, dec: C },
    /// The look-up is over.
    Done,
}

/// The outcome of an outside step; `None` when the step failed.
#[derive(Debug)]
pub enum LookupEvent<C> {
    Epoch(Option<i64>),
    Location(Option<(C, C, i32)>),
    Equatorial(Option<(C, C)>),
    Stars(Option<(Vec<String>, Vec<String>)>),
}

/// What the window knows besides the typed form: the place, its UTC offset,
/// the stars found last, and the look-up in progress.
#[derive(Debug)]
pub struct StarLookup<C> {
    pub latitude: C,
    pub longitude: C,
    pub utc_offset: i32,
    pub brightest_star: Vec<String>,
    pub closest_star: Vec<String>,
    /// The timestamp found in this look-up, -1 when it is not known.
    pub epoch: i64,
    pub ra: C,
    pub dec: C,
    pub stage: LookupStage,
    /// The coordinates a look-up starts from (zero).
    pub origin: C,
}

impl<C: Copy> StarLookup<C> {
    /// The step that the current stage waits for.
    pub open spec fn pending(self) -> LookupAction<C> {
        match self.stage {
            LookupStage::Idle => LookupAction::Done,
            LookupStage::Epoch => LookupAction::FindEpoch { utc_offset: self.utc_offset },
            LookupStage::Location => LookupAction::FindLocation { epoch: self.epoch },
            LookupStage::Equatorial => LookupAction::FindEquatorial {
                latitude: self.latitude,
                longitude: self.longitude,
                utc_offset: self.utc_offset,
            },
            LookupStage::Star => LookupAction::FindStar { ra: self.ra, dec: self.dec },
        }
    }

    /// The state after an outcome.  An outcome of the awaited step moves on
    /// to the next stage: a found timestamp, place, position or pair of stars
    /// replaces the old one, and a failed step keeps what was there (the
    /// timestamp stays unknown, the position stays at the origin).  An
    /// outcome of any other step changes nothing.
    pub open spec fn after(self, event: LookupEvent<C>) -> StarLookup<C> {
        match event {
            LookupEvent::Epoch(found) => if self.stage == LookupStage::Epoch {
                StarLookup {
                    epoch: match found {
                        Some(e) => e,
                        None => -1i64,
                    },
                    stage: LookupStage::Location,
                    ..self
                }
            } else {
                self
            },
            LookupEvent::Location(found) => if self.stage == LookupStage::Location {
                match found {
                    Some((latitude, longitude, utc_offset)) => StarLookup {
                        latitude,
                        longitude,
                        utc_offset,
                        stage: LookupStage::Equatorial,
                        ..self
                    },
                    None => StarLookup { stage: LookupStage::Equatorial, ..self },
                }
            } else {
                self
            },
            LookupEvent::Equatorial(found) => if self.stage == LookupStage::Equatorial {
                match found {
                    Some((ra, dec)) => StarLookup { ra, dec, stage: LookupStage::Star, ..self },
                    None => StarLookup { stage: LookupStage::Star, ..self },
                }
            } else {
                self
            },
            LookupEvent::Stars(found) => if self.stage == LookupStage::Star {
                match found {
                    Some((brightest, closest)) => StarLookup {
                        brightest_star: brightest,
                        closest_star: closest,
                        stage: LookupStage::Idle,
                        ..self
                    },
                    None => StarLookup { stage: LookupStage::Idle, ..self },
                }
            } else {
                self
            },
        }
    }

    /// No place or stars yet: the coordinates at `origin`, offset 0, eight
    /// empty fields for each star, no look-up running.
    pub fn new(origin: C) -> (lookup: StarLookup<C>)
        ensures
            lookup.latitude == origin,
            lookup.longitude == origin,
            lookup.ra == origin,
            lookup.dec == origin,
            lookup.origin == origin,
            lookup.utc_offset == 0,
            lookup.epoch == -1,
            lookup.stage == LookupStage::Idle,
            lookup.brightest_star@.len() == 8,
            lookup.closest_star@.len() == 8,
            forall|i: int|
                0 <= i < 8 ==> #[trigger] lookup.brightest_star@[i]@.len() == 0
                    && lookup.closest_star@[i]@.len() == 0,
    {
        let mut brightest_star: Vec<String> = Vec::new();
        let mut closest_star: Vec<String> = Vec::new();
        let mut i: usize = 0;
        while i < 8
            invariant
                i <= 8,
                brightest_star@.len() == i,
                closest_star@.len() == i,
                forall|j: int|
                    0 <= j < i ==> #[trigger] brightest_star@[j]@.len() == 0
                        && closest_star@[j]@.len() == 0,
            decreases 8 - i,
        {
            brightest_star.push(String::new());
            closest_star.push(String::new());
            i = i + 1;
        }
        StarLookup {
            latitude: origin,
            longitude: origin,
            utc_offset: 0,
            brightest_star,
            closest_star,
            epoch: -1,
            ra: origin,
            dec: origin,
            stage: LookupStage::Idle,
            origin,
        }
    }

    /// Starts a look-up: the timestamp is not known yet and the position is
    /// at the origin.  The first step is the timestamp, with the current UTC
    /// offset.
    pub fn start(&mut self) -> (action: LookupAction<C>)
        ensures
            *final(self) == started(*old(self)),
            final(self).epoch == -1,
            final(self).ra == old(self).origin,
            final(self).dec == old(self).origin,
            final(self).stage == LookupStage::Epoch,
            final(self).latitude == old(self).latitude,
            final(self).longitude == old(self).longitude,
            final(self).utc_offset == old(self).utc_offset,
            final(self).brightest_star == old(self).brightest_star,
            final(self).closest_star == old(self).closest_star,
            final(self).origin == old(self).origin,
            action == (LookupAction::<C>::FindEpoch { utc_offset: old(self).utc_offset }),
    {
        self.epoch = -1;
        self.ra = self.origin;
        self.dec = self.origin;
        self.stage = LookupStage::Epoch;
        LookupAction::FindEpoch { utc_offset: self.utc_offset }
    }

    /// Takes the outcome of a step and says which step comes next.
    pub fn advance(&mut self, event: LookupEvent<C>) -> (action: LookupAction<C>)
        ensures
            *final(self) == old(self).after(event),
            action == final(self).pending(),
            final(self).origin == old(self).origin,
            // The timestamp found goes to the location step.
            old(self).stage == LookupStage::Epoch ==> (event matches LookupEvent::Epoch(found) ==> {
                &&& final(self).epoch == (match found {
                    Some(e) => e,
                    None => -1i64,
                })
                &&& action == (LookupAction::<C>::FindLocation { epoch: final(self).epoch })
            }),
            // The place and offset found go to the conversion step; a failed
            // location step keeps the old ones.
            old(self).stage == LookupStage::Location ==> (event matches LookupEvent::Location(found)
                ==> {
                let (latitude, longitude, utc_offset) = match found {
                    Some(place) => place,
                    None => (old(self).latitude, old(self).longitude, old(self).utc_offset),
                };
                &&& final(self).latitude == latitude
                &&& final(self).longitude == longitude
                &&& final(self).utc_offset == utc_offset
                &&& action == (LookupAction::FindEquatorial { latitude, longitude, utc_offset })
            }),
            // The position found goes to the catalogue step; after a failed
            // conversion the catalogue is asked at the position the look-up
            // started from.
            old(self).stage == LookupStage::Equatorial ==> (event matches LookupEvent::Equatorial(
                found,
            ) ==> {
                let (ra, dec) = match found {
                    Some(position) => position,
                    None => (old(self).ra, old(self).dec),
                };
                &&& final(self).ra == ra
                &&& final(self).dec == dec
                &&& action == (LookupAction::FindStar { ra, dec })
            }),
            // The stars found are shown, the brightest as the brightest and
            // the closest as the closest; a failed catalogue step keeps the
            // stars shown before.
            old(self).stage == LookupStage::Star ==> (event matches LookupEvent::Stars(found) ==> {
                let (brightest, closest) = match found {
                    Some(pair) => pair,
                    None => (old(self).brightest_star, old(self).closest_star),
                };
                &&& final(self).brightest_star == brightest
                &&& final(self).closest_star == closest
                &&& final(self).stage == LookupStage::Idle
                &&& action == LookupAction::<C>::Done
            }),
    {
        match event {
            LookupEvent::Epoch(found) => {
                if let LookupStage::Epoch = self.stage {
                    self.epoch = match found {
                        Some(e) => e,
                        None => -1,
                    };
                    self.stage = LookupStage::Location;
                }
            },
            LookupEvent::Location(found) => {
                if let LookupStage::Location = self.stage {
                    if let Some((latitude, longitude, utc_offset)) = found {
                        self.latitude = latitude;
                        self.longitude = longitude;
                        self.utc_offset = utc_offset;
                    }
                    self.stage = LookupStage::Equatorial;
                }
            },
            LookupEvent::Equatorial(found) => {
                if let LookupStage::Equatorial = self.stage {
                    if let Some((ra, dec)) = found {
                        self.ra = ra;
                        self.dec = dec;
                    }
                    self.stage = LookupStage::Star;
                }
            },
            LookupEvent::Stars(found) => {
                if let LookupStage::Star = self.stage {
                    if let Some((brightest, closest)) = found {
                        self.brightest_star = brightest;
                        self.closest_star = closest;
                    }
                    self.stage = LookupStage::Idle;
                }
            },
        }
        self.next_action()
    }

    /// The step that the current stage waits for.
    pub fn next_action(&self) -> (action: LookupAction<C>)
        ensures
            action == self.pending(),
            self.stage == LookupStage::Idle ==> action == LookupAction::<C>::Done,
            self.stage == LookupStage::Epoch ==> action == (LookupAction::<C>::FindEpoch {
                utc_offset: self.utc_offset,
            }),
            self.stage == LookupStage::Location ==> action == (LookupAction::<C>::FindLocation {
                epoch: self.epoch,
            }),
            self.stage == LookupStage::Equatorial ==> action == (LookupAction::FindEquatorial {
                latitude: self.latitude,
                longitude: self.longitude,
                utc_offset: self.utc_offset,
            }),
            self.stage == LookupStage::Star ==> action == (LookupAction::FindStar {
                ra: self.ra,
                dec: self.dec,
            }),
    {
        match self.stage {
            LookupStage::Idle => LookupAction::Done,
            LookupStage::Epoch => LookupAction::FindEpoch { utc_offset: self.utc_offset },
            LookupStage::Location => LookupAction::FindLocation { epoch: self.epoch },
            LookupStage::Equatorial => LookupAction::FindEquatorial {
                latitude: self.latitude,
                longitude: self.longitude,
                utc_offset: self.utc_offset,
            },
            LookupStage::Star => LookupAction::FindStar { ra: self.ra, dec: self.dec },
        }
    }
}

/// The state after starting a look-up.
pub open spec fn started<C>(s: StarLookup<C>) -> StarLookup<C> {
    StarLookup { epoch: -1i64, ra: s.origin, dec: s.origin, stage: LookupStage::Epoch, ..s }
}

/// Law: a look-up whose four steps all fail ends idle with the place, the UTC
/// offset and the stars it started with.
pub proof fn law_failed_lookup_keeps_state<C: Copy>(s: StarLookup<C>)
    ensures
        ({
            let e = started(s).after(LookupEvent::Epoch(None));
            let l = e.after(LookupEvent::Location(None));
            let q = l.after(LookupEvent::Equatorial(None));
            let end = q.after(LookupEvent::Stars(None));
            &&& end.stage == LookupStage::Idle
            &&& end.latitude == s.latitude
            &&& end.longitude == s.longitude
            &&& end.utc_offset == s.utc_offset
            &&& end.brightest_star == s.brightest_star
            &&& end.closest_star == s.closest_star
            &&& e.pending() == (LookupAction::<C>::FindLocation { epoch: -1i64 })
            &&& q.pending() == (LookupAction::<C>::FindStar { ra: s.origin, dec: s.origin })
            &&& end.pending() == LookupAction::<C>::Done
        }),
{
}

/// Law: the place found by the location step is the place the conversion
/// step is given, with the UTC offset found with it.
pub proof fn law_location_feeds_conversion<C: Copy>(s: StarLookup<C>, latitude: C, longitude: C, utc_offset: i32)
    requires
        s.stage == LookupStage::Location,
    ensures
        s.after(LookupEvent::Location(Some((latitude, longitude, utc_offset)))).pending()
            == (LookupAction::FindEquatorial { latitude, longitude, utc_offset }),
{
}

/// Law: the location step is asked at the timestamp the look-up found,
/// whatever the UTC offset.
pub proof fn law_epoch_feeds_location<C: Copy>(s: StarLookup<C>, e: i64)
    requires
        s.stage == LookupStage::Epoch,
    ensures
        s.after(LookupEvent::Epoch(Some(e))).epoch == e,
        s.after(LookupEvent::Epoch(Some(e))).pending() == (LookupAction::<C>::FindLocation {
            epoch: e,
        }),
        s.after(LookupEvent::Epoch(Some(e))).utc_offset == s.utc_offset,
{
}

/// Law: waiting for the location, the look-up asks for it at its own
/// timestamp.
pub proof fn law_location_asked_at_epoch<C: Copy>(s: StarLookup<C>)
    requires
        s.stage == LookupStage::Location,
    ensures
        s.pending() == (LookupAction::<C>::FindLocation { epoch: s.epoch }),
{
}

/// Law: the catalogue is asked at the right ascension and declination that
/// the conversion found, in that order, whatever the UTC offset.
pub proof fn law_position_feeds_catalogue<C: Copy>(s: StarLookup<C>, ra: C, dec: C)
    requires
        s.stage == LookupStage::Equatorial,
    ensures
        s.after(LookupEvent::Equatorial(Some((ra, dec)))).ra == ra,
        s.after(LookupEvent::Equatorial(Some((ra, dec)))).dec == dec,
        s.after(LookupEvent::Equatorial(Some((ra, dec)))).pending() == (LookupAction::FindStar {
            ra,
            dec,
        }),
{
}

/// Law: the stars the catalogue step found are shown, the brightest as the
/// brightest and the closest as the closest, whatever the UTC offset, and the
/// look-up is over.
pub proof fn law_found_stars_shown<C: Copy>(
    s: StarLookup<C>,
    brightest: Vec<String>,
    closest: Vec<String>,
)
    requires
        s.stage == LookupStage::Star,
    ensures
        s.after(LookupEvent::Stars(Some((brightest, closest)))).brightest_star == brightest,
        s.after(LookupEvent::Stars(Some((brightest, closest)))).closest_star == closest,
        s.after(LookupEvent::Stars(Some((brightest, closest)))).pending()
            == LookupAction::<C>::Done,
{
}

/// Law: an outcome of a step other than the awaited one changes nothing.
pub proof fn law_out_of_turn_outcome_ignored<C: Copy>(s: StarLookup<C>, event: LookupEvent<C>)
    requires
        !(s.stage == LookupStage::Epoch && event is Epoch),
        !(s.stage == LookupStage::Location && event is Location),
        !(s.stage == LookupStage::Equatorial && event is Equatorial),
        !(s.stage == LookupStage::Star && event is Stars),
    ensures
        s.after(event) == s,
{
}

} // verus!
