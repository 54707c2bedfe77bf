use star_map::lookup::{LookupAction, LookupEvent, LookupStage, StarLookup};

fn stars(name: &str) -> Vec<String> {
    (0..8).map(|i| format!("{}{}", name, i)).collect()
}

#[test]
fn new_lookup_is_idle_and_empty() {
    let sky: StarLookup<f64> = StarLookup::new(0.0);
    assert_eq!(sky.stage, LookupStage::Idle);
    assert_eq!(sky.utc_offset, 0);
    assert_eq!(sky.brightest_star.len(), 8);
    assert!(sky.closest_star.iter().all(|s| s.is_empty()));
    assert!(matches!(sky.next_action(), LookupAction::Done));
}

#[test]
fn successful_lookup_passes_each_result_on() {
    let mut sky: StarLookup<f64> = StarLookup::new(0.0);
    assert!(matches!(sky.start(), LookupAction::FindEpoch { utc_offset: 0 }));
    assert!(matches!(
        sky.advance(LookupEvent::Epoch(Some(1603683810))),
        LookupAction::FindLocation { epoch: 1603683810 }
    ));
    match sky.advance(LookupEvent::Location(Some((47.359, 121.986, 8)))) {
        LookupAction::FindEquatorial { latitude, longitude, utc_offset } => {
            assert_eq!((latitude, longitude, utc_offset), (47.359, 121.986, 8));
        }
        other => panic!("unexpected {:?}", other),
    }
    match sky.advance(LookupEvent::Equatorial(Some((101.28, -16.71)))) {
        LookupAction::FindStar { ra, dec } => assert_eq!((ra, dec), (101.28, -16.71)),
        other => panic!("unexpected {:?}", other),
    }
    assert!(matches!(
        sky.advance(LookupEvent::Stars(Some((stars("b"), stars("c"))))),
        LookupAction::Done
    ));
    assert_eq!(sky.brightest_star, stars("b"));
    assert_eq!(sky.closest_star, stars("c"));
    assert_eq!(sky.utc_offset, 8);
    assert_eq!(sky.stage, LookupStage::Idle);
}

#[test]
fn failed_steps_keep_what_was_there() {
    let mut sky: StarLookup<f64> = StarLookup::new(0.0);
    sky.start();
    sky.advance(LookupEvent::Epoch(Some(5)));
    sky.advance(LookupEvent::Location(Some((1.5, 2.5, -3))));
    sky.advance(LookupEvent::Equatorial(Some((3.0, 4.0))));
    sky.advance(LookupEvent::Stars(Some((stars("b"), stars("c")))));

    assert!(matches!(sky.start(), LookupAction::FindEpoch { utc_offset: -3 }));
    assert!(matches!(
        sky.advance(LookupEvent::Epoch(None)),
        LookupAction::FindLocation { epoch: -1 }
    ));
    match sky.advance(LookupEvent::Location(None)) {
        LookupAction::FindEquatorial { latitude, longitude, utc_offset } => {
            assert_eq!((latitude, longitude, utc_offset), (1.5, 2.5, -3));
        }
        other => panic!("unexpected {:?}", other),
    }
    match sky.advance(LookupEvent::Equatorial(None)) {
        LookupAction::FindStar { ra, dec } => assert_eq!((ra, dec), (0.0, 0.0)),
        other => panic!("unexpected {:?}", other),
    }
    assert!(matches!(sky.advance(LookupEvent::Stars(None)), LookupAction::Done));
    assert_eq!(sky.brightest_star, stars("b"));
    assert_eq!(sky.closest_star, stars("c"));
}

#[test]
fn out_of_turn_outcome_changes_nothing() {
    let mut sky: StarLookup<f64> = StarLookup::new(0.0);
    assert!(matches!(sky.advance(LookupEvent::Epoch(Some(7))), LookupAction::Done));
    assert_eq!(sky.epoch, -1);
    sky.start();
    assert!(matches!(
        sky.advance(LookupEvent::Location(Some((1.0, 1.0, 1)))),
        LookupAction::FindEpoch { utc_offset: 0 }
    ));
    assert_eq!(sky.utc_offset, 0);
    assert_eq!(sky.latitude, 0.0);
}
