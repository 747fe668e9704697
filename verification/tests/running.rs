use buddy2api::running::{cached_workbuddy_running, RunningCache, RunningLook, FRESH_MILLIS};
use buddy2api::variant::WbVariant;

#[test]
fn a_look_counts_for_three_seconds_and_its_own_site() {
    let look = |running| Some(RunningLook { variant: WbVariant::Cn, running });
    assert_eq!(FRESH_MILLIS, 3000);
    assert_eq!(cached_workbuddy_running(look(true), 0, WbVariant::Cn), Some(true));
    assert_eq!(cached_workbuddy_running(look(false), 2999, WbVariant::Cn), Some(false));
    assert_eq!(cached_workbuddy_running(look(true), 3000, WbVariant::Cn), None);
    assert_eq!(cached_workbuddy_running(look(true), 0, WbVariant::Ai), None);
    assert_eq!(cached_workbuddy_running(None, 0, WbVariant::Cn), None);
}

#[test]
fn each_site_has_a_look_of_its_own() {
    let mut cache = RunningCache::new(true);
    assert!(cache.running(WbVariant::Cn, 10_000, || (true, 10_000)));
    assert!(!cache.running(WbVariant::Ai, 11_000, || (false, 11_000)));
    // Asking about the other site took nothing from the first look.
    assert!(cache.running(WbVariant::Cn, 12_000, || panic!("looked again")));
    assert!(!cache.running(WbVariant::Ai, 13_999, || panic!("looked again")));
    // The look at the domestic client is too old by now.
    assert_eq!(cache.known(WbVariant::Cn, 12_999), Some(true));
    assert_eq!(cache.known(WbVariant::Cn, 13_000), None);
    assert!(!cache.running(WbVariant::Cn, 13_000, || (false, 13_500)));
    assert_eq!(cache.known(WbVariant::Cn, 16_499), Some(false));
    assert_eq!(cache.known(WbVariant::Cn, 16_500), None);
}

#[test]
fn noting_one_site_leaves_the_other() {
    for (site, other) in [(WbVariant::Cn, WbVariant::Ai), (WbVariant::Ai, WbVariant::Cn)] {
        let mut cache = RunningCache::new(true);
        cache.note(site, true, 500);
        assert_eq!(cache.known(site, 500), Some(true));
        // A clock that seems to run backwards makes no look old.
        assert_eq!(cache.known(site, 0), Some(true));
        assert_eq!(cache.known(other, 500), None);
        cache.note(other, false, 600);
        assert_eq!(cache.known(site, 600), Some(true));
        assert_eq!(cache.known(other, 600), Some(false));
    }
}

#[test]
fn looks_that_are_not_kept_are_taken_anew() {
    let mut cache = RunningCache::new(false);
    assert!(cache.running(WbVariant::Cn, 0, || (true, 0)));
    assert_eq!(cache.known(WbVariant::Cn, 0), None);
    assert!(!cache.running(WbVariant::Cn, 0, || (false, 0)));
}
