use just_watch::observe::observe;
use just_watch::word::bump_version;
use just_watch::word::is_closed;
use just_watch::word::mask_version;
use just_watch::word::set_closed;
use just_watch::Observation;
use just_watch::CLOSED_BIT;
use just_watch::VERSION_STEP;

#[test]
fn word_constants_pack_into_distinct_bits() {
    assert_eq!(CLOSED_BIT, 0b01);
    assert_eq!(VERSION_STEP, 0b10);
}

#[test]
fn fresh_word_is_open_at_version_zero() {
    assert!(!is_closed(0));
    assert_eq!(mask_version(0), 0);
}

#[test]
fn bumping_never_touches_the_closed_flag() {
    assert_eq!(bump_version(0), 2);
    assert_eq!(bump_version(2), 4);
    assert!(!is_closed(bump_version(4)));
    assert_eq!(bump_version(5), 7);
    assert!(is_closed(7));
    assert_eq!(mask_version(7), 6);
}

#[test]
fn closing_never_touches_the_version() {
    assert_eq!(set_closed(4), 5);
    assert_eq!(mask_version(set_closed(4)), 4);
    assert!(is_closed(set_closed(0)));
    assert_eq!(set_closed(set_closed(6)), set_closed(6));
}

#[test]
fn observation_reports_a_new_version_and_consumes_it() {
    assert_eq!(observe(0b10, 0), (Observation::Changed, 2));
    assert_eq!(observe(0b10, 2), (Observation::NoUpdateYet, 2));
}

#[test]
fn observation_of_a_closed_word_without_update_is_terminal() {
    assert_eq!(observe(0b11, 2), (Observation::ClosedNoUpdate, 2));
    assert_eq!(observe(0b01, 0), (Observation::ClosedNoUpdate, 0));
}

#[test]
fn observation_of_a_closed_word_with_update_changes_once() {
    let (first, seen) = observe(0b11, 0);
    assert_eq!(first, Observation::Changed);
    assert_eq!(seen, 2);
    assert_eq!(observe(0b11, seen), (Observation::ClosedNoUpdate, 2));
}
