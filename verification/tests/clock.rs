use session_auth::clock::{moment, now};

#[test]
fn a_moment_is_in_reach_up_to_seven_days_before_the_end() {
    assert_eq!(moment(0), Some(0));
    assert_eq!(moment(-1), Some(-1));
    assert_eq!(moment(i64::MIN), Some(i64::MIN));
    assert_eq!(moment(1_700_000_000), Some(1_700_000_000));
    assert_eq!(moment(i64::MAX - 604_800), Some(i64::MAX - 604_800));
    assert_eq!(moment(i64::MAX - 604_799), None);
    assert_eq!(moment(i64::MAX), None);
}

#[test]
fn the_clock_tells_a_moment_of_this_century() {
    let first = now().unwrap();
    let second = now().unwrap();
    // from the first of January 2020 to the first of January 2100
    assert!(1_577_836_800 <= first && first < 4_102_444_800);
    assert!(first <= second && second - first < 60);
}
