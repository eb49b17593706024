use acme_svc::clock::{Clock, FakeClock, SystemClock, TIME_MAX_NS, TIME_MIN_NS};

#[test]
fn a_fake_clock_moves_only_when_told() {
    let mut clock = FakeClock::at_epoch();
    assert_eq!(clock.now(), 0);
    clock.advance(1_500);
    assert_eq!(clock.now(), 1_500);
    clock.set(-7);
    assert_eq!(clock.now(), -7);
    assert_eq!(FakeClock::new(TIME_MAX_NS).now(), TIME_MAX_NS);
}

#[test]
fn the_system_clock_reads_a_representable_time_after_2020() {
    let now = SystemClock.now();
    assert!(TIME_MIN_NS <= now && now <= TIME_MAX_NS);
    assert!(now > 1_577_836_800 * 1_000_000_000);
}

#[test]
fn the_representable_range_matches_the_time_crate() {
    assert_eq!(
        time::OffsetDateTime::from_unix_timestamp_nanos(TIME_MIN_NS).map(|t| t.year()),
        Ok(-9999)
    );
    assert!(time::OffsetDateTime::from_unix_timestamp_nanos(TIME_MIN_NS - 1).is_err());
    assert_eq!(
        time::OffsetDateTime::from_unix_timestamp_nanos(TIME_MAX_NS).map(|t| t.year()),
        Ok(9999)
    );
    assert!(time::OffsetDateTime::from_unix_timestamp_nanos(TIME_MAX_NS + 1).is_err());
}
