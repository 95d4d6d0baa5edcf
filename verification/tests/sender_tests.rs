use udp_traffic_generator::sender::{
    cycle_stats, generate_payloads, remaining_sleep, CycleTally, NANOS_PER_SEC,
};

#[test]
fn cycle_with_failures_counts_only_successes() {
    let s = cycle_stats(5, 10, 2);
    assert_eq!(s.packets, 3);
    assert_eq!(s.bytes, 30);
}

#[test]
fn cycle_without_failures_counts_everything() {
    let s = cycle_stats(5, 10, 0);
    assert_eq!(s.packets, 5);
    assert_eq!(s.bytes, 50);
}

#[test]
fn cycle_where_every_send_fails_reports_zero() {
    let s = cycle_stats(2, 10, 2);
    assert_eq!(s.packets, 0);
    assert_eq!(s.bytes, 0);
}

#[test]
fn tally_tracks_attempts_and_failures() {
    let mut t = CycleTally::new();
    t.record(true);
    t.record(false);
    t.record(true);
    t.record(false);
    t.record(true);
    assert_eq!(t.attempts, 5);
    assert_eq!(t.failures, 2);
    let s = t.stats(10);
    assert_eq!(s.packets, 3);
    assert_eq!(s.bytes, 30);
}

#[test]
fn tally_of_only_failures_reports_zero() {
    let mut t = CycleTally::new();
    t.record(false);
    t.record(false);
    let s = t.stats(10);
    assert_eq!(s.packets, 0);
    assert_eq!(s.bytes, 0);
}

#[test]
fn fast_cycle_sleeps_out_the_second() {
    assert_eq!(remaining_sleep(300_000_000), 700_000_000);
}

#[test]
fn instant_cycle_sleeps_the_whole_second() {
    assert_eq!(remaining_sleep(0), NANOS_PER_SEC);
}

#[test]
fn exact_second_cycle_does_not_sleep() {
    assert_eq!(remaining_sleep(NANOS_PER_SEC), 0);
}

#[test]
fn overrunning_cycle_does_not_sleep() {
    assert_eq!(remaining_sleep(3 * NANOS_PER_SEC), 0);
}

#[test]
fn payload_has_the_configured_length() {
    let p = generate_payloads(16);
    assert_eq!(p.len(), 16);
}

#[test]
fn empty_payload_is_allowed() {
    let p = generate_payloads(0);
    assert!(p.is_empty());
}
