use chrono::{DateTime, Duration, Utc};
use janitor_services::publish::backoff::calculate_next_try_time;
use janitor_services::time::Timestamp;

fn stamp(t: DateTime<Utc>) -> Timestamp {
    Timestamp { secs: t.timestamp(), nanos: t.timestamp_subsec_nanos() }
}

fn nanos(t: Timestamp) -> i128 {
    t.secs as i128 * 1_000_000_000 + t.nanos as i128
}

fn parse(text: &str) -> DateTime<Utc> {
    DateTime::parse_from_rfc3339(text).unwrap().with_timezone(&Utc)
}

fn next(finish_time: DateTime<Utc>, attempts: usize) -> Timestamp {
    calculate_next_try_time(stamp(finish_time), attempts)
}

#[test]
fn test_calculate_next_try_time_zero_attempts() {
    let finish_time = Utc::now();
    assert_eq!(next(finish_time, 0), stamp(finish_time));
}

#[test]
fn test_calculate_next_try_time_exponential_backoff() {
    let finish_time = Utc::now();
    assert_eq!(next(finish_time, 1), stamp(finish_time + Duration::hours(2)));
    assert_eq!(next(finish_time, 2), stamp(finish_time + Duration::hours(4)));
    assert_eq!(next(finish_time, 3), stamp(finish_time + Duration::hours(8)));
    assert_eq!(next(finish_time, 4), stamp(finish_time + Duration::hours(16)));
}

#[test]
fn test_calculate_next_try_time_max_7_days() {
    let finish_time = Utc::now();
    assert_eq!(next(finish_time, 10), stamp(finish_time + Duration::days(7)));
    assert_eq!(next(finish_time, 20), stamp(finish_time + Duration::days(7)));
}

#[test]
fn test_calculate_next_try_time_monotonically_increasing() {
    let finish_time = Utc::now();
    let mut previous = nanos(stamp(finish_time));
    for i in 0..=10 {
        let following = nanos(next(finish_time, i));
        assert!(
            following >= previous,
            "attempt {} should be >= attempt {}",
            i,
            i.saturating_sub(1)
        );
        previous = following;
    }
}

#[test]
fn zero_attempts_returns_immediate() {
    let finish_time = Utc::now();
    assert_eq!(next(finish_time, 0), stamp(finish_time));
}

#[test]
fn exponential_backoff_progression() {
    let finish_time = parse("2023-01-01T00:00:00Z");
    for (attempts, expected_hours) in
        [(1, 2), (2, 4), (3, 8), (4, 16), (5, 32), (6, 64), (7, 128)]
    {
        assert_eq!(
            next(finish_time, attempts),
            stamp(finish_time + Duration::hours(expected_hours)),
            "attempt_count={} expected {}h",
            attempts,
            expected_hours
        );
    }
}

#[test]
fn caps_at_seven_days() {
    let finish_time = parse("2023-01-01T00:00:00Z");
    for attempts in [8, 10, 15, 20, 100] {
        assert_eq!(next(finish_time, attempts), stamp(finish_time + Duration::days(7)));
    }
}

#[test]
fn cap_transition_between_seven_and_eight_attempts() {
    let finish_time = Utc::now();
    assert_eq!(next(finish_time, 7), stamp(finish_time + Duration::hours(128)));
    assert_eq!(next(finish_time, 8), stamp(finish_time + Duration::days(7)));
}

#[test]
fn exponential_backoff_gates_re_runs() {
    let now = Utc::now();
    let old_finish = now - Duration::hours(10);
    for attempts in [0, 1, 2, 3] {
        let next = next(old_finish, attempts);
        assert!(!stamp(now).is_before(next), "attempts={} should be ready", attempts);
    }
    assert!(stamp(now).is_before(next(old_finish, 4)));
}

#[test]
fn backoff_from_fixed_base_time() {
    let base = parse("2023-06-15T09:00:00Z");
    for (attempts, iso) in [
        (1, "2023-06-15T11:00:00Z"),
        (2, "2023-06-15T13:00:00Z"),
        (3, "2023-06-15T17:00:00Z"),
        (4, "2023-06-16T01:00:00Z"),
    ] {
        assert_eq!(next(base, attempts), stamp(parse(iso)));
    }
}

#[test]
fn backoff_keeps_fractions_of_a_second() {
    let finish_time = Timestamp { secs: 1_700_000_000, nanos: 5 };
    assert_eq!(
        calculate_next_try_time(finish_time, usize::MAX),
        Timestamp { secs: 1_700_604_800, nanos: 5 }
    );
}
