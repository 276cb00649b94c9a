use janitor_services::publish::counts::bucket_mp_counts;
use janitor_services::publish::rate_limiter::RateLimiter;
use janitor_services::publish::web::blockers::LimiterAnswer;

fn counted(limiter: &mut RateLimiter, rows: &[(&str, &str, i64)]) {
    let rows = rows
        .iter()
        .map(|(bucket, status, n)| (bucket.to_string(), status.to_string(), *n))
        .collect();
    limiter.set_mps_per_bucket(&bucket_mp_counts(&rows));
}

#[test]
fn without_a_limit_everything_is_allowed() {
    let mut limiter = RateLimiter::new(false, None);
    assert_eq!(limiter.check_allowed("b"), LimiterAnswer::Allowed);
    assert_eq!(limiter.get_max_open("b"), None);
    counted(&mut limiter, &[("b", "open", 1000)]);
    assert_eq!(limiter.check_allowed("b"), LimiterAnswer::Allowed);
    assert_eq!(limiter.get_open("b"), Some(1000));
}

#[test]
fn a_fixed_limit_waits_for_the_count() {
    let mut limiter = RateLimiter::new(false, Some(2));
    assert_eq!(
        limiter.check_allowed("b"),
        LimiterAnswer::Full { open: None, max_open: Some(2) }
    );
    limiter.inc("b");
    assert_eq!(limiter.get_open("b"), None);
    counted(&mut limiter, &[("b", "open", 1), ("b", "merged", 7)]);
    assert_eq!(limiter.check_allowed("b"), LimiterAnswer::Allowed);
    assert_eq!(limiter.check_allowed("other"), LimiterAnswer::Allowed);
}

#[test]
fn opened_proposals_fill_their_bucket() {
    let mut limiter = RateLimiter::new(false, Some(2));
    counted(&mut limiter, &[("b", "open", 1)]);
    limiter.inc("b");
    assert_eq!(
        limiter.check_allowed("b"),
        LimiterAnswer::Full { open: Some(2), max_open: Some(2) }
    );
    assert_eq!(limiter.check_allowed("other"), LimiterAnswer::Allowed);
    limiter.inc("other");
    assert_eq!(
        limiter.buckets(),
        vec![
            ("b".to_string(), 2, Some(2)),
            ("other".to_string(), 1, Some(2)),
        ]
    );
}

#[test]
fn a_slow_start_grows_with_what_is_absorbed() {
    let mut limiter = RateLimiter::new(true, Some(4));
    counted(
        &mut limiter,
        &[
            ("new", "open", 1),
            ("known", "open", 3),
            ("known", "merged", 2),
            ("known", "applied", 1),
            ("old", "applied", 100),
            ("shut", "closed", 5),
        ],
    );
    assert_eq!(limiter.get_max_open("new"), Some(1));
    assert_eq!(limiter.get_max_open("known"), Some(4));
    assert_eq!(limiter.get_max_open("old"), Some(4));
    assert_eq!(limiter.get_max_open("shut"), Some(1));
    assert_eq!(
        limiter.check_allowed("new"),
        LimiterAnswer::Full { open: Some(1), max_open: Some(1) }
    );
    assert_eq!(limiter.check_allowed("known"), LimiterAnswer::Allowed);
    assert_eq!(RateLimiter::new(true, None).get_max_open("new"), Some(1));
}
