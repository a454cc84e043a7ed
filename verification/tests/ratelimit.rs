use filedrop::config::Config;
use filedrop::error::ServiceError;
use filedrop::health::{Health, HealthIndicator, PrimaryOutcome};
use filedrop::ratelimit::{
    check_rate_limit, check_rate_limit_memory, count_request, primary_counter_update,
    stale_cutoff, window_cutoff, CounterUpdate, RateLimitStorage, RateWindow, NANOS_PER_SECOND,
};

fn limits(limit: u32, window_seconds: u64) -> Config {
    let mut config = Config::default();
    config.rate_limit_requests_per_minute = limit;
    config.rate_limit_window_seconds = window_seconds;
    config
}

#[test]
fn sixty_requests_pass_and_the_next_is_rejected() {
    let config = limits(60, 60);
    let mut storage = RateLimitStorage::new();
    let start = 5 * NANOS_PER_SECOND;
    for i in 0..60u64 {
        let now = start + i * (NANOS_PER_SECOND / 2);
        assert_eq!(check_rate_limit_memory("10.0.0.1", &mut storage, &config, now), Ok(()));
    }
    let now = start + 31 * NANOS_PER_SECOND;
    assert_eq!(
        check_rate_limit_memory("10.0.0.1", &mut storage, &config, now),
        Err(ServiceError::RateLimit)
    );
    assert_eq!(storage.get("10.0.0.1"), Some(RateWindow { window_start: start, count: 61 }));
}

#[test]
fn client_is_let_through_again_once_the_window_is_over() {
    let config = limits(3, 10);
    let mut storage = RateLimitStorage::new();
    let verdicts: Vec<bool> = (0..5u64)
        .map(|i| check_rate_limit_memory("c", &mut storage, &config, 100 + i).is_ok())
        .collect();
    assert_eq!(verdicts, vec![true, true, true, false, false]);
    assert_eq!(storage.get("c"), Some(RateWindow { window_start: 100, count: 5 }));
    let at_edge = 100 + 10 * NANOS_PER_SECOND;
    assert!(check_rate_limit_memory("c", &mut storage, &config, at_edge).is_err());
    assert_eq!(storage.get("c"), Some(RateWindow { window_start: 100, count: 6 }));
    let later = at_edge + 1;
    assert!(check_rate_limit_memory("c", &mut storage, &config, later).is_ok());
    assert_eq!(storage.get("c"), Some(RateWindow { window_start: later, count: 1 }));
    assert!(check_rate_limit_memory("c", &mut storage, &config, later + 1).is_ok());
    assert!(check_rate_limit_memory("c", &mut storage, &config, later + 2).is_ok());
    assert!(check_rate_limit_memory("c", &mut storage, &config, later + 3).is_err());
}

#[test]
fn clients_are_counted_apart() {
    let config = limits(1, 60);
    let mut storage = RateLimitStorage::new();
    assert!(check_rate_limit_memory("a", &mut storage, &config, 1).is_ok());
    assert!(check_rate_limit_memory("b", &mut storage, &config, 2).is_ok());
    assert!(check_rate_limit_memory("a", &mut storage, &config, 3).is_err());
    assert!(check_rate_limit_memory("b", &mut storage, &config, 4).is_err());
    assert_eq!(storage.len(), 2);
    assert_eq!(storage.get("c"), None);
}

#[test]
fn one_request_is_counted_exactly() {
    let fresh = count_request(None, 42, 60, 1);
    assert_eq!(fresh, (RateWindow { window_start: 42, count: 1 }, true));
    let refused = count_request(None, 42, 60, 0);
    assert_eq!(refused, (RateWindow { window_start: 42, count: 1 }, false));
    let running = RateWindow { window_start: 42, count: 4 };
    assert_eq!(
        count_request(Some(running), 43, 60, 5),
        (RateWindow { window_start: 42, count: 5 }, true)
    );
    assert_eq!(
        count_request(Some(running), 43, 60, 4),
        (RateWindow { window_start: 42, count: 5 }, false)
    );
    let over = 42 + 60 * NANOS_PER_SECOND + 1;
    assert_eq!(
        count_request(Some(running), over, 60, 4),
        (RateWindow { window_start: over, count: 1 }, true)
    );
    assert_eq!(
        count_request(Some(running), over, 60, 0),
        (RateWindow { window_start: over, count: 1 }, true)
    );
}

#[test]
fn clock_that_runs_back_counts_as_no_time_passed() {
    let running = RateWindow { window_start: 1_000, count: 1 };
    assert_eq!(
        count_request(Some(running), 10, 0, 5),
        (RateWindow { window_start: 1_000, count: 2 }, true)
    );
    assert_eq!(
        count_request(Some(running), 1_001, 0, 5),
        (RateWindow { window_start: 1_001, count: 1 }, true)
    );
}

#[test]
fn count_stops_at_the_largest_value() {
    let full = RateWindow { window_start: 0, count: u32::MAX };
    assert_eq!(
        count_request(Some(full), 1, u64::MAX, u32::MAX),
        (RateWindow { window_start: 0, count: u32::MAX }, false)
    );
    let nearly = RateWindow { window_start: 0, count: u32::MAX - 1 };
    assert_eq!(
        count_request(Some(nearly), u64::MAX, u64::MAX, u32::MAX),
        (RateWindow { window_start: 0, count: u32::MAX }, true)
    );
}

#[test]
fn verdict_of_the_primary_backend_stands() {
    let config = limits(1, 60);
    let mut health = HealthIndicator::new(true);
    let mut storage = RateLimitStorage::new();
    let passed = check_rate_limit(
        "a",
        &mut health,
        &mut storage,
        &config,
        1,
        PrimaryOutcome::Succeeded(true),
    );
    assert_eq!(passed, Ok(()));
    let refused = check_rate_limit(
        "a",
        &mut health,
        &mut storage,
        &config,
        2,
        PrimaryOutcome::Succeeded(false),
    );
    assert_eq!(refused, Err(ServiceError::RateLimit));
    assert_eq!(storage.len(), 0);
    assert_eq!(health.health(), Health::Healthy);
}

#[test]
fn failure_of_the_primary_backend_falls_back_to_memory() {
    let config = limits(1, 60);
    let mut health = HealthIndicator::new(true);
    let mut storage = RateLimitStorage::new();
    let first =
        check_rate_limit("a", &mut health, &mut storage, &config, 1, PrimaryOutcome::Failed);
    assert_eq!(first, Ok(()));
    assert_eq!(health.health(), Health::Degraded);
    assert_eq!(storage.get("a"), Some(RateWindow { window_start: 1, count: 1 }));
    let second =
        check_rate_limit("a", &mut health, &mut storage, &config, 2, PrimaryOutcome::Skipped);
    assert_eq!(second, Err(ServiceError::RateLimit));
    assert_eq!(storage.get("a"), Some(RateWindow { window_start: 1, count: 2 }));
}

#[test]
fn rule_of_the_durable_backend() {
    assert_eq!(primary_counter_update(None, 60), CounterUpdate::Restart);
    assert_eq!(primary_counter_update(None, 0), CounterUpdate::Restart);
    assert_eq!(primary_counter_update(Some(59), 60), CounterUpdate::Increment);
    assert_eq!(primary_counter_update(Some(60), 60), CounterUpdate::Reject);
    assert_eq!(primary_counter_update(Some(61), 60), CounterUpdate::Reject);
    assert_eq!(primary_counter_update(Some(-1), 0), CounterUpdate::Increment);
    assert_eq!(primary_counter_update(Some(i32::MAX), u32::MAX), CounterUpdate::Increment);
}

#[test]
fn cutoff_of_the_running_window() {
    assert_eq!(window_cutoff(1_700_000_000, 60), 1_699_999_940);
    assert_eq!(window_cutoff(0, 60), -60);
    assert_eq!(window_cutoff(i64::MIN, 1), i64::MIN);
    assert_eq!(window_cutoff(0, u64::MAX), i64::MIN);
    assert_eq!(window_cutoff(i64::MAX, u64::MAX), i64::MIN);
    assert_eq!(window_cutoff(i64::MAX, 0), i64::MAX);
}

#[test]
fn counters_are_stale_after_ten_minutes() {
    assert_eq!(stale_cutoff(1_700_000_000), 1_699_999_400);
    assert_eq!(stale_cutoff(600), 0);
    assert_eq!(stale_cutoff(i64::MIN + 599), i64::MIN);
}
