use filedrop::config::Config;
use filedrop::error::ServiceError;

#[test]
fn default_configuration() {
    let config = Config::default();
    assert_eq!(config.min_file_size_limit, 50 * 1024 * 1024);
    assert_eq!(config.max_file_size_limit, 5 * 1024 * 1024 * 1024);
    assert_eq!(config.max_total_size_per_request, 10 * 1024 * 1024 * 1024);
    assert_eq!(config.stream_threshold, 50 * 1024 * 1024);
    assert_eq!(config.temp_directory, "./temp");
    assert_eq!(config.bind_address, "0.0.0.0:3000");
    assert_eq!(config.memory_pool_ratio_ppm, 500_000);
    assert_eq!(config.reserved_memory_mb, 200);
    assert_eq!(config.rate_limit_requests_per_minute, 60);
    assert_eq!(config.rate_limit_window_seconds, 60);
    assert_eq!(config.database_url, None);
    assert_eq!(config.redis_url, None);
}

#[test]
fn every_failure_has_its_status() {
    assert_eq!(ServiceError::Validation.status_code(), 400);
    assert_eq!(ServiceError::Capacity.status_code(), 413);
    assert_eq!(ServiceError::RateLimit.status_code(), 429);
    assert_eq!(ServiceError::NotFound.status_code(), 404);
    assert_eq!(ServiceError::Backend.status_code(), 500);
    assert_eq!(ServiceError::Lock.status_code(), 500);
}

#[test]
fn main_items_are_reachable_from_the_crate_root() {
    let config = filedrop::Config::default();
    let mut pool = filedrop::MemoryPool::new(10);
    assert!(filedrop::try_allocate_memory(&mut pool, 10));
    filedrop::deallocate_memory(&mut pool, 10);
    assert_eq!(pool.allocated(), 0);
    assert_eq!(filedrop::sanitize_filename("a/b"), "ab");
    assert_eq!(filedrop::generate_short_code(0, 0, 0).len(), 8);
    assert_eq!(config.rate_limit_requests_per_minute, 60);
}
