//! The configuration surface that the core consumes.

use vstd::prelude::*;
use vstd::string::*;

verus! {

/// Limits and targets of one service instance. Sizes are in bytes unless the
/// field name says otherwise.
#[derive(Clone, Debug)]
pub struct Config {
    pub min_file_size_limit: u64,
    /// Hard cap on one uploaded file.
    pub max_file_size_limit: u64,
    /// Hard cap on the sum of the files of one request.
    pub max_total_size_per_request: u64,
    /// Files below this size are candidates for the memory tier.
    pub stream_threshold: u64,
    pub temp_directory: String,
    pub bind_address: String,
    /// Share of the usable memory given to the pool, in parts per million.
    pub memory_pool_ratio_ppm: u32,
    /// Memory left to the rest of the machine, in mebibytes.
    pub reserved_memory_mb: u64,
    pub rate_limit_requests_per_minute: u32,
    pub rate_limit_window_seconds: u64,
    pub database_url: Option<String>,
    pub redis_url: Option<String>,
}

impl Default for Config {
    fn default() -> (config: Config)
        ensures
            config.min_file_size_limit == 52_428_800,
            config.max_file_size_limit == 5_368_709_120,
            config.max_total_size_per_request == 10_737_418_240,
            config.stream_threshold == 52_428_800,
            config.temp_directory@ == "./temp"@,
            config.bind_address@ == "0.0.0.0:3000"@,
            config.memory_pool_ratio_ppm == 500_000,
            config.reserved_memory_mb == 200,
            config.rate_limit_requests_per_minute == 60,
            config.rate_limit_window_seconds == 60,
            config.database_url is None,
            config.redis_url is None,
    {
        Config {
            min_file_size_limit: 52_428_800,
            max_file_size_limit: 5_368_709_120,
            max_total_size_per_request: 10_737_418_240,
            stream_threshold: 52_428_800,
            temp_directory: String::from_str("./temp"),
            bind_address: String::from_str("0.0.0.0:3000"),
            memory_pool_ratio_ppm: 500_000,
            reserved_memory_mb: 200,
            rate_limit_requests_per_minute: 60,
            rate_limit_window_seconds: 60,
            database_url: None,
            redis_url: None,
        }
    }
}

} // verus!
