//! Admission and tiering core of a file drop service: a bounded memory pool,
//! streamed ingestion under size caps, the memory-or-disk tier choice, the
//! health indicator that routes between a durable and an in-process backend,
//! short aliases and a per-client rate limiter.

pub mod config;
pub mod coordinator;
pub mod download;
pub mod error;
pub mod filename;
pub mod health;
pub mod identifier;
pub mod ingest;
pub mod pool;
pub mod ratelimit;
pub mod record;
pub mod shortcode;
pub mod status;
pub mod storage;
pub mod tier;
pub mod upload;

pub use config::Config;
pub use coordinator::{resolve_id_or_short_code_db, store_file_mapping, store_short_url};
pub use download::{plan_download, DownloadPlan};
pub use error::ServiceError;
pub use filename::sanitize_filename;
pub use health::{Health, HealthIndicator, PrimaryOutcome, Route};
pub use ingest::{IngestStep, Ingestion};
pub use pool::{deallocate_memory, initialize_memory_pool, try_allocate_memory, MemoryPool};
pub use ratelimit::{check_rate_limit, check_rate_limit_memory, RateLimitStorage, RateWindow};
pub use record::{FileData, FileMapping};
pub use shortcode::generate_short_code;
pub use status::{health_check, HealthResponse, StorageStats};
pub use storage::{FileStorage, ShortUrlStorage};
pub use tier::{complete_promotion, select_tier, TierDecision};
pub use upload::{plan_upload, upload_response, UploadPlan, UploadResponse};
