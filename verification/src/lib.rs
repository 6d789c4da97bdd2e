pub mod cache;
pub mod config;
pub mod discovery;
pub mod engine;
pub mod laws;
pub mod model;
pub mod outside;
pub mod parallel;
pub mod policy;
pub mod providers;
pub mod rate_limiter;
pub mod storage;
pub mod text;

pub use cache::{CacheManager, CacheRecord};
pub use config::{
    ApiSettings, CacheConfig, CrunchbaseConfig, EnrichmentConfig, GoogleTrendsConfig,
    ScoringConfig, ShopifyConfig, TrustpilotConfig, WhoisConfig,
};
pub use engine::{
    ConfigError, EnrichError, EnrichmentEngine, Event, Observations, Pending, Phase, Request, Step,
};
pub use model::{EnrichedScore, EnrichmentData, ScoreAdjustment, SiteType};
pub use parallel::{DownloadResult, ParallelConfig};
pub use rate_limiter::{RateLimitExceeded, RateLimiter};
pub use storage::ParsedRecord;
