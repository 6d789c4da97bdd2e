use crate::model::{is_score_in_range, score_in_range};
use vstd::prelude::*;

verus! {

/// Which sources take part in an enrichment.
#[derive(Debug, Clone, Copy, PartialEq, Eq, Structural)]
pub struct ApiSettings {
    pub google_trends_enabled: bool,
    pub shopify_detection_enabled: bool,
    pub crunchbase_enabled: bool,
    pub trustpilot_enabled: bool,
    pub whois_enabled: bool,
}

/// Quota and time allowance of the trend-signal source.
#[derive(Debug, Clone, Copy, PartialEq, Eq, Structural)]
pub struct GoogleTrendsConfig {
    pub rate_limit_per_hour: u32,
    pub timeout_seconds: u64,
}

/// Quota and time allowance of the platform-detection source.
#[derive(Debug, Clone, Copy, PartialEq, Eq, Structural)]
pub struct ShopifyConfig {
    pub rate_limit_per_hour: u32,
    pub timeout_seconds: u64,
}

/// Credentials, quota and time allowance of the funding source.
#[derive(Debug, Clone)]
pub struct CrunchbaseConfig {
    pub api_key: String,
    pub rate_limit_per_hour: u32,
    pub timeout_seconds: u64,
}

/// Quota and time allowance of the rating source.
#[derive(Debug, Clone, Copy, PartialEq, Eq, Structural)]
pub struct TrustpilotConfig {
    pub rate_limit_per_hour: u32,
    pub timeout_seconds: u64,
}

/// Quota and time allowance of the registration-age source.
#[derive(Debug, Clone, Copy, PartialEq, Eq, Structural)]
pub struct WhoisConfig {
    pub rate_limit_per_hour: u32,
    pub timeout_seconds: u64,
}

/// Where cached results live and for how many hours they count as fresh.
#[derive(Debug, Clone)]
pub struct CacheConfig {
    pub database_path: String,
    pub cache_ttl_hours: i64,
    pub enable_redis: bool,
    pub redis_url: String,
}

/// The size of each kind of adjustment, in hundredths of a point.
#[derive(Debug, Clone, Copy, PartialEq, Eq, Structural)]
pub struct ScoringConfig {
    pub trending_boost: i64,
    pub shopify_boost: i64,
    pub funding_boost: i64,
    pub low_rating_penalty: i64,
    pub domain_age_boost: i64,
}

impl ScoringConfig {
    /// Every magnitude lies within the supported range.
    pub open spec fn in_range(&self) -> bool {
        &&& score_in_range(self.trending_boost as int)
        &&& score_in_range(self.shopify_boost as int)
        &&& score_in_range(self.funding_boost as int)
        &&& score_in_range(self.low_rating_penalty as int)
        &&& score_in_range(self.domain_age_boost as int)
    }

    /// Tests whether every magnitude lies within the supported range.
    pub fn check_range(&self) -> (r: bool)
        ensures
            r == self.in_range(),
    {
        is_score_in_range(self.trending_boost) && is_score_in_range(self.shopify_boost)
            && is_score_in_range(self.funding_boost) && is_score_in_range(
            self.low_rating_penalty,
        ) && is_score_in_range(self.domain_age_boost)
    }
}

impl Default for ScoringConfig {
    /// Twenty points for a trending domain, fifteen for a recognised shop
    /// platform, ten for funding, minus five for a low rating and five for an
    /// old domain.
    fn default() -> (scoring: ScoringConfig)
        ensures
            scoring.trending_boost == 2000,
            scoring.shopify_boost == 1500,
            scoring.funding_boost == 1000,
            scoring.low_rating_penalty == -500,
            scoring.domain_age_boost == 500,
            scoring.in_range(),
    {
        ScoringConfig {
            trending_boost: 2000,
            shopify_boost: 1500,
            funding_boost: 1000,
            low_rating_penalty: -500,
            domain_age_boost: 500,
        }
    }
}

/// Everything an enrichment engine is set up with.
#[derive(Debug, Clone)]
pub struct EnrichmentConfig {
    pub apis: ApiSettings,
    pub google_trends: GoogleTrendsConfig,
    pub shopify: ShopifyConfig,
    pub crunchbase: CrunchbaseConfig,
    pub trustpilot: TrustpilotConfig,
    pub whois: WhoisConfig,
    pub cache: CacheConfig,
    pub scoring: ScoringConfig,
}

} // verus!
