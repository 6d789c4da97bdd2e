use jarvix::config::{
    ApiSettings, CacheConfig, CrunchbaseConfig, EnrichmentConfig, GoogleTrendsConfig,
    ScoringConfig, ShopifyConfig, TrustpilotConfig, WhoisConfig,
};
use jarvix::engine::{
    ConfigError, EnrichError, EnrichmentEngine, Event, Observations, Phase, Request, Step,
};
use jarvix::model::{EnrichedScore, EnrichmentData, ScoreAdjustment, SiteType};
use jarvix::providers::SiteSignatures;

const HOUR: i64 = 3_600_000;
const NOW: i64 = 1_700_000_000_000;

fn create_test_config() -> EnrichmentConfig {
    EnrichmentConfig {
        apis: ApiSettings {
            google_trends_enabled: true,
            shopify_detection_enabled: true,
            crunchbase_enabled: false,
            trustpilot_enabled: false,
            whois_enabled: true,
        },
        google_trends: GoogleTrendsConfig { rate_limit_per_hour: 100, timeout_seconds: 10 },
        shopify: ShopifyConfig { rate_limit_per_hour: 200, timeout_seconds: 5 },
        crunchbase: CrunchbaseConfig {
            api_key: String::new(),
            rate_limit_per_hour: 200,
            timeout_seconds: 10,
        },
        trustpilot: TrustpilotConfig { rate_limit_per_hour: 100, timeout_seconds: 10 },
        whois: WhoisConfig { rate_limit_per_hour: 50, timeout_seconds: 15 },
        cache: CacheConfig {
            database_path: ":memory:".to_string(),
            cache_ttl_hours: 168,
            enable_redis: false,
            redis_url: String::new(),
        },
        scoring: ScoringConfig {
            trending_boost: 2000,
            shopify_boost: 1500,
            funding_boost: 1000,
            low_rating_penalty: -500,
            domain_age_boost: 500,
        },
    }
}

fn config_with(trends: bool, shopify: bool, whois: bool) -> EnrichmentConfig {
    let mut config = create_test_config();
    config.apis.google_trends_enabled = trends;
    config.apis.shopify_detection_enabled = shopify;
    config.apis.whois_enabled = whois;
    config
}

fn waiting(step: Step) -> (jarvix::engine::Pending, Request) {
    match step {
        Step::Waiting { pending, request } => (pending, request),
        Step::Done { .. } => panic!("the enrichment is done already"),
    }
}

fn done(step: Step) -> (EnrichedScore, bool) {
    match step {
        Step::Done { result, from_cache } => (result, from_cache),
        Step::Waiting { .. } => panic!("the enrichment still waits"),
    }
}

fn sum(result: &EnrichedScore) -> i64 {
    result.adjustments.iter().map(|a| a.adjustment).sum()
}

#[test]
fn test_site_type_detection() {
    let config = create_test_config();
    let engine = EnrichmentEngine::new(config).unwrap();

    // Test with what a fetch of the page brought back, and with none
    let marks = SiteSignatures::standard();
    let page = Some("<html><body>Example Domain</body></html>".to_string());
    assert_eq!(marks.detect_site_type(&page), SiteType::Unknown);
    assert_eq!(marks.detect_site_type(&None), SiteType::Unknown);

    let result = engine.begin("https://example.com", 5000);
    assert!(result.is_ok());
    let (pending, request) = waiting(result.unwrap());
    assert_eq!(pending.phase(), Phase::SiteDetection);
    assert_eq!(pending.url(), "https://example.com");
    match request {
        Request::Page { url, timeout_seconds } => {
            assert_eq!(url, "https://example.com");
            assert_eq!(timeout_seconds, 5);
        }
        Request::Registration { .. } => panic!("a page was to be asked for"),
    }
}

#[test]
fn all_providers_disabled_leaves_the_base_score() {
    let mut engine = EnrichmentEngine::new(config_with(false, false, false)).unwrap();
    let (pending, _) = waiting(engine.begin_at("https://shop.example.com", 5000, NOW).unwrap());
    let (result, from_cache) = done(engine.resume_at(pending, Event::Page(None), NOW));
    assert!(!from_cache);
    assert_eq!(result.enriched_score, 5000);
    assert_eq!(result.base_score, 5000);
    assert!(result.adjustments.is_empty());
    assert_eq!(result.site_type, SiteType::Unknown);
    assert_eq!(result.enrichment_data, EnrichmentData::default());
    assert_eq!(result.timestamp, NOW);
    assert_eq!(result.url, "https://shop.example.com");
    assert!(engine.recorded("google_trends").is_empty());
    assert!(engine.recorded("shopify").is_empty());
    assert!(engine.recorded("whois").is_empty());
}

#[test]
fn trending_host_gets_the_configured_boost() {
    let mut engine = EnrichmentEngine::new(config_with(true, false, false)).unwrap();
    let (pending, _) = waiting(engine.begin_at("https://myshop.example.com", 5000, NOW).unwrap());
    let (result, _) = done(engine.resume_at(pending, Event::Page(None), NOW));
    assert_eq!(result.adjustments.len(), 1);
    assert_eq!(result.adjustments[0].adjustment, 2000);
    assert_eq!(result.adjustments[0].source, "Google Trends");
    assert_eq!(result.adjustments[0].reason, "Domain contains trending keywords");
    assert_eq!(result.enriched_score, 5000 + 2000);
    assert_eq!(result.enrichment_data.is_trending, Some(true));
    assert_eq!(engine.recorded("google_trends"), vec![NOW]);
}

#[test]
fn boost_follows_the_configuration() {
    let mut config = config_with(true, false, false);
    config.scoring.trending_boost = -1234;
    let mut engine = EnrichmentEngine::new(config).unwrap();
    let (pending, _) = waiting(engine.begin_at("https://techworld.io", 100, NOW).unwrap());
    let (result, _) = done(engine.resume_at(pending, Event::Page(None), NOW));
    assert_eq!(result.adjustments[0].adjustment, -1234);
    assert_eq!(result.enriched_score, 100 - 1234);
}

#[test]
fn host_without_trending_label_gets_nothing() {
    let mut engine = EnrichmentEngine::new(config_with(true, false, false)).unwrap();
    let (pending, _) = waiting(engine.begin_at("https://example.org", 5000, NOW).unwrap());
    let (result, _) = done(engine.resume_at(pending, Event::Page(None), NOW));
    assert!(result.adjustments.is_empty());
    assert_eq!(result.enriched_score, 5000);
    assert_eq!(result.enrichment_data.is_trending, None);
    // the request was made all the same
    assert_eq!(engine.recorded("google_trends").len(), 1);
}

#[test]
fn old_registration_gets_one_adjustment() {
    let mut engine = EnrichmentEngine::new(config_with(false, false, true)).unwrap();
    let (pending, _) = waiting(engine.begin_at("https://example.org", 5000, NOW).unwrap());
    let (pending, request) = waiting(engine.resume_at(pending, Event::Page(None), NOW));
    assert_eq!(pending.phase(), Phase::RegistrationAge);
    match request {
        Request::Registration { host, timeout_seconds } => {
            assert_eq!(host, "example.org");
            assert_eq!(timeout_seconds, 15);
        }
        Request::Page { .. } => panic!("the registry was to be asked"),
    }
    let answer = "Domain Name: EXAMPLE.ORG\nCreation Date: 2010-01-01T05:00:00Z\n".to_string();
    let (result, _) = done(engine.resume_at(pending, Event::Registration(Some(answer)), NOW));
    assert_eq!(result.adjustments.len(), 1);
    assert_eq!(result.adjustments[0].source, "Whois");
    assert_eq!(result.adjustments[0].adjustment, 500);
    assert_eq!(result.adjustments[0].reason, "Domain age: 13.9 years");
    assert_eq!(result.enriched_score, 5500);
    assert_eq!(result.enrichment_data.domain_age_years, None);
}

#[test]
fn unparsable_registration_gets_nothing() {
    let mut engine = EnrichmentEngine::new(config_with(false, false, true)).unwrap();
    let (pending, _) = waiting(engine.begin_at("https://example.org", 5000, NOW).unwrap());
    let (pending, _) = waiting(engine.resume_at(pending, Event::Page(None), NOW));
    let answer = "No match for domain".to_string();
    let (result, _) = done(engine.resume_at(pending, Event::Registration(Some(answer)), NOW));
    assert!(result.adjustments.is_empty());
    assert_eq!(result.enriched_score, 5000);
}

#[test]
fn failed_lookup_gets_nothing() {
    let mut engine = EnrichmentEngine::new(config_with(false, false, true)).unwrap();
    let (pending, _) = waiting(engine.begin_at("https://example.org", 5000, NOW).unwrap());
    let (pending, _) = waiting(engine.resume_at(pending, Event::Page(None), NOW));
    let (result, _) = done(engine.resume_at(pending, Event::Registration(None), NOW));
    assert!(result.adjustments.is_empty());
    assert_eq!(result.enriched_score, 5000);
}

#[test]
fn full_roster_adds_up_in_roster_order() {
    let mut engine = EnrichmentEngine::new(create_test_config()).unwrap();
    let url = "https://mystore.example.com";
    let (pending, _) = waiting(engine.begin_at(url, 5000, NOW).unwrap());
    let page = "<html><script src=\"https://cdn.shopify.com/s/a.js\"></script></html>";
    let (pending, request) =
        waiting(engine.resume_at(pending, Event::Page(Some(page.to_string())), NOW + 1));
    assert_eq!(pending.phase(), Phase::PlatformDetection);
    match request {
        Request::Page { url: asked, timeout_seconds } => {
            assert_eq!(asked, url);
            assert_eq!(timeout_seconds, 5);
        }
        Request::Registration { .. } => panic!("a page was to be asked for"),
    }
    let (pending, _) =
        waiting(engine.resume_at(pending, Event::Page(Some(page.to_string())), NOW + 2));
    assert_eq!(pending.phase(), Phase::RegistrationAge);
    let answer = "created: 2001-06-15\n".to_string();
    let (result, from_cache) =
        done(engine.resume_at(pending, Event::Registration(Some(answer)), NOW + 3));
    assert!(!from_cache);
    assert_eq!(result.site_type, SiteType::Shopify);
    let sources: Vec<&str> = result.adjustments.iter().map(|a| a.source.as_str()).collect();
    assert_eq!(sources, vec!["Google Trends", "Shopify Detection", "Whois"]);
    assert_eq!(sum(&result), 2000 + 1500 + 500);
    assert_eq!(result.enriched_score, 5000 + 4000);
    assert_eq!(result.enriched_score, result.base_score + sum(&result));
    assert_eq!(result.enrichment_data.is_trending, Some(true));
    assert_eq!(result.enrichment_data.is_shopify, Some(true));
    assert_eq!(result.timestamp, NOW + 3);
    assert_eq!(engine.recorded("google_trends"), vec![NOW + 1]);
    assert_eq!(engine.recorded("shopify"), vec![NOW + 1]);
    assert_eq!(engine.recorded("whois"), vec![NOW + 2]);
}

#[test]
fn second_call_within_ttl_is_a_cache_hit() {
    let mut engine = EnrichmentEngine::new(config_with(true, false, false)).unwrap();
    let url = "https://myshop.example.com";
    let (pending, _) = waiting(engine.begin_at(url, 5000, NOW).unwrap());
    let (first, _) = done(engine.resume_at(pending, Event::Page(None), NOW));
    let before = engine.recorded("google_trends");
    // another base score, a later time: the stored result comes back as it was
    let (second, from_cache) = done(engine.begin_at(url, 9999, NOW + 167 * HOUR).unwrap());
    assert!(from_cache);
    assert_eq!(second.url, first.url);
    assert_eq!(second.base_score, first.base_score);
    assert_eq!(second.enriched_score, first.enriched_score);
    assert_eq!(second.adjustments.len(), first.adjustments.len());
    assert_eq!(second.adjustments[0].source, first.adjustments[0].source);
    assert_eq!(second.adjustments[0].adjustment, first.adjustments[0].adjustment);
    assert_eq!(second.adjustments[0].reason, first.adjustments[0].reason);
    assert_eq!(second.site_type, first.site_type);
    assert_eq!(second.enrichment_data, first.enrichment_data);
    assert_eq!(second.timestamp, first.timestamp);
    assert_eq!(engine.recorded("google_trends"), before);
}

#[test]
fn call_after_ttl_starts_anew() {
    let mut engine = EnrichmentEngine::new(config_with(true, false, false)).unwrap();
    let url = "https://myshop.example.com";
    let (pending, _) = waiting(engine.begin_at(url, 5000, NOW).unwrap());
    let _ = done(engine.resume_at(pending, Event::Page(None), NOW));
    let later = NOW + 168 * HOUR;
    let (pending, _) = waiting(engine.begin_at(url, 6000, later).unwrap());
    assert_eq!(pending.phase(), Phase::SiteDetection);
    let (result, from_cache) = done(engine.resume_at(pending, Event::Page(None), later));
    assert!(!from_cache);
    assert_eq!(result.base_score, 6000);
    assert_eq!(result.enriched_score, 8000);
    assert_eq!(result.timestamp, later);
}

#[test]
fn failed_fetch_leaves_the_site_type_unknown() {
    let mut engine = EnrichmentEngine::new(config_with(false, true, false)).unwrap();
    let (pending, _) = waiting(engine.begin_at("https://example.org", 5000, NOW).unwrap());
    let (pending, _) = waiting(engine.resume_at(pending, Event::Page(None), NOW));
    assert_eq!(pending.phase(), Phase::PlatformDetection);
    let (result, _) = done(engine.resume_at(pending, Event::Page(None), NOW));
    assert_eq!(result.site_type, SiteType::Unknown);
    assert!(result.adjustments.is_empty());
    assert_eq!(result.enriched_score, 5000);
    assert_eq!(result.enrichment_data.is_shopify, None);
}

#[test]
fn detection_step_decides_the_site_type_alone() {
    let mut engine = EnrichmentEngine::new(config_with(false, true, false)).unwrap();
    let (pending, _) = waiting(engine.begin_at("https://example.org", 5000, NOW).unwrap());
    let page = "<div class=\"woocommerce\"></div>".to_string();
    let (pending, _) = waiting(engine.resume_at(pending, Event::Page(Some(page)), NOW));
    // the provider's own fetch times out
    let (result, _) = done(engine.resume_at(pending, Event::Page(None), NOW));
    assert_eq!(result.site_type, SiteType::WooCommerce);
    assert!(result.adjustments.is_empty());
}

#[test]
fn event_of_the_wrong_kind_counts_as_failure() {
    let mut engine = EnrichmentEngine::new(config_with(false, true, false)).unwrap();
    let (pending, _) = waiting(engine.begin_at("https://example.org", 5000, NOW).unwrap());
    let page = "cdn.shopify.com".to_string();
    let (pending, _) = waiting(engine.resume_at(pending, Event::Registration(Some(page)), NOW));
    let (result, _) = done(
        engine.resume_at(pending, Event::Registration(Some("myshopify.com".to_string())), NOW),
    );
    assert_eq!(result.site_type, SiteType::Unknown);
    assert!(result.adjustments.is_empty());
}

#[test]
fn provider_over_quota_is_skipped() {
    let mut config = config_with(true, true, true);
    config.google_trends.rate_limit_per_hour = 1;
    config.shopify.rate_limit_per_hour = 0;
    config.whois.rate_limit_per_hour = 0;
    let mut engine = EnrichmentEngine::new(config).unwrap();
    let (pending, _) = waiting(engine.begin_at("https://shop-a.example", 100, NOW).unwrap());
    let (first, _) = done(engine.resume_at(pending, Event::Page(None), NOW));
    assert_eq!(first.adjustments.len(), 1);
    let (pending, _) = waiting(engine.begin_at("https://shop-b.example", 100, NOW + 1).unwrap());
    let (second, _) = done(engine.resume_at(pending, Event::Page(None), NOW + 1));
    assert!(second.adjustments.is_empty());
    assert_eq!(second.enriched_score, 100);
    // exactly an hour after the first request it still counts
    let (pending, _) =
        waiting(engine.begin_at("https://shop-c.example", 100, NOW + HOUR).unwrap());
    let (third, _) = done(engine.resume_at(pending, Event::Page(None), NOW + HOUR));
    assert!(third.adjustments.is_empty());
    assert_eq!(engine.recorded("google_trends"), vec![NOW]);
    // past the hour the source is admitted again
    let (pending, _) =
        waiting(engine.begin_at("https://shop-d.example", 100, NOW + HOUR + 1).unwrap());
    let (fourth, _) = done(engine.resume_at(pending, Event::Page(None), NOW + HOUR + 1));
    assert_eq!(fourth.adjustments.len(), 1);
    assert_eq!(engine.recorded("google_trends"), vec![NOW + HOUR + 1]);
}

#[test]
fn malformed_url_is_the_only_failure() {
    let engine = EnrichmentEngine::new(create_test_config()).unwrap();
    assert!(matches!(engine.begin_at("not a url", 5000, NOW), Err(EnrichError::InvalidUrl)));
    assert!(matches!(engine.begin_at("", 5000, NOW), Err(EnrichError::InvalidUrl)));
    assert!(matches!(
        engine.begin_at("mailto:someone@example.com", 5000, NOW),
        Err(EnrichError::InvalidUrl)
    ));
    assert!(matches!(
        engine.begin_with_host("https://example.com", None, 5000, NOW),
        Err(EnrichError::InvalidUrl)
    ));
    assert!(engine.begin_at("https://example.com/path?q=1", 5000, NOW).is_ok());
}

#[test]
fn magnitude_out_of_range_fails_construction() {
    let mut config = create_test_config();
    config.scoring.low_rating_penalty = -1_000_000_000_000_001;
    assert!(matches!(EnrichmentEngine::new(config), Err(ConfigError::ScoreOutOfRange)));
    let mut config = create_test_config();
    config.scoring.trending_boost = 1_000_000_000_000_000;
    assert!(EnrichmentEngine::new(config).is_ok());
}

#[test]
fn restore_takes_balanced_results_only() {
    let mut engine = EnrichmentEngine::new(create_test_config()).unwrap();
    let good = EnrichedScore {
        url: "https://kept.example".to_string(),
        base_score: 5000,
        enriched_score: 7000,
        adjustments: vec![ScoreAdjustment {
            source: "Google Trends".to_string(),
            adjustment: 2000,
            reason: "Domain contains trending keywords".to_string(),
        }],
        site_type: SiteType::Custom,
        enrichment_data: EnrichmentData::default(),
        timestamp: NOW,
    };
    let bad = EnrichedScore {
        url: "https://dropped.example".to_string(),
        base_score: 5000,
        enriched_score: 6500,
        adjustments: vec![],
        site_type: SiteType::Custom,
        enrichment_data: EnrichmentData::default(),
        timestamp: NOW,
    };
    assert!(engine.restore(&good, NOW));
    assert!(!engine.restore(&bad, NOW));
    assert_eq!(engine.cache().len(), 1);
    let (hit, from_cache) = done(engine.begin_at("https://kept.example", 1, NOW + 1).unwrap());
    assert!(from_cache);
    assert_eq!(hit.enriched_score, 7000);
    let _ = waiting(engine.begin_at("https://dropped.example", 1, NOW + 1).unwrap());
}

#[test]
fn engine_keeps_its_settings() {
    let mut config = create_test_config();
    config.cache.database_path = "data/enrichment.db".to_string();
    config.crunchbase.api_key = "key".to_string();
    let engine = EnrichmentEngine::new(config).unwrap();
    assert_eq!(engine.config().cache.database_path, "data/enrichment.db");
    assert_eq!(engine.cache().db_path(), "data/enrichment.db");
    assert_eq!(engine.config().crunchbase.api_key, "key");
    assert_eq!(engine.config().trustpilot.rate_limit_per_hour, 100);
    assert_eq!(engine.config().scoring.funding_boost, 1000);
    let engine = EnrichmentEngine::new(create_test_config()).unwrap();
    assert!(engine.config().apis.whois_enabled);
    assert_eq!(engine.config().cache.cache_ttl_hours, 168);
    assert_eq!(engine.cache().ttl_hours(), 168);
    assert_eq!(engine.cache().db_path(), ":memory:");
}

fn nothing_observed() -> Observations {
    Observations { site_page: None, platform_page: None, registration: None }
}

#[test]
fn enrich_url_with_every_provider_disabled() {
    let mut engine = EnrichmentEngine::new(config_with(false, false, false)).unwrap();
    let result = engine.enrich_url("https://shop.example.com", 5000, &nothing_observed()).unwrap();
    assert_eq!(result.enriched_score, 5000);
    assert!(result.adjustments.is_empty());
}

#[test]
fn enrich_url_runs_the_whole_roster() {
    let mut engine = EnrichmentEngine::new(create_test_config()).unwrap();
    let observed = Observations {
        site_page: Some("powered by woocommerce".to_string()),
        platform_page: Some("x shopify_pay y".to_string()),
        registration: Some("Created: 2015-03-04".to_string()),
    };
    let result = engine.enrich_url_at("https://cryptonews.example", 1000, &observed, NOW).unwrap();
    assert_eq!(result.site_type, SiteType::WooCommerce);
    assert_eq!(result.adjustments.len(), 3);
    assert_eq!(result.adjustments[0].adjustment, 2000);
    assert_eq!(result.adjustments[1].adjustment, 1500);
    assert_eq!(result.adjustments[2].adjustment, 500);
    assert_eq!(result.adjustments[2].reason, "Domain age: 8.7 years");
    assert_eq!(result.enriched_score, 1000 + 4000);
    assert_eq!(result.timestamp, NOW);
    // a second call is answered from the cache, whatever is observed now
    let again = engine
        .enrich_url_at("https://cryptonews.example", 7, &nothing_observed(), NOW + HOUR)
        .unwrap();
    assert_eq!(again.enriched_score, 5000);
    assert_eq!(again.base_score, 1000);
    assert_eq!(again.timestamp, NOW);
    assert_eq!(engine.recorded("google_trends"), vec![NOW]);
    assert_eq!(engine.recorded("shopify"), vec![NOW]);
    assert_eq!(engine.recorded("whois"), vec![NOW]);
}

#[test]
fn enrich_url_fails_on_a_malformed_url_only() {
    let mut engine = EnrichmentEngine::new(create_test_config()).unwrap();
    assert!(matches!(
        engine.enrich_url("::not-a-url::", 5000, &nothing_observed()),
        Err(EnrichError::InvalidUrl)
    ));
    assert!(engine.recorded("google_trends").is_empty());
    assert_eq!(engine.cache().len(), 0);
    // every source down: the base score comes back
    let result = engine.enrich_url("https://example.org", 5000, &nothing_observed()).unwrap();
    assert_eq!(result.enriched_score, 5000);
    assert_eq!(result.site_type, SiteType::Unknown);
}
