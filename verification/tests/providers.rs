use jarvix::config::{GoogleTrendsConfig, ShopifyConfig, WhoisConfig};
use jarvix::model::SiteType;
use jarvix::providers::{
    contains_any, page_from, GoogleTrendsProvider, ShopifyDetectionProvider, SiteSignatures,
    WhoisProvider,
};

const DAY: i64 = 86_400_000;

fn trends() -> GoogleTrendsProvider {
    GoogleTrendsProvider {
        config: GoogleTrendsConfig { rate_limit_per_hour: 100, timeout_seconds: 10 },
        terms: GoogleTrendsProvider::standard_terms(),
        boost: 2000,
    }
}

fn shopify() -> ShopifyDetectionProvider {
    ShopifyDetectionProvider {
        config: ShopifyConfig { rate_limit_per_hour: 200, timeout_seconds: 5 },
        signatures: ShopifyDetectionProvider::standard_signatures(),
        boost: 1500,
    }
}

fn whois() -> WhoisProvider {
    WhoisProvider {
        config: WhoisConfig { rate_limit_per_hour: 50, timeout_seconds: 15 },
        patterns: WhoisProvider::standard_patterns(),
        boost: 500,
    }
}

#[test]
fn provider_names() {
    assert_eq!(trends().name(), "google_trends");
    assert_eq!(shopify().name(), "shopify");
    assert_eq!(whois().name(), "whois");
}

#[test]
fn trending_needs_a_label_longer_than_three() {
    let provider = trends();
    assert!(provider.is_trending("myshop.example.com"));
    assert!(provider.is_trending("TechCrunch.com"));
    assert!(provider.is_trending("www.supermarket.de"));
    // "ai" stands in "mail", a label of four
    assert!(provider.is_trending("mail.example.org"));
    // labels of three or fewer are passed over
    assert!(!provider.is_trending("ai.io"));
    assert!(!provider.is_trending("x.ai"));
    assert!(!provider.is_trending("example.org"));
    assert!(!provider.is_trending(""));
}

#[test]
fn trending_terms_can_be_replaced() {
    let provider = GoogleTrendsProvider {
        config: GoogleTrendsConfig { rate_limit_per_hour: 1, timeout_seconds: 1 },
        terms: vec!["garden".to_string()],
        boost: 700,
    };
    assert!(provider.is_trending("mygarden.example"));
    assert!(!provider.is_trending("myshop.example"));
    let found = provider.enrich_host("GARDENING.example").unwrap();
    assert_eq!(found.adjustment, 700);
    assert_eq!(found.source, "Google Trends");
}

#[test]
fn trends_reads_the_host_of_the_url() {
    let provider = trends();
    assert!(provider.enrich("https://myshop.example.com/market").is_some());
    // the path does not count
    assert!(provider.enrich("https://example.org/shop/store").is_none());
    assert!(provider.enrich("not a url").is_none());
}

#[test]
fn platform_detection_looks_for_marks() {
    let provider = shopify();
    let page = Some("<script>Shopify.theme = {};</script>".to_string());
    let found = provider.enrich(&page).unwrap();
    assert_eq!(found.source, "Shopify Detection");
    assert_eq!(found.adjustment, 1500);
    assert_eq!(found.reason, "Detected as Shopify store");
    assert!(provider.enrich(&Some("shopify.theme".to_string())).is_none());
    assert!(provider.enrich(&Some(String::new())).is_none());
    assert!(provider.enrich(&None).is_none());
}

#[test]
fn site_type_goes_by_priority() {
    let marks = SiteSignatures::standard();
    assert_eq!(marks.classify("x myshopify.com y woocommerce magento"), SiteType::Shopify);
    assert_eq!(marks.classify("woocommerce and prestashop"), SiteType::WooCommerce);
    assert_eq!(marks.classify("built with magento"), SiteType::Custom);
    assert_eq!(marks.classify("prestashop"), SiteType::Custom);
    assert_eq!(marks.classify("plain page"), SiteType::Unknown);
    assert_eq!(marks.classify(""), SiteType::Unknown);
    assert_eq!(marks.detect_site_type(&None), SiteType::Unknown);
    assert_eq!(
        marks.detect_site_type(&Some("https://cdn.shopify.com/x.js".to_string())),
        SiteType::Shopify
    );
}

#[test]
fn contains_any_with_edge_cases() {
    let needles = vec!["abc".to_string(), "xyz".to_string()];
    assert!(contains_any("..xyz", &needles));
    assert!(contains_any("abc", &needles));
    assert!(!contains_any("ab", &needles));
    assert!(!contains_any("", &needles));
    assert!(!contains_any("abc", &vec![]));
    assert!(contains_any("", &vec![String::new()]));
}

#[test]
fn creation_date_by_each_pattern() {
    let provider = whois();
    // 2020-01-01T00:00:00Z
    assert_eq!(provider.parse_creation_date("Creation Date: 2020-01-01"), Some(1_577_836_800_000));
    assert_eq!(
        provider.parse_creation_date("x\nCreated:\t1970-01-02\n"),
        Some(86_400_000)
    );
    assert_eq!(provider.parse_creation_date("created:1969-12-31"), Some(-86_400_000));
    assert_eq!(
        provider.parse_creation_date("Creation Date: 2020-01-01T12:30:00Z"),
        Some(1_577_836_800_000)
    );
    assert_eq!(provider.parse_creation_date("Registered: 2020-01-01"), None);
    assert_eq!(provider.parse_creation_date(""), None);
}

#[test]
fn first_pattern_with_a_real_date_wins() {
    let provider = whois();
    // the first pattern finds no date that exists, the third does
    let answer = "Creation Date: 2020-13-45\ncreated: 2001-02-03\n";
    assert_eq!(provider.parse_creation_date(answer), Some(981_158_400_000));
    let answer = "created: 2001-02-03\nCreation Date: 2010-05-06\n";
    assert_eq!(provider.parse_creation_date(answer), Some(1_273_104_000_000));
}

#[test]
fn age_must_exceed_two_years() {
    let provider = whois();
    let created = 1_000_000;
    assert!(provider.age_adjustment(Some(created), created + 730 * DAY).is_none());
    assert!(provider.age_adjustment(Some(created), created + 731 * DAY - 1).is_none());
    let found = provider.age_adjustment(Some(created), created + 731 * DAY).unwrap();
    assert_eq!(found.source, "Whois");
    assert_eq!(found.adjustment, 500);
    assert_eq!(found.reason, "Domain age: 2.0 years");
    assert!(provider.age_adjustment(None, created).is_none());
    assert!(provider.age_adjustment(Some(created), created - 1).is_none());
}

#[test]
fn age_is_written_to_one_decimal() {
    let provider = whois();
    let reason = |days: i64| provider.age_adjustment(Some(0), days * DAY).unwrap().reason;
    for days in [731i64, 750, 913, 914, 1000, 3652, 3653, 5065, 10000, 36525, 40000] {
        let years = days as f64 / 365.25;
        assert_eq!(reason(days), format!("Domain age: {:.1} years", years));
    }
    assert_eq!(reason(5065), "Domain age: 13.9 years");
    assert_eq!(reason(36525), "Domain age: 100.0 years");
}

#[test]
fn whois_enrich_from_a_registry_answer() {
    let provider = whois();
    let now = 1_700_000_000_000;
    let answer = Some("Domain: example.org\nCreation Date: 1995-08-14T04:00:00Z".to_string());
    let found = provider.enrich(&answer, now).unwrap();
    assert_eq!(found.reason, "Domain age: 28.3 years");
    let young = Some("Creation Date: 2023-01-01".to_string());
    assert!(provider.enrich(&young, now).is_none());
    assert!(provider.enrich(&Some("no date here".to_string()), now).is_none());
    assert!(provider.enrich(&None, now).is_none());
}

#[test]
fn only_a_successful_answer_brings_a_page() {
    let body = || Some("<html></html>".to_string());
    assert_eq!(page_from(200, body()), body());
    assert_eq!(page_from(204, body()), body());
    assert_eq!(page_from(299, body()), body());
    assert_eq!(page_from(199, body()), None);
    assert_eq!(page_from(300, body()), None);
    assert_eq!(page_from(301, body()), None);
    assert_eq!(page_from(404, body()), None);
    assert_eq!(page_from(500, body()), None);
    assert_eq!(page_from(200, None), None);
    // an error page that carries a mark is no page for the provider
    let page = page_from(503, Some("cdn.shopify.com".to_string()));
    assert!(shopify().enrich(&page).is_none());
    assert!(shopify().enrich(&page_from(200, Some("cdn.shopify.com".to_string()))).is_some());
}
