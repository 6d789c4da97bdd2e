use jarvix::discovery::{
    candidates_of_seed, clean_domain, generate_candidates, get_niche_seeds, get_region_patterns,
    patterns_for, put, rank_domains, run_id, seed_lines, seeds_for, settle, summary_message,
    take_first, Candidate,
};

fn pairs(list: &Vec<Candidate>) -> Vec<(String, u64)> {
    list.iter().map(|c| (c.domain.clone(), c.score)).collect()
}

fn make(domain: &str, score: u64) -> Candidate {
    Candidate { domain: domain.to_string(), score }
}

fn expect(items: &[(&str, u64)]) -> Vec<(String, u64)> {
    items.iter().map(|(d, s)| (d.to_string(), *s)).collect()
}

#[test]
fn test_get_niche_seeds() {
    let seeds = get_niche_seeds("ecommerce");
    assert!(!seeds.is_empty());
    assert!(seeds.contains(&"shopify".to_string()));

    let saas_seeds = get_niche_seeds("saas");
    assert!(!saas_seeds.is_empty());
}

#[test]
fn test_get_region_patterns() {
    let patterns = get_region_patterns("ES");
    assert!(patterns.contains(&"es".to_string()));

    let uk_patterns = get_region_patterns("UK");
    assert!(uk_patterns.contains(&"uk".to_string()));
}

#[test]
fn niche_seeds_ignore_case() {
    assert_eq!(get_niche_seeds("SaaS"), get_niche_seeds("saas"));
    assert_eq!(get_niche_seeds("saas").len(), 8);
    assert_eq!(get_niche_seeds("ecommerce").len(), 10);
    assert_eq!(get_niche_seeds("fitness").len(), 8);
    assert_eq!(get_niche_seeds("fintech")[4], "wise");
    assert_eq!(get_niche_seeds("edtech").len(), 6);
}

#[test]
fn unknown_niche_gets_placeholders() {
    assert_eq!(get_niche_seeds("gardening"), vec!["example", "demo", "test"]);
    assert_eq!(seeds_for("ECOMMERCE"), vec!["example", "demo", "test"]);
}

#[test]
fn region_patterns_ignore_case() {
    assert_eq!(get_region_patterns("br"), vec!["br", "com.br"]);
    assert_eq!(get_region_patterns("Jp"), vec!["jp", "co.jp"]);
    assert_eq!(get_region_patterns("US"), vec!["com", "us"]);
    assert_eq!(get_region_patterns("xx"), vec!["com"]);
    assert_eq!(patterns_for("es"), vec!["com"]);
}

#[test]
fn take_first_limits_the_list() {
    let domains = vec!["a.com".to_string(), "b.com".to_string(), "c.com".to_string()];
    assert_eq!(take_first(&domains, 2), vec!["a.com", "b.com"]);
    assert_eq!(take_first(&domains, 5), domains);
    assert!(take_first(&domains, 0).is_empty());
}

#[test]
fn seed_lines_carry_a_scheme() {
    let domains = vec![
        "example.com".to_string(),
        "test.com".to_string(),
        "http://plain.org".to_string(),
    ];
    let lines = seed_lines(&domains);
    assert_eq!(lines, vec!["https://example.com", "https://test.com", "http://plain.org"]);
}

#[test]
fn one_seed_puts_forward_its_variations() {
    let tlds = vec!["uk".to_string(), "co.uk".to_string()];
    let proposals = candidates_of_seed("etsy", &tlds, "uk");
    assert_eq!(
        pairs(&proposals),
        expect(&[
            ("etsy.com", 100),
            ("etsy.uk", 90),
            ("etsy.co.uk", 90),
            ("etsy-uk.com", 70),
            ("etsyuk.com", 70),
            ("shopetsy.com", 70),
            ("etsyshop.com", 70),
            ("getetsy.com", 70),
            ("myetsy.com", 70),
        ])
    );
}

#[test]
fn each_domain_is_kept_once_with_its_last_score() {
    let seeds = vec!["shopify".to_string(), "shop".to_string()];
    let tlds = vec!["com".to_string(), "us".to_string()];
    let candidates = generate_candidates(&seeds, &tlds, "us");
    assert_eq!(
        pairs(&candidates),
        expect(&[
            ("shopify.com", 90),
            ("shopify.us", 90),
            ("shopify-us.com", 70),
            ("shopifyus.com", 70),
            ("shopshopify.com", 70),
            ("shopifyshop.com", 70),
            ("getshopify.com", 70),
            ("myshopify.com", 70),
            ("shop.com", 90),
            ("shop.us", 90),
            ("shop-us.com", 70),
            ("shopus.com", 70),
            ("shopshop.com", 70),
            ("getshop.com", 70),
            ("myshop.com", 70),
        ])
    );
    assert!(generate_candidates(&vec![], &tlds, "us").is_empty());
}

#[test]
fn put_replaces_or_appends() {
    let mut list = vec![make("a.com", 100), make("b.com", 90)];
    put(&mut list, make("b.com", 70));
    put(&mut list, make("c.com", 70));
    put(&mut list, make("a.com", 1));
    assert_eq!(pairs(&list), expect(&[("a.com", 1), ("b.com", 70), ("c.com", 70)]));
}

#[test]
fn unreachable_site_keeps_half_its_score() {
    let kept = settle("a.com".to_string(), 100, true, true).unwrap();
    assert_eq!((kept.domain.as_str(), kept.score), ("a.com", 100));
    assert_eq!(settle("a.com".to_string(), 100, true, false).unwrap().score, 50);
    assert_eq!(settle("a.com".to_string(), 90, true, false).unwrap().score, 45);
    assert_eq!(settle("a.com".to_string(), 70, true, false).unwrap().score, 35);
    assert_eq!(settle("a.com".to_string(), 0, true, false).unwrap().score, 0);
    assert!(settle("a.com".to_string(), 100, false, true).is_none());
    assert!(settle("a.com".to_string(), 100, false, false).is_none());
}

#[test]
fn candidates_are_cleaned_like_domains() {
    assert_eq!(clean_domain(&make(" https://a.com/x ", 1)), Some("a.com".to_string()));
    assert_eq!(clean_domain(&make("shopify-us.com", 1)), Some("shopify-us.com".to_string()));
    assert_eq!(clean_domain(&make("nodot", 1)), None);
    assert_eq!(clean_domain(&make("a b.com", 1)), None);
}

#[test]
fn ranking_is_by_score_and_keeps_ties_in_order() {
    let list = vec![
        make("c70.com", 70),
        make("a100.com", 100),
        make("d45.com", 45),
        make("b100.com", 100),
        make("e70.com", 70),
        make("f90.com", 90),
    ];
    assert_eq!(
        rank_domains(list, 10),
        vec!["a100.com", "b100.com", "f90.com", "c70.com", "e70.com", "d45.com"]
    );
    let list = vec![make("x.com", 1), make("y.com", 3), make("z.com", 2)];
    assert_eq!(rank_domains(list, 2), vec!["y.com", "z.com"]);
    let list = vec![make("x.com", 1)];
    assert!(rank_domains(list, 0).is_empty());
    assert!(rank_domains(vec![], 5).is_empty());
}

#[test]
fn run_texts() {
    assert_eq!(run_id("ecommerce", "ES"), "discovery_ecommerce_ES");
    assert_eq!(summary_message(0), "Discovered 0 domains");
    assert_eq!(summary_message(42), "Discovered 42 domains");
}

#[test]
fn test_write_seeds_file() {
    let domains = vec!["example.com".to_string(), "test.com".to_string()];

    let content = seed_lines(&domains).join("\n");
    assert!(content.contains("https://example.com"));
    assert!(content.contains("https://test.com"));
}
