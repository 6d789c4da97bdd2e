use crate::outside::{lowercase, unicode_lowercase, unicode_uppercase, uppercase};
use crate::policy::{probe_url, validate_domain, validated_domain, DomainError};
use crate::text::{decimal, decimal_string, has_prefix, join2, join3, texts};
use vstd::prelude::*;

verus! {

/// The texts of a sequence of string slices, in order.
pub open spec fn slice_texts(items: Seq<&str>) -> Seq<Seq<char>> {
    items.map_values(|s: &str| s@)
}

/// Owned copies of `items`, in order.
pub fn strings_of(items: &Vec<&str>) -> (strings: Vec<String>)
    ensures
        texts(strings@) == slice_texts(items@),
{
    let mut strings: Vec<String> = Vec::new();
    let mut i: usize = 0;
    while i < items.len()
        invariant
            i <= items.len(),
            texts(strings@) == slice_texts(items@).take(i as int),
        decreases items.len() - i,
    {
        let ghost before = strings@;
        strings.push(String::from_str(items[i]));
        assert(texts(strings@) =~= texts(before).push(items@[i as int]@));
        i += 1;
        assert(slice_texts(items@).take(i as int) =~= slice_texts(items@).take(i - 1).push(
            items@[i - 1]@,
        ));
    }
    assert(slice_texts(items@).take(i as int) =~= slice_texts(items@));
    strings
}

/// The seed names of a niche, given the niche's name in lowercase.
pub open spec fn niche_seeds(niche: Seq<char>) -> Seq<Seq<char>> {
    if niche == "ecommerce"@ {
        seq![
            "shopify"@,
            "woocommerce"@,
            "bigcommerce"@,
            "magento"@,
            "prestashop"@,
            "opencart"@,
            "amazon"@,
            "ebay"@,
            "etsy"@,
            "walmart"@,
        ]
    } else if niche == "saas"@ {
        seq![
            "salesforce"@,
            "hubspot"@,
            "zendesk"@,
            "atlassian"@,
            "slack"@,
            "notion"@,
            "asana"@,
            "monday"@,
        ]
    } else if niche == "fitness"@ {
        seq![
            "peloton"@,
            "fitbit"@,
            "myfitnesspal"@,
            "strava"@,
            "gymshark"@,
            "nike"@,
            "underarmour"@,
            "lululemon"@,
        ]
    } else if niche == "fintech"@ {
        seq!["stripe"@, "paypal"@, "square"@, "revolut"@, "wise"@, "klarna"@, "adyen"@]
    } else if niche == "edtech"@ {
        seq!["coursera"@, "udemy"@, "skillshare"@, "duolingo"@, "khan"@, "codecademy"@]
    } else {
        seq!["example"@, "demo"@, "test"@]
    }
}

/// The top-level domains of a region, given the region's name in uppercase.
pub open spec fn region_patterns(region: Seq<char>) -> Seq<Seq<char>> {
    if region == "ES"@ {
        seq!["es"@, "cat"@]
    } else if region == "US"@ {
        seq!["com"@, "us"@]
    } else if region == "UK"@ {
        seq!["uk"@, "co.uk"@]
    } else if region == "FR"@ {
        seq!["fr"@]
    } else if region == "DE"@ {
        seq!["de"@]
    } else if region == "IT"@ {
        seq!["it"@]
    } else if region == "BR"@ {
        seq!["br"@, "com.br"@]
    } else if region == "JP"@ {
        seq!["jp"@, "co.jp"@]
    } else {
        seq!["com"@]
    }
}

fn same(a: &str, b: &str) -> (r: bool)
    ensures
        r == (a@ == b@),
{
    String::from_str(a) == String::from_str(b)
}

/// The seed names of the niche whose name in lowercase is `niche`.
pub fn seeds_for(niche: &str) -> (seeds: Vec<String>)
    ensures
        texts(seeds@) == niche_seeds(niche@),
{
    let items: Vec<&str> = if same(niche, "ecommerce") {
        vec![
            "shopify",
            "woocommerce",
            "bigcommerce",
            "magento",
            "prestashop",
            "opencart",
            "amazon",
            "ebay",
            "etsy",
            "walmart",
        ]
    } else if same(niche, "saas") {
        vec![
            "salesforce",
            "hubspot",
            "zendesk",
            "atlassian",
            "slack",
            "notion",
            "asana",
            "monday",
        ]
    } else if same(niche, "fitness") {
        vec![
            "peloton",
            "fitbit",
            "myfitnesspal",
            "strava",
            "gymshark",
            "nike",
            "underarmour",
            "lululemon",
        ]
    } else if same(niche, "fintech") {
        vec!["stripe", "paypal", "square", "revolut", "wise", "klarna", "adyen"]
    } else if same(niche, "edtech") {
        vec!["coursera", "udemy", "skillshare", "duolingo", "khan", "codecademy"]
    } else {
        vec!["example", "demo", "test"]
    };
    let seeds = strings_of(&items);
    assert(slice_texts(items@) =~= niche_seeds(niche@));
    seeds
}

/// The top-level domains of the region whose name in uppercase is `region`.
pub fn patterns_for(region: &str) -> (patterns: Vec<String>)
    ensures
        texts(patterns@) == region_patterns(region@),
{
    let items: Vec<&str> = if same(region, "ES") {
        vec!["es", "cat"]
    } else if same(region, "US") {
        vec!["com", "us"]
    } else if same(region, "UK") {
        vec!["uk", "co.uk"]
    } else if same(region, "FR") {
        vec!["fr"]
    } else if same(region, "DE") {
        vec!["de"]
    } else if same(region, "IT") {
        vec!["it"]
    } else if same(region, "BR") {
        vec!["br", "com.br"]
    } else if same(region, "JP") {
        vec!["jp", "co.jp"]
    } else {
        vec!["com"]
    };
    let patterns = strings_of(&items);
    assert(slice_texts(items@) =~= region_patterns(region@));
    patterns
}

/// The seed names of a niche, whatever the case of its name; a niche that
/// is not known gets three placeholders.
pub fn get_niche_seeds(niche: &str) -> (seeds: Vec<String>)
    ensures
        texts(seeds@) == niche_seeds(unicode_lowercase(niche@)),
{
    let lower = lowercase(niche);
    seeds_for(lower.as_str())
}

/// The top-level domains of a region, whatever the case of its name; a
/// region that is not known gets `com`.
pub fn get_region_patterns(region: &str) -> (patterns: Vec<String>)
    ensures
        texts(patterns@) == region_patterns(unicode_uppercase(region@)),
{
    let upper = uppercase(region);
    patterns_for(upper.as_str())
}

/// The first `max` of `domains`, or all of them where there are fewer.
pub fn take_first(domains: &Vec<String>, max: usize) -> (first: Vec<String>)
    ensures
        texts(first@) == texts(domains@).take(
            if max <= domains.len() {
                max as int
            } else {
                domains.len() as int
            },
        ),
{
    let n: usize = if max <= domains.len() {
        max
    } else {
        domains.len()
    };
    let mut first: Vec<String> = Vec::new();
    let mut i: usize = 0;
    while i < n
        invariant
            i <= n <= domains.len(),
            texts(first@) == texts(domains@).take(i as int),
        decreases n - i,
    {
        let ghost before = first@;
        first.push(domains[i].clone());
        assert(texts(first@) =~= texts(before).push(domains@[i as int]@));
        i += 1;
        assert(texts(domains@).take(i as int) =~= texts(domains@).take(i - 1).push(
            domains@[i - 1]@,
        ));
    }
    first
}

/// The line that stands for a domain in a seeds file: the domain itself
/// where it begins with `http`, else `https://` before it.
pub open spec fn seed_line(domain: Seq<char>) -> Seq<char> {
    if has_prefix(domain, "http"@) {
        domain
    } else {
        "https://"@ + domain
    }
}

/// The lines of a seeds file for `domains`, one for each and in their
/// order.
pub fn seed_lines(domains: &Vec<String>) -> (lines: Vec<String>)
    ensures
        lines.len() == domains.len(),
        forall|i: int| 0 <= i < domains.len() ==> #[trigger] lines[i]@ == seed_line(domains[i]@),
{
    let mut lines: Vec<String> = Vec::new();
    let mut i: usize = 0;
    while i < domains.len()
        invariant
            i <= domains.len(),
            lines.len() == i,
            forall|j: int| 0 <= j < i ==> #[trigger] lines[j]@ == seed_line(domains[j]@),
        decreases domains.len() - i,
    {
        lines.push(probe_url(domains[i].as_str()));
        i += 1;
    }
    lines
}

/// A domain put forward by discovery, with its relevance in hundredths.
#[derive(Debug)]
pub struct Candidate {
    pub domain: String,
    pub score: u64,
}

/// The mathematical content of a `Candidate`.
pub struct CandidateView {
    pub domain: Seq<char>,
    pub score: int,
}

impl View for Candidate {
    type V = CandidateView;

    open spec fn view(&self) -> CandidateView {
        CandidateView { domain: self.domain@, score: self.score as int }
    }
}

/// The views of a sequence of candidates, in order.
pub open spec fn candidate_views(candidates: Seq<Candidate>) -> Seq<CandidateView> {
    candidates.map_values(|c: Candidate| c@)
}

/// The relevance of a seed under `.com`.
pub const BASE_SCORE: u64 = 100;

/// The relevance of a seed under a top-level domain of the region.
pub const REGIONAL_SCORE: u64 = 90;

/// The relevance of a variation of a seed.
pub const VARIATION_SCORE: u64 = 70;

/// A seed under each of `tlds`, in their order.
pub open spec fn regional_candidates(seed: Seq<char>, tlds: Seq<Seq<char>>) -> Seq<
    CandidateView,
> {
    tlds.map_values(
        |tld: Seq<char>| CandidateView { domain: seed + "."@ + tld, score: REGIONAL_SCORE as int },
    )
}

/// The six variations of a seed for a region whose name in lowercase is
/// `region`.
pub open spec fn variation_candidates(seed: Seq<char>, region: Seq<char>) -> Seq<CandidateView> {
    seq![
        CandidateView { domain: seed + "-"@ + region + ".com"@, score: VARIATION_SCORE as int },
        CandidateView { domain: seed + region + ".com"@, score: VARIATION_SCORE as int },
        CandidateView { domain: "shop"@ + seed + ".com"@, score: VARIATION_SCORE as int },
        CandidateView { domain: seed + "shop.com"@, score: VARIATION_SCORE as int },
        CandidateView { domain: "get"@ + seed + ".com"@, score: VARIATION_SCORE as int },
        CandidateView { domain: "my"@ + seed + ".com"@, score: VARIATION_SCORE as int },
    ]
}

/// What one seed puts forward, in order: itself under `.com`, itself under
/// each top-level domain of the region, and its six variations.
pub open spec fn seed_candidates(seed: Seq<char>, tlds: Seq<Seq<char>>, region: Seq<char>) -> Seq<
    CandidateView,
> {
    seq![CandidateView { domain: seed + ".com"@, score: BASE_SCORE as int }]
        + regional_candidates(seed, tlds) + variation_candidates(seed, region)
}

/// What all seeds put forward, seed after seed.
pub open spec fn all_candidates(
    seeds: Seq<Seq<char>>,
    tlds: Seq<Seq<char>>,
    region: Seq<char>,
) -> Seq<CandidateView>
    decreases seeds.len(),
{
    if seeds.len() == 0 {
        Seq::empty()
    } else {
        all_candidates(seeds.drop_last(), tlds, region) + seed_candidates(
            seeds.last(),
            tlds,
            region,
        )
    }
}

/// Whether `list` holds a candidate for `domain`.
pub open spec fn listed(list: Seq<CandidateView>, domain: Seq<char>) -> bool {
    exists|i: int| 0 <= i < list.len() && list[i].domain == domain
}

/// Whether no two candidates of `list` are for the same domain.
pub open spec fn distinct_domains(list: Seq<CandidateView>) -> bool {
    forall|i: int, j: int| 0 <= i < j < list.len() ==> list[i].domain != list[j].domain
}

/// `list` with `c` put in: in place of the candidate for the same domain
/// where there is one, else at the end.
pub open spec fn put_in(list: Seq<CandidateView>, c: CandidateView) -> Seq<CandidateView> {
    if listed(list, c.domain) {
        list.update(choose|i: int| 0 <= i < list.len() && list[i].domain == c.domain, c)
    } else {
        list.push(c)
    }
}

/// The candidates that are left of `proposals` when each domain is kept
/// once, at the place where it came up first and with the relevance it was
/// given last.
pub open spec fn merged(proposals: Seq<CandidateView>) -> Seq<CandidateView>
    decreases proposals.len(),
{
    if proposals.len() == 0 {
        Seq::empty()
    } else {
        put_in(merged(proposals.drop_last()), proposals.last())
    }
}

fn candidate(domain: String, score: u64) -> (c: Candidate)
    ensures
        c@ == (CandidateView { domain: domain@, score: score as int }),
{
    Candidate { domain, score }
}

/// What the seed `seed` puts forward for the top-level domains `tlds` and
/// the region whose name in lowercase is `region`.
pub fn candidates_of_seed(seed: &str, tlds: &Vec<String>, region: &str) -> (proposals: Vec<
    Candidate,
>)
    ensures
        candidate_views(proposals@) == seed_candidates(seed@, texts(tlds@), region@),
{
    let mut proposals: Vec<Candidate> = Vec::new();
    proposals.push(candidate(join2(seed, ".com"), BASE_SCORE));
    let ghost first = candidate_views(proposals@);
    assert(first =~= seq![CandidateView { domain: seed@ + ".com"@, score: BASE_SCORE as int }]);
    let mut j: usize = 0;
    while j < tlds.len()
        invariant
            j <= tlds.len(),
            first == seq![CandidateView { domain: seed@ + ".com"@, score: BASE_SCORE as int }],
            candidate_views(proposals@) == first + regional_candidates(seed@, texts(tlds@)).take(
                j as int,
            ),
        decreases tlds.len() - j,
    {
        let ghost before = proposals@;
        proposals.push(candidate(join3(seed, ".", tlds[j].as_str()), REGIONAL_SCORE));
        assert(candidate_views(proposals@) =~= candidate_views(before).push(
            regional_candidates(seed@, texts(tlds@))[j as int],
        ));
        j += 1;
        assert(first + regional_candidates(seed@, texts(tlds@)).take(j as int) =~= (first
            + regional_candidates(seed@, texts(tlds@)).take(j - 1)).push(
            regional_candidates(seed@, texts(tlds@))[j - 1],
        ));
    }
    assert(regional_candidates(seed@, texts(tlds@)).take(j as int) =~= regional_candidates(
        seed@,
        texts(tlds@),
    ));
    let ghost middle = proposals@;
    proposals.push(candidate(join2(join3(seed, "-", region).as_str(), ".com"), VARIATION_SCORE));
    proposals.push(candidate(join3(seed, region, ".com"), VARIATION_SCORE));
    proposals.push(candidate(join3("shop", seed, ".com"), VARIATION_SCORE));
    proposals.push(candidate(join2(seed, "shop.com"), VARIATION_SCORE));
    proposals.push(candidate(join3("get", seed, ".com"), VARIATION_SCORE));
    proposals.push(candidate(join3("my", seed, ".com"), VARIATION_SCORE));
    assert(candidate_views(proposals@) =~= candidate_views(middle) + variation_candidates(
        seed@,
        region@,
    ));
    proposals
}

/// Puts `c` into `list`: in place of the candidate for the same domain
/// where there is one, else at the end.
pub fn put(list: &mut Vec<Candidate>, c: Candidate)
    requires
        distinct_domains(candidate_views(old(list)@)),
    ensures
        distinct_domains(candidate_views(final(list)@)),
        candidate_views(final(list)@) == put_in(candidate_views(old(list)@), c@),
{
    let ghost before = candidate_views(list@);
    let mut i: usize = 0;
    while i < list.len()
        invariant
            i <= list.len(),
            list@ == old(list)@,
            before == candidate_views(list@),
            distinct_domains(before),
            forall|j: int| 0 <= j < i ==> before[j].domain != c@.domain,
        decreases list.len() - i,
    {
        if list[i].domain == c.domain {
            proof {
                assert(before[i as int].domain == c@.domain);
                let p = choose|p: int| 0 <= p < before.len() && before[p].domain == c@.domain;
                assert(!(p < i));
                assert(!(i < p));
            }
            let ghost view = c@;
            list.set(i, c);
            assert(candidate_views(list@) =~= before.update(i as int, view));
            return ;
        }
        i += 1;
    }
    let ghost view = c@;
    list.push(c);
    assert(candidate_views(list@) =~= before.push(view));
}

/// The candidates for a niche's seeds in a region: every seed's proposals,
/// seed after seed, each domain kept once, at the place where it came up
/// first and with the relevance it was given last.
pub fn generate_candidates(seeds: &Vec<String>, tlds: &Vec<String>, region: &str) -> (candidates:
    Vec<Candidate>)
    ensures
        candidate_views(candidates@) == merged(
            all_candidates(texts(seeds@), texts(tlds@), region@),
        ),
        distinct_domains(candidate_views(candidates@)),
{
    let mut proposals: Vec<Candidate> = Vec::new();
    let mut i: usize = 0;
    assert(candidate_views(proposals@) =~= all_candidates(
        texts(seeds@).take(0),
        texts(tlds@),
        region@,
    ));
    while i < seeds.len()
        invariant
            i <= seeds.len(),
            candidate_views(proposals@) == all_candidates(
                texts(seeds@).take(i as int),
                texts(tlds@),
                region@,
            ),
        decreases seeds.len() - i,
    {
        let ghost before = proposals@;
        let mut more = candidates_of_seed(seeds[i].as_str(), tlds, region);
        let ghost added = more@;
        proposals.append(&mut more);
        assert(candidate_views(proposals@) =~= candidate_views(before) + candidate_views(added));
        assert(texts(seeds@).take(i + 1).drop_last() =~= texts(seeds@).take(i as int));
        assert(texts(seeds@).take(i + 1).last() == seeds@[i as int]@);
        i += 1;
    }
    assert(texts(seeds@).take(i as int) =~= texts(seeds@));
    let ghost all = candidate_views(proposals@);
    let mut candidates: Vec<Candidate> = Vec::new();
    assert(candidate_views(candidates@) =~= merged(all.take(0)));
    while proposals.len() > 0
        invariant
            proposals.len() <= all.len(),
            candidate_views(proposals@) == all.skip(all.len() - proposals.len()),
            candidate_views(candidates@) == merged(all.take(all.len() - proposals.len())),
            distinct_domains(candidate_views(candidates@)),
        decreases proposals.len(),
    {
        let ghost k = all.len() - proposals.len();
        let ghost rest = candidate_views(proposals@);
        let ghost held = proposals@;
        let next = proposals.remove(0);
        assert(proposals@ =~= held.skip(1));
        assert(next@ == rest[0]);
        assert(rest[0] == all[k]);
        assert(candidate_views(proposals@) =~= rest.skip(1));
        assert(rest.skip(1) =~= all.skip(k + 1));
        assert(all.take(k + 1).drop_last() =~= all.take(k));
        put(&mut candidates, next);
    }
    assert(all.take(all.len() as int) =~= all);
    candidates
}

/// The relevance of a candidate once its site has been probed: its own
/// where the site is there, half of it where it is not.
pub open spec fn settled_score(score: int, reachable: bool) -> int {
    if reachable {
        score
    } else {
        score / 2
    }
}

/// The name under which a candidate is asked about, if it is a domain name
/// at all.
pub fn clean_domain(candidate: &Candidate) -> (clean: Option<String>)
    ensures
        match clean {
            Some(name) => validated_domain(candidate@.domain) == Ok::<Seq<char>, DomainError>(
                name@,
            ),
            None => validated_domain(candidate@.domain) is Err,
        },
{
    match validate_domain(candidate.domain.as_str()) {
        Ok(name) => Some(name),
        Err(_) => None,
    }
}

/// The verdict on a candidate whose clean name is `name`, once its robots
/// file and its site have been asked: a site that keeps crawlers out is
/// dropped; any other is kept, with half its relevance where the site
/// could not be reached.
pub fn settle(name: String, score: u64, robots_ok: bool, reachable: bool) -> (kept: Option<
    Candidate,
>)
    ensures
        match kept {
            Some(c) => robots_ok && c@ == (CandidateView {
                domain: name@,
                score: settled_score(score as int, reachable),
            }),
            None => !robots_ok,
        },
{
    if robots_ok {
        let settled = if reachable {
            score
        } else {
            score / 2
        };
        Some(Candidate { domain: name, score: settled })
    } else {
        None
    }
}

/// `sorted` with `c` put behind the last candidate that is at least as
/// relevant.
pub open spec fn placed(sorted: Seq<CandidateView>, c: CandidateView) -> Seq<CandidateView>
    decreases sorted.len(),
{
    if sorted.len() == 0 {
        seq![c]
    } else if sorted.last().score >= c.score {
        sorted.push(c)
    } else {
        placed(sorted.drop_last(), c).push(sorted.last())
    }
}

/// `list` in the order of relevance, the most relevant first; candidates of
/// the same relevance keep their order.
pub open spec fn ranked(list: Seq<CandidateView>) -> Seq<CandidateView>
    decreases list.len(),
{
    if list.len() == 0 {
        Seq::empty()
    } else {
        placed(ranked(list.drop_last()), list.last())
    }
}

/// Whether no candidate of `list` is more relevant than one before it.
pub open spec fn descending(list: Seq<CandidateView>) -> bool {
    forall|i: int, j: int| 0 <= i <= j < list.len() ==> list[i].score >= list[j].score
}

/// `placed` puts the candidate at the position behind which everything is
/// less relevant and before which stands one that is not.
pub proof fn lemma_placed_at(sorted: Seq<CandidateView>, c: CandidateView, p: int)
    requires
        0 <= p <= sorted.len(),
        forall|j: int| p <= j < sorted.len() ==> sorted[j].score < c.score,
        p > 0 ==> sorted[p - 1].score >= c.score,
    ensures
        placed(sorted, c) == sorted.insert(p, c),
    decreases sorted.len(),
{
    if sorted.len() == 0 {
        assert(sorted.insert(p, c) =~= seq![c]);
    } else if p == sorted.len() {
        assert(sorted.insert(p, c) =~= sorted.push(c));
    } else {
        let rest = sorted.drop_last();
        assert(sorted.last().score < c.score);
        assert forall|j: int| p <= j < rest.len() implies rest[j].score < c.score by {
            assert(rest[j] == sorted[j]);
        }
        if p > 0 {
            assert(rest[p - 1] == sorted[p - 1]);
        }
        lemma_placed_at(rest, c, p);
        assert(rest.insert(p, c).push(sorted.last()) =~= sorted.insert(p, c));
    }
}

/// Placing a candidate keeps a descending list descending and adds that
/// candidate and nothing else.
pub proof fn lemma_placed(sorted: Seq<CandidateView>, c: CandidateView)
    requires
        descending(sorted),
    ensures
        descending(placed(sorted, c)),
        placed(sorted, c).to_multiset() == sorted.to_multiset().insert(c),
        placed(sorted, c).len() == sorted.len() + 1,
    decreases sorted.len(),
{
    broadcast use vstd::seq_lib::group_to_multiset_ensures;

    if sorted.len() == 0 {
        assert(seq![c] =~= Seq::<CandidateView>::empty().push(c));
        assert(sorted =~= Seq::<CandidateView>::empty());
    } else if sorted.last().score >= c.score {
        let after = sorted.push(c);
        assert forall|i: int, j: int| 0 <= i <= j < after.len() implies after[i].score
            >= after[j].score by {
            if j == sorted.len() && i < sorted.len() {
                assert(sorted[i].score >= sorted[sorted.len() - 1].score);
            }
        }
    } else {
        let rest = sorted.drop_last();
        assert(descending(rest)) by {
            assert forall|i: int, j: int| 0 <= i <= j < rest.len() implies rest[i].score
                >= rest[j].score by {
                assert(rest[i] == sorted[i] && rest[j] == sorted[j]);
            }
        }
        lemma_placed(rest, c);
        let inner = placed(rest, c);
        let after = inner.push(sorted.last());
        assert(rest.push(sorted.last()) =~= sorted);
        assert forall|i: int, j: int| 0 <= i <= j < after.len() implies after[i].score
            >= after[j].score by {
            if j == inner.len() && i < inner.len() {
                // every candidate of `inner` is `c` or one of `rest`
                assert(inner.to_multiset().count(inner[i]) > 0);
                if inner[i] != c {
                    assert(rest.to_multiset().count(inner[i]) > 0);
                    let k = choose|k: int| 0 <= k < rest.len() && rest[k] == inner[i];
                    assert(sorted[k].score >= sorted[sorted.len() - 1].score);
                }
            }
        }
        assert(after.to_multiset() =~= sorted.to_multiset().insert(c));
    }
}

/// Ranking gives the same candidates, the most relevant first.
pub proof fn lemma_ranked(list: Seq<CandidateView>)
    ensures
        descending(ranked(list)),
        ranked(list).to_multiset() == list.to_multiset(),
        ranked(list).len() == list.len(),
    decreases list.len(),
{
    broadcast use vstd::seq_lib::group_to_multiset_ensures;

    if list.len() == 0 {
        assert(list =~= Seq::<CandidateView>::empty());
    } else {
        lemma_ranked(list.drop_last());
        lemma_placed(ranked(list.drop_last()), list.last());
        assert(list.drop_last().push(list.last()) =~= list);
    }
}

/// The domains of a sequence of candidates, in order.
pub open spec fn domains_of(list: Seq<CandidateView>) -> Seq<Seq<char>> {
    list.map_values(|c: CandidateView| c.domain)
}

/// The domains of the `max_domains` most relevant of `candidates`, the most
/// relevant first; candidates of the same relevance keep their order.
pub fn rank_domains(candidates: Vec<Candidate>, max_domains: usize) -> (domains: Vec<String>)
    ensures
        texts(domains@) == domains_of(
            ranked(candidate_views(candidates@)).take(
                if max_domains <= candidates.len() {
                    max_domains as int
                } else {
                    candidates.len() as int
                },
            ),
        ),
{
    let ghost all = candidate_views(candidates@);
    let mut rest = candidates;
    let mut sorted: Vec<Candidate> = Vec::new();
    assert(candidate_views(sorted@) =~= ranked(all.take(0)));
    while rest.len() > 0
        invariant
            rest.len() <= all.len(),
            candidate_views(rest@) == all.skip(all.len() - rest.len()),
            candidate_views(sorted@) == ranked(all.take(all.len() - rest.len())),
            sorted.len() == all.len() - rest.len(),
        decreases rest.len(),
    {
        let ghost k = all.len() - rest.len();
        let ghost before = candidate_views(rest@);
        let ghost held = rest@;
        let next = rest.remove(0);
        assert(rest@ =~= held.skip(1));
        assert(next@ == before[0]);
        assert(before[0] == all[k]);
        assert(candidate_views(rest@) =~= before.skip(1));
        assert(before.skip(1) =~= all.skip(k + 1));
        assert(all.take(k + 1).drop_last() =~= all.take(k));
        let mut p: usize = sorted.len();
        while p > 0 && sorted[p - 1].score < next.score
            invariant
                p <= sorted.len(),
                forall|j: int|
                    p <= j < sorted.len() ==> candidate_views(sorted@)[j].score < next@.score,
            decreases p,
        {
            p -= 1;
        }
        proof {
            lemma_placed_at(candidate_views(sorted@), next@, p as int);
        }
        let ghost prior = candidate_views(sorted@);
        let ghost view = next@;
        sorted.insert(p, next);
        assert(candidate_views(sorted@) =~= prior.insert(p as int, view));
    }
    assert(all.take(all.len() as int) =~= all);
    proof {
        lemma_ranked(all);
    }
    let n: usize = if max_domains <= sorted.len() {
        max_domains
    } else {
        sorted.len()
    };
    let mut domains: Vec<String> = Vec::new();
    let mut i: usize = 0;
    while i < n
        invariant
            i <= n <= sorted.len(),
            texts(domains@) == domains_of(candidate_views(sorted@)).take(i as int),
        decreases n - i,
    {
        let ghost before = domains@;
        domains.push(sorted[i].domain.clone());
        assert(texts(domains@) =~= texts(before).push(sorted@[i as int].domain@));
        i += 1;
        assert(domains_of(candidate_views(sorted@)).take(i as int) =~= domains_of(
            candidate_views(sorted@),
        ).take(i - 1).push(sorted@[i - 1].domain@));
    }
    assert(domains_of(candidate_views(sorted@)).take(n as int) =~= domains_of(
        candidate_views(sorted@).take(n as int),
    ));
    domains
}

/// The identifier of a discovery run for a niche and a region.
pub fn run_id(niche: &str, region: &str) -> (id: String)
    ensures
        id@ == "discovery_"@ + niche@ + "_"@ + region@,
{
    let mut id = join3("discovery_", niche, "_");
    id.append(region);
    id
}

/// The message that closes a discovery run which found `count` domains.
pub fn summary_message(count: usize) -> (message: String)
    ensures
        message@ == "Discovered "@ + decimal(count as nat) + " domains"@,
{
    join3("Discovered ", decimal_string(count as u64).as_str(), " domains")
}

} // verus!
