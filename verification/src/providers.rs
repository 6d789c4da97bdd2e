use crate::config::{GoogleTrendsConfig, ShopifyConfig, WhoisConfig};
use crate::model::{AdjustmentView, ScoreAdjustment, SiteType};
use crate::outside::{
    first_capture, lowercase, parse_host, parse_rfc3339, regex_first_group, rfc3339_millis,
    unicode_lowercase, url_host,
};
use crate::parallel::is_success;
use crate::text::{
    contains, decimal, decimal_string, digit_char, occurs_in, split, split_on, text_of, texts,
    to_chars,
};
use vstd::prelude::*;
use vstd::utf8::encode_utf8;

verus! {

/// The length of a day, in milliseconds.
pub const DAY_MILLIS: i64 = 86_400_000;

/// Whether one of `needles` is a contiguous part of `hay`.
pub open spec fn occurs_any(hay: Seq<char>, needles: Seq<Seq<char>>) -> bool {
    exists|j: int| 0 <= j < needles.len() && occurs_in(hay, #[trigger] needles[j])
}

/// Tests whether one of `needles` is a contiguous part of `hay`.
pub fn contains_any(hay: &str, needles: &Vec<String>) -> (r: bool)
    ensures
        r == occurs_any(hay@, texts(needles@)),
{
    let h = to_chars(hay);
    let mut j: usize = 0;
    while j < needles.len()
        invariant
            h@ == hay@,
            j <= needles.len(),
            forall|k: int| 0 <= k < j ==> !occurs_in(hay@, #[trigger] texts(needles@)[k]),
        decreases needles.len() - j,
    {
        let n = to_chars(needles[j].as_str());
        assert(texts(needles@)[j as int] == n@);
        if contains(&h, &n) {
            return true;
        }
        j += 1;
    }
    false
}

/// The page that an answer brings: its body where the status stands for
/// success and the body could be read, nothing for any other status.
pub open spec fn page_of_answer(status: u16, body: Option<Seq<char>>) -> Option<Seq<char>> {
    if is_success(status) {
        body
    } else {
        None
    }
}

/// Decides what page an answer with `status` brings: the body that was read
/// where the status is one of success, nothing where it is not. A fetch
/// that failed or ran out of time brings no answer at all, and so no page.
pub fn page_from(status: u16, body: Option<String>) -> (page: Option<String>)
    ensures
        text_of(page) == page_of_answer(status, text_of(body)),
{
    if 200 <= status && status < 300 {
        body
    } else {
        None
    }
}

/// The literal marks by which a page gives away the platform behind it.
#[derive(Debug)]
pub struct SiteSignatures {
    pub shopify: Vec<String>,
    pub woocommerce: Vec<String>,
    pub custom: Vec<String>,
}

/// The platform that the marks in `html` point to. Shopify's marks are looked
/// for first, then WooCommerce's, then those of other shop software.
pub open spec fn site_type_of(
    shopify: Seq<Seq<char>>,
    woocommerce: Seq<Seq<char>>,
    custom: Seq<Seq<char>>,
    html: Seq<char>,
) -> SiteType {
    if occurs_any(html, shopify) {
        SiteType::Shopify
    } else if occurs_any(html, woocommerce) {
        SiteType::WooCommerce
    } else if occurs_any(html, custom) {
        SiteType::Custom
    } else {
        SiteType::Unknown
    }
}

impl SiteSignatures {
    /// The platform that a fetched page points to, `Unknown` where there is
    /// no page.
    pub open spec fn site_type(&self, page: Option<Seq<char>>) -> SiteType {
        match page {
            Some(html) => site_type_of(
                texts(self.shopify@),
                texts(self.woocommerce@),
                texts(self.custom@),
                html,
            ),
            None => SiteType::Unknown,
        }
    }

    /// The marks of Shopify, WooCommerce, Magento and PrestaShop.
    pub fn standard() -> (marks: SiteSignatures)
        ensures
            texts(marks.shopify@) == seq!["cdn.shopify.com"@, "myshopify.com"@],
            texts(marks.woocommerce@) == seq![
                "woocommerce"@,
                "wp-content/plugins/woocommerce"@,
            ],
            texts(marks.custom@) == seq!["magento"@, "prestashop"@],
    {
        let mut shopify: Vec<String> = Vec::new();
        shopify.push(String::from_str("cdn.shopify.com"));
        shopify.push(String::from_str("myshopify.com"));
        let mut woocommerce: Vec<String> = Vec::new();
        woocommerce.push(String::from_str("woocommerce"));
        woocommerce.push(String::from_str("wp-content/plugins/woocommerce"));
        let mut custom: Vec<String> = Vec::new();
        custom.push(String::from_str("magento"));
        custom.push(String::from_str("prestashop"));
        assert(texts(shopify@) =~= seq!["cdn.shopify.com"@, "myshopify.com"@]);
        assert(texts(woocommerce@) =~= seq!["woocommerce"@, "wp-content/plugins/woocommerce"@]);
        assert(texts(custom@) =~= seq!["magento"@, "prestashop"@]);
        SiteSignatures { shopify, woocommerce, custom }
    }

    /// Reads the platform off the marks in `html`.
    pub fn classify(&self, html: &str) -> (kind: SiteType)
        ensures
            kind == self.site_type(Some(html@)),
    {
        if contains_any(html, &self.shopify) {
            SiteType::Shopify
        } else if contains_any(html, &self.woocommerce) {
            SiteType::WooCommerce
        } else if contains_any(html, &self.custom) {
            SiteType::Custom
        } else {
            SiteType::Unknown
        }
    }

    /// Reads the platform off what a fetch of the page brought back; a fetch
    /// that failed gives `Unknown`.
    pub fn detect_site_type(&self, page: &Option<String>) -> (kind: SiteType)
        ensures
            kind == self.site_type(
                match page {
                    Some(html) => Some(html@),
                    None => None,
                },
            ),
    {
        match page {
            Some(html) => self.classify(html.as_str()),
            None => SiteType::Unknown,
        }
    }
}

/// Trend signal: a host one of whose labels holds a trending term.
#[derive(Debug)]
pub struct GoogleTrendsProvider {
    pub config: GoogleTrendsConfig,
    pub terms: Vec<String>,
    pub boost: i64,
}

/// Whether a label of a host is long enough to count as a keyword: more than
/// three bytes of UTF-8.
pub open spec fn is_keyword(label: Seq<char>) -> bool {
    encode_utf8(label).len() > 3
}

/// Whether a label of a host is a keyword whose lowercase form holds one of
/// `terms`.
pub open spec fn label_trends(label: Seq<char>, terms: Seq<Seq<char>>) -> bool {
    is_keyword(label) && occurs_any(unicode_lowercase(label), terms)
}

/// Whether one of the labels of `host`, the pieces between its dots, trends.
pub open spec fn host_trends(host: Seq<char>, terms: Seq<Seq<char>>) -> bool {
    exists|i: int|
        0 <= i < split(host, '.').len() && label_trends(#[trigger] split(host, '.')[i], terms)
}

impl GoogleTrendsProvider {
    /// The adjustment that this provider makes when it fires.
    pub open spec fn adjustment(&self) -> AdjustmentView {
        AdjustmentView {
            source: "Google Trends"@,
            adjustment: self.boost as int,
            reason: "Domain contains trending keywords"@,
        }
    }

    /// What `enrich_host` gives for a host.
    pub open spec fn outcome(&self, host: Seq<char>) -> Option<AdjustmentView> {
        if host_trends(host, texts(self.terms@)) {
            Some(self.adjustment())
        } else {
            None
        }
    }

    /// The terms that count as trending unless others are given.
    pub fn standard_terms() -> (terms: Vec<String>)
        ensures
            texts(terms@) == seq!["ai"@, "tech"@, "crypto"@, "shop"@, "store"@, "market"@],
    {
        let mut terms: Vec<String> = Vec::new();
        terms.push(String::from_str("ai"));
        terms.push(String::from_str("tech"));
        terms.push(String::from_str("crypto"));
        terms.push(String::from_str("shop"));
        terms.push(String::from_str("store"));
        terms.push(String::from_str("market"));
        assert(texts(terms@) =~= seq![
            "ai"@,
            "tech"@,
            "crypto"@,
            "shop"@,
            "store"@,
            "market"@,
        ]);
        terms
    }

    /// The name under which this provider's requests are counted.
    pub fn name(&self) -> (name: &'static str)
        ensures
            name@ == "google_trends"@,
    {
        "google_trends"
    }

    /// Tests whether one of the labels of `host` trends.
    pub fn is_trending(&self, host: &str) -> (r: bool)
        ensures
            r == host_trends(host@, texts(self.terms@)),
    {
        let labels = split_on(host, '.');
        let mut i: usize = 0;
        while i < labels.len()
            invariant
                i <= labels.len(),
                texts(labels@) == split(host@, '.'),
                forall|k: int|
                    0 <= k < i ==> !label_trends(
                        #[trigger] split(host@, '.')[k],
                        texts(self.terms@),
                    ),
            decreases labels.len() - i,
        {
            let label = labels[i].as_str();
            assert(texts(labels@)[i as int] == label@);
            if label.as_bytes().len() > 3 {
                let lowered = lowercase(label);
                if contains_any(lowered.as_str(), &self.terms) {
                    return true;
                }
            }
            i += 1;
        }
        false
    }

    /// The adjustment for a host: the boost where one of its labels trends.
    pub fn enrich_host(&self, host: &str) -> (found: Option<ScoreAdjustment>)
        ensures
            match found {
                Some(a) => self.outcome(host@) == Some(a@),
                None => self.outcome(host@) is None,
            },
    {
        if self.is_trending(host) {
            Some(
                ScoreAdjustment {
                    source: String::from_str("Google Trends"),
                    adjustment: self.boost,
                    reason: String::from_str("Domain contains trending keywords"),
                },
            )
        } else {
            None
        }
    }

    /// The adjustment for a URL: that of its host, and none where the URL
    /// has no host to read.
    pub fn enrich(&self, url: &str) -> (found: Option<ScoreAdjustment>)
        ensures
            match url_host(url@) {
                Some(host) => match found {
                    Some(a) => self.outcome(host) == Some(a@),
                    None => self.outcome(host) is None,
                },
                None => found is None,
            },
    {
        match parse_host(url) {
            Some(host) => self.enrich_host(host.as_str()),
            None => None,
        }
    }
}

/// Platform detection: a page that carries one of Shopify's marks.
#[derive(Debug)]
pub struct ShopifyDetectionProvider {
    pub config: ShopifyConfig,
    pub signatures: Vec<String>,
    pub boost: i64,
}

impl ShopifyDetectionProvider {
    /// The adjustment that this provider makes when it fires.
    pub open spec fn adjustment(&self) -> AdjustmentView {
        AdjustmentView {
            source: "Shopify Detection"@,
            adjustment: self.boost as int,
            reason: "Detected as Shopify store"@,
        }
    }

    /// What `enrich` gives for what a fetch brought back.
    pub open spec fn outcome(&self, page: Option<Seq<char>>) -> Option<AdjustmentView> {
        match page {
            Some(html) => if occurs_any(html, texts(self.signatures@)) {
                Some(self.adjustment())
            } else {
                None
            },
            None => None,
        }
    }

    /// The marks looked for unless others are given.
    pub fn standard_signatures() -> (marks: Vec<String>)
        ensures
            texts(marks@) == seq![
                "cdn.shopify.com"@,
                "Shopify.theme"@,
                "shopify-analytics"@,
                "shopify_pay"@,
                "myshopify.com"@,
            ],
    {
        let mut marks: Vec<String> = Vec::new();
        marks.push(String::from_str("cdn.shopify.com"));
        marks.push(String::from_str("Shopify.theme"));
        marks.push(String::from_str("shopify-analytics"));
        marks.push(String::from_str("shopify_pay"));
        marks.push(String::from_str("myshopify.com"));
        assert(texts(marks@) =~= seq![
            "cdn.shopify.com"@,
            "Shopify.theme"@,
            "shopify-analytics"@,
            "shopify_pay"@,
            "myshopify.com"@,
        ]);
        marks
    }

    /// The name under which this provider's requests are counted.
    pub fn name(&self) -> (name: &'static str)
        ensures
            name@ == "shopify"@,
    {
        "shopify"
    }

    /// The adjustment for what a fetch of the page brought back: the boost
    /// where the page carries one of the marks, none where it does not or
    /// the fetch failed.
    pub fn enrich(&self, page: &Option<String>) -> (found: Option<ScoreAdjustment>)
        ensures
            match found {
                Some(a) => self.outcome(
                    match page {
                        Some(html) => Some(html@),
                        None => None,
                    },
                ) == Some(a@),
                None => self.outcome(
                    match page {
                        Some(html) => Some(html@),
                        None => None,
                    },
                ) is None,
            },
    {
        match page {
            Some(html) => {
                if contains_any(html.as_str(), &self.signatures) {
                    Some(
                        ScoreAdjustment {
                            source: String::from_str("Shopify Detection"),
                            adjustment: self.boost,
                            reason: String::from_str("Detected as Shopify store"),
                        },
                    )
                } else {
                    None
                }
            },
            None => None,
        }
    }
}

/// Registration age: a domain registered more than two years ago.
#[derive(Debug)]
pub struct WhoisProvider {
    pub config: WhoisConfig,
    pub patterns: Vec<String>,
    pub boost: i64,
}

/// The date that one pattern finds in a registry's answer: what its first
/// group holds, read as midnight UTC of that day.
pub open spec fn date_by_pattern(pattern: Seq<char>, answer: Seq<char>) -> Option<i64> {
    match regex_first_group(pattern, answer) {
        Some(day) => rfc3339_millis(day + "T00:00:00Z"@),
        None => None,
    }
}

/// The creation date in a registry's answer: that of the first pattern that
/// finds a date which reads as one.
pub open spec fn creation_date(patterns: Seq<Seq<char>>, answer: Seq<char>) -> Option<i64>
    decreases patterns.len(),
{
    if patterns.len() == 0 {
        None
    } else {
        match date_by_pattern(patterns[0], answer) {
            Some(millis) => Some(millis),
            None => creation_date(patterns.drop_first(), answer),
        }
    }
}

/// The whole days from `created` to `now`, for `created` not after `now`.
pub open spec fn whole_days(created: int, now: int) -> int {
    (now - created) / (DAY_MILLIS as int)
}

/// Whether an age of `days` days is more than two years of 365.25 days.
pub open spec fn older_than_two_years(days: int) -> bool {
    4 * days > 2922
}

/// An age of `days` days in tenths of a year of 365.25 days, rounded to the
/// nearest tenth.
pub open spec fn age_tenths(days: int) -> int {
    (80 * days + 1461) / 2922
}

/// The reason given for an age of `days` days.
pub open spec fn age_reason(days: int) -> Seq<char> {
    "Domain age: "@ + decimal((age_tenths(days) / 10) as nat) + seq![
        '.',
        digit_char(age_tenths(days) % 10),
    ] + " years"@
}

impl WhoisProvider {
    /// What `age_adjustment` gives for a creation date and the current time.
    pub open spec fn outcome(&self, created: Option<i64>, now: int) -> Option<AdjustmentView> {
        match created {
            Some(c) => if c <= now && older_than_two_years(whole_days(c as int, now)) {
                Some(
                    AdjustmentView {
                        source: "Whois"@,
                        adjustment: self.boost as int,
                        reason: age_reason(whole_days(c as int, now)),
                    },
                )
            } else {
                None
            },
            None => None,
        }
    }

    /// What `parse_creation_date` gives for an answer, and nothing for a
    /// lookup that failed.
    pub open spec fn created(&self, answer: Option<Seq<char>>) -> Option<i64> {
        match answer {
            Some(text) => creation_date(texts(self.patterns@), text),
            None => None,
        }
    }

    /// The patterns tried unless others are given.
    pub fn standard_patterns() -> (patterns: Vec<String>)
        ensures
            texts(patterns@) == seq![
                "Creation Date:\\s*(\\d{4}-\\d{2}-\\d{2})"@,
                "Created:\\s*(\\d{4}-\\d{2}-\\d{2})"@,
                "created:\\s*(\\d{4}-\\d{2}-\\d{2})"@,
            ],
    {
        let mut patterns: Vec<String> = Vec::new();
        patterns.push(String::from_str("Creation Date:\\s*(\\d{4}-\\d{2}-\\d{2})"));
        patterns.push(String::from_str("Created:\\s*(\\d{4}-\\d{2}-\\d{2})"));
        patterns.push(String::from_str("created:\\s*(\\d{4}-\\d{2}-\\d{2})"));
        assert(texts(patterns@) =~= seq![
            "Creation Date:\\s*(\\d{4}-\\d{2}-\\d{2})"@,
            "Created:\\s*(\\d{4}-\\d{2}-\\d{2})"@,
            "created:\\s*(\\d{4}-\\d{2}-\\d{2})"@,
        ]);
        patterns
    }

    /// The name under which this provider's requests are counted.
    pub fn name(&self) -> (name: &'static str)
        ensures
            name@ == "whois"@,
    {
        "whois"
    }

    /// Reads the creation date out of a registry's answer, in milliseconds
    /// since the Unix epoch: the patterns are tried in order, and the first
    /// whose group reads as a date decides.
    pub fn parse_creation_date(&self, whois_data: &str) -> (created: Option<i64>)
        ensures
            created == creation_date(texts(self.patterns@), whois_data@),
    {
        let mut i: usize = 0;
        assert(texts(self.patterns@).skip(0) =~= texts(self.patterns@));
        while i < self.patterns.len()
            invariant
                i <= self.patterns.len(),
                creation_date(texts(self.patterns@), whois_data@) == creation_date(
                    texts(self.patterns@).skip(i as int),
                    whois_data@,
                ),
            decreases self.patterns.len() - i,
        {
            let ghost rest = texts(self.patterns@).skip(i as int);
            assert(rest[0] == self.patterns@[i as int]@);
            assert(rest.drop_first() =~= texts(self.patterns@).skip(i + 1));
            match first_capture(self.patterns[i].as_str(), whois_data) {
                Some(day) => {
                    let mut stamp = day;
                    stamp.append("T00:00:00Z");
                    match parse_rfc3339(stamp.as_str()) {
                        Some(millis) => {
                            return Some(millis);
                        },
                        None => {},
                    }
                },
                None => {},
            }
            i += 1;
        }
        assert(texts(self.patterns@).skip(i as int) =~= Seq::<Seq<char>>::empty());
        None
    }

    /// The adjustment for a creation date, seen from the time `now`: the
    /// boost where the domain is more than two years old, with the age in
    /// the reason; none where it is younger or no date was found.
    pub fn age_adjustment(&self, created: Option<i64>, now: i64) -> (found: Option<
        ScoreAdjustment,
    >)
        ensures
            match found {
                Some(a) => self.outcome(created, now as int) == Some(a@),
                None => self.outcome(created, now as int) is None,
            },
    {
        match created {
            Some(c) => {
                if c > now {
                    return None;
                }
                let span: i128 = now as i128 - c as i128;
                let days: i128 = span / (DAY_MILLIS as i128);
                assert(days == whole_days(c as int, now as int));
                if 4 * days > 2922 {
                    let tenths: i128 = (80 * days + 1461) / 2922;
                    assert(tenths == age_tenths(days as int));
                    let mut reason = String::from_str("Domain age: ");
                    reason.append(decimal_string((tenths / 10) as u64).as_str());
                    reason.push('.');
                    reason.push(crate::text::digit_of((tenths % 10) as u64));
                    reason.append(" years");
                    assert(reason@ =~= age_reason(days as int));
                    Some(
                        ScoreAdjustment {
                            source: String::from_str("Whois"),
                            adjustment: self.boost,
                            reason,
                        },
                    )
                } else {
                    None
                }
            },
            None => None,
        }
    }

    /// The adjustment for what a lookup brought back, seen from the time
    /// `now`; a lookup that failed gives none.
    pub fn enrich(&self, answer: &Option<String>, now: i64) -> (found: Option<ScoreAdjustment>)
        ensures
            match found {
                Some(a) => self.outcome(
                    self.created(
                        match answer {
                            Some(text) => Some(text@),
                            None => None,
                        },
                    ),
                    now as int,
                ) == Some(a@),
                None => self.outcome(
                    self.created(
                        match answer {
                            Some(text) => Some(text@),
                            None => None,
                        },
                    ),
                    now as int,
                ) is None,
            },
    {
        match answer {
            Some(text) => {
                let created = self.parse_creation_date(text.as_str());
                self.age_adjustment(created, now)
            },
            None => None,
        }
    }
}

} // verus!
