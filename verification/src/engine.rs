use crate::cache::{cache_get, cache_set, fresh, CacheManager, CacheView};
use crate::config::{ApiSettings, EnrichmentConfig};
use crate::model::{
    adjustment_views, lemma_sum_push, score_in_range, sum_adjustments, AdjustmentView,
    EnrichedScore, EnrichedView, EnrichmentData, ScoreAdjustment, SiteType, SCORE_LIMIT,
};
use crate::outside::{current_time_millis, parse_host, url_host};
use crate::providers::{
    GoogleTrendsProvider, ShopifyDetectionProvider, SiteSignatures, WhoisProvider,
};
use crate::rate_limiter::{admits, stamps_after, RateLimiter};
use crate::text::{copy_text, text_of, texts};
use vstd::prelude::*;

verus! {

/// The seconds allowed for the fetch that site-type detection makes.
pub const DETECTION_TIMEOUT_SECONDS: u64 = 5;

/// Why an enrichment could not be started.
#[derive(Debug, Clone, Copy, PartialEq, Eq, Structural)]
pub enum EnrichError {
    /// The text is no URL with a host.
    InvalidUrl,
}

/// Why an engine could not be set up.
#[derive(Debug, Clone, Copy, PartialEq, Eq, Structural)]
pub enum ConfigError {
    /// One of the configured adjustments lies outside the supported range.
    ScoreOutOfRange,
}

/// What an enrichment under way is waiting for.
#[derive(Debug, Clone, Copy, PartialEq, Eq, Structural)]
pub enum Phase {
    /// The page fetched to tell the site's platform.
    SiteDetection,
    /// The page fetched for the platform-detection provider.
    PlatformDetection,
    /// The registry's answer for the registration-age provider.
    RegistrationAge,
}

/// The mathematical content of an enrichment under way.
pub struct PendingView {
    pub url: Seq<char>,
    pub host: Seq<char>,
    pub base_score: int,
    pub site_type: SiteType,
    pub adjustments: Seq<AdjustmentView>,
    pub enrichment_data: EnrichmentData,
    pub phase: Phase,
}

/// The mathematical content of a request for outside work.
pub enum RequestView {
    Page { url: Seq<char>, timeout_seconds: u64 },
    Registration { host: Seq<char>, timeout_seconds: u64 },
}

/// The mathematical content of what outside work brought back.
pub enum EventView {
    Page(Option<Seq<char>>),
    Registration(Option<Seq<char>>),
}

/// The mathematical content of a step of an enrichment.
pub enum StepView {
    Waiting { pending: PendingView, request: RequestView },
    Done { result: EnrichedView, from_cache: bool },
}

/// The mathematical content of an engine: its rules, its cache, and the
/// stamps recorded for each source.
pub struct EngineView {
    pub settings: EnrichmentConfig,
    pub apis: ApiSettings,
    pub signatures: SiteSignatures,
    pub trends: GoogleTrendsProvider,
    pub shopify: ShopifyDetectionProvider,
    pub whois: WhoisProvider,
    pub cache: CacheView,
    pub windows: Map<Seq<char>, Seq<i64>>,
}

impl EngineView {
    /// Every cached result has its enriched score equal to its base score
    /// plus its adjustments.
    pub open spec fn sound(self) -> bool {
        forall|key: Seq<char>| #[trigger]
            self.cache.entries.contains_key(key) ==> self.cache.entries[key].data.balanced()
    }

    /// The engine with `cache` in place of its cache.
    pub open spec fn with_cache(self, cache: CacheView) -> EngineView {
        EngineView {
            settings: self.settings,
            apis: self.apis,
            signatures: self.signatures,
            trends: self.trends,
            shopify: self.shopify,
            whois: self.whois,
            cache: cache,
            windows: self.windows,
        }
    }

    /// The engine with `windows` in place of its recorded stamps.
    pub open spec fn with_windows(self, windows: Map<Seq<char>, Seq<i64>>) -> EngineView {
        EngineView {
            settings: self.settings,
            apis: self.apis,
            signatures: self.signatures,
            trends: self.trends,
            shopify: self.shopify,
            whois: self.whois,
            cache: self.cache,
            windows: windows,
        }
    }
}

impl PendingView {
    /// The enrichment with one more adjustment, where there is one.
    pub open spec fn with_adjustment(self, found: Option<AdjustmentView>) -> PendingView {
        match found {
            Some(a) => PendingView {
                url: self.url,
                host: self.host,
                base_score: self.base_score,
                site_type: self.site_type,
                adjustments: self.adjustments.push(a),
                enrichment_data: self.enrichment_data,
                phase: self.phase,
            },
            None => self,
        }
    }

    /// The enrichment with `data` in place of its signals.
    pub open spec fn with_data(self, data: EnrichmentData) -> PendingView {
        PendingView {
            url: self.url,
            host: self.host,
            base_score: self.base_score,
            site_type: self.site_type,
            adjustments: self.adjustments,
            enrichment_data: data,
            phase: self.phase,
        }
    }

    /// The enrichment with `site_type` in place of its site type.
    pub open spec fn with_site_type(self, site_type: SiteType) -> PendingView {
        PendingView {
            url: self.url,
            host: self.host,
            base_score: self.base_score,
            site_type: site_type,
            adjustments: self.adjustments,
            enrichment_data: self.enrichment_data,
            phase: self.phase,
        }
    }

    /// The enrichment, waiting in `phase`.
    pub open spec fn in_phase(self, phase: Phase) -> PendingView {
        PendingView {
            url: self.url,
            host: self.host,
            base_score: self.base_score,
            site_type: self.site_type,
            adjustments: self.adjustments,
            enrichment_data: self.enrichment_data,
            phase: phase,
        }
    }

    /// The result that the enrichment ends with at the time `now`.
    pub open spec fn outcome(self, now: int) -> EnrichedView {
        EnrichedView {
            url: self.url,
            base_score: self.base_score,
            enriched_score: self.base_score + sum_adjustments(self.adjustments),
            adjustments: self.adjustments,
            site_type: self.site_type,
            enrichment_data: self.enrichment_data,
            timestamp: now,
        }
    }
}

/// The signals with "trending" raised.
pub open spec fn mark_trending(data: EnrichmentData) -> EnrichmentData {
    EnrichmentData {
        is_trending: Some(true),
        is_shopify: data.is_shopify,
        has_funding: data.has_funding,
        rating: data.rating,
        domain_age_years: data.domain_age_years,
    }
}

/// The signals with "runs on Shopify" raised.
pub open spec fn mark_shopify(data: EnrichmentData) -> EnrichmentData {
    EnrichmentData {
        is_trending: data.is_trending,
        is_shopify: Some(true),
        has_funding: data.has_funding,
        rating: data.rating,
        domain_age_years: data.domain_age_years,
    }
}

/// The page that an event carries; an event of another kind carries none.
pub open spec fn page_of(event: EventView) -> Option<Seq<char>> {
    match event {
        EventView::Page(page) => page,
        EventView::Registration(_) => None,
    }
}

/// The registry's answer that an event carries; an event of another kind
/// carries none.
pub open spec fn answer_of(event: EventView) -> Option<Seq<char>> {
    match event {
        EventView::Page(_) => None,
        EventView::Registration(answer) => answer,
    }
}

/// Whether a provider may be tried at `now`: it is enabled and its source is
/// under its quota.
pub open spec fn gate_opens(
    engine: EngineView,
    enabled: bool,
    source: Seq<char>,
    limit: u32,
    now: i64,
) -> bool {
    enabled && admits(engine.windows[source], limit as int, now as int)
}

/// The engine once a provider has come up for its turn at `now`: a disabled
/// provider leaves the stamps alone; an enabled one has its source's stamps
/// pruned, and `now` recorded where the request is admitted.
pub open spec fn gate_passed(
    engine: EngineView,
    enabled: bool,
    source: Seq<char>,
    limit: u32,
    now: i64,
) -> EngineView {
    if enabled {
        engine.with_windows(
            engine.windows.insert(source, stamps_after(engine.windows[source], limit as int, now)),
        )
    } else {
        engine
    }
}

/// The end of an enrichment at `now`: the result is put together, cached
/// under the URL, and handed out.
pub open spec fn finish(engine: EngineView, pending: PendingView, now: i64) -> (
    EngineView,
    StepView,
) {
    let result = pending.outcome(now as int);
    (
        engine.with_cache(cache_set(engine.cache, pending.url, result, now as int)),
        StepView::Done { result: result, from_cache: false },
    )
}

/// The turn of the registration-age provider at `now`: where it may be
/// tried, the enrichment waits for the registry's answer; else it ends.
pub open spec fn enter_registration(engine: EngineView, pending: PendingView, now: i64) -> (
    EngineView,
    StepView,
) {
    let limit = engine.whois.config.rate_limit_per_hour;
    let after = gate_passed(engine, engine.apis.whois_enabled, "whois"@, limit, now);
    if gate_opens(engine, engine.apis.whois_enabled, "whois"@, limit, now) {
        (
            after,
            StepView::Waiting {
                pending: pending.in_phase(Phase::RegistrationAge),
                request: RequestView::Registration {
                    host: pending.host,
                    timeout_seconds: engine.whois.config.timeout_seconds,
                },
            },
        )
    } else {
        finish(after, pending, now)
    }
}

/// The turn of the platform-detection provider at `now`: where it may be
/// tried, the enrichment waits for the page; else the next provider has its
/// turn.
pub open spec fn enter_platform(engine: EngineView, pending: PendingView, now: i64) -> (
    EngineView,
    StepView,
) {
    let limit = engine.shopify.config.rate_limit_per_hour;
    let after = gate_passed(engine, engine.apis.shopify_detection_enabled, "shopify"@, limit, now);
    if gate_opens(engine, engine.apis.shopify_detection_enabled, "shopify"@, limit, now) {
        (
            after,
            StepView::Waiting {
                pending: pending.in_phase(Phase::PlatformDetection),
                request: RequestView::Page {
                    url: pending.url,
                    timeout_seconds: engine.shopify.config.timeout_seconds,
                },
            },
        )
    } else {
        enter_registration(after, pending, now)
    }
}

/// What the trend-signal provider adds at its turn.
pub open spec fn trends_found(engine: EngineView, pending: PendingView, now: i64) -> Option<
    AdjustmentView,
> {
    if gate_opens(
        engine,
        engine.apis.google_trends_enabled,
        "google_trends"@,
        engine.trends.config.rate_limit_per_hour,
        now,
    ) {
        engine.trends.outcome(pending.host)
    } else {
        None
    }
}

/// The step after the page for site-type detection came back, or failed to:
/// the site type is read off the page, the trend-signal provider has its
/// turn, then the platform-detection provider.
pub open spec fn after_site_page(
    engine: EngineView,
    pending: PendingView,
    page: Option<Seq<char>>,
    now: i64,
) -> (EngineView, StepView) {
    let typed = pending.with_site_type(engine.signatures.site_type(page));
    let found = trends_found(engine, pending, now);
    let after = gate_passed(
        engine,
        engine.apis.google_trends_enabled,
        "google_trends"@,
        engine.trends.config.rate_limit_per_hour,
        now,
    );
    let marked = if found is Some {
        typed.with_data(mark_trending(typed.enrichment_data))
    } else {
        typed
    };
    enter_platform(after, marked.with_adjustment(found), now)
}

/// The step after the page for platform detection came back, or failed to.
pub open spec fn after_platform_page(
    engine: EngineView,
    pending: PendingView,
    page: Option<Seq<char>>,
    now: i64,
) -> (EngineView, StepView) {
    let found = engine.shopify.outcome(page);
    let marked = if found is Some {
        pending.with_data(mark_shopify(pending.enrichment_data))
    } else {
        pending
    };
    enter_registration(engine, marked.with_adjustment(found), now)
}

/// The step after the registry's answer came back, or failed to.
pub open spec fn after_registration(
    engine: EngineView,
    pending: PendingView,
    answer: Option<Seq<char>>,
    now: i64,
) -> (EngineView, StepView) {
    let found = engine.whois.outcome(engine.whois.created(answer), now as int);
    finish(engine, pending.with_adjustment(found), now)
}

/// The step that follows an event at the time `now`.
pub open spec fn next(engine: EngineView, pending: PendingView, event: EventView, now: i64) -> (
    EngineView,
    StepView,
) {
    match pending.phase {
        Phase::SiteDetection => after_site_page(engine, pending, page_of(event), now),
        Phase::PlatformDetection => after_platform_page(engine, pending, page_of(event), now),
        Phase::RegistrationAge => after_registration(engine, pending, answer_of(event), now),
    }
}

/// The enrichment of `url` as it stands before any outside work.
pub open spec fn fresh_start(url: Seq<char>, host: Seq<char>, base_score: int) -> PendingView {
    PendingView {
        url: url,
        host: host,
        base_score: base_score,
        site_type: SiteType::Unknown,
        adjustments: Seq::empty(),
        enrichment_data: EnrichmentData::empty(),
        phase: Phase::SiteDetection,
    }
}

/// The first step of an enrichment of `url`, whose host is `host`, at the
/// time `now`: a fresh cached result ends it at once; else it waits for the
/// page that tells the site's platform.
pub open spec fn first_step(
    engine: EngineView,
    url: Seq<char>,
    host: Seq<char>,
    base_score: int,
    now: i64,
) -> StepView {
    match cache_get(engine.cache, url, now as int) {
        Some(result) => StepView::Done { result: result, from_cache: true },
        None => StepView::Waiting {
            pending: fresh_start(url, host, base_score),
            request: RequestView::Page { url: url, timeout_seconds: DETECTION_TIMEOUT_SECONDS },
        },
    }
}

/// How many adjustments an enrichment can hold while it waits in `phase`.
pub open spec fn adjustments_before(phase: Phase) -> int {
    match phase {
        Phase::SiteDetection => 0,
        Phase::PlatformDetection => 1,
        Phase::RegistrationAge => 2,
    }
}

/// Whether every adjustment of a sequence lies within the supported range.
pub open spec fn all_in_range(adjustments: Seq<AdjustmentView>) -> bool {
    forall|i: int| 0 <= i < adjustments.len() ==> score_in_range(#[trigger] adjustments[i].adjustment)
}

impl PendingView {
    /// The scores lie within the supported range, and there are no more
    /// adjustments than providers that have had their turn.
    pub open spec fn bounded(self) -> bool {
        &&& score_in_range(self.base_score)
        &&& self.adjustments.len() <= adjustments_before(self.phase)
        &&& all_in_range(self.adjustments)
    }
}

impl EngineView {
    /// The switches, the providers and the cache go by the settings.
    pub open spec fn consistent(self) -> bool {
        &&& self.apis == self.settings.apis
        &&& self.trends.config == self.settings.google_trends
        &&& self.trends.boost == self.settings.scoring.trending_boost
        &&& self.shopify.config == self.settings.shopify
        &&& self.shopify.boost == self.settings.scoring.shopify_boost
        &&& self.whois.config == self.settings.whois
        &&& self.whois.boost == self.settings.scoring.domain_age_boost
        &&& self.cache.ttl_hours == self.settings.cache.cache_ttl_hours
        &&& self.cache.path == self.settings.cache.database_path@
    }

    /// Every configured adjustment lies within the supported range.
    pub open spec fn bounded(self) -> bool {
        &&& score_in_range(self.trends.boost as int)
        &&& score_in_range(self.shopify.boost as int)
        &&& score_in_range(self.whois.boost as int)
    }
}

/// An enrichment under way: what has been gathered, and what it waits for.
#[derive(Debug)]
pub struct Pending {
    url: String,
    host: String,
    base_score: i64,
    site_type: SiteType,
    adjustments: Vec<ScoreAdjustment>,
    enrichment_data: EnrichmentData,
    phase: Phase,
}

impl View for Pending {
    type V = PendingView;

    closed spec fn view(&self) -> PendingView {
        PendingView {
            url: self.url@,
            host: self.host@,
            base_score: self.base_score as int,
            site_type: self.site_type,
            adjustments: adjustment_views(self.adjustments@),
            enrichment_data: self.enrichment_data,
            phase: self.phase,
        }
    }
}

impl Pending {
    /// What this enrichment waits for.
    pub fn phase(&self) -> (phase: Phase)
        ensures
            phase == self@.phase,
    {
        self.phase
    }

    /// The URL that is being enriched.
    pub fn url(&self) -> (url: &str)
        ensures
            url@ == self@.url,
    {
        self.url.as_str()
    }

    fn add(&mut self, found: Option<ScoreAdjustment>)
        ensures
            final(self)@ == old(self)@.with_adjustment(found_view(found)),
    {
        match found {
            Some(a) => {
                let ghost before = self.adjustments@;
                let ghost view = a@;
                self.adjustments.push(a);
                assert(adjustment_views(self.adjustments@) =~= adjustment_views(before).push(view));
            },
            None => {},
        }
    }
}

/// The mathematical content of an adjustment that may be there.
pub open spec fn found_view(found: Option<ScoreAdjustment>) -> Option<AdjustmentView> {
    match found {
        Some(a) => Some(a@),
        None => None,
    }
}

/// Outside work that an enrichment asks for.
#[derive(Debug)]
pub enum Request {
    /// Fetch the page at `url`, giving up after `timeout_seconds`.
    Page { url: String, timeout_seconds: u64 },
    /// Ask the registry about `host`, giving up after `timeout_seconds`.
    Registration { host: String, timeout_seconds: u64 },
}

impl View for Request {
    type V = RequestView;

    open spec fn view(&self) -> RequestView {
        match self {
            Request::Page { url, timeout_seconds } => RequestView::Page {
                url: url@,
                timeout_seconds: *timeout_seconds,
            },
            Request::Registration { host, timeout_seconds } => RequestView::Registration {
                host: host@,
                timeout_seconds: *timeout_seconds,
            },
        }
    }
}

/// What outside work brought back; `None` stands for work that failed or
/// ran out of time.
#[derive(Debug)]
pub enum Event {
    Page(Option<String>),
    Registration(Option<String>),
}

impl View for Event {
    type V = EventView;

    open spec fn view(&self) -> EventView {
        match self {
            Event::Page(page) => EventView::Page(text_of(*page)),
            Event::Registration(answer) => EventView::Registration(text_of(*answer)),
        }
    }
}

/// One step of an enrichment: either it waits for outside work, or it is
/// done.
#[derive(Debug)]
pub enum Step {
    Waiting { pending: Pending, request: Request },
    Done { result: EnrichedScore, from_cache: bool },
}

impl View for Step {
    type V = StepView;

    open spec fn view(&self) -> StepView {
        match self {
            Step::Waiting { pending, request } => StepView::Waiting {
                pending: pending@,
                request: request@,
            },
            Step::Done { result, from_cache } => StepView::Done {
                result: result@,
                from_cache: *from_cache,
            },
        }
    }
}

impl StepView {
    /// A step that waits holds a bounded enrichment; one that is done holds
    /// a result whose enriched score is its base score plus its adjustments.
    pub open spec fn sound(self) -> bool {
        match self {
            StepView::Waiting { pending, request } => pending.bounded(),
            StepView::Done { result, from_cache } => result.balanced(),
        }
    }
}

/// Owns the rules, the cache and the rate limiter, and decides each step of
/// an enrichment. The engine does no outside work itself: a step that needs
/// a page or a registry's answer hands out a `Request`, and goes on when it
/// is given the `Event` that answers it. Scores are in hundredths of a
/// point.
#[derive(Debug)]
pub struct EnrichmentEngine {
    config: EnrichmentConfig,
    cache: CacheManager,
    rate_limiter: RateLimiter,
    signatures: SiteSignatures,
    trends: GoogleTrendsProvider,
    shopify: ShopifyDetectionProvider,
    whois: WhoisProvider,
}

impl View for EnrichmentEngine {
    type V = EngineView;

    closed spec fn view(&self) -> EngineView {
        EngineView {
            settings: self.config,
            apis: self.config.apis,
            signatures: self.signatures,
            trends: self.trends,
            shopify: self.shopify,
            whois: self.whois,
            cache: self.cache@,
            windows: Map::total(|source: Seq<char>| self.rate_limiter.window(source)),
        }
    }
}

fn sum_bounded(adjustments: &Vec<ScoreAdjustment>) -> (total: i64)
    requires
        adjustments.len() <= 3,
        all_in_range(adjustment_views(adjustments@)),
    ensures
        total == sum_adjustments(adjustment_views(adjustments@)),
        -3 * SCORE_LIMIT <= total <= 3 * SCORE_LIMIT,
{
    let mut total: i64 = 0;
    let mut i: usize = 0;
    let ghost views = adjustment_views(adjustments@);
    while i < adjustments.len()
        invariant
            i <= adjustments.len() <= 3,
            views == adjustment_views(adjustments@),
            all_in_range(views),
            total == sum_adjustments(views.take(i as int)),
            -1_000_000_000_000_000 * i <= total <= 1_000_000_000_000_000 * i,
        decreases adjustments.len() - i,
    {
        proof {
            assert(views.take(i as int + 1) =~= views.take(i as int).push(views[i as int]));
            lemma_sum_push(views.take(i as int), views[i as int]);
            assert(score_in_range(views[i as int].adjustment));
            assert(views[i as int].adjustment == adjustments[i as int].adjustment);
        }
        total = total + adjustments[i].adjustment;
        i += 1;
    }
    assert(views.take(i as int) =~= views);
    total
}

impl EnrichmentEngine {
    /// The cache and the rate limiter are in order, every configured
    /// adjustment lies within the supported range, and every cached result
    /// has its enriched score equal to its base score plus its adjustments.
    pub closed spec fn wf(&self) -> bool {
        &&& self.cache.wf()
        &&& self.rate_limiter.wf()
        &&& self@.bounded()
        &&& self@.sound()
        &&& self@.consistent()
    }

    /// A well-formed engine is bounded, sound and consistent with its
    /// settings.
    pub proof fn lemma_wf(&self)
        requires
            self.wf(),
        ensures
            self@.bounded(),
            self@.sound(),
            self@.consistent(),
    {
    }

    fn gate(&mut self, enabled: bool, source: &str, limit: u32, now: i64) -> (open: bool)
        requires
            old(self).wf(),
        ensures
            final(self).wf(),
            final(self)@ == gate_passed(old(self)@, enabled, source@, limit, now),
            open == gate_opens(old(self)@, enabled, source@, limit, now),
    {
        if enabled {
            let outcome = self.rate_limiter.check_and_record_at(source, limit, now);
            assert(self@.windows =~= old(self)@.windows.insert(
                source@,
                stamps_after(old(self)@.windows[source@], limit as int, now),
            ));
            match outcome {
                Ok(_) => true,
                Err(_) => false,
            }
        } else {
            false
        }
    }

    fn finish(&mut self, pending: Pending, now: i64) -> (step: Step)
        requires
            old(self).wf(),
            score_in_range(pending@.base_score),
            pending@.adjustments.len() <= 3,
            all_in_range(pending@.adjustments),
        ensures
            final(self).wf(),
            (final(self)@, step@) == finish(old(self)@, pending@, now),
    {
        let total = sum_bounded(&pending.adjustments);
        let result = EnrichedScore {
            url: pending.url,
            base_score: pending.base_score,
            enriched_score: pending.base_score + total,
            adjustments: pending.adjustments,
            site_type: pending.site_type,
            enrichment_data: pending.enrichment_data,
            timestamp: now,
        };
        assert(result@ == pending@.outcome(now as int));
        self.cache.set_at(result.url.as_str(), &result, now);
        Step::Done { result, from_cache: false }
    }

    fn enter_registration(&mut self, pending: Pending, now: i64) -> (step: Step)
        requires
            old(self).wf(),
            score_in_range(pending@.base_score),
            pending@.adjustments.len() <= 2,
            all_in_range(pending@.adjustments),
        ensures
            final(self).wf(),
            (final(self)@, step@) == enter_registration(old(self)@, pending@, now),
            step@.sound(),
    {
        let enabled = self.config.apis.whois_enabled;
        let limit = self.whois.config.rate_limit_per_hour;
        proof {
            reveal_strlit("whois");
        }
        if self.gate(enabled, "whois", limit, now) {
            let mut pending = pending;
            pending.phase = Phase::RegistrationAge;
            let request = Request::Registration {
                host: pending.host.clone(),
                timeout_seconds: self.whois.config.timeout_seconds,
            };
            Step::Waiting { pending, request }
        } else {
            self.finish(pending, now)
        }
    }

    fn enter_platform(&mut self, pending: Pending, now: i64) -> (step: Step)
        requires
            old(self).wf(),
            score_in_range(pending@.base_score),
            pending@.adjustments.len() <= 1,
            all_in_range(pending@.adjustments),
        ensures
            final(self).wf(),
            (final(self)@, step@) == enter_platform(old(self)@, pending@, now),
            step@.sound(),
    {
        let enabled = self.config.apis.shopify_detection_enabled;
        let limit = self.shopify.config.rate_limit_per_hour;
        if self.gate(enabled, "shopify", limit, now) {
            let mut pending = pending;
            pending.phase = Phase::PlatformDetection;
            let request = Request::Page {
                url: pending.url.clone(),
                timeout_seconds: self.shopify.config.timeout_seconds,
            };
            Step::Waiting { pending, request }
        } else {
            self.enter_registration(pending, now)
        }
    }

    fn after_site_page(&mut self, pending: Pending, page: &Option<String>, now: i64) -> (step:
        Step)
        requires
            old(self).wf(),
            pending@.bounded(),
            pending@.phase == Phase::SiteDetection,
        ensures
            final(self).wf(),
            (final(self)@, step@) == after_site_page(old(self)@, pending@, text_of(*page), now),
            step@.sound(),
    {
        let mut pending = pending;
        pending.site_type = self.signatures.detect_site_type(page);
        let enabled = self.config.apis.google_trends_enabled;
        let limit = self.trends.config.rate_limit_per_hour;
        let found = if self.gate(enabled, "google_trends", limit, now) {
            self.trends.enrich_host(pending.host.as_str())
        } else {
            None
        };
        if found.is_some() {
            pending.enrichment_data.is_trending = Some(true);
        }
        pending.add(found);
        self.enter_platform(pending, now)
    }

    fn after_platform_page(&mut self, pending: Pending, page: &Option<String>, now: i64) -> (step:
        Step)
        requires
            old(self).wf(),
            pending@.bounded(),
            pending@.phase == Phase::PlatformDetection,
        ensures
            final(self).wf(),
            (final(self)@, step@) == after_platform_page(
                old(self)@,
                pending@,
                text_of(*page),
                now,
            ),
            step@.sound(),
    {
        let mut pending = pending;
        let found = self.shopify.enrich(page);
        if found.is_some() {
            pending.enrichment_data.is_shopify = Some(true);
        }
        pending.add(found);
        self.enter_registration(pending, now)
    }

    fn after_registration(&mut self, pending: Pending, answer: &Option<String>, now: i64) -> (step:
        Step)
        requires
            old(self).wf(),
            pending@.bounded(),
            pending@.phase == Phase::RegistrationAge,
        ensures
            final(self).wf(),
            (final(self)@, step@) == after_registration(
                old(self)@,
                pending@,
                text_of(*answer),
                now,
            ),
            step@.sound(),
    {
        let mut pending = pending;
        let found = self.whois.enrich(answer, now);
        pending.add(found);
        self.finish(pending, now)
    }

    /// Takes an enrichment one step further with what outside work brought
    /// back, at the time `now` in milliseconds. An event of the wrong kind
    /// counts as work that failed.
    pub fn resume_at(&mut self, pending: Pending, event: Event, now: i64) -> (step: Step)
        requires
            old(self).wf(),
            pending@.bounded(),
        ensures
            final(self).wf(),
            (final(self)@, step@) == next(old(self)@, pending@, event@, now),
            step@.sound(),
    {
        let nothing: Option<String> = None;
        match pending.phase {
            Phase::SiteDetection => match event {
                Event::Page(page) => self.after_site_page(pending, &page, now),
                Event::Registration(_) => self.after_site_page(pending, &nothing, now),
            },
            Phase::PlatformDetection => match event {
                Event::Page(page) => self.after_platform_page(pending, &page, now),
                Event::Registration(_) => self.after_platform_page(pending, &nothing, now),
            },
            Phase::RegistrationAge => match event {
                Event::Page(_) => self.after_registration(pending, &nothing, now),
                Event::Registration(answer) => self.after_registration(pending, &answer, now),
            },
        }
    }

    /// Starts the enrichment of `url`, whose host has been read already, at
    /// the time `now` in milliseconds. Without a host there is nothing to
    /// enrich. The engine itself is left as it is.
    pub fn begin_with_host(&self, url: &str, host: Option<String>, base_score: i64, now: i64) -> (r:
        Result<Step, EnrichError>)
        requires
            self.wf(),
            score_in_range(base_score as int),
        ensures
            match host {
                Some(h) => r is Ok && r->Ok_0@ == first_step(
                    self@,
                    url@,
                    h@,
                    base_score as int,
                    now,
                ),
                None => r == Err::<Step, EnrichError>(EnrichError::InvalidUrl),
            },
            r is Ok ==> r->Ok_0@.sound(),
    {
        match host {
            Some(h) => {
                match self.cache.get_at(url, now) {
                    Some(result) => Ok(Step::Done { result, from_cache: true }),
                    None => {
                        let pending = Pending {
                            url: String::from_str(url),
                            host: h,
                            base_score,
                            site_type: SiteType::Unknown,
                            adjustments: Vec::new(),
                            enrichment_data: EnrichmentData::default(),
                            phase: Phase::SiteDetection,
                        };
                        assert(pending@.adjustments =~= Seq::empty());
                        let request = Request::Page {
                            url: String::from_str(url),
                            timeout_seconds: DETECTION_TIMEOUT_SECONDS,
                        };
                        Ok(Step::Waiting { pending, request })
                    },
                }
            },
            None => Err(EnrichError::InvalidUrl),
        }
    }

    /// Starts the enrichment of `url` at the time `now` in milliseconds. It
    /// fails exactly where the text is no URL with a host; else a fresh
    /// cached result ends it at once, and without one it waits for the page
    /// that tells the site's platform.
    pub fn begin_at(&self, url: &str, base_score: i64, now: i64) -> (r: Result<Step, EnrichError>)
        requires
            self.wf(),
            score_in_range(base_score as int),
        ensures
            match url_host(url@) {
                Some(h) => r is Ok && r->Ok_0@ == first_step(
                    self@,
                    url@,
                    h,
                    base_score as int,
                    now,
                ),
                None => r == Err::<Step, EnrichError>(EnrichError::InvalidUrl),
            },
            r is Ok ==> r->Ok_0@.sound(),
    {
        let host = parse_host(url);
        self.begin_with_host(url, host, base_score, now)
    }

    /// Starts the enrichment of `url` at the time the system clock shows.
    /// Whatever the clock showed, the outcome is that of `begin_at` at that
    /// time.
    pub fn begin(&self, url: &str, base_score: i64) -> (r: Result<Step, EnrichError>)
        requires
            self.wf(),
            score_in_range(base_score as int),
        ensures
            match url_host(url@) {
                Some(h) => r is Ok && exists|now: i64|
                    r->Ok_0@ == #[trigger] first_step(self@, url@, h, base_score as int, now),
                None => r == Err::<Step, EnrichError>(EnrichError::InvalidUrl),
            },
            r is Ok ==> r->Ok_0@.sound(),
    {
        let now = current_time_millis();
        self.begin_at(url, base_score, now)
    }

    /// Takes an enrichment one step further at the time the system clock
    /// shows. Whatever the clock showed, the outcome is that of `resume_at`
    /// at that time.
    pub fn resume(&mut self, pending: Pending, event: Event) -> (step: Step)
        requires
            old(self).wf(),
            pending@.bounded(),
        ensures
            final(self).wf(),
            exists|now: i64|
                (final(self)@, step@) == #[trigger] next(old(self)@, pending@, event@, now),
            step@.sound(),
    {
        let now = current_time_millis();
        self.resume_at(pending, event, now)
    }

    /// The cache of results.
    pub fn cache(&self) -> (cache: &CacheManager)
        ensures
            cache@ == self@.cache,
            self.wf() ==> cache.wf(),
    {
        &self.cache
    }

    /// The stamps recorded for the source `name`, oldest first.
    pub fn recorded(&self, name: &str) -> (stamps: Vec<i64>)
        requires
            self.wf(),
        ensures
            stamps@ == self@.windows[name@],
    {
        self.rate_limiter.recorded(name)
    }

    /// The settings that the engine was set up with, which its providers
    /// and its cache go by.
    pub fn config(&self) -> (config: &EnrichmentConfig)
        ensures
            *config == self@.settings,
            self.wf() ==> self@.consistent(),
    {
        &self.config
    }

    /// Takes a result that was stored at `created_at` back into the cache,
    /// filed under its own URL. It is taken where it holds at most three
    /// adjustments and its enriched score is its base score plus those;
    /// else the cache stays as it is.
    pub fn restore(&mut self, data: &EnrichedScore, created_at: i64) -> (taken: bool)
        requires
            old(self).wf(),
        ensures
            final(self).wf(),
            taken == (data@.adjustments.len() <= 3 && data@.balanced()),
            final(self)@ == if taken {
                old(self)@.with_cache(
                    cache_set(old(self)@.cache, data@.url, data@, created_at as int),
                )
            } else {
                old(self)@
            },
    {
        if data.adjustments.len() > 3 {
            return false;
        }
        let mut total: i128 = data.base_score as i128;
        let mut i: usize = 0;
        let ghost views = adjustment_views(data.adjustments@);
        while i < data.adjustments.len()
            invariant
                i <= data.adjustments.len() <= 3,
                views == adjustment_views(data.adjustments@),
                total == data.base_score + sum_adjustments(views.take(i as int)),
                -0x8000_0000_0000_0000 * (i + 1) <= total <= 0x8000_0000_0000_0000 * (i + 1),
            decreases data.adjustments.len() - i,
        {
            proof {
                assert(views.take(i as int + 1) =~= views.take(i as int).push(views[i as int]));
                lemma_sum_push(views.take(i as int), views[i as int]);
                assert(views[i as int].adjustment == data.adjustments[i as int].adjustment);
            }
            total = total + data.adjustments[i].adjustment as i128;
            i += 1;
        }
        assert(views.take(i as int) =~= views);
        if total == data.enriched_score as i128 {
            self.cache.set_at(data.url.as_str(), data, created_at);
            true
        } else {
            false
        }
    }

    /// Sets an engine up with `config` and with lists of its own: the marks
    /// of each platform, the trending terms, the marks for platform
    /// detection and the patterns for creation dates. It fails exactly where
    /// a configured adjustment lies outside the supported range. The engine
    /// starts with an empty cache and no recorded request.
    pub fn with_fixtures(
        config: EnrichmentConfig,
        signatures: SiteSignatures,
        terms: Vec<String>,
        marks: Vec<String>,
        patterns: Vec<String>,
    ) -> (r: Result<EnrichmentEngine, ConfigError>)
        ensures
            r is Ok <==> config.scoring.in_range(),
            r is Err ==> r->Err_0 == ConfigError::ScoreOutOfRange,
            r is Ok ==> {
                let engine = r->Ok_0;
                &&& engine.wf()
                &&& engine@.settings == config
                &&& engine@.consistent()
                &&& engine@.apis == config.apis
                &&& engine@.signatures == signatures
                &&& engine@.trends == (GoogleTrendsProvider {
                    config: config.google_trends,
                    terms: terms,
                    boost: config.scoring.trending_boost,
                })
                &&& engine@.shopify == (ShopifyDetectionProvider {
                    config: config.shopify,
                    signatures: marks,
                    boost: config.scoring.shopify_boost,
                })
                &&& engine@.whois == (WhoisProvider {
                    config: config.whois,
                    patterns: patterns,
                    boost: config.scoring.domain_age_boost,
                })
                &&& engine@.cache.path == config.cache.database_path@
                &&& engine@.cache.ttl_hours == config.cache.cache_ttl_hours
                &&& engine@.cache.entries == Map::<Seq<char>, crate::cache::CachedView>::empty()
                &&& engine@.windows == Map::total(|source: Seq<char>| Seq::<i64>::empty())
            },
    {
        if !config.scoring.check_range() {
            return Err(ConfigError::ScoreOutOfRange);
        }
        let cache = CacheManager::new(
            config.cache.database_path.clone(),
            config.cache.cache_ttl_hours,
        );
        let trends = GoogleTrendsProvider {
            config: config.google_trends,
            terms,
            boost: config.scoring.trending_boost,
        };
        let shopify = ShopifyDetectionProvider {
            config: config.shopify,
            signatures: marks,
            boost: config.scoring.shopify_boost,
        };
        let whois = WhoisProvider {
            config: config.whois,
            patterns,
            boost: config.scoring.domain_age_boost,
        };
        let engine = EnrichmentEngine {
            config,
            cache,
            rate_limiter: RateLimiter::new(),
            signatures,
            trends,
            shopify,
            whois,
        };
        assert(engine@.windows =~= Map::total(|source: Seq<char>| Seq::<i64>::empty()));
        Ok(engine)
    }

    /// Sets an engine up with `config` and the standard lists. It fails
    /// exactly where a configured adjustment lies outside the supported
    /// range.
    pub fn new(config: EnrichmentConfig) -> (r: Result<EnrichmentEngine, ConfigError>)
        ensures
            r is Ok <==> config.scoring.in_range(),
            r is Err ==> r->Err_0 == ConfigError::ScoreOutOfRange,
            r is Ok ==> {
                let engine = r->Ok_0;
                &&& engine.wf()
                &&& engine@.settings == config
                &&& engine@.consistent()
                &&& engine@.apis == config.apis
                &&& engine@.trends.config == config.google_trends
                &&& engine@.trends.boost == config.scoring.trending_boost
                &&& texts(engine@.trends.terms@) == seq![
                    "ai"@,
                    "tech"@,
                    "crypto"@,
                    "shop"@,
                    "store"@,
                    "market"@,
                ]
                &&& engine@.shopify.config == config.shopify
                &&& engine@.shopify.boost == config.scoring.shopify_boost
                &&& texts(engine@.shopify.signatures@) == seq![
                    "cdn.shopify.com"@,
                    "Shopify.theme"@,
                    "shopify-analytics"@,
                    "shopify_pay"@,
                    "myshopify.com"@,
                ]
                &&& engine@.whois.config == config.whois
                &&& engine@.whois.boost == config.scoring.domain_age_boost
                &&& texts(engine@.whois.patterns@) == seq![
                    "Creation Date:\\s*(\\d{4}-\\d{2}-\\d{2})"@,
                    "Created:\\s*(\\d{4}-\\d{2}-\\d{2})"@,
                    "created:\\s*(\\d{4}-\\d{2}-\\d{2})"@,
                ]
                &&& texts(engine@.signatures.shopify@) == seq![
                    "cdn.shopify.com"@,
                    "myshopify.com"@,
                ]
                &&& texts(engine@.signatures.woocommerce@) == seq![
                    "woocommerce"@,
                    "wp-content/plugins/woocommerce"@,
                ]
                &&& texts(engine@.signatures.custom@) == seq!["magento"@, "prestashop"@]
                &&& engine@.cache.path == config.cache.database_path@
                &&& engine@.cache.ttl_hours == config.cache.cache_ttl_hours
                &&& engine@.cache.entries == Map::<Seq<char>, crate::cache::CachedView>::empty()
                &&& engine@.windows == Map::total(|source: Seq<char>| Seq::<i64>::empty())
            },
    {
        EnrichmentEngine::with_fixtures(
            config,
            SiteSignatures::standard(),
            GoogleTrendsProvider::standard_terms(),
            ShopifyDetectionProvider::standard_signatures(),
            WhoisProvider::standard_patterns(),
        )
    }

    fn advance(&mut self, step: Step, observed: &Observations, now: i64) -> (after: Step)
        requires
            old(self).wf(),
            step@.sound(),
        ensures
            final(self).wf(),
            (final(self)@, after@) == advance(old(self)@, step@, observed@, now),
            after@.sound(),
    {
        match step {
            Step::Waiting { pending, request } => {
                let event = match pending.phase {
                    Phase::SiteDetection => Event::Page(copy_text(&observed.site_page)),
                    Phase::PlatformDetection => Event::Page(copy_text(&observed.platform_page)),
                    Phase::RegistrationAge => Event::Registration(
                        copy_text(&observed.registration),
                    ),
                };
                self.resume_at(pending, event, now)
            },
            Step::Done { result, from_cache } => Step::Done { result, from_cache },
        }
    }

    /// Enriches `url` in one go at the time `now`, in milliseconds, with
    /// what outside work has brought back beforehand: each step takes from
    /// `observed` what it would have asked for. It fails exactly where the
    /// text is no URL with a host, and then changes nothing.
    pub fn enrich_url_at(
        &mut self,
        url: &str,
        base_score: i64,
        observed: &Observations,
        now: i64,
    ) -> (r: Result<EnrichedScore, EnrichError>)
        requires
            old(self).wf(),
            score_in_range(base_score as int),
        ensures
            final(self).wf(),
            match url_host(url@) {
                Some(h) => {
                    let end = run(old(self)@, url@, h, base_score as int, observed@, now);
                    &&& r is Ok
                    &&& final(self)@ == end.0
                    &&& end.1 is Done
                    &&& r->Ok_0@ == end.1->result
                    &&& r->Ok_0@.balanced()
                },
                None => r == Err::<EnrichedScore, EnrichError>(EnrichError::InvalidUrl)
                    && final(self)@ == old(self)@,
            },
    {
        let first = match self.begin_at(url, base_score, now) {
            Ok(step) => step,
            Err(e) => {
                return Err(e);
            },
        };
        proof {
            lemma_run_ends(
                self@,
                url@,
                url_host(url@)->0,
                base_score as int,
                observed@,
                now,
            );
        }
        let second = self.advance(first, observed, now);
        let third = self.advance(second, observed, now);
        let last = self.advance(third, observed, now);
        match last {
            Step::Done { result, from_cache } => Ok(result),
            // a whole run ends with a result
            Step::Waiting { pending, request } => vstd::pervasive::unreached(),
        }
    }

    /// Enriches `url` in one go at the time the system clock shows.
    /// Whatever the clock showed, the outcome is that of `enrich_url_at` at
    /// that time.
    pub fn enrich_url(&mut self, url: &str, base_score: i64, observed: &Observations) -> (r:
        Result<EnrichedScore, EnrichError>)
        requires
            old(self).wf(),
            score_in_range(base_score as int),
        ensures
            final(self).wf(),
            match url_host(url@) {
                Some(h) => r is Ok && r->Ok_0@.balanced() && exists|now: i64|
                    {
                        let end = #[trigger] run(
                            old(self)@,
                            url@,
                            h,
                            base_score as int,
                            observed@,
                            now,
                        );
                        final(self)@ == end.0 && end.1 is Done && r->Ok_0@ == end.1->result
                    },
                None => r == Err::<EnrichedScore, EnrichError>(EnrichError::InvalidUrl)
                    && final(self)@ == old(self)@,
            },
    {
        let now = current_time_millis();
        self.enrich_url_at(url, base_score, observed, now)
    }
}

/// What outside work has brought back for one URL: the page fetched for
/// site-type detection, the page fetched for platform detection, and the
/// registry's answer. `None` stands for work that failed.
#[derive(Debug)]
pub struct Observations {
    pub site_page: Option<String>,
    pub platform_page: Option<String>,
    pub registration: Option<String>,
}

/// The mathematical content of `Observations`.
pub struct ObservationsView {
    pub site_page: Option<Seq<char>>,
    pub platform_page: Option<Seq<char>>,
    pub registration: Option<Seq<char>>,
}

impl View for Observations {
    type V = ObservationsView;

    open spec fn view(&self) -> ObservationsView {
        ObservationsView {
            site_page: text_of(self.site_page),
            platform_page: text_of(self.platform_page),
            registration: text_of(self.registration),
        }
    }
}

/// The event that answers an enrichment waiting in `phase`.
pub open spec fn event_for(phase: Phase, observed: ObservationsView) -> EventView {
    match phase {
        Phase::SiteDetection => EventView::Page(observed.site_page),
        Phase::PlatformDetection => EventView::Page(observed.platform_page),
        Phase::RegistrationAge => EventView::Registration(observed.registration),
    }
}

/// One step further with what has been observed; a step that is done stays
/// as it is.
pub open spec fn advance(engine: EngineView, step: StepView, observed: ObservationsView, now: i64) -> (
    EngineView,
    StepView,
) {
    match step {
        StepView::Waiting { pending, request } => next(
            engine,
            pending,
            event_for(pending.phase, observed),
            now,
        ),
        StepView::Done { result, from_cache } => (engine, step),
    }
}

/// A whole enrichment of `url` at the time `now`: the first step, then up
/// to three more, one for each kind of outside work.
pub open spec fn run(
    engine: EngineView,
    url: Seq<char>,
    host: Seq<char>,
    base_score: int,
    observed: ObservationsView,
    now: i64,
) -> (EngineView, StepView) {
    let first = first_step(engine, url, host, base_score, now);
    let second = advance(engine, first, observed, now);
    let third = advance(second.0, second.1, observed, now);
    advance(third.0, third.1, observed, now)
}

/// The phase that a step waits in, counted from zero, and three for a step
/// that is done.
pub open spec fn progress(step: StepView) -> int {
    match step {
        StepView::Waiting { pending, request } => adjustments_before(pending.phase),
        StepView::Done { result, from_cache } => 3,
    }
}

/// Every step takes an enrichment to a later phase or ends it.
pub proof fn lemma_next_progresses(
    engine: EngineView,
    pending: PendingView,
    event: EventView,
    now: i64,
)
    ensures
        progress(next(engine, pending, event, now).1) > adjustments_before(pending.phase),
{
}

/// A whole enrichment ends with a result.
pub proof fn lemma_run_ends(
    engine: EngineView,
    url: Seq<char>,
    host: Seq<char>,
    base_score: int,
    observed: ObservationsView,
    now: i64,
)
    ensures
        run(engine, url, host, base_score, observed, now).1 is Done,
{
    let first = first_step(engine, url, host, base_score, now);
    let second = advance(engine, first, observed, now);
    let third = advance(second.0, second.1, observed, now);
    let last = advance(third.0, third.1, observed, now);
    if first is Waiting {
        lemma_next_progresses(
            engine,
            first->pending,
            event_for(first->pending.phase, observed),
            now,
        );
    }
    if second.1 is Waiting {
        lemma_next_progresses(
            second.0,
            second.1->pending,
            event_for(second.1->pending.phase, observed),
            now,
        );
    }
    if third.1 is Waiting {
        lemma_next_progresses(
            third.0,
            third.1->pending,
            event_for(third.1->pending.phase, observed),
            now,
        );
    }
}

} // verus!
