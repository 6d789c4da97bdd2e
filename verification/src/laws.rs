use crate::cache::{cache_get, fresh};
use crate::engine::{
    enter_registration, finish, first_step, fresh_start, gate_opens, next, run, trends_found,
    EngineView, EventView, ObservationsView, PendingView, Phase, RequestView, StepView,
    DETECTION_TIMEOUT_SECONDS,
};
use crate::model::{lemma_sum_push, sum_adjustments, AdjustmentView, SiteType};
use crate::providers::host_trends;
use crate::text::texts;
use crate::rate_limiter::HOUR_MILLIS;
use vstd::prelude::*;

verus! {

/// The adjustments that a step holds: those gathered so far while it waits,
/// those of the result once it is done.
pub open spec fn gathered(step: StepView) -> Seq<AdjustmentView> {
    match step {
        StepView::Waiting { pending, request } => pending.adjustments,
        StepView::Done { result, from_cache } => result.adjustments,
    }
}

/// The site type that a step holds.
pub open spec fn site_type_in(step: StepView) -> SiteType {
    match step {
        StepView::Waiting { pending, request } => pending.site_type,
        StepView::Done { result, from_cache } => result.site_type,
    }
}

/// How many adjustments of a sequence come from `source`.
pub open spec fn count_from(adjustments: Seq<AdjustmentView>, source: Seq<char>) -> nat
    decreases adjustments.len(),
{
    if adjustments.len() == 0 {
        0
    } else if adjustments.last().source == source {
        count_from(adjustments.drop_last(), source) + 1
    } else {
        count_from(adjustments.drop_last(), source)
    }
}

/// One more adjustment raises the count of its own source by one and no
/// other count.
pub proof fn lemma_count_push(
    adjustments: Seq<AdjustmentView>,
    extra: AdjustmentView,
    source: Seq<char>,
)
    ensures
        count_from(adjustments.push(extra), source) == count_from(adjustments, source) + (if extra.source
            == source {
            1nat
        } else {
            0nat
        }),
{
    assert(adjustments.push(extra).drop_last() =~= adjustments);
}

/// The three sources that adjustments come from, and the three names under
/// which requests are counted, are pairwise different.
pub proof fn lemma_names_differ()
    ensures
        "Google Trends"@ != "Shopify Detection"@,
        "Google Trends"@ != "Whois"@,
        "Shopify Detection"@ != "Whois"@,
        "google_trends"@ != "shopify"@,
        "google_trends"@ != "whois"@,
        "shopify"@ != "whois"@,
{
    reveal_strlit("Google Trends");
    reveal_strlit("Shopify Detection");
    reveal_strlit("Whois");
    reveal_strlit("google_trends");
    reveal_strlit("shopify");
    reveal_strlit("whois");
    assert("Google Trends"@.len() == 13);
    assert("Shopify Detection"@.len() == 17);
    assert("Whois"@.len() == 5);
    assert("google_trends"@.len() == 13);
    assert("shopify"@.len() == 7);
    assert("whois"@.len() == 5);
}

/// The result that ends an enrichment has its enriched score equal to its
/// base score plus the sum of its adjustments, whatever outside work brought
/// back and whenever.
pub proof fn law_result_balanced(
    engine: EngineView,
    pending: PendingView,
    event: EventView,
    now: i64,
)
    ensures
        match next(engine, pending, event, now).1 {
            StepView::Done { result, from_cache } => {
                &&& result.enriched_score == result.base_score + sum_adjustments(
                    result.adjustments,
                )
                &&& result.base_score == pending.base_score
                &&& result.url == pending.url
                &&& !from_cache
            },
            StepView::Waiting { pending: still, request } => still.base_score
                == pending.base_score && still.url == pending.url,
        },
{
}

/// Where every cached result has its enriched score equal to its base score
/// plus its adjustments, so has the one that a cache hit hands out, and the
/// cache keeps that property through every step.
pub proof fn law_cache_stays_sound(
    engine: EngineView,
    pending: PendingView,
    event: EventView,
    now: i64,
)
    requires
        engine.sound(),
    ensures
        next(engine, pending, event, now).0.sound(),
        forall|url: Seq<char>, host: Seq<char>, base_score: int, at: i64|
            match #[trigger] first_step(engine, url, host, base_score, at) {
                StepView::Done { result, from_cache } => result.balanced(),
                StepView::Waiting { pending, request } => true,
            },
{
    law_result_balanced(engine, pending, event, now);
}

/// Once an enrichment of a URL has ended, another of the same URL that
/// starts while the result is fresh ends at once with that very result,
/// without a request to any provider and whatever base score it is given.
pub proof fn law_repeat_within_ttl(
    engine: EngineView,
    pending: PendingView,
    event: EventView,
    now: i64,
    later: i64,
    base_score: int,
)
    requires
        next(engine, pending, event, now).1 is Done,
        fresh(engine.cache.ttl_hours, now as int, later as int),
    ensures
        first_step(
            next(engine, pending, event, now).0,
            pending.url,
            pending.host,
            base_score,
            later,
        ) == (StepView::Done {
            result: next(engine, pending, event, now).1->result,
            from_cache: true,
        }),
{
    law_result_balanced(engine, pending, event, now);
}

/// Once the time to live has passed since an enrichment of a URL ended,
/// another of the same URL starts from the beginning.
pub proof fn law_recompute_after_ttl(
    engine: EngineView,
    pending: PendingView,
    event: EventView,
    now: i64,
    later: i64,
    base_score: int,
)
    requires
        next(engine, pending, event, now).1 is Done,
        later - now >= engine.cache.ttl_hours * HOUR_MILLIS,
    ensures
        first_step(
            next(engine, pending, event, now).0,
            pending.url,
            pending.host,
            base_score,
            later,
        ) == (StepView::Waiting {
            pending: fresh_start(pending.url, pending.host, base_score),
            request: RequestView::Page {
                url: pending.url,
                timeout_seconds: DETECTION_TIMEOUT_SECONDS,
            },
        }),
{
    law_result_balanced(engine, pending, event, now);
}

/// A start changes nothing: neither the cache nor any source's stamps are
/// part of what it gives back, and a cache hit asks for no outside work.
pub proof fn law_hit_asks_nothing(
    engine: EngineView,
    url: Seq<char>,
    host: Seq<char>,
    base_score: int,
    now: i64,
)
    requires
        cache_get(engine.cache, url, now as int) is Some,
    ensures
        first_step(engine, url, host, base_score, now) == (StepView::Done {
            result: cache_get(engine.cache, url, now as int)->0,
            from_cache: true,
        }),
{
}

/// While the trend-signal provider is disabled no step records a request
/// for it or adds an adjustment of its source.
pub proof fn law_disabled_trends(
    engine: EngineView,
    pending: PendingView,
    event: EventView,
    now: i64,
)
    requires
        !engine.apis.google_trends_enabled,
    ensures
        next(engine, pending, event, now).0.windows["google_trends"@]
            == engine.windows["google_trends"@],
        count_from(gathered(next(engine, pending, event, now).1), "Google Trends"@) == count_from(
            pending.adjustments,
            "Google Trends"@,
        ),
{
    lemma_names_differ();
    let source = "Google Trends"@;
    match pending.phase {
        Phase::SiteDetection => {},
        Phase::PlatformDetection => {
            let found = engine.shopify.outcome(crate::engine::page_of(event));
            if found is Some {
                lemma_count_push(pending.adjustments, found->0, source);
            }
        },
        Phase::RegistrationAge => {
            let found = engine.whois.outcome(
                engine.whois.created(crate::engine::answer_of(event)),
                now as int,
            );
            if found is Some {
                lemma_count_push(pending.adjustments, found->0, source);
            }
        },
    }
}

/// While the platform-detection provider is disabled no step records a
/// request for it, asks for its page or adds an adjustment of its source,
/// unless the enrichment was waiting for that page already.
pub proof fn law_disabled_platform(
    engine: EngineView,
    pending: PendingView,
    event: EventView,
    now: i64,
)
    requires
        !engine.apis.shopify_detection_enabled,
        pending.phase != Phase::PlatformDetection,
    ensures
        next(engine, pending, event, now).0.windows["shopify"@] == engine.windows["shopify"@],
        count_from(gathered(next(engine, pending, event, now).1), "Shopify Detection"@)
            == count_from(pending.adjustments, "Shopify Detection"@),
        match next(engine, pending, event, now).1 {
            StepView::Waiting { pending: still, request } => still.phase
                != Phase::PlatformDetection,
            StepView::Done { result, from_cache } => true,
        },
{
    lemma_names_differ();
    let source = "Shopify Detection"@;
    match pending.phase {
        Phase::SiteDetection => {
            let found = trends_found(engine, pending, now);
            if found is Some {
                lemma_count_push(pending.adjustments, found->0, source);
            }
        },
        Phase::PlatformDetection => {},
        Phase::RegistrationAge => {
            let found = engine.whois.outcome(
                engine.whois.created(crate::engine::answer_of(event)),
                now as int,
            );
            if found is Some {
                lemma_count_push(pending.adjustments, found->0, source);
            }
        },
    }
}

/// While the registration-age provider is disabled no step records a
/// request for it, asks the registry or adds an adjustment of its source,
/// unless the enrichment was waiting for the registry already.
pub proof fn law_disabled_registration(
    engine: EngineView,
    pending: PendingView,
    event: EventView,
    now: i64,
)
    requires
        !engine.apis.whois_enabled,
        pending.phase != Phase::RegistrationAge,
    ensures
        next(engine, pending, event, now).0.windows["whois"@] == engine.windows["whois"@],
        count_from(gathered(next(engine, pending, event, now).1), "Whois"@) == count_from(
            pending.adjustments,
            "Whois"@,
        ),
        match next(engine, pending, event, now).1 {
            StepView::Waiting { pending: still, request } => still.phase
                != Phase::RegistrationAge,
            StepView::Done { result, from_cache } => true,
        },
{
    lemma_names_differ();
    let source = "Whois"@;
    match pending.phase {
        Phase::SiteDetection => {
            let found = trends_found(engine, pending, now);
            if found is Some {
                lemma_count_push(pending.adjustments, found->0, source);
            }
        },
        Phase::PlatformDetection => {
            let found = engine.shopify.outcome(crate::engine::page_of(event));
            if found is Some {
                lemma_count_push(pending.adjustments, found->0, source);
            }
        },
        Phase::RegistrationAge => {},
    }
}

/// With every provider disabled an enrichment ends right after site-type
/// detection, with no adjustment and the base score as its enriched score,
/// and no source's stamps change.
pub proof fn law_all_disabled(engine: EngineView, pending: PendingView, event: EventView, now: i64)
    requires
        !engine.apis.google_trends_enabled,
        !engine.apis.shopify_detection_enabled,
        !engine.apis.whois_enabled,
        pending.phase == Phase::SiteDetection,
        pending.adjustments == Seq::<AdjustmentView>::empty(),
    ensures
        next(engine, pending, event, now).0.windows == engine.windows,
        match next(engine, pending, event, now).1 {
            StepView::Done { result, from_cache } => {
                &&& result.adjustments == Seq::<AdjustmentView>::empty()
                &&& result.enriched_score == pending.base_score
            },
            StepView::Waiting { pending, request } => false,
        },
{
}

/// A fetch that fails or runs out of time fails nothing else: for site-type
/// detection it leaves the type `Unknown`; for platform detection it adds no
/// adjustment and the next provider has its turn; a registry that does not
/// answer adds none either and the enrichment ends as it would have.
pub proof fn law_failure_isolated(engine: EngineView, pending: PendingView, now: i64)
    ensures
        pending.phase == Phase::SiteDetection ==> site_type_in(
            next(engine, pending, EventView::Page(None), now).1,
        ) == SiteType::Unknown,
        pending.phase == Phase::PlatformDetection ==> next(
            engine,
            pending,
            EventView::Page(None),
            now,
        ) == enter_registration(engine, pending, now),
        pending.phase == Phase::RegistrationAge ==> next(
            engine,
            pending,
            EventView::Registration(None),
            now,
        ) == finish(engine, pending, now),
{
}

/// Where the trend-signal provider is enabled and under its quota, and a
/// label of the host trends, the step after site-type detection holds the
/// provider's adjustment, with the configured boost, as the first and so
/// far only one.
pub proof fn law_trending_host_boosted(
    engine: EngineView,
    url: Seq<char>,
    host: Seq<char>,
    base_score: int,
    event: EventView,
    now: i64,
)
    requires
        gate_opens(
            engine,
            engine.apis.google_trends_enabled,
            "google_trends"@,
            engine.trends.config.rate_limit_per_hour,
            now,
        ),
        host_trends(host, texts(engine.trends.terms@)),
    ensures
        gathered(next(engine, fresh_start(url, host, base_score), event, now).1) == seq![
            engine.trends.adjustment(),
        ],
        engine.trends.adjustment().adjustment == engine.trends.boost,
        match next(engine, fresh_start(url, host, base_score), event, now).1 {
            StepView::Done { result, from_cache } => result.enriched_score == base_score
                + engine.trends.boost,
            StepView::Waiting { pending, request } => pending.enrichment_data.is_trending
                == Some(true),
        },
{
    let start = fresh_start(url, host, base_score);
    assert(start.adjustments.push(engine.trends.adjustment()) =~= seq![
        engine.trends.adjustment(),
    ]);
    lemma_sum_push(Seq::empty(), engine.trends.adjustment());
    assert(Seq::<AdjustmentView>::empty().push(engine.trends.adjustment()) =~= seq![
        engine.trends.adjustment(),
    ]);
}

/// With every provider disabled and nothing fresh in the cache, a whole
/// enrichment ends with the base score as the enriched score, no
/// adjustment, and the site type that the detection page gives.
pub proof fn law_run_all_disabled(
    engine: EngineView,
    url: Seq<char>,
    host: Seq<char>,
    base_score: int,
    observed: ObservationsView,
    now: i64,
)
    requires
        !engine.apis.google_trends_enabled,
        !engine.apis.shopify_detection_enabled,
        !engine.apis.whois_enabled,
        cache_get(engine.cache, url, now as int) is None,
    ensures
        run(engine, url, host, base_score, observed, now).0.windows == engine.windows,
        match run(engine, url, host, base_score, observed, now).1 {
            StepView::Done { result, from_cache } => {
                &&& result.adjustments == Seq::<AdjustmentView>::empty()
                &&& result.enriched_score == base_score
                &&& result.base_score == base_score
                &&& result.site_type == engine.signatures.site_type(observed.site_page)
                &&& !from_cache
            },
            StepView::Waiting { pending, request } => false,
        },
{
}

} // verus!
