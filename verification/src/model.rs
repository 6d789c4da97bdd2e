use vstd::prelude::*;

verus! {

/// Largest magnitude, in hundredths of a point, that a base score or a
/// configured adjustment may have. Four such values always add up within an
/// `i64`.
pub const SCORE_LIMIT: i64 = 1_000_000_000_000_000;

/// Whether `value` is a fixed-point score within the supported range.
pub open spec fn score_in_range(value: int) -> bool {
    -SCORE_LIMIT <= value <= SCORE_LIMIT
}

/// Tests whether a fixed-point score lies within the supported range.
pub fn is_score_in_range(value: i64) -> (r: bool)
    ensures
        r == score_in_range(value as int),
{
    -SCORE_LIMIT <= value && value <= SCORE_LIMIT
}

/// One signed change to a score, in hundredths of a point, with the source
/// that caused it and the reason it gave.
#[derive(Debug)]
pub struct ScoreAdjustment {
    pub source: String,
    pub adjustment: i64,
    pub reason: String,
}

/// The mathematical content of a `ScoreAdjustment`.
pub struct AdjustmentView {
    pub source: Seq<char>,
    pub adjustment: int,
    pub reason: Seq<char>,
}

impl View for ScoreAdjustment {
    type V = AdjustmentView;

    open spec fn view(&self) -> AdjustmentView {
        AdjustmentView {
            source: self.source@,
            adjustment: self.adjustment as int,
            reason: self.reason@,
        }
    }
}

impl ScoreAdjustment {
    /// A copy of this adjustment.
    pub fn duplicate(&self) -> (copy: ScoreAdjustment)
        ensures
            copy@ == self@,
    {
        ScoreAdjustment {
            source: self.source.clone(),
            adjustment: self.adjustment,
            reason: self.reason.clone(),
        }
    }
}

/// The platform a site was recognised to run on.
#[derive(Debug, Clone, Copy, PartialEq, Eq, Structural)]
pub enum SiteType {
    Shopify,
    WooCommerce,
    Custom,
    Unknown,
}

/// Signals picked up along the way. Ratings and ages are in hundredths.
#[derive(Debug, Clone, Copy, PartialEq, Eq, Structural)]
pub struct EnrichmentData {
    pub is_trending: Option<bool>,
    pub is_shopify: Option<bool>,
    pub has_funding: Option<bool>,
    pub rating: Option<i64>,
    pub domain_age_years: Option<i64>,
}

impl EnrichmentData {
    /// The record with every signal absent.
    pub open spec fn empty() -> EnrichmentData {
        EnrichmentData {
            is_trending: None,
            is_shopify: None,
            has_funding: None,
            rating: None,
            domain_age_years: None,
        }
    }
}

impl Default for EnrichmentData {
    fn default() -> (data: EnrichmentData)
        ensures
            data == EnrichmentData::empty(),
    {
        EnrichmentData {
            is_trending: None,
            is_shopify: None,
            has_funding: None,
            rating: None,
            domain_age_years: None,
        }
    }
}

/// The views of a sequence of adjustments, in order.
pub open spec fn adjustment_views(adjustments: Seq<ScoreAdjustment>) -> Seq<AdjustmentView> {
    adjustments.map_values(|a: ScoreAdjustment| a@)
}

/// The sum of the adjustments of a sequence.
pub open spec fn sum_adjustments(adjustments: Seq<AdjustmentView>) -> int
    decreases adjustments.len(),
{
    if adjustments.len() == 0 {
        0
    } else {
        sum_adjustments(adjustments.drop_last()) + adjustments.last().adjustment
    }
}

/// Adding one adjustment to a sequence adds its amount to the sum.
pub proof fn lemma_sum_push(adjustments: Seq<AdjustmentView>, extra: AdjustmentView)
    ensures
        sum_adjustments(adjustments.push(extra)) == sum_adjustments(adjustments)
            + extra.adjustment,
{
    assert(adjustments.push(extra).drop_last() =~= adjustments);
}

/// The outcome of enriching one URL. Scores are in hundredths of a point and
/// the time is in milliseconds since the Unix epoch.
#[derive(Debug)]
pub struct EnrichedScore {
    pub url: String,
    pub base_score: i64,
    pub enriched_score: i64,
    pub adjustments: Vec<ScoreAdjustment>,
    pub site_type: SiteType,
    pub enrichment_data: EnrichmentData,
    pub timestamp: i64,
}

/// The mathematical content of an `EnrichedScore`.
pub struct EnrichedView {
    pub url: Seq<char>,
    pub base_score: int,
    pub enriched_score: int,
    pub adjustments: Seq<AdjustmentView>,
    pub site_type: SiteType,
    pub enrichment_data: EnrichmentData,
    pub timestamp: int,
}

impl View for EnrichedScore {
    type V = EnrichedView;

    open spec fn view(&self) -> EnrichedView {
        EnrichedView {
            url: self.url@,
            base_score: self.base_score as int,
            enriched_score: self.enriched_score as int,
            adjustments: adjustment_views(self.adjustments@),
            site_type: self.site_type,
            enrichment_data: self.enrichment_data,
            timestamp: self.timestamp as int,
        }
    }
}

impl EnrichedView {
    /// The enriched score is the base score plus every adjustment.
    pub open spec fn balanced(self) -> bool {
        self.enriched_score == self.base_score + sum_adjustments(self.adjustments)
    }
}

impl EnrichedScore {
    /// A copy of this result.
    pub fn duplicate(&self) -> (copy: EnrichedScore)
        ensures
            copy@ == self@,
    {
        let mut adjustments: Vec<ScoreAdjustment> = Vec::new();
        let mut i: usize = 0;
        while i < self.adjustments.len()
            invariant
                i <= self.adjustments.len(),
                adjustment_views(adjustments@) == adjustment_views(self.adjustments@).take(
                    i as int,
                ),
            decreases self.adjustments.len() - i,
        {
            let ghost before = adjustments@;
            adjustments.push(self.adjustments[i].duplicate());
            i += 1;
            assert(adjustment_views(adjustments@) =~= adjustment_views(before).push(
                self.adjustments@[i - 1]@,
            ));
            assert(adjustment_views(self.adjustments@).take(i as int) =~= adjustment_views(
                self.adjustments@,
            ).take(i - 1).push(self.adjustments@[i - 1]@));
        }
        assert(adjustment_views(self.adjustments@).take(i as int) =~= adjustment_views(
            self.adjustments@,
        ));
        EnrichedScore {
            url: self.url.clone(),
            base_score: self.base_score,
            enriched_score: self.enriched_score,
            adjustments,
            site_type: self.site_type,
            enrichment_data: self.enrichment_data,
            timestamp: self.timestamp,
        }
    }
}

/// Whether `value` can be held in an `i64`.
pub open spec fn fits_i64(value: int) -> bool {
    i64::MIN <= value <= i64::MAX
}

/// Adds up the adjustments of `adjustments` from the first to the last, or
/// gives `None` where one of the partial sums leaves the range of `i64`.
pub fn total_adjustment(adjustments: &Vec<ScoreAdjustment>) -> (total: Option<i64>)
    ensures
        match total {
            Some(t) => t == sum_adjustments(adjustment_views(adjustments@)),
            None => exists|k: int|
                0 <= k <= adjustments.len() && !fits_i64(
                    sum_adjustments(#[trigger] adjustment_views(adjustments@).take(k)),
                ),
        },
        total is Some <==> forall|k: int|
            0 <= k <= adjustments.len() ==> fits_i64(
                sum_adjustments(#[trigger] adjustment_views(adjustments@).take(k)),
            ),
{
    let mut total: i64 = 0;
    let mut i: usize = 0;
    let ghost views = adjustment_views(adjustments@);
    while i < adjustments.len()
        invariant
            i <= adjustments.len(),
            views == adjustment_views(adjustments@),
            total == sum_adjustments(views.take(i as int)),
            forall|k: int| 0 <= k <= i ==> fits_i64(sum_adjustments(#[trigger] views.take(k))),
        decreases adjustments.len() - i,
    {
        let amount = adjustments[i].adjustment;
        proof {
            assert(views.take(i as int + 1) =~= views.take(i as int).push(views[i as int]));
            lemma_sum_push(views.take(i as int), views[i as int]);
            assert(views[i as int].adjustment == amount);
        }
        match total.checked_add(amount) {
            Some(next) => {
                total = next;
            },
            None => {
                assert(!fits_i64(sum_adjustments(views.take(i as int + 1))));
                return None;
            },
        }
        i += 1;
    }
    assert(views.take(i as int) =~= views);
    Some(total)
}

} // verus!
