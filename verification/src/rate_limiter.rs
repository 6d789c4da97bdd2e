use crate::outside::current_time_millis;
use vstd::prelude::*;

verus! {

/// The length of the sliding window, in milliseconds.
pub const HOUR_MILLIS: i64 = 3_600_000;

/// The stamps of `stamps` that lie within the hour that ends at `now`, in
/// their order: those that are not older than one hour, a stamp of exactly
/// one hour ago among them.
pub open spec fn within_hour(stamps: Seq<i64>, now: int) -> Seq<i64>
    decreases stamps.len(),
{
    if stamps.len() == 0 {
        Seq::empty()
    } else if stamps.last() >= now - HOUR_MILLIS {
        within_hour(stamps.drop_last(), now).push(stamps.last())
    } else {
        within_hour(stamps.drop_last(), now)
    }
}

/// Whether a request at `now` is admitted, given the stamps recorded so far.
pub open spec fn admits(stamps: Seq<i64>, limit: int, now: int) -> bool {
    within_hour(stamps, now).len() < limit
}

/// The stamps recorded after a request at `now`: the old ones are pruned to
/// the last hour either way, and `now` joins them where the request is
/// admitted.
pub open spec fn stamps_after(stamps: Seq<i64>, limit: int, now: i64) -> Seq<i64> {
    if admits(stamps, limit, now as int) {
        within_hour(stamps, now as int).push(now)
    } else {
        within_hour(stamps, now as int)
    }
}

/// The signal that a source has used up its quota for the current hour.
#[derive(Debug)]
pub struct RateLimitExceeded {
    pub source: String,
}

impl RateLimitExceeded {
    /// The message that names the source.
    pub fn message(&self) -> (text: String)
        ensures
            text@ == "Rate limit exceeded for "@ + self.source@,
    {
        let mut text = String::from_str("Rate limit exceeded for ");
        text.append(self.source.as_str());
        text
    }
}

/// The stamps recorded for one source.
#[derive(Debug)]
pub struct SourceWindow {
    pub source: String,
    pub stamps: Vec<i64>,
}

/// Sliding-window admission control, one window per source. A decision
/// takes the limiter by exclusive reference, so that pruning, counting and
/// recording are one step; callers that share a limiter keep it behind a
/// lock.
#[derive(Debug)]
pub struct RateLimiter {
    entries: Vec<SourceWindow>,
}

/// The position of the entry for `source`, if there is one.
pub open spec fn position_of(entries: Seq<SourceWindow>, source: Seq<char>) -> Option<int> {
    if exists|i: int| 0 <= i < entries.len() && entries[i].source@ == source {
        Some(choose|i: int| 0 <= i < entries.len() && entries[i].source@ == source)
    } else {
        None
    }
}

impl RateLimiter {
    /// No source has two entries.
    pub closed spec fn wf(&self) -> bool {
        forall|i: int, j: int|
            0 <= i < j < self.entries.len() ==> self.entries[i].source@
                != self.entries[j].source@
    }

    /// The stamps recorded for `source`, oldest first; empty for a source
    /// never seen.
    pub closed spec fn window(&self, source: Seq<char>) -> Seq<i64> {
        match position_of(self.entries@, source) {
            Some(i) => self.entries[i].stamps@,
            None => Seq::empty(),
        }
    }

    /// A limiter that has seen no request.
    pub fn new() -> (limiter: RateLimiter)
        ensures
            limiter.wf(),
            forall|source: Seq<char>| #[trigger] limiter.window(source) == Seq::<i64>::empty(),
    {
        RateLimiter { entries: Vec::new() }
    }

    fn find(&self, name: &String) -> (found: Option<usize>)
        requires
            self.wf(),
        ensures
            match found {
                Some(i) => i < self.entries.len() && self.entries[i as int].source@ == name@
                    && position_of(self.entries@, name@) == Some(i as int),
                None => position_of(self.entries@, name@) is None,
            },
    {
        let mut i: usize = 0;
        while i < self.entries.len()
            invariant
                self.wf(),
                i <= self.entries.len(),
                forall|j: int| 0 <= j < i ==> self.entries[j].source@ != name@,
            decreases self.entries.len() - i,
        {
            if self.entries[i].source == *name {
                proof {
                    let p = position_of(self.entries@, name@);
                    assert(p is Some);
                    assert(!(p->0 < i));
                    assert(!(i < p->0));
                }
                return Some(i);
            }
            i += 1;
        }
        None
    }

    /// Decides on a request of `api_name` at the time `now`, in
    /// milliseconds: the stamps of that source that are more than an hour
    /// old are dropped, one of exactly an hour ago stays and counts; where
    /// fewer than `limit_per_hour` remain the request is admitted and
    /// `now` recorded, else it is denied. No other source is touched.
    pub fn check_and_record_at(&mut self, api_name: &str, limit_per_hour: u32, now: i64) -> (r:
        Result<(), RateLimitExceeded>)
        requires
            old(self).wf(),
        ensures
            final(self).wf(),
            r is Ok <==> admits(old(self).window(api_name@), limit_per_hour as int, now as int),
            r is Err ==> r->Err_0.source@ == api_name@,
            final(self).window(api_name@) == stamps_after(
                old(self).window(api_name@),
                limit_per_hour as int,
                now,
            ),
            forall|other: Seq<char>|
                other != api_name@ ==> #[trigger] final(self).window(other) == old(self).window(
                    other,
                ),
    {
        let name = String::from_str(api_name);
        let found = self.find(&name);
        let ghost before = self.entries@;
        let mut kept: Vec<i64> = Vec::new();
        match found {
            Some(i) => {
                let stamps = &self.entries[i].stamps;
                let mut k: usize = 0;
                while k < stamps.len()
                    invariant
                        k <= stamps.len(),
                        kept@ == within_hour(stamps@.take(k as int), now as int),
                    decreases stamps.len() - k,
                {
                    let t = stamps[k];
                    assert(stamps@.take(k as int + 1).drop_last() =~= stamps@.take(k as int));
                    if t as i128 >= now as i128 - HOUR_MILLIS as i128 {
                        kept.push(t);
                    }
                    k += 1;
                }
                assert(stamps@.take(k as int) =~= stamps@);
            },
            None => {},
        }
        let admitted = kept.len() < limit_per_hour as usize;
        if admitted {
            kept.push(now);
        }
        let entry = SourceWindow { source: name, stamps: kept };
        match found {
            Some(i) => {
                self.entries.set(i, entry);
            },
            None => {
                self.entries.push(entry);
            },
        }
        proof {
            let after = self.entries@;
            let at: int = match found {
                Some(i) => i as int,
                None => before.len() as int,
            };
            assert(after[at].source@ == api_name@);
            assert(forall|j: int|
                0 <= j < before.len() && j != at ==> after[j] == before[j]);
            assert(position_of(after, api_name@) == Some(at));
            assert forall|other: Seq<char>| other != api_name@ implies #[trigger] self.window(
                other,
            ) == old(self).window(other) by {
                match position_of(before, other) {
                    Some(p) => {
                        assert(after[p].source@ == other);
                        assert(position_of(after, other) == Some(p));
                    },
                    None => {
                        if position_of(after, other) is Some {
                            let p = position_of(after, other)->0;
                            assert(p != at);
                            assert(before[p].source@ == other);
                        }
                    },
                }
            }
        }
        if admitted {
            Ok(())
        } else {
            Err(RateLimitExceeded { source: String::from_str(api_name) })
        }
    }

    /// The stamps recorded for `api_name`, oldest first.
    pub fn recorded(&self, api_name: &str) -> (stamps: Vec<i64>)
        requires
            self.wf(),
        ensures
            stamps@ == self.window(api_name@),
    {
        let name = String::from_str(api_name);
        match self.find(&name) {
            Some(i) => self.entries[i].stamps.clone(),
            None => Vec::new(),
        }
    }

    /// Decides on a request of `api_name` at the time the system clock shows.
    /// Whatever the clock showed, the outcome is that of
    /// `check_and_record_at` at that time.
    pub fn check_and_record(&mut self, api_name: &str, limit_per_hour: u32) -> (r: Result<
        (),
        RateLimitExceeded,
    >)
        requires
            old(self).wf(),
        ensures
            final(self).wf(),
            exists|now: i64|
                {
                    &&& r is Ok <==> admits(
                        old(self).window(api_name@),
                        limit_per_hour as int,
                        now as int,
                    )
                    &&& #[trigger] stamps_after(
                        old(self).window(api_name@),
                        limit_per_hour as int,
                        now,
                    ) == final(self).window(api_name@)
                },
            r is Err ==> r->Err_0.source@ == api_name@,
            limit_per_hour == 0 ==> r is Err,
            forall|other: Seq<char>|
                other != api_name@ ==> #[trigger] final(self).window(other) == old(self).window(
                    other,
                ),
    {
        let now = current_time_millis();
        self.check_and_record_at(api_name, limit_per_hour, now)
    }
}

/// The stamps on record once requests have arrived at each of `times`, in
/// that order, at a source that had none.
pub open spec fn stamps_after_all(limit: int, times: Seq<i64>) -> Seq<i64>
    decreases times.len(),
{
    if times.len() == 0 {
        Seq::empty()
    } else {
        stamps_after(stamps_after_all(limit, times.drop_last()), limit, times.last())
    }
}

/// Whether no stamp of `times` is earlier than one before it.
pub open spec fn non_decreasing(times: Seq<i64>) -> bool {
    forall|i: int, j: int| 0 <= i <= j < times.len() ==> times[i] <= times[j]
}

/// Pruning never adds a stamp, and it removes at least one where a stamp is
/// more than an hour old.
pub proof fn lemma_within_hour_len(stamps: Seq<i64>, now: int)
    ensures
        within_hour(stamps, now).len() <= stamps.len(),
        (exists|j: int| 0 <= j < stamps.len() && stamps[j] + HOUR_MILLIS < now) ==> within_hour(
            stamps,
            now,
        ).len() < stamps.len(),
    decreases stamps.len(),
{
    if stamps.len() > 0 {
        let rest = stamps.drop_last();
        lemma_within_hour_len(rest, now);
        if exists|j: int| 0 <= j < stamps.len() && stamps[j] + HOUR_MILLIS < now {
            let j = choose|j: int| 0 <= j < stamps.len() && stamps[j] + HOUR_MILLIS < now;
            if j < rest.len() {
                assert(rest[j] + HOUR_MILLIS < now);
            }
        }
    }
}

/// Pruning keeps everything where no stamp is more than an hour old.
pub proof fn lemma_within_hour_keeps_all(stamps: Seq<i64>, now: int)
    requires
        forall|j: int| 0 <= j < stamps.len() ==> stamps[j] >= now - HOUR_MILLIS,
    ensures
        within_hour(stamps, now) == stamps,
    decreases stamps.len(),
{
    if stamps.len() > 0 {
        let rest = stamps.drop_last();
        assert forall|j: int| 0 <= j < rest.len() implies rest[j] >= now - HOUR_MILLIS by {
            assert(rest[j] == stamps[j]);
        }
        lemma_within_hour_keeps_all(rest, now);
        assert(rest.push(stamps.last()) =~= stamps);
    } else {
        assert(stamps =~= Seq::empty());
    }
}

/// While requests stay within the quota and no more than an hour after the
/// first, each of them is on record.
pub proof fn lemma_all_recorded(limit: int, times: Seq<i64>)
    requires
        times.len() <= limit,
        non_decreasing(times),
        times.len() > 0 ==> times.last() - times[0] <= HOUR_MILLIS,
    ensures
        stamps_after_all(limit, times) == times,
    decreases times.len(),
{
    if times.len() == 0 {
        assert(times =~= Seq::empty());
    } else {
        let rest = times.drop_last();
        let now = times.last();
        assert(non_decreasing(rest)) by {
            assert forall|i: int, j: int| 0 <= i <= j < rest.len() implies rest[i] <= rest[j] by {
                assert(rest[i] == times[i] && rest[j] == times[j]);
            }
        }
        if rest.len() > 0 {
            assert(rest.last() == times[rest.len() - 1]);
            assert(rest[0] == times[0]);
            assert(times[rest.len() - 1] <= times[times.len() - 1]);
        }
        lemma_all_recorded(limit, rest);
        assert forall|j: int| 0 <= j < rest.len() implies rest[j] >= now - HOUR_MILLIS by {
            assert(rest[j] == times[j]);
            assert(times[0] <= times[j]);
        }
        lemma_within_hour_keeps_all(rest, now as int);
        assert(rest.push(now) =~= times);
    }
}

/// With a quota of `limit` requests an hour, each of the first `limit`
/// requests that a source makes within one hour is admitted.
pub proof fn law_requests_within_quota_admitted(limit: int, times: Seq<i64>, k: int)
    requires
        0 <= k < times.len(),
        k < limit,
        non_decreasing(times),
        times[k] - times[0] <= HOUR_MILLIS,
    ensures
        admits(stamps_after_all(limit, times.take(k)), limit, times[k] as int),
{
    let earlier = times.take(k);
    assert(non_decreasing(earlier)) by {
        assert forall|i: int, j: int| 0 <= i <= j < earlier.len() implies earlier[i]
            <= earlier[j] by {
            assert(earlier[i] == times[i] && earlier[j] == times[j]);
        }
    }
    if k > 0 {
        assert(earlier.last() == times[k - 1]);
        assert(earlier[0] == times[0]);
        assert(times[k - 1] <= times[k]);
    }
    lemma_all_recorded(limit, earlier);
    assert forall|j: int| 0 <= j < earlier.len() implies earlier[j] >= times[k]
        - HOUR_MILLIS by {
        assert(earlier[j] == times[j]);
        assert(times[0] <= times[j]);
    }
    lemma_within_hour_keeps_all(earlier, times[k] as int);
}

/// With a quota of `limit` requests an hour, the request that follows
/// `limit` admitted ones no more than an hour after the first of them is
/// denied: a stamp of exactly one hour ago still counts.
pub proof fn law_request_beyond_quota_denied(limit: int, times: Seq<i64>)
    requires
        0 <= limit,
        times.len() == limit + 1,
        non_decreasing(times),
        times[limit] - times[0] <= HOUR_MILLIS,
    ensures
        !admits(stamps_after_all(limit, times.take(limit)), limit, times[limit] as int),
{
    let earlier = times.take(limit);
    assert(non_decreasing(earlier)) by {
        assert forall|i: int, j: int| 0 <= i <= j < earlier.len() implies earlier[i]
            <= earlier[j] by {
            assert(earlier[i] == times[i] && earlier[j] == times[j]);
        }
    }
    if limit > 0 {
        assert(earlier.last() == times[limit - 1]);
        assert(earlier[0] == times[0]);
        assert(times[limit - 1] <= times[limit]);
    }
    lemma_all_recorded(limit, earlier);
    assert forall|j: int| 0 <= j < earlier.len() implies earlier[j] >= times[limit]
        - HOUR_MILLIS by {
        assert(earlier[j] == times[j]);
        assert(times[0] <= times[j]);
    }
    lemma_within_hour_keeps_all(earlier, times[limit] as int);
}

/// A source that is at or under its quota is admitted again once one of its
/// recorded stamps is more than an hour old.
pub proof fn law_admitted_again_after_an_hour(stamps: Seq<i64>, limit: int, now: int, j: int)
    requires
        stamps.len() <= limit,
        0 <= j < stamps.len(),
        stamps[j] + HOUR_MILLIS < now,
    ensures
        admits(stamps, limit, now),
{
    lemma_within_hour_len(stamps, now);
}

} // verus!
