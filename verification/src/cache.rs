use crate::model::{EnrichedScore, EnrichedView};
use crate::outside::{current_time_millis, sha256_hex, sha256_hex_of};
use crate::rate_limiter::HOUR_MILLIS;
use vstd::prelude::*;

verus! {

/// One cached result: the digest it is filed under, the URL it belongs to,
/// the result, and the time it was stored, in milliseconds.
#[derive(Debug)]
pub struct CacheRecord {
    pub url_hash: String,
    pub url: String,
    pub data: EnrichedScore,
    pub created_at: i64,
}

/// The mathematical content of a cached result.
pub struct CachedView {
    pub url: Seq<char>,
    pub data: EnrichedView,
    pub created_at: int,
}

/// The mathematical content of a cache: the path of the durable store
/// behind it, its time to live, and what is filed under each digest.
pub struct CacheView {
    pub path: Seq<char>,
    pub ttl_hours: int,
    pub entries: Map<Seq<char>, CachedView>,
}

/// Whether a record stored at `created_at` still counts at `now`: its age is
/// strictly less than the time to live.
pub open spec fn fresh(ttl_hours: int, created_at: int, now: int) -> bool {
    now - created_at < ttl_hours * HOUR_MILLIS
}

/// What a lookup of `url` at `now` gives: the result filed under the URL's
/// digest where there is one and it is still fresh.
pub open spec fn cache_get(cache: CacheView, url: Seq<char>, now: int) -> Option<EnrichedView> {
    let key = sha256_hex(url);
    if cache.entries.contains_key(key) && fresh(
        cache.ttl_hours,
        cache.entries[key].created_at,
        now,
    ) {
        Some(cache.entries[key].data)
    } else {
        None
    }
}

/// The cache once `data` has been stored for `url` at `now`: whatever was
/// filed under the URL's digest is replaced.
pub open spec fn cache_set(cache: CacheView, url: Seq<char>, data: EnrichedView, now: int) -> CacheView {
    CacheView {
        path: cache.path,
        ttl_hours: cache.ttl_hours,
        entries: cache.entries.insert(
            sha256_hex(url),
            CachedView { url: url, data: data, created_at: now },
        ),
    }
}

/// Time-bounded store of enrichment results, filed by the digest of the URL.
/// The records live in memory; `db_path` names the durable store that the
/// program around the library keeps in step with them.
#[derive(Debug)]
pub struct CacheManager {
    db_path: String,
    ttl_hours: i64,
    records: Vec<CacheRecord>,
}

impl View for CacheRecord {
    type V = CachedView;

    open spec fn view(&self) -> CachedView {
        CachedView { url: self.url@, data: self.data@, created_at: self.created_at as int }
    }
}

/// Whether some record of `records` is filed under `key`.
pub open spec fn filed(records: Seq<CacheRecord>, key: Seq<char>) -> bool {
    exists|i: int| 0 <= i < records.len() && records[i].url_hash@ == key
}

/// The position of a record filed under `key`.
pub open spec fn place_of(records: Seq<CacheRecord>, key: Seq<char>) -> int {
    choose|i: int| 0 <= i < records.len() && records[i].url_hash@ == key
}

/// The digests under which the records of `records` are filed.
pub open spec fn digests(records: Seq<CacheRecord>) -> Set<Seq<char>> {
    Set::new(|key: Seq<char>| filed(records, key))
}

/// Records with different digests are filed under as many digests as there
/// are records.
pub proof fn lemma_digests_counted(records: Seq<CacheRecord>)
    requires
        forall|i: int, j: int|
            0 <= i < j < records.len() ==> records[i].url_hash@ != records[j].url_hash@,
    ensures
        digests(records).finite(),
        digests(records).len() == records.len(),
    decreases records.len(),
{
    if records.len() == 0 {
        assert(digests(records) =~= Set::<Seq<char>>::empty());
    } else {
        let rest = records.drop_last();
        let last = records.last().url_hash@;
        assert forall|i: int, j: int| 0 <= i < j < rest.len() implies rest[i].url_hash@
            != rest[j].url_hash@ by {
            assert(rest[i] == records[i] && rest[j] == records[j]);
        }
        lemma_digests_counted(rest);
        assert(!digests(rest).contains(last)) by {
            if filed(rest, last) {
                let i = choose|i: int| 0 <= i < rest.len() && rest[i].url_hash@ == last;
                assert(records[i].url_hash@ == records[records.len() - 1].url_hash@);
            }
        }
        assert(digests(records) =~= digests(rest).insert(last)) by {
            assert forall|key: Seq<char>| digests(records).contains(key) implies digests(
                rest,
            ).insert(last).contains(key) by {
                let i = choose|i: int| 0 <= i < records.len() && records[i].url_hash@ == key;
                if i < rest.len() {
                    assert(rest[i].url_hash@ == key);
                }
            }
            assert forall|key: Seq<char>| digests(rest).insert(last).contains(
                key,
            ) implies digests(records).contains(key) by {
                if key == last {
                    assert(records[records.len() - 1].url_hash@ == key);
                } else {
                    let i = choose|i: int| 0 <= i < rest.len() && rest[i].url_hash@ == key;
                    assert(records[i].url_hash@ == key);
                }
            }
        }
    }
}

impl View for CacheManager {
    type V = CacheView;

    closed spec fn view(&self) -> CacheView {
        CacheView {
            path: self.db_path@,
            ttl_hours: self.ttl_hours as int,
            entries: Map::new(
                |key: Seq<char>| filed(self.records@, key),
                |key: Seq<char>| self.records[place_of(self.records@, key)]@,
            ),
        }
    }
}

impl CacheManager {
    /// No digest has two records.
    pub closed spec fn wf(&self) -> bool {
        forall|i: int, j: int|
            0 <= i < j < self.records.len() ==> self.records[i].url_hash@
                != self.records[j].url_hash@
    }

    /// An empty cache whose records stay fresh for `ttl_hours` hours.
    pub fn new(db_path: String, ttl_hours: i64) -> (cache: CacheManager)
        ensures
            cache.wf(),
            cache@.path == db_path@,
            cache@.ttl_hours == ttl_hours,
            cache@.entries == Map::<Seq<char>, CachedView>::empty(),
    {
        let cache = CacheManager { db_path, ttl_hours, records: Vec::new() };
        assert(cache@.entries =~= Map::<Seq<char>, CachedView>::empty());
        cache
    }

    /// The path of the durable store that backs this cache.
    pub fn db_path(&self) -> (path: &str)
        ensures
            path@ == self@.path,
    {
        self.db_path.as_str()
    }

    /// The number of hours for which a record stays fresh.
    pub fn ttl_hours(&self) -> (hours: i64)
        ensures
            hours == self@.ttl_hours,
    {
        self.ttl_hours
    }

    /// The number of records held, stale ones included: one for each digest
    /// that something is filed under.
    pub fn len(&self) -> (n: usize)
        requires
            self.wf(),
        ensures
            self@.entries.dom().finite(),
            n == self@.entries.dom().len(),
    {
        proof {
            lemma_digests_counted(self.records@);
            assert(self@.entries.dom() =~= digests(self.records@));
        }
        self.records.len()
    }

    /// The digest under which the result for `url` is filed: 64 characters,
    /// the same for the same URL.
    pub fn hash_url(&self, url: &str) -> (digest: String)
        ensures
            digest@ == sha256_hex(url@),
            digest@.len() == 64,
    {
        sha256_hex_of(url)
    }

    /// Tests whether a record stored at `created_at` still counts at `now`.
    pub fn is_fresh(&self, created_at: i64, now: i64) -> (r: bool)
        ensures
            r == fresh(self@.ttl_hours, created_at as int, now as int),
    {
        (now as i128) - (created_at as i128) < (self.ttl_hours as i128) * (HOUR_MILLIS as i128)
    }

    fn find(&self, key: &String) -> (found: Option<usize>)
        requires
            self.wf(),
        ensures
            match found {
                Some(i) => i < self.records.len() && self.records[i as int].url_hash@ == key@
                    && self@.entries.contains_key(key@) && self@.entries[key@]
                    == self.records[i as int]@,
                None => !self@.entries.contains_key(key@),
            },
    {
        let mut i: usize = 0;
        while i < self.records.len()
            invariant
                self.wf(),
                i <= self.records.len(),
                forall|j: int| 0 <= j < i ==> self.records[j].url_hash@ != key@,
            decreases self.records.len() - i,
        {
            if self.records[i].url_hash == *key {
                proof {
                    let p = place_of(self.records@, key@);
                    assert(!(p < i));
                    assert(!(i < p));
                }
                return Some(i);
            }
            i += 1;
        }
        None
    }

    /// Looks `url` up at the time `now`, in milliseconds: a copy of the
    /// result filed under its digest where that is still fresh, else nothing.
    /// A stale record stays where it is.
    pub fn get_at(&self, url: &str, now: i64) -> (hit: Option<EnrichedScore>)
        requires
            self.wf(),
        ensures
            match hit {
                Some(data) => cache_get(self@, url@, now as int) == Some(data@),
                None => cache_get(self@, url@, now as int) is None,
            },
    {
        let key = self.hash_url(url);
        match self.find(&key) {
            Some(i) => {
                if self.is_fresh(self.records[i].created_at, now) {
                    Some(self.records[i].data.duplicate())
                } else {
                    None
                }
            },
            None => None,
        }
    }

    /// Files a copy of `data` under the digest of `url` with the time `now`,
    /// in place of whatever was filed there, fresh or stale.
    pub fn set_at(&mut self, url: &str, data: &EnrichedScore, now: i64)
        requires
            old(self).wf(),
        ensures
            final(self).wf(),
            final(self)@ == cache_set(old(self)@, url@, data@, now as int),
    {
        let key = self.hash_url(url);
        let found = self.find(&key);
        let ghost before = self.records@;
        let record = CacheRecord {
            url_hash: key,
            url: String::from_str(url),
            data: data.duplicate(),
            created_at: now,
        };
        match found {
            Some(i) => {
                self.records.set(i, record);
            },
            None => {
                self.records.push(record);
            },
        }
        proof {
            let after = self.records@;
            let key = sha256_hex(url@);
            let at: int = match found {
                Some(i) => i as int,
                None => before.len() as int,
            };
            assert(after[at].url_hash@ == key);
            assert(forall|j: int| 0 <= j < before.len() && j != at ==> after[j] == before[j]);
            let goal = cache_set(old(self)@, url@, data@, now as int);
            assert forall|k: Seq<char>| self@.entries.contains_key(k) implies goal.entries.contains_key(
                k,
            ) by {
                let p = place_of(after, k);
                if k != key {
                    assert(p != at);
                    assert(before[p].url_hash@ == k);
                }
            }
            assert forall|k: Seq<char>| goal.entries.contains_key(k) implies self@.entries.contains_key(
                k,
            ) && self@.entries[k] == goal.entries[k] by {
                if k == key {
                    let p = place_of(after, k);
                    assert(!(p < at));
                    assert(!(at < p));
                } else {
                    let q = place_of(before, k);
                    assert(q != at);
                    assert(after[q].url_hash@ == k);
                    let p = place_of(after, k);
                    assert(!(p < q));
                    assert(!(q < p));
                }
            }
            assert(self@.entries =~= goal.entries);
        }
    }

    /// Looks `url` up at the time the system clock shows. Whatever the clock
    /// showed, the outcome is that of `get_at` at that time.
    pub fn get(&self, url: &str) -> (hit: Option<EnrichedScore>)
        requires
            self.wf(),
        ensures
            exists|now: i64|
                match hit {
                    Some(data) => #[trigger] cache_get(self@, url@, now as int) == Some(data@),
                    None => cache_get(self@, url@, now as int) is None,
                },
            !self@.entries.contains_key(sha256_hex(url@)) ==> hit is None,
    {
        let now = current_time_millis();
        self.get_at(url, now)
    }

    /// Files a copy of `data` under the digest of `url` with the time the
    /// system clock shows.
    pub fn set(&mut self, url: &str, data: &EnrichedScore)
        requires
            old(self).wf(),
        ensures
            final(self).wf(),
            exists|now: i64| final(self)@ == #[trigger] cache_set(old(self)@, url@, data@, now as int),
    {
        let now = current_time_millis();
        self.set_at(url, data, now)
    }

    /// Whether some record, fresh or stale, was stored at the time `at`.
    pub open spec fn stored_at(&self, at: int) -> bool {
        exists|key: Seq<char>| #[trigger]
            self@.entries.contains_key(key) && self@.entries[key].created_at == at
    }

    proof fn lemma_entries(&self)
        requires
            self.wf(),
        ensures
            forall|j: int|
                0 <= j < self.records.len() ==> self@.entries.contains_key(
                    #[trigger] self.records[j].url_hash@,
                ) && self@.entries[self.records[j].url_hash@] == self.records[j]@,
            forall|key: Seq<char>| #[trigger]
                self@.entries.contains_key(key) ==> 0 <= place_of(self.records@, key)
                    < self.records.len() && self@.entries[key] == self.records[place_of(
                    self.records@,
                    key,
                )]@,
    {
        assert forall|j: int| 0 <= j < self.records.len() implies self@.entries.contains_key(
            #[trigger] self.records[j].url_hash@,
        ) && self@.entries[self.records[j].url_hash@] == self.records[j]@ by {
            let key = self.records[j].url_hash@;
            let p = place_of(self.records@, key);
            assert(!(p < j));
            assert(!(j < p));
        }
    }

    /// The times at which the oldest and the newest record were stored,
    /// stale ones included; nothing for an empty cache.
    pub fn oldest_newest(&self) -> (span: Option<(i64, i64)>)
        requires
            self.wf(),
        ensures
            match span {
                Some((oldest, newest)) => {
                    &&& self.stored_at(oldest as int)
                    &&& self.stored_at(newest as int)
                    &&& forall|at: int| #[trigger] self.stored_at(at) ==> oldest <= at <= newest
                },
                None => self@.entries == Map::<Seq<char>, CachedView>::empty(),
            },
    {
        proof {
            self.lemma_entries();
        }
        if self.records.len() == 0 {
            assert(self@.entries =~= Map::<Seq<char>, CachedView>::empty());
            return None;
        }
        let mut oldest: i64 = self.records[0].created_at;
        let mut newest: i64 = self.records[0].created_at;
        let ghost mut low: int = 0;
        let ghost mut high: int = 0;
        let mut i: usize = 1;
        while i < self.records.len()
            invariant
                1 <= i <= self.records.len(),
                0 <= low < i,
                0 <= high < i,
                self.records[low].created_at == oldest,
                self.records[high].created_at == newest,
                forall|j: int|
                    0 <= j < i ==> oldest <= (#[trigger] self.records[j]).created_at <= newest,
            decreases self.records.len() - i,
        {
            let at = self.records[i].created_at;
            if at < oldest {
                oldest = at;
                proof {
                    low = i as int;
                }
            }
            if at > newest {
                newest = at;
                proof {
                    high = i as int;
                }
            }
            i += 1;
        }
        proof {
            assert(self@.entries.contains_key(self.records[low].url_hash@));
            assert(self@.entries.contains_key(self.records[high].url_hash@));
            assert forall|at: int| #[trigger] self.stored_at(at) implies oldest <= at <= newest by {
                let key = choose|key: Seq<char>| #[trigger]
                    self@.entries.contains_key(key) && self@.entries[key].created_at == at;
                let p = place_of(self.records@, key);
                assert(oldest <= self.records[p].created_at <= newest);
            }
        }
        Some((oldest, newest))
    }

    /// Drops every record.
    pub fn reset(&mut self)
        ensures
            final(self).wf(),
            final(self)@.path == old(self)@.path,
            final(self)@.ttl_hours == old(self)@.ttl_hours,
            final(self)@.entries == Map::<Seq<char>, CachedView>::empty(),
    {
        self.records = Vec::new();
        assert(self@.entries =~= Map::<Seq<char>, CachedView>::empty());
    }
}

/// A result stored for a URL is what a lookup of that URL gives for as long
/// as the record is fresh, whatever the cache held before.
pub proof fn law_hit_within_ttl(
    cache: CacheView,
    url: Seq<char>,
    data: EnrichedView,
    stored_at: int,
    now: int,
)
    requires
        fresh(cache.ttl_hours, stored_at, now),
    ensures
        cache_get(cache_set(cache, url, data, stored_at), url, now) == Some(data),
{
}

/// Once the time to live has passed, a stored result counts as absent.
pub proof fn law_miss_after_ttl(
    cache: CacheView,
    url: Seq<char>,
    data: EnrichedView,
    stored_at: int,
    now: int,
)
    requires
        now - stored_at >= cache.ttl_hours * HOUR_MILLIS,
    ensures
        cache_get(cache_set(cache, url, data, stored_at), url, now) is None,
{
}

/// Storing a result for a URL replaces what was stored for it before, fresh
/// or stale.
pub proof fn law_set_overwrites(
    cache: CacheView,
    url: Seq<char>,
    first: EnrichedView,
    first_at: int,
    second: EnrichedView,
    second_at: int,
)
    ensures
        cache_set(cache_set(cache, url, first, first_at), url, second, second_at) == cache_set(
            cache,
            url,
            second,
            second_at,
        ),
{
    assert(cache_set(cache_set(cache, url, first, first_at), url, second, second_at).entries
        =~= cache_set(cache, url, second, second_at).entries);
}

/// Storing a result for one URL changes no lookup of a URL with another
/// digest.
pub proof fn law_set_leaves_others(
    cache: CacheView,
    url: Seq<char>,
    data: EnrichedView,
    stored_at: int,
    other: Seq<char>,
    now: int,
)
    requires
        sha256_hex(other) != sha256_hex(url),
    ensures
        cache_get(cache_set(cache, url, data, stored_at), other, now) == cache_get(
            cache,
            other,
            now,
        ),
{
}

} // verus!
