//! TTL-based result cache with statistics. The cache memoizes command
//! results keyed by task kind, target URL and output format; every operation
//! takes the current time in milliseconds as an argument and is specified as
//! a pure change of the cache's mathematical contents.

use vstd::prelude::*;

use crate::cli::OutputFormat;
use crate::commands::{CommandResult, CommandResultView};
use crate::config::{AppConfig, CacheConfig};
use crate::text::str_eq;

verus! {

/// The two categories of cached results.
#[derive(Debug, Clone, Copy, PartialEq, Eq, Structural)]
pub enum CacheKind {
    Scrape,
    Crawl,
}

/// Mathematical key of a cache entry: kind, target URL and output format.
pub type CacheKeyView = (CacheKind, Seq<char>, OutputFormat);

/// Mathematical value of a cache entry. All timestamps are milliseconds
/// since the Unix epoch; `expires_at` absent means the entry never expires.
pub struct CacheEntryView {
    pub data: CommandResultView,
    pub created_at: u64,
    pub expires_at: Option<u64>,
    pub access_count: u64,
    pub last_accessed: u64,
}

/// Whether an entry is still fresh at the given time: it has no expiry, or
/// the time has not passed it.
pub open spec fn entry_fresh(e: CacheEntryView, now: u64) -> bool {
    match e.expires_at {
        None => true,
        Some(x) => now <= x,
    }
}

/// An entry as a fresh lookup hit leaves it: one more access, just now.
pub open spec fn refreshed_entry(e: CacheEntryView, now: u64) -> CacheEntryView {
    CacheEntryView { access_count: bump64(e.access_count), last_accessed: now, ..e }
}

/// A counter increment that stops at the machine limit.
pub open spec fn bump64(x: u64) -> u64 {
    if x < u64::MAX {
        (x + 1) as u64
    } else {
        x
    }
}

/// The expiry timestamp of an entry stored at `now` with the given
/// time-to-live in milliseconds: absent for a zero time-to-live, otherwise
/// `now + ttl`, saturating at the machine limit.
pub open spec fn spec_expiry(now: u64, ttl_millis: u64) -> Option<u64> {
    if ttl_millis == 0 {
        None
    } else if now + ttl_millis > u64::MAX {
        Some(u64::MAX)
    } else {
        Some((now + ttl_millis) as u64)
    }
}

/// Cache statistics. Hit and miss counters only ever grow (stopping at the
/// machine limit); entry counts track what is currently cached.
#[derive(Debug, Clone, Copy, PartialEq, Eq, Structural)]
pub struct CacheStatistics {
    pub total_entries: usize,
    pub scrape_entries: usize,
    pub crawl_entries: usize,
    pub cache_hits: u64,
    pub cache_misses: u64,
    pub total_size_bytes: u64,
}

impl CacheStatistics {
    /// Statistics with every counter at zero.
    pub open spec fn spec_zero() -> CacheStatistics {
        CacheStatistics {
            total_entries: 0,
            scrape_entries: 0,
            crawl_entries: 0,
            cache_hits: 0,
            cache_misses: 0,
            total_size_bytes: 0,
        }
    }

    /// The hit rate as a whole-number percentage: hits per lookup, or zero
    /// where nothing was looked up yet.
    pub open spec fn spec_hit_rate(self) -> int {
        if self.cache_hits + self.cache_misses == 0 {
            0
        } else {
            (self.cache_hits * 100) / (self.cache_hits + self.cache_misses)
        }
    }

    /// Calculates the hit rate as a whole-number percentage.
    pub fn calculate_hit_rate(&self) -> (r: u64)
        ensures
            r == self.spec_hit_rate(),
    {
        if self.cache_hits == 0 && self.cache_misses == 0 {
            0
        } else {
            let hits: u128 = self.cache_hits as u128;
            let misses: u128 = self.cache_misses as u128;
            let rate: u128 = (hits * 100) / (hits + misses);
            proof {
                assert(rate <= 100) by (nonlinear_arith)
                    requires
                        rate == (hits * 100) / (hits + misses),
                        hits + misses > 0,
                        hits <= u64::MAX,
                        misses <= u64::MAX,
                ;
            }
            rate as u64
        }
    }
}

impl Default for CacheStatistics {
    fn default() -> (r: Self)
        ensures
            r == CacheStatistics::spec_zero(),
    {
        CacheStatistics {
            total_entries: 0,
            scrape_entries: 0,
            crawl_entries: 0,
            cache_hits: 0,
            cache_misses: 0,
            total_size_bytes: 0,
        }
    }
}

/// One stored cache entry together with its key.
struct CacheSlot {
    kind: CacheKind,
    url: String,
    format: OutputFormat,
    data: CommandResult,
    created_at: u64,
    expires_at: Option<u64>,
    access_count: u64,
    last_accessed: u64,
}

impl CacheSlot {
    /// The slot's key.
    spec fn key(self) -> CacheKeyView {
        (self.kind, self.url@, self.format)
    }

    /// The slot's entry value.
    spec fn entry(self) -> CacheEntryView {
        CacheEntryView {
            data: self.data@,
            created_at: self.created_at,
            expires_at: self.expires_at,
            access_count: self.access_count,
            last_accessed: self.last_accessed,
        }
    }
}

/// The map denoted by a sequence of slots; later slots win on equal keys.
spec fn slots_map(s: Seq<CacheSlot>) -> Map<CacheKeyView, CacheEntryView>
    decreases s.len(),
{
    if s.len() == 0 {
        Map::empty()
    } else {
        slots_map(s.drop_last()).insert(s.last().key(), s.last().entry())
    }
}

/// Whether no two slots share a key.
spec fn unique_keys(s: Seq<CacheSlot>) -> bool {
    forall|i: int, j: int|
        0 <= i < j < s.len() ==> (#[trigger] s[i]).key() != (#[trigger] s[j]).key()
}

/// The number of slots of a kind.
spec fn count_kind(s: Seq<CacheSlot>, kind: CacheKind) -> int
    decreases s.len(),
{
    if s.len() == 0 {
        0
    } else {
        count_kind(s.drop_last(), kind) + if s.last().kind == kind {
            1int
        } else {
            0int
        }
    }
}

proof fn lemma_count_kind_nonneg(s: Seq<CacheSlot>, kind: CacheKind)
    ensures
        0 <= count_kind(s, kind) <= s.len(),
    decreases s.len(),
{
    if s.len() > 0 {
        lemma_count_kind_nonneg(s.drop_last(), kind);
    }
}

proof fn lemma_slots_map_len(s: Seq<CacheSlot>)
    requires
        unique_keys(s),
    ensures
        slots_map(s).dom().finite(),
        slots_map(s).dom().len() == s.len(),
    decreases s.len(),
{
    if s.len() > 0 {
        assert(unique_keys(s.drop_last()));
        lemma_slots_map_len(s.drop_last());
        lemma_slots_map_contains(s.drop_last(), s.last().key());
        assert(!slots_map(s.drop_last()).contains_key(s.last().key()));
    }
}

proof fn lemma_slots_map_contains(s: Seq<CacheSlot>, k: CacheKeyView)
    ensures
        slots_map(s).contains_key(k) <==> exists|i: int|
            0 <= i < s.len() && (#[trigger] s[i]).key() == k,
    decreases s.len(),
{
    if s.len() > 0 {
        lemma_slots_map_contains(s.drop_last(), k);
        if s.last().key() == k {
            assert(s[s.len() - 1].key() == k);
        } else {
            if slots_map(s).contains_key(k) {
                let i = choose|i: int| 0 <= i < s.drop_last().len() && (#[trigger] s.drop_last()[i]).key() == k;
                assert(s[i].key() == k);
            }
            if exists|i: int| 0 <= i < s.len() && (#[trigger] s[i]).key() == k {
                let i = choose|i: int| 0 <= i < s.len() && (#[trigger] s[i]).key() == k;
                assert(i < s.len() - 1);
                assert(s.drop_last()[i].key() == k);
            }
        }
    }
}

proof fn lemma_slots_map_index(s: Seq<CacheSlot>, i: int)
    requires
        unique_keys(s),
        0 <= i < s.len(),
    ensures
        slots_map(s).contains_key(s[i].key()),
        slots_map(s)[s[i].key()] == s[i].entry(),
    decreases s.len(),
{
    if i == s.len() - 1 {
        assert(s.last() == s[i]);
    } else {
        assert(unique_keys(s.drop_last()));
        assert(s.drop_last()[i] == s[i]);
        lemma_slots_map_index(s.drop_last(), i);
        assert(s[i].key() != s.last().key());
    }
}

proof fn lemma_unique_remove(s: Seq<CacheSlot>, i: int)
    requires
        unique_keys(s),
        0 <= i < s.len(),
    ensures
        unique_keys(s.remove(i)),
{
    s.remove_ensures(i);
    assert forall|a: int, b: int|
        0 <= a < b < s.remove(i).len() implies (#[trigger] s.remove(i)[a]).key() != (
    #[trigger] s.remove(i)[b]).key() by {
        let a0 = if a < i {
            a
        } else {
            a + 1
        };
        let b0 = if b < i {
            b
        } else {
            b + 1
        };
        assert(s.remove(i)[a] == s[a0]);
        assert(s.remove(i)[b] == s[b0]);
    }
}

proof fn lemma_slots_map_remove(s: Seq<CacheSlot>, i: int)
    requires
        unique_keys(s),
        0 <= i < s.len(),
    ensures
        unique_keys(s.remove(i)),
        slots_map(s.remove(i)) =~= slots_map(s).remove(s[i].key()),
        count_kind(s.remove(i), CacheKind::Scrape) == count_kind(s, CacheKind::Scrape) - (
        if s[i].kind == CacheKind::Scrape {
            1int
        } else {
            0int
        }),
        count_kind(s.remove(i), CacheKind::Crawl) == count_kind(s, CacheKind::Crawl) - (
        if s[i].kind == CacheKind::Crawl {
            1int
        } else {
            0int
        }),
    decreases s.len(),
{
    lemma_unique_remove(s, i);
    let k = s[i].key();
    if i == s.len() - 1 {
        assert(s.remove(i) =~= s.drop_last());
        assert(count_kind(s.remove(i), CacheKind::Scrape) == count_kind(
            s.drop_last(),
            CacheKind::Scrape,
        ));
        assert(count_kind(s.remove(i), CacheKind::Crawl) == count_kind(
            s.drop_last(),
            CacheKind::Crawl,
        ));
        lemma_slots_map_contains(s.drop_last(), k);
        assert(!slots_map(s.drop_last()).contains_key(k));
        assert(slots_map(s.remove(i)) =~= slots_map(s).remove(k));
    } else {
        assert(unique_keys(s.drop_last()));
        lemma_slots_map_remove(s.drop_last(), i);
        assert(s.remove(i).drop_last() =~= s.drop_last().remove(i));
        assert(s.remove(i).last() == s.last());
        assert(s[i].key() != s.last().key());
        assert(slots_map(s.remove(i)) == slots_map(s.drop_last().remove(i)).insert(
            s.last().key(),
            s.last().entry(),
        ));
        assert(slots_map(s.remove(i)) =~= slots_map(s).remove(k));
        assert(count_kind(s.remove(i), CacheKind::Scrape) == count_kind(
            s.remove(i).drop_last(),
            CacheKind::Scrape,
        ) + if s.last().kind == CacheKind::Scrape {
            1int
        } else {
            0int
        });
        assert(count_kind(s.remove(i), CacheKind::Crawl) == count_kind(
            s.remove(i).drop_last(),
            CacheKind::Crawl,
        ) + if s.last().kind == CacheKind::Crawl {
            1int
        } else {
            0int
        });
    }
}

proof fn lemma_slots_map_push(s: Seq<CacheSlot>, slot: CacheSlot)
    ensures
        slots_map(s.push(slot)) =~= slots_map(s).insert(slot.key(), slot.entry()),
        count_kind(s.push(slot), CacheKind::Scrape) == count_kind(s, CacheKind::Scrape) + (
        if slot.kind == CacheKind::Scrape {
            1int
        } else {
            0int
        }),
        count_kind(s.push(slot), CacheKind::Crawl) == count_kind(s, CacheKind::Crawl) + (
        if slot.kind == CacheKind::Crawl {
            1int
        } else {
            0int
        }),
{
    assert(s.push(slot).drop_last() =~= s);
    assert(s.push(slot).last() == slot);
}

proof fn lemma_unique_push(s: Seq<CacheSlot>, slot: CacheSlot)
    requires
        unique_keys(s),
        !slots_map(s).contains_key(slot.key()),
    ensures
        unique_keys(s.push(slot)),
{
    lemma_slots_map_contains(s, slot.key());
    assert forall|a: int, b: int|
        0 <= a < b < s.push(slot).len() implies (#[trigger] s.push(slot)[a]).key() != (
    #[trigger] s.push(slot)[b]).key() by {
        if b < s.len() {
            assert(s.push(slot)[a] == s[a]);
            assert(s.push(slot)[b] == s[b]);
        } else {
            assert(s.push(slot)[b] == slot);
            assert(s.push(slot)[a] == s[a]);
        }
    }
}

/// In-memory cache service.
pub struct MemoryCacheService {
    slots: Vec<CacheSlot>,
    statistics: CacheStatistics,
    config: CacheConfig,
}

impl MemoryCacheService {
    /// The cache's contents as a map from key to entry.
    pub closed spec fn contents(self) -> Map<CacheKeyView, CacheEntryView> {
        slots_map(self.slots@)
    }

    /// The current statistics.
    pub closed spec fn stats(self) -> CacheStatistics {
        self.statistics
    }

    /// The configured time-to-live, in milliseconds.
    pub closed spec fn spec_ttl_millis(self) -> u64 {
        self.config.ttl_millis
    }

    /// Internal consistency: keys are unique and the entry counters agree
    /// with what is stored.
    pub closed spec fn wf(self) -> bool {
        &&& unique_keys(self.slots@)
        &&& self.statistics.total_entries == self.slots@.len()
        &&& self.statistics.scrape_entries == count_kind(self.slots@, CacheKind::Scrape)
        &&& self.statistics.crawl_entries == count_kind(self.slots@, CacheKind::Crawl)
    }

    /// Creates a new memory cache service.
    pub fn new(config: CacheConfig) -> (r: Self)
        ensures
            r.wf(),
            r.contents() =~= Map::<CacheKeyView, CacheEntryView>::empty(),
            r.stats() == CacheStatistics::spec_zero(),
            r.spec_ttl_millis() == config.ttl_millis,
    {
        MemoryCacheService { slots: Vec::new(), statistics: CacheStatistics::default(), config }
    }

    /// Creates a cache service from the application configuration.
    pub fn from_app_config(app_config: &AppConfig) -> (r: Self)
        ensures
            r.wf(),
            r.contents() =~= Map::<CacheKeyView, CacheEntryView>::empty(),
            r.stats() == CacheStatistics::spec_zero(),
            r.spec_ttl_millis() == app_config.execution.cache.ttl_millis,
    {
        let c = &app_config.execution.cache;
        Self::new(
            CacheConfig {
                enabled: c.enabled,
                directory: c.directory.clone(),
                ttl_millis: c.ttl_millis,
                max_size_mb: c.max_size_mb,
            },
        )
    }

    /// Finds the slot index of a key, if present.
    fn find_index(&self, kind: CacheKind, url: &str, format: OutputFormat) -> (r: Option<usize>)
        ensures
            match r {
                Some(i) => i < self.slots@.len() && self.slots@[i as int].key() == (
                    kind,
                    url@,
                    format,
                ),
                None => forall|i: int|
                    0 <= i < self.slots@.len() ==> (#[trigger] self.slots@[i]).key() != (
                        kind,
                        url@,
                        format,
                    ),
            },
    {
        let n = self.slots.len();
        let mut i: usize = 0;
        while i < n
            invariant
                i <= n,
                n == self.slots@.len(),
                forall|j: int|
                    0 <= j < i ==> (#[trigger] self.slots@[j]).key() != (kind, url@, format),
            decreases n - i,
        {
            let slot = &self.slots[i];
            if slot.kind == kind && slot.format == format && str_eq(slot.url.as_str(), url) {
                return Some(i);
            }
            i = i + 1;
        }
        None
    }

    /// Computes the expiry for an entry stored now with the given
    /// time-to-live.
    fn expiry_at(&self, ttl_millis: u64, now: u64) -> (r: Option<u64>)
        ensures
            r == spec_expiry(now, ttl_millis),
    {
        if ttl_millis == 0 {
            None
        } else if now > u64::MAX - ttl_millis {
            Some(u64::MAX)
        } else {
            Some(now + ttl_millis)
        }
    }

    /// Stores a result under the given kind, URL, format and time-to-live:
    /// inserts or overwrites unconditionally, with a fresh access record. A
    /// zero time-to-live means the entry never expires. Hit and miss
    /// counters are untouched; the entry counters follow the contents.
    pub fn put(
        &mut self,
        kind: CacheKind,
        url: &str,
        format: OutputFormat,
        result: &CommandResult,
        ttl_millis: u64,
        now: u64,
    ) -> (was_present: bool)
        requires
            old(self).wf(),
        ensures
            final(self).wf(),
            final(self).spec_ttl_millis() == old(self).spec_ttl_millis(),
            final(self).stats().cache_hits == old(self).stats().cache_hits,
            final(self).stats().cache_misses == old(self).stats().cache_misses,
            was_present == old(self).contents().contains_key((kind, url@, format)),
            final(self).contents() =~= old(self).contents().insert(
                (kind, url@, format),
                CacheEntryView {
                    data: result@,
                    created_at: now,
                    expires_at: spec_expiry(now, ttl_millis),
                    access_count: 1,
                    last_accessed: now,
                },
            ),
            final(self).spec_ttl_millis() == old(self).spec_ttl_millis(),
            final(self).stats().cache_hits == old(self).stats().cache_hits,
            final(self).stats().cache_misses == old(self).stats().cache_misses,
            final(self).stats().total_size_bytes == old(self).stats().total_size_bytes,
            final(self).stats().total_entries == old(self).stats().total_entries + (
            if was_present {
                0int
            } else {
                1int
            }),
    {
        let expires_at = self.expiry_at(ttl_millis, now);
        let slot = CacheSlot {
            kind,
            url: String::from_str(url),
            format,
            data: result.clone(),
            created_at: now,
            expires_at,
            access_count: 1,
            last_accessed: now,
        };
        let found = self.find_index(kind, url, format);
        match found {
            Some(i) => {
                proof {
                    lemma_slots_map_index(self.slots@, i as int);
                    lemma_slots_map_remove(self.slots@, i as int);
                }
                let ghost removed = self.slots@.remove(i as int);
                self.slots.remove(i);
                proof {
                    lemma_slots_map_contains(removed, slot.key());
                    lemma_unique_push(removed, slot);
                    lemma_slots_map_push(removed, slot);
                    lemma_count_kind_nonneg(removed, kind);
                }
                self.slots.push(slot);
                self.statistics.total_entries = self.slots.len();
                true
            },
            None => {
                proof {
                    lemma_slots_map_contains(self.slots@, slot.key());
                    lemma_unique_push(self.slots@, slot);
                    lemma_slots_map_push(self.slots@, slot);
                    lemma_count_kind_nonneg(self.slots@, kind);
                }
                self.slots.push(slot);
                self.statistics.total_entries = self.slots.len();
                match kind {
                    CacheKind::Scrape => {
                        self.statistics.scrape_entries = self.statistics.scrape_entries + 1;
                    },
                    CacheKind::Crawl => {
                        self.statistics.crawl_entries = self.statistics.crawl_entries + 1;
                    },
                }
                false
            },
        }
    }

    /// Looks a key up at the given time.
    ///
    /// An absent key is a miss. A present but expired entry is removed as a
    /// side effect and counts as a miss. A fresh entry counts as a hit and
    /// has its access record updated; a copy of its result is returned.
    fn lookup_result(&mut self, kind: CacheKind, url: &str, format: OutputFormat, now: u64) -> (r:
        Option<CommandResult>)
        requires
            old(self).wf(),
        ensures
            final(self).wf(),
            final(self).spec_ttl_millis() == old(self).spec_ttl_millis(),
            final(self).stats().total_size_bytes == old(self).stats().total_size_bytes,
            ({
                let k = (kind, url@, format);
                let m = old(self).contents();
                if !m.contains_key(k) {
                    &&& r is None
                    &&& final(self).contents() =~= m
                    &&& final(self).stats() == (CacheStatistics {
                        cache_misses: bump64(old(self).stats().cache_misses),
                        ..old(self).stats()
                    })
                } else if !entry_fresh(m[k], now) {
                    &&& r is None
                    &&& final(self).contents() =~= m.remove(k)
                    &&& final(self).stats().cache_misses == bump64(old(self).stats().cache_misses)
                    &&& final(self).stats().cache_hits == old(self).stats().cache_hits
                    &&& final(self).stats().total_entries == old(self).stats().total_entries - 1
                } else {
                    &&& r matches Some(c) && c@ == m[k].data
                    &&& final(self).contents() =~= m.insert(
                        k,
                        CacheEntryView {
                            access_count: bump64(m[k].access_count),
                            last_accessed: now,
                            ..m[k]
                        },
                    )
                    &&& final(self).stats() == (CacheStatistics {
                        cache_hits: bump64(old(self).stats().cache_hits),
                        ..old(self).stats()
                    })
                }
            }),
    {
        let found = self.find_index(kind, url, format);
        proof {
            lemma_slots_map_contains(self.slots@, (kind, url@, format));
        }
        match found {
            Some(i) => {
                proof {
                    lemma_slots_map_index(self.slots@, i as int);
                }
                let expired = match self.slots[i].expires_at {
                    Some(x) => now > x,
                    None => false,
                };
                if expired {
                    proof {
                        lemma_slots_map_remove(self.slots@, i as int);
                        lemma_count_kind_nonneg(self.slots@.remove(i as int), CacheKind::Scrape);
                        lemma_count_kind_nonneg(self.slots@.remove(i as int), CacheKind::Crawl);
                    }
                    let removed_kind = self.slots[i].kind;
                    self.slots.remove(i);
                    self.statistics.total_entries = self.slots.len();
                    match removed_kind {
                        CacheKind::Scrape => {
                            self.statistics.scrape_entries = self.statistics.scrape_entries - 1;
                        },
                        CacheKind::Crawl => {
                            self.statistics.crawl_entries = self.statistics.crawl_entries - 1;
                        },
                    }
                    if self.statistics.cache_misses < u64::MAX {
                        self.statistics.cache_misses = self.statistics.cache_misses + 1;
                    }
                    None
                } else {
                    let ghost s0 = self.slots@;
                    let slot = &self.slots[i];
                    let updated = CacheSlot {
                        kind: slot.kind,
                        url: slot.url.clone(),
                        format: slot.format,
                        data: slot.data.clone(),
                        created_at: slot.created_at,
                        expires_at: slot.expires_at,
                        access_count: if slot.access_count < u64::MAX {
                            slot.access_count + 1
                        } else {
                            slot.access_count
                        },
                        last_accessed: now,
                    };
                    let result = updated.data.clone();
                    proof {
                        lemma_slots_map_remove(s0, i as int);
                    }
                    self.slots.remove(i);
                    proof {
                        lemma_slots_map_contains(s0.remove(i as int), updated.key());
                        if slots_map(s0.remove(i as int)).contains_key(updated.key()) {
                            let j = choose|j: int|
                                0 <= j < s0.remove(i as int).len() && (#[trigger] s0.remove(
                                    i as int,
                                )[j]).key() == updated.key();
                            s0.remove_ensures(i as int);
                            if j < i {
                                assert(s0[j].key() == updated.key());
                            } else {
                                assert(s0[j + 1].key() == updated.key());
                            }
                        }
                        lemma_unique_push(s0.remove(i as int), updated);
                        lemma_slots_map_push(s0.remove(i as int), updated);
                    }
                    self.slots.push(updated);
                    if self.statistics.cache_hits < u64::MAX {
                        self.statistics.cache_hits = self.statistics.cache_hits + 1;
                    }
                    proof {
                        assert(final(self).contents() =~= old(self).contents().insert(
                            (kind, url@, format),
                            CacheEntryView {
                                access_count: bump64(old(self).contents()[(kind, url@, format)].access_count),
                                last_accessed: now,
                                ..old(self).contents()[(kind, url@, format)]
                            },
                        ));
                    }
                    Some(result)
                }
            },
            None => {
                if self.statistics.cache_misses < u64::MAX {
                    self.statistics.cache_misses = self.statistics.cache_misses + 1;
                }
                None
            },
        }
    }

    /// Stores a scrape result for a URL and format.
    pub fn store_scrape_result(
        &mut self,
        url: &str,
        format: OutputFormat,
        result: &CommandResult,
        now: u64,
    )
        requires
            old(self).wf(),
        ensures
            final(self).wf(),
            final(self).spec_ttl_millis() == old(self).spec_ttl_millis(),
            final(self).contents() =~= old(self).contents().insert(
                (CacheKind::Scrape, url@, format),
                CacheEntryView {
                    data: result@,
                    created_at: now,
                    expires_at: spec_expiry(now, old(self).spec_ttl_millis()),
                    access_count: 1,
                    last_accessed: now,
                },
            ),
            final(self).stats().cache_hits == old(self).stats().cache_hits,
            final(self).stats().cache_misses == old(self).stats().cache_misses,
            final(self).stats().total_entries == old(self).stats().total_entries + (
            if old(self).contents().contains_key((CacheKind::Scrape, url@, format)) {
                0int
            } else {
                1int
            }),
    {
        let ttl_millis = self.config.ttl_millis;
        self.put(CacheKind::Scrape, url, format, result, ttl_millis, now);
    }

    /// Retrieves a scrape result for a URL and format, at the given time.
    pub fn get_scrape_result(&mut self, url: &str, format: OutputFormat, now: u64) -> (r: Option<
        CommandResult,
    >)
        requires
            old(self).wf(),
        ensures
            final(self).wf(),
            final(self).spec_ttl_millis() == old(self).spec_ttl_millis(),
            ({
                let k = (CacheKind::Scrape, url@, format);
                let m = old(self).contents();
                if !m.contains_key(k) {
                    &&& r is None
                    &&& final(self).contents() =~= m
                    &&& final(self).stats().cache_misses == bump64(old(self).stats().cache_misses)
                    &&& final(self).stats().cache_hits == old(self).stats().cache_hits
                    &&& final(self).stats().total_entries == old(self).stats().total_entries
                } else if !entry_fresh(m[k], now) {
                    &&& r is None
                    &&& final(self).contents() =~= m.remove(k)
                    &&& final(self).stats().cache_misses == bump64(old(self).stats().cache_misses)
                    &&& final(self).stats().cache_hits == old(self).stats().cache_hits
                    &&& final(self).stats().total_entries == old(self).stats().total_entries - 1
                } else {
                    &&& r matches Some(c) && c@ == m[k].data
                    &&& final(self).contents() =~= m.insert(
                        k,
                        CacheEntryView {
                            access_count: bump64(m[k].access_count),
                            last_accessed: now,
                            ..m[k]
                        },
                    )
                    &&& final(self).stats().cache_hits == bump64(old(self).stats().cache_hits)
                    &&& final(self).stats().cache_misses == old(self).stats().cache_misses
                    &&& final(self).stats().total_entries == old(self).stats().total_entries
                }
            }),
    {
        self.lookup_result(CacheKind::Scrape, url, format, now)
    }

    /// Stores a crawl result for a URL and format.
    pub fn store_crawl_result(
        &mut self,
        url: &str,
        format: OutputFormat,
        result: &CommandResult,
        now: u64,
    )
        requires
            old(self).wf(),
        ensures
            final(self).wf(),
            final(self).spec_ttl_millis() == old(self).spec_ttl_millis(),
            final(self).contents() =~= old(self).contents().insert(
                (CacheKind::Crawl, url@, format),
                CacheEntryView {
                    data: result@,
                    created_at: now,
                    expires_at: spec_expiry(now, old(self).spec_ttl_millis()),
                    access_count: 1,
                    last_accessed: now,
                },
            ),
            final(self).stats().cache_hits == old(self).stats().cache_hits,
            final(self).stats().cache_misses == old(self).stats().cache_misses,
            final(self).stats().total_entries == old(self).stats().total_entries + (
            if old(self).contents().contains_key((CacheKind::Crawl, url@, format)) {
                0int
            } else {
                1int
            }),
    {
        let ttl_millis = self.config.ttl_millis;
        self.put(CacheKind::Crawl, url, format, result, ttl_millis, now);
    }

    /// Retrieves a crawl result for a URL and format, at the given time.
    pub fn get_crawl_result(&mut self, url: &str, format: OutputFormat, now: u64) -> (r: Option<
        CommandResult,
    >)
        requires
            old(self).wf(),
        ensures
            final(self).wf(),
            final(self).spec_ttl_millis() == old(self).spec_ttl_millis(),
            ({
                let k = (CacheKind::Crawl, url@, format);
                let m = old(self).contents();
                if !m.contains_key(k) {
                    &&& r is None
                    &&& final(self).contents() =~= m
                    &&& final(self).stats().cache_misses == bump64(old(self).stats().cache_misses)
                    &&& final(self).stats().cache_hits == old(self).stats().cache_hits
                } else if !entry_fresh(m[k], now) {
                    &&& r is None
                    &&& final(self).contents() =~= m.remove(k)
                    &&& final(self).stats().cache_misses == bump64(old(self).stats().cache_misses)
                    &&& final(self).stats().cache_hits == old(self).stats().cache_hits
                } else {
                    &&& r matches Some(c) && c@ == m[k].data
                    &&& final(self).contents() =~= m.insert(
                        k,
                        CacheEntryView {
                            access_count: bump64(m[k].access_count),
                            last_accessed: now,
                            ..m[k]
                        },
                    )
                    &&& final(self).stats().cache_hits == bump64(old(self).stats().cache_hits)
                    &&& final(self).stats().cache_misses == old(self).stats().cache_misses
                }
            }),
    {
        self.lookup_result(CacheKind::Crawl, url, format, now)
    }

    /// Checks whether a fresh result exists under either kind for the URL
    /// and format. Does not mutate anything and updates no statistics.
    pub fn contains_entry(&self, url: &str, format: OutputFormat, now: u64) -> (r: bool)
        requires
            self.wf(),
        ensures
            r == {
                let ks = (CacheKind::Scrape, url@, format);
                let kc = (CacheKind::Crawl, url@, format);
                let m = self.contents();
                ||| (m.contains_key(ks) && entry_fresh(m[ks], now))
                ||| (m.contains_key(kc) && entry_fresh(m[kc], now))
            },
    {
        let scrape_found = self.find_index(CacheKind::Scrape, url, format);
        proof {
            lemma_slots_map_contains(self.slots@, (CacheKind::Scrape, url@, format));
            lemma_slots_map_contains(self.slots@, (CacheKind::Crawl, url@, format));
        }
        let scrape_fresh = match scrape_found {
            Some(i) => {
                proof {
                    lemma_slots_map_index(self.slots@, i as int);
                }
                match self.slots[i].expires_at {
                    Some(x) => now <= x,
                    None => true,
                }
            },
            None => false,
        };
        if scrape_fresh {
            return true;
        }
        let crawl_found = self.find_index(CacheKind::Crawl, url, format);
        match crawl_found {
            Some(i) => {
                proof {
                    lemma_slots_map_index(self.slots@, i as int);
                }
                match self.slots[i].expires_at {
                    Some(x) => now <= x,
                    None => true,
                }
            },
            None => false,
        }
    }

    /// Atomically empties the cache and resets the statistics to zero.
    pub fn clear(&mut self)
        ensures
            final(self).wf(),
            final(self).contents() =~= Map::<CacheKeyView, CacheEntryView>::empty(),
            final(self).stats() == CacheStatistics::spec_zero(),
            final(self).spec_ttl_millis() == old(self).spec_ttl_millis(),
    {
        self.slots.clear();
        self.statistics = CacheStatistics::default();
    }

    /// Removes every expired entry; returns how many were removed. Hit and
    /// miss counters are untouched.
    pub fn clean_expired(&mut self, now: u64) -> (removed: usize)
        requires
            old(self).wf(),
        ensures
            final(self).wf(),
            final(self).spec_ttl_millis() == old(self).spec_ttl_millis(),
            final(self).stats().cache_hits == old(self).stats().cache_hits,
            final(self).stats().cache_misses == old(self).stats().cache_misses,
            forall|k: CacheKeyView|
                final(self).contents().contains_key(k) <==> (old(self).contents().contains_key(k)
                    && entry_fresh(#[trigger] old(self).contents()[k], now)),
            forall|k: CacheKeyView|
                final(self).contents().contains_key(k) ==> final(self).contents()[k] == old(
                    self,
                ).contents()[k],
            final(self).stats().total_entries + removed == old(self).stats().total_entries,
    {
        let mut removed: usize = 0;
        let mut i: usize = 0;
        proof {
            assert forall|k: CacheKeyView|
                self.contents().contains_key(k) && !entry_fresh(self.contents()[k], now)
                    implies exists|j: int|
                    0 <= j < self.slots@.len() && (#[trigger] self.slots@[j]).key() == k by {
                lemma_slots_map_contains(self.slots@, k);
            }
        }
        while i < self.slots.len()
            invariant
                old(self).wf(),
                self.wf(),
                self.config == old(self).config,
                i <= self.slots@.len(),
                self.statistics.cache_hits == old(self).statistics.cache_hits,
                self.statistics.cache_misses == old(self).statistics.cache_misses,
                self.statistics.total_size_bytes == old(self).statistics.total_size_bytes,
                self.statistics.total_entries + removed == old(self).statistics.total_entries,
                forall|j: int|
                    0 <= j < i ==> entry_fresh((#[trigger] self.slots@[j]).entry(), now),
                forall|k: CacheKeyView|
                    self.contents().contains_key(k) ==> (old(self).contents().contains_key(k)
                        && self.contents()[k] == old(self).contents()[k]),
                forall|k: CacheKeyView|
                    old(self).contents().contains_key(k) && entry_fresh(
                        #[trigger] old(self).contents()[k],
                        now,
                    ) ==> self.contents().contains_key(k),
                forall|k: CacheKeyView|
                    self.contents().contains_key(k) && !entry_fresh(self.contents()[k], now)
                        ==> exists|j: int|
                        i <= j < self.slots@.len() && (#[trigger] self.slots@[j]).key() == k,
            decreases self.slots@.len() - i,
        {
            let expired = match self.slots[i].expires_at {
                Some(x) => now > x,
                None => false,
            };
            proof {
                lemma_slots_map_index(self.slots@, i as int);
            }
            if expired {
                let ghost s0 = self.slots@;
                let removed_kind = self.slots[i].kind;
                proof {
                    lemma_slots_map_remove(s0, i as int);
                    lemma_count_kind_nonneg(s0.remove(i as int), CacheKind::Scrape);
                    lemma_count_kind_nonneg(s0.remove(i as int), CacheKind::Crawl);
                }
                self.slots.remove(i);
                self.statistics.total_entries = self.slots.len();
                match removed_kind {
                    CacheKind::Scrape => {
                        self.statistics.scrape_entries = self.statistics.scrape_entries - 1;
                    },
                    CacheKind::Crawl => {
                        self.statistics.crawl_entries = self.statistics.crawl_entries - 1;
                    },
                }
                removed = removed + 1;
                proof {
                    s0.remove_ensures(i as int);
                    assert forall|k: CacheKeyView|
                        self.contents().contains_key(k) && !entry_fresh(self.contents()[k], now)
                            implies exists|j: int|
                            i <= j < self.slots@.len() && (#[trigger] self.slots@[j]).key()
                                == k by {
                        lemma_slots_map_contains(self.slots@, k);
                        let j = choose|j: int|
                            0 <= j < self.slots@.len() && (#[trigger] self.slots@[j]).key() == k;
                        lemma_slots_map_index(self.slots@, j);
                        if j < i {
                            assert(self.slots@[j] == s0[j]);
                            lemma_slots_map_index(s0, j);
                            assert(entry_fresh(self.contents()[k], now));
                        }
                    }
                }
            } else {
                i = i + 1;
                proof {
                    assert forall|k: CacheKeyView|
                        self.contents().contains_key(k) && !entry_fresh(self.contents()[k], now)
                            implies exists|j: int|
                            i <= j < self.slots@.len() && (#[trigger] self.slots@[j]).key()
                                == k by {
                        lemma_slots_map_contains(self.slots@, k);
                        let j = choose|j: int|
                            0 <= j < self.slots@.len() && (#[trigger] self.slots@[j]).key() == k;
                        lemma_slots_map_index(self.slots@, j);
                    }
                }
            }
        }
        proof {
            assert forall|k: CacheKeyView|
                old(self).contents().contains_key(k) implies (final(self).contents().contains_key(
                k,
            ) <==> entry_fresh(old(self).contents()[k], now)) by {
                if final(self).contents().contains_key(k) {
                    lemma_slots_map_contains(self.slots@, k);
                    let j = choose|j: int|
                        0 <= j < self.slots@.len() && (#[trigger] self.slots@[j]).key() == k;
                    lemma_slots_map_index(self.slots@, j);
                }
            }
        }
        removed
    }

    /// A snapshot of the current statistics.
    pub fn get_statistics(&self) -> (r: CacheStatistics)
        ensures
            r == self.stats(),
    {
        self.statistics
    }
}

/// Cache service that stores nothing: every lookup misses, every store is
/// dropped.
pub struct NoOpCacheService;

impl NoOpCacheService {
    /// Drops the result.
    pub fn store_scrape_result(&self, url: &str, format: OutputFormat, result: &CommandResult) {
    }

    /// Always a miss.
    pub fn get_scrape_result(&self, url: &str, format: OutputFormat) -> (r: Option<CommandResult>)
        ensures
            r is None,
    {
        None
    }

    /// Drops the result.
    pub fn store_crawl_result(&self, url: &str, format: OutputFormat, result: &CommandResult) {
    }

    /// Always a miss.
    pub fn get_crawl_result(&self, url: &str, format: OutputFormat) -> (r: Option<CommandResult>)
        ensures
            r is None,
    {
        None
    }

    /// Nothing ever exists here.
    pub fn contains_entry(&self, url: &str, format: OutputFormat) -> (r: bool)
        ensures
            !r,
    {
        false
    }

    /// Nothing to clear.
    pub fn clear(&self) {
    }

    /// Nothing ever expires here.
    pub fn clean_expired(&self) -> (r: usize)
        ensures
            r == 0,
    {
        0
    }

    /// Statistics of an empty cache.
    pub fn get_statistics(&self) -> (r: CacheStatistics)
        ensures
            r == CacheStatistics::spec_zero(),
    {
        CacheStatistics::default()
    }
}

/// Factory for cache services.
pub struct CacheServiceFactory;

impl CacheServiceFactory {
    /// A memory cache when caching is enabled in the configuration, nothing
    /// otherwise.
    pub fn create_from_config(config: &AppConfig) -> (r: Option<MemoryCacheService>)
        ensures
            config.execution.cache.enabled <==> r is Some,
            r matches Some(c) ==> c.wf() && c.contents() =~= Map::<
                CacheKeyView,
                CacheEntryView,
            >::empty() && c.spec_ttl_millis() == config.execution.cache.ttl_millis,
    {
        if config.execution.cache.enabled {
            Some(MemoryCacheService::from_app_config(config))
        } else {
            None
        }
    }

    /// A memory cache with the given configuration.
    pub fn create_memory_cache(cache_config: CacheConfig) -> (r: MemoryCacheService)
        ensures
            r.wf(),
            r.contents() =~= Map::<CacheKeyView, CacheEntryView>::empty(),
            r.spec_ttl_millis() == cache_config.ttl_millis,
    {
        MemoryCacheService::new(cache_config)
    }

    /// A cache service that stores nothing.
    pub fn create_no_op_cache() -> NoOpCacheService {
        NoOpCacheService
    }
}

/// The total-entries statistic of a consistent cache counts exactly the
/// keys currently cached.
pub proof fn lemma_total_entries_counts_contents(c: MemoryCacheService)
    requires
        c.wf(),
    ensures
        c.contents().dom().finite(),
        c.stats().total_entries == c.contents().dom().len(),
{
    lemma_slots_map_len(c.slots@);
}

/// For every key: a value stored with a zero time-to-live never expires, so
/// it is present and fresh at every later time, and a lookup then returns it
/// and counts exactly one hit (the fresh case in the lookup contracts).
pub proof fn lemma_put_never_expires_then_get(
    m: Map<CacheKeyView, CacheEntryView>,
    k: CacheKeyView,
    data: CommandResultView,
    stored_at: u64,
    later: u64,
)
    ensures
        ({
            let e = CacheEntryView {
                data: data,
                created_at: stored_at,
                expires_at: spec_expiry(stored_at, 0),
                access_count: 1,
                last_accessed: stored_at,
            };
            let m2 = m.insert(k, e);
            m2.contains_key(k) && m2[k].data == data && entry_fresh(m2[k], later)
        }),
{
}

/// For every key: an entry stored at `stored_at` with a positive
/// time-to-live is no longer fresh at any time strictly past
/// `stored_at + ttl`, so a lookup then misses and removes it, and an
/// existence probe afterwards is false (the expired case in the lookup
/// contracts, and the absent case of `exists`).
pub proof fn lemma_ttl_entry_expires(
    m: Map<CacheKeyView, CacheEntryView>,
    k: CacheKeyView,
    data: CommandResultView,
    stored_at: u64,
    ttl_millis: u64,
    later: u64,
)
    requires
        0 < ttl_millis,
        stored_at + ttl_millis <= u64::MAX,
        later > stored_at + ttl_millis,
    ensures
        ({
            let e = CacheEntryView {
                data: data,
                created_at: stored_at,
                expires_at: spec_expiry(stored_at, ttl_millis),
                access_count: 1,
                last_accessed: stored_at,
            };
            let m2 = m.insert(k, e);
            m2.contains_key(k) && !entry_fresh(m2[k], later) && !m2.remove(k).contains_key(k)
        }),
{
}

} // verus!
