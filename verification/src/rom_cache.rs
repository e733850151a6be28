//! The time-limited cache of filesystem scans: the system list and each
//! system's ROM list, reused for 30 seconds.
use vstd::prelude::*;

use crate::types::{RomEntry, SystemSummary};

verus! {

/// How long a scan result is reused.
pub const CACHE_TTL_MS: u64 = 30_000;

/// A cached result with its expiry time (milliseconds of a monotonic clock).
pub struct CacheEntry<T> {
    pub data: T,
    pub expires_ms: u64,
}

impl<T> CacheEntry<T> {
    /// Caches `data` at `now_ms` for [`CACHE_TTL_MS`].
    pub fn new(data: T, now_ms: u64) -> (r: Self)
        requires
            now_ms + CACHE_TTL_MS <= u64::MAX,
        ensures
            r.data == data,
            r.expires_ms == now_ms + CACHE_TTL_MS,
    {
        CacheEntry { data, expires_ms: now_ms + CACHE_TTL_MS }
    }

    /// The data while it has not expired.
    pub fn get(&self, now_ms: u64) -> (r: Option<&T>)
        ensures
            r is Some <==> now_ms < self.expires_ms,
            r matches Some(d) ==> *d == self.data,
    {
        if now_ms < self.expires_ms {
            Some(&self.data)
        } else {
            None
        }
    }
}

/// The ROM list of one system.
pub struct SystemRoms {
    pub system: String,
    pub entry: CacheEntry<Vec<RomEntry>>,
}

/// The scan cache: the system list, and the ROM lists keyed by system.
pub struct RomCache {
    pub systems: Option<CacheEntry<Vec<SystemSummary>>>,
    pub roms: Vec<SystemRoms>,
}

/// The ROM lists by system: what each system's entry holds (its expiry and
/// its ROMs).
pub open spec fn roms_map(d: Seq<SystemRoms>) -> Map<Seq<char>, (u64, Seq<RomEntry>)>
    decreases d.len(),
{
    if d.len() == 0 {
        Map::empty()
    } else {
        roms_map(d.drop_last()).insert(
            d.last().system@,
            (d.last().entry.expires_ms, d.last().entry.data@),
        )
    }
}

pub open spec fn unique_systems(d: Seq<SystemRoms>) -> bool {
    forall|i: int, j: int|
        0 <= i < d.len() && 0 <= j < d.len() && i != j ==> #[trigger] d[i].system@
            != #[trigger] d[j].system@
}

proof fn lemma_map_entries(d: Seq<SystemRoms>)
    requires
        unique_systems(d),
    ensures
        forall|s: Seq<char>| #[trigger]
            roms_map(d).contains_key(s) <==> exists|k: int|
                0 <= k < d.len() && #[trigger] d[k].system@ == s,
        forall|k: int|
            0 <= k < d.len() ==> #[trigger] roms_map(d)[d[k].system@] == (
                d[k].entry.expires_ms,
                d[k].entry.data@,
            ),
    decreases d.len(),
{
    if d.len() > 0 {
        let p = d.drop_last();
        assert(unique_systems(p)) by {
            assert forall|i: int, j: int|
                0 <= i < p.len() && 0 <= j < p.len() && i != j implies #[trigger] p[i].system@
                    != #[trigger] p[j].system@ by {
                assert(p[i] == d[i]);
                assert(p[j] == d[j]);
            }
        }
        lemma_map_entries(p);
        let n = d.len() - 1;
        assert(roms_map(d) == roms_map(p).insert(d[n].system@, (d[n].entry.expires_ms, d[n].entry.data@)));
        assert forall|s: Seq<char>| #[trigger]
            roms_map(d).contains_key(s) <==> exists|k: int|
                0 <= k < d.len() && #[trigger] d[k].system@ == s by {
            if roms_map(d).contains_key(s) {
                if s == d[n].system@ {
                    assert(d[n].system@ == s);
                } else {
                    assert(roms_map(p).contains_key(s));
                    let k = choose|k: int| 0 <= k < p.len() && #[trigger] p[k].system@ == s;
                    assert(d[k] == p[k]);
                }
            }
            if exists|k: int| 0 <= k < d.len() && #[trigger] d[k].system@ == s {
                let k = choose|k: int| 0 <= k < d.len() && #[trigger] d[k].system@ == s;
                if k < n {
                    assert(p[k] == d[k]);
                }
            }
        }
        assert forall|k: int|
            0 <= k < d.len() implies #[trigger] roms_map(d)[d[k].system@] == (
                d[k].entry.expires_ms,
                d[k].entry.data@,
            ) by {
            if k < n {
                assert(p[k] == d[k]);
                assert(d[k].system@ != d[n].system@);
            }
        }
    }
}

impl RomCache {
    /// Each system has at most one ROM list.
    pub open spec fn wf(&self) -> bool {
        unique_systems(self.roms@)
    }

    /// The cached ROM list of `system` at `now_ms`, when there is a live one.
    pub open spec fn live_roms(&self, system: Seq<char>, now_ms: u64) -> Option<Seq<RomEntry>> {
        let m = roms_map(self.roms@);
        if m.contains_key(system) && now_ms < m[system].0 {
            Some(m[system].1)
        } else {
            None
        }
    }

    /// An empty cache.
    pub fn new() -> (r: Self)
        ensures
            r.wf(),
            r.systems is None,
            r.roms@.len() == 0,
    {
        RomCache { systems: None, roms: Vec::new() }
    }

    /// The cached system list, while it has not expired.
    pub fn cached_systems(&self, now_ms: u64) -> (r: Option<&Vec<SystemSummary>>)
        ensures
            r is Some <==> (self.systems matches Some(e) && now_ms < e.expires_ms),
            r matches Some(d) ==> self.systems matches Some(e) && *d == e.data,
    {
        match &self.systems {
            Some(e) => e.get(now_ms),
            None => None,
        }
    }

    /// Stores a fresh system list.
    pub fn store_systems(&mut self, summaries: Vec<SystemSummary>, now_ms: u64)
        requires
            old(self).wf(),
            now_ms + CACHE_TTL_MS <= u64::MAX,
        ensures
            final(self).wf(),
            final(self).systems matches Some(e) && e.data == summaries && e.expires_ms == now_ms
                + CACHE_TTL_MS,
            final(self).roms == old(self).roms,
    {
        self.systems = Some(CacheEntry::new(summaries, now_ms));
    }

    fn find(&self, system: &str) -> (r: Option<usize>)
        requires
            self.wf(),
        ensures
            match r {
                Some(k) => k < self.roms@.len() && self.roms@[k as int].system@ == system@,
                None => forall|j: int| 0 <= j < self.roms@.len() ==> #[trigger] self.roms@[j].system@ != system@,
            },
    {
        let target = crate::text::to_chars(system);
        let mut k: usize = 0;
        while k < self.roms.len()
            invariant
                k <= self.roms.len(),
                target@ == system@,
                forall|j: int| 0 <= j < k ==> #[trigger] self.roms@[j].system@ != system@,
            decreases self.roms.len() - k,
        {
            let s = crate::text::to_chars(self.roms[k].system.as_str());
            if crate::text::same_chars(&s, &target) {
                return Some(k);
            }
            k += 1;
        }
        None
    }

    /// The cached ROM list of a system, while it has not expired.
    pub fn cached_roms(&self, system: &str, now_ms: u64) -> (r: Option<&Vec<RomEntry>>)
        requires
            self.wf(),
        ensures
            match r {
                Some(d) => self.live_roms(system@, now_ms) == Some(d@),
                None => self.live_roms(system@, now_ms) is None,
            },
    {
        proof {
            lemma_map_entries(self.roms@);
        }
        match self.find(system) {
            Some(k) => self.roms[k].entry.get(now_ms),
            None => None,
        }
    }

    /// Stores a fresh ROM list for a system, replacing any older one.
    pub fn store_roms(&mut self, system: String, roms: Vec<RomEntry>, now_ms: u64)
        requires
            old(self).wf(),
            now_ms + CACHE_TTL_MS <= u64::MAX,
        ensures
            final(self).wf(),
            final(self).systems == old(self).systems,
            roms_map(final(self).roms@) == roms_map(old(self).roms@).insert(
                system@,
                ((now_ms + CACHE_TTL_MS) as u64, roms@),
            ),
    {
        let ghost before = self.roms@;
        let ghost sv = system@;
        let ghost rv = roms@;
        let entry = SystemRoms { system: system, entry: CacheEntry::new(roms, now_ms) };
        match self.find(entry.system.as_str()) {
            Some(k) => {
                self.roms.set(k, entry);
                proof {
                    let after = self.roms@;
                    assert(after == before.update(k as int, after[k as int]));
                    assert(unique_systems(after)) by {
                        assert forall|i: int, j: int|
                            0 <= i < after.len() && 0 <= j < after.len() && i != j
                                implies #[trigger] after[i].system@ != #[trigger] after[j].system@ by {
                            assert(before[i].system@ != before[j].system@);
                        }
                    }
                    lemma_map_entries(before);
                    lemma_map_entries(after);
                    let expected = roms_map(before).insert(sv, ((now_ms + CACHE_TTL_MS) as u64, rv));
                    assert forall|x: Seq<char>| #[trigger] roms_map(after).contains_key(x) <==> expected.contains_key(x) by {
                        if expected.contains_key(x) && x != sv {
                            let j = choose|j: int| 0 <= j < before.len() && #[trigger] before[j].system@ == x;
                            assert(after[j] == before[j]);
                        }
                        if roms_map(after).contains_key(x) {
                            let j = choose|j: int| 0 <= j < after.len() && #[trigger] after[j].system@ == x;
                            if j != k {
                                assert(after[j] == before[j]);
                            }
                        }
                    }
                    assert forall|x: Seq<char>| #[trigger] roms_map(after).contains_key(x) implies roms_map(after)[x] == expected[x] by {
                        let j = choose|j: int| 0 <= j < after.len() && #[trigger] after[j].system@ == x;
                        if j != k {
                            assert(after[j] == before[j]);
                        }
                    }
                    assert(roms_map(after) =~= expected);
                }
            },
            None => {
                self.roms.push(entry);
                proof {
                    let n = before.len() as int;
                    let after = self.roms@;
                    assert(after.drop_last() =~= before);
                    assert(unique_systems(after)) by {
                        assert forall|i: int, j: int|
                            0 <= i < after.len() && 0 <= j < after.len() && i != j
                                implies #[trigger] after[i].system@ != #[trigger] after[j].system@ by {
                            if i == n {
                                assert(after[j] == before[j]);
                            } else if j == n {
                                assert(after[i] == before[i]);
                            } else {
                                assert(after[i] == before[i]);
                                assert(after[j] == before[j]);
                            }
                        }
                    }
                }
            },
        }
    }

    /// Drops every cached scan (after a delete, rename or upload).
    pub fn invalidate(&mut self)
        ensures
            final(self).wf(),
            final(self).systems is None,
            roms_map(final(self).roms@) == Map::<Seq<char>, (u64, Seq<RomEntry>)>::empty(),
    {
        self.systems = None;
        self.roms = Vec::new();
    }

    /// Drops the system list and one system's ROM list.
    pub fn invalidate_system(&mut self, system: &str)
        requires
            old(self).wf(),
        ensures
            final(self).wf(),
            final(self).systems is None,
            roms_map(final(self).roms@) == roms_map(old(self).roms@).remove(system@),
    {
        self.systems = None;
        let ghost before = self.roms@;
        proof {
            lemma_map_entries(before);
        }
        match self.find(system) {
            Some(k) => {
                self.roms.remove(k);
                proof {
                    let after = self.roms@;
                    assert(after =~= before.remove(k as int));
                    assert(unique_systems(after)) by {
                        assert forall|i: int, j: int|
                            0 <= i < after.len() && 0 <= j < after.len() && i != j
                                implies #[trigger] after[i].system@ != #[trigger] after[j].system@ by {
                            let bi = if i < k { i } else { i + 1 };
                            let bj = if j < k { j } else { j + 1 };
                            assert(after[i] == before[bi]);
                            assert(after[j] == before[bj]);
                        }
                    }
                    lemma_map_entries(after);
                    let expected = roms_map(before).remove(system@);
                    assert forall|x: Seq<char>| #[trigger] roms_map(after).contains_key(x) <==> expected.contains_key(x) by {
                        if expected.contains_key(x) {
                            let j = choose|j: int| 0 <= j < before.len() && #[trigger] before[j].system@ == x;
                            assert(j != k);
                            let aj = if j < k { j } else { j - 1 };
                            assert(after[aj] == before[j]);
                        }
                        if roms_map(after).contains_key(x) {
                            let j = choose|j: int| 0 <= j < after.len() && #[trigger] after[j].system@ == x;
                            let bj = if j < k { j } else { j + 1 };
                            assert(after[j] == before[bj]);
                            assert(before[bj].system@ != before[k as int].system@);
                        }
                    }
                    assert forall|x: Seq<char>| #[trigger] roms_map(after).contains_key(x) implies roms_map(after)[x] == expected[x] by {
                        let j = choose|j: int| 0 <= j < after.len() && #[trigger] after[j].system@ == x;
                        let bj = if j < k { j } else { j + 1 };
                        assert(after[j] == before[bj]);
                    }
                    assert(roms_map(after) =~= expected);
                }
            },
            None => {
                proof {
                    assert(roms_map(before) =~= roms_map(before).remove(system@));
                }
            },
        }
    }
}

/// What a read gives back of a write: right after a ROM list is stored it
/// is the one read for its system until it expires; storing one system's
/// list and invalidating another's leave every other system's entry alone;
/// an invalidated system reads nothing.
pub proof fn law_store_then_read(c: RomCache, system: Seq<char>, roms: Seq<RomEntry>, now_ms: u64, other: Seq<char>, t: u64)
    requires
        now_ms + CACHE_TTL_MS <= u64::MAX,
    ensures
        ({
            let m = roms_map(c.roms@).insert(system, ((now_ms + CACHE_TTL_MS) as u64, roms));
            &&& m.contains_key(system) && m[system].1 == roms
            &&& (t < now_ms + CACHE_TTL_MS ==> t < m[system].0)
            &&& other != system ==> (m.contains_key(other) == roms_map(c.roms@).contains_key(other)
                && (m.contains_key(other) ==> m[other] == roms_map(c.roms@)[other]))
        }),
        !roms_map(c.roms@).remove(system).contains_key(system),
{
}

} // verus!
