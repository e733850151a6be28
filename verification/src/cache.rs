//! Freshness of the in-memory library caches, and the cached favorites.
//!
//! Time is given in milliseconds of a monotonic clock; a directory's
//! modification time in nanoseconds since the Unix epoch (`None` when it
//! could not be read).
use vstd::prelude::*;

use crate::text::same_chars;

verus! {

/// Hard TTL for NFS storage: even when the directory's mtime is unchanged,
/// rescan after this long. Local storage has no TTL.
pub const NFS_CACHE_TTL_MS: u64 = 1_800_000;

/// Hard TTL of the favorites cache.
pub const FAVORITES_CACHE_TTL_MS: u64 = 300_000;

/// The mtime rule shared by every cache: a cache is stale when both the
/// recorded and the current mtime are known and differ; an unreadable
/// mtime trusts the TTL.
pub open spec fn mtime_unchanged(recorded: Option<i128>, current: Option<i128>) -> bool {
    match (recorded, current) {
        (Some(a), Some(b)) => a == b,
        _ => true,
    }
}

fn mtime_matches(recorded: Option<i128>, current: Option<i128>) -> (r: bool)
    ensures
        r == mtime_unchanged(recorded, current),
{
    match (recorded, current) {
        (Some(a), Some(b)) => a == b,
        _ => true,
    }
}

/// Mtime plus optional TTL freshness tracker.
#[derive(Clone, Copy, Debug, PartialEq, Eq, Structural)]
pub struct Freshness {
    pub dir_mtime: Option<i128>,
    /// `None` for local storage (no TTL), `Some` for NFS.
    pub expires_ms: Option<u64>,
}

impl Freshness {
    pub open spec fn fresh(self, current_mtime: Option<i128>, now_ms: u64) -> bool {
        !(self.expires_ms matches Some(e) && now_ms >= e) && mtime_unchanged(
            self.dir_mtime,
            current_mtime,
        )
    }

    /// Records the directory's mtime at `now_ms`; NFS storage also gets a
    /// 30-minute hard TTL.
    pub fn new(dir_mtime: Option<i128>, is_local: bool, now_ms: u64) -> (r: Self)
        requires
            !is_local ==> now_ms + NFS_CACHE_TTL_MS <= u64::MAX,
        ensures
            r.dir_mtime == dir_mtime,
            r.expires_ms == (if is_local {
                None
            } else {
                Some((now_ms + NFS_CACHE_TTL_MS) as u64)
            }),
    {
        Freshness {
            dir_mtime,
            expires_ms: if is_local {
                None
            } else {
                Some(now_ms + NFS_CACHE_TTL_MS)
            },
        }
    }

    /// Fresh: the TTL (if any) has not expired and the directory's mtime is
    /// unchanged.
    pub fn is_fresh(&self, current_mtime: Option<i128>, now_ms: u64) -> (r: bool)
        ensures
            r == self.fresh(current_mtime, now_ms),
    {
        if let Some(e) = self.expires_ms {
            if now_ms >= e {
                return false;
            }
        }
        mtime_matches(self.dir_mtime, current_mtime)
    }
}

/// A cached result with its freshness.
pub struct CacheEntry<T> {
    pub data: T,
    pub freshness: Freshness,
}

impl<T> CacheEntry<T> {
    pub fn new(data: T, dir_mtime: Option<i128>, is_local: bool, now_ms: u64) -> (r: Self)
        requires
            !is_local ==> now_ms + NFS_CACHE_TTL_MS <= u64::MAX,
        ensures
            r.data == data,
            r.freshness.dir_mtime == dir_mtime,
            r.freshness.expires_ms == (if is_local {
                None
            } else {
                Some((now_ms + NFS_CACHE_TTL_MS) as u64)
            }),
    {
        CacheEntry { data, freshness: Freshness::new(dir_mtime, is_local, now_ms) }
    }

    pub fn is_fresh(&self, current_mtime: Option<i128>, now_ms: u64) -> (r: bool)
        ensures
            r == self.freshness.fresh(current_mtime, now_ms),
    {
        self.freshness.is_fresh(current_mtime, now_ms)
    }
}

/// A local cache stays fresh for as long as its directory's mtime does not
/// change; an NFS cache expires after its TTL whatever the mtime says.
pub proof fn law_freshness(f: Freshness, m: Option<i128>, now_ms: u64)
    ensures
        f.expires_ms is None ==> (f.fresh(m, now_ms) <==> mtime_unchanged(f.dir_mtime, m)),
        (f.expires_ms matches Some(e) && now_ms >= e) ==> !f.fresh(m, now_ms),
        (f.dir_mtime matches Some(a) && m matches Some(b) && a != b) ==> !f.fresh(m, now_ms),
{
}

// ---------------------------------------------------------------------------
// Favorites.

/// The favorited ROM filenames of one system.
pub struct SystemFavorites {
    pub system: String,
    /// Each filename once.
    pub files: Vec<String>,
}

pub open spec fn views(v: Seq<String>) -> Seq<Seq<char>> {
    v.map_values(|s: String| s@)
}

/// The total number of filenames over the systems.
pub open spec fn total_files(d: Seq<SystemFavorites>) -> nat
    decreases d.len(),
{
    if d.len() == 0 {
        0
    } else {
        total_files(d.drop_last()) + d.last().files@.len()
    }
}

/// The systems of `d` that have favorites, with their filenames, in order.
pub open spec fn favorited(d: Seq<SystemFavorites>) -> Seq<(Seq<char>, Seq<Seq<char>>)>
    decreases d.len(),
{
    if d.len() == 0 {
        Seq::empty()
    } else {
        let p = favorited(d.drop_last());
        if d.last().files@.len() > 0 {
            p.push((d.last().system@, views(d.last().files@)))
        } else {
            p
        }
    }
}

pub open spec fn entry_views(v: Seq<(String, Vec<String>)>) -> Seq<(Seq<char>, Seq<Seq<char>>)> {
    v.map_values(|e: (String, Vec<String>)| (e.0@, views(e.1@)))
}

/// Some entry of `d` is `system` and lists `file`.
pub open spec fn holds_in(d: Seq<SystemFavorites>, system: Seq<char>, file: Seq<char>) -> bool {
    exists|k: int|
        0 <= k < d.len() && #[trigger] d[k].system@ == system && views(d[k].files@).contains(file)
}

proof fn lemma_holds_at(d: Seq<SystemFavorites>, k: int, m: int)
    requires
        0 <= k < d.len(),
        0 <= m < d[k].files@.len(),
    ensures
        holds_in(d, d[k].system@, d[k].files@[m]@),
{
    assert(views(d[k].files@)[m] == d[k].files@[m]@);
    assert(views(d[k].files@).contains(d[k].files@[m]@));
}

/// Cached favorites: per system, the set of favorited filenames, with a
/// hard TTL and the favorites directory's mtime.
pub struct FavoritesCache {
    pub data: Vec<SystemFavorites>,
    pub dir_mtime: Option<i128>,
    pub expires_ms: u64,
}

impl FavoritesCache {
    pub open spec fn wf(&self) -> bool {
        &&& forall|i: int, j: int|
            0 <= i < self.data@.len() && 0 <= j < self.data@.len() && i != j
                ==> #[trigger] self.data@[i].system@ != #[trigger] self.data@[j].system@
        &&& forall|i: int| 0 <= i < self.data@.len() ==> views(#[trigger] self.data@[i].files@).no_duplicates()
    }

    /// The cache holds `file` as a favorite of `system`.
    pub open spec fn holds(&self, system: Seq<char>, file: Seq<char>) -> bool {
        holds_in(self.data@, system, file)
    }

    pub open spec fn fresh(&self, current_mtime: Option<i128>, now_ms: u64) -> bool {
        now_ms < self.expires_ms && mtime_unchanged(self.dir_mtime, current_mtime)
    }

    /// Groups the favorites `(system, rom_filename)` by system.
    pub fn new(favorites: &Vec<(String, String)>, dir_mtime: Option<i128>, now_ms: u64) -> (r: Self)
        requires
            now_ms + FAVORITES_CACHE_TTL_MS <= u64::MAX,
        ensures
            r.wf(),
            r.dir_mtime == dir_mtime,
            r.expires_ms == now_ms + FAVORITES_CACHE_TTL_MS,
            forall|s: Seq<char>, f: Seq<char>|
                r.holds(s, f) <==> exists|i: int|
                    0 <= i < favorites@.len() && #[trigger] favorites@[i].0@ == s
                        && favorites@[i].1@ == f,
            forall|k: int| 0 <= k < r.data@.len() ==> r.data@[k].files@.len() > 0,
            total_files(r.data@) <= favorites@.len(),
    {
        let mut c = FavoritesCache {
            data: Vec::new(),
            dir_mtime,
            expires_ms: now_ms + FAVORITES_CACHE_TTL_MS,
        };
        let mut i: usize = 0;
        while i < favorites.len()
            invariant
                i <= favorites.len(),
                c.wf(),
                c.dir_mtime == dir_mtime,
                c.expires_ms == now_ms + FAVORITES_CACHE_TTL_MS,
                forall|s: Seq<char>, f: Seq<char>|
                    c.holds(s, f) <==> exists|j: int|
                        0 <= j < i && #[trigger] favorites@[j].0@ == s && favorites@[j].1@ == f,
                forall|k: int| 0 <= k < c.data@.len() ==> c.data@[k].files@.len() > 0,
                total_files(c.data@) <= i,
            decreases favorites.len() - i,
        {
            let (sys, file) = &favorites[i];
            c.insert(sys, file);
            proof {
                assert forall|s: Seq<char>, f: Seq<char>|
                    c.holds(s, f) <==> exists|j: int|
                        0 <= j < i + 1 && #[trigger] favorites@[j].0@ == s && favorites@[j].1@
                            == f by {
                    if s == sys@ && f == file@ {
                        assert(favorites@[i as int].0@ == s && favorites@[i as int].1@ == f);
                    }
                }
            }
            i += 1;
        }
        c
    }

    fn find_system(&self, system: &String) -> (r: Option<usize>)
        requires
            self.wf(),
        ensures
            match r {
                Some(k) => k < self.data@.len() && self.data@[k as int].system@ == system@,
                None => forall|k: int|
                    0 <= k < self.data@.len() ==> #[trigger] self.data@[k].system@ != system@,
            },
    {
        let mut k: usize = 0;
        while k < self.data.len()
            invariant
                k <= self.data.len(),
                forall|j: int| 0 <= j < k ==> #[trigger] self.data@[j].system@ != system@,
            decreases self.data.len() - k,
        {
            if string_eq(&self.data[k].system, system) {
                return Some(k);
            }
            k += 1;
        }
        None
    }

    fn insert(&mut self, system: &String, file: &String)
        requires
            old(self).wf(),
            forall|k: int| 0 <= k < old(self).data@.len() ==> old(self).data@[k].files@.len() > 0,
        ensures
            final(self).wf(),
            final(self).dir_mtime == old(self).dir_mtime,
            final(self).expires_ms == old(self).expires_ms,
            forall|s: Seq<char>, f: Seq<char>|
                final(self).holds(s, f) <==> (old(self).holds(s, f) || (s == system@ && f
                    == file@)),
            forall|k: int| 0 <= k < final(self).data@.len() ==> final(self).data@[k].files@.len() > 0,
            total_files(final(self).data@) <= total_files(old(self).data@) + 1,
    {
        match self.find_system(system) {
            None => {
                let mut files: Vec<String> = Vec::new();
                files.push(file.clone());
                let ghost before = self.data@;
                self.data.push(SystemFavorites { system: system.clone(), files });
                proof {
                    assert(self.data@.drop_last() =~= before);
                    let n = before.len() as int;
                    assert(views(self.data@[n].files@) =~= seq![file@]);
                    assert forall|s: Seq<char>, f: Seq<char>|
                        self.holds(s, f) <==> (old(self).holds(s, f) || (s == system@ && f
                            == file@)) by {
                        if holds_in(before, s, f) {
                            let k = choose|k: int|
                                0 <= k < before.len() && #[trigger] before[k].system@ == s
                                    && views(before[k].files@).contains(f);
                            assert(self.data@[k] == before[k]);
                            assert(holds_in(self.data@, self.data@[k].system@, f));
                        }
                        if s == system@ && f == file@ {
                            lemma_holds_at(self.data@, n, 0);
                        }
                        if self.holds(s, f) {
                            let k = choose|k: int|
                                0 <= k < self.data@.len() && #[trigger] self.data@[k].system@ == s
                                    && views(self.data@[k].files@).contains(f);
                            if k < before.len() {
                                assert(self.data@[k] == before[k]);
                                assert(holds_in(before, before[k].system@, f));
                            } else {
                                let m = choose|m: int|
                                    0 <= m < views(self.data@[k].files@).len() && #[trigger] views(
                                        self.data@[k].files@,
                                    )[m] == f;
                                assert(m == 0);
                            }
                        }
                    }
                    assert(total_files(self.data@) == total_files(before) + 1);
                }
            },
            Some(k) => {
                if !self.file_in(k, file) {
                    let ghost before = self.data@;
                    let mut entry = self.take_entry(k);
                    entry.files.push(file.clone());
                    self.put_entry(k, entry);
                    proof {
                        let nf = self.data@[k as int].files@;
                        assert(views(nf) =~= views(before[k as int].files@).push(file@));
                        assert(views(nf).no_duplicates()) by {
                            let b = views(before[k as int].files@);
                            assert forall|p: int, q: int|
                                0 <= p < views(nf).len() && 0 <= q < views(nf).len() && p != q
                                implies views(nf)[p] != views(nf)[q] by {
                                if p == b.len() {
                                    assert(views(nf)[q] == b[q]);
                                    assert(b[q] != file@);
                                } else if q == b.len() {
                                    assert(views(nf)[p] == b[p]);
                                    assert(b[p] != file@);
                                } else {
                                    assert(views(nf)[p] == b[p]);
                                }
                            }
                        }
                        lemma_total_update(before, k as int, self.data@[k as int]);
                        assert(self.data@ =~= before.update(k as int, self.data@[k as int]));
                        assert forall|s: Seq<char>, f: Seq<char>|
                            self.holds(s, f) <==> (old(self).holds(s, f) || (s == system@ && f
                                == file@)) by {
                            if holds_in(before, s, f) {
                                let j = choose|j: int|
                                    0 <= j < before.len() && #[trigger] before[j].system@ == s
                                        && views(before[j].files@).contains(f);
                                let m = choose|m: int|
                                    0 <= m < views(before[j].files@).len() && #[trigger] views(
                                        before[j].files@,
                                    )[m] == f;
                                if j == k {
                                    assert(views(nf)[m] == f);
                                    lemma_holds_at(self.data@, j, m);
                                } else {
                                    assert(self.data@[j] == before[j]);
                                    lemma_holds_at(self.data@, j, m);
                                }
                            }
                            if s == system@ && f == file@ {
                                lemma_holds_at(self.data@, k as int, nf.len() - 1);
                            }
                            if self.holds(s, f) {
                                let j = choose|j: int|
                                    0 <= j < self.data@.len() && #[trigger] self.data@[j].system@
                                        == s && views(self.data@[j].files@).contains(f);
                                let m = choose|m: int|
                                    0 <= m < views(self.data@[j].files@).len() && #[trigger] views(
                                        self.data@[j].files@,
                                    )[m] == f;
                                if j != k {
                                    assert(self.data@[j] == before[j]);
                                    lemma_holds_at(before, j, m);
                                } else {
                                    if m < views(before[j].files@).len() {
                                        assert(views(before[j].files@)[m] == f);
                                        lemma_holds_at(before, j, m);
                                    }
                                }
                            }
                        }
                        assert forall|i: int, j: int|
                            0 <= i < self.data@.len() && 0 <= j < self.data@.len() && i != j
                                implies #[trigger] self.data@[i].system@ != #[trigger] self.data@[j].system@ by {
                            assert(before[i].system@ != before[j].system@);
                        }
                    }
                } else {
                    proof {
                        assert forall|s: Seq<char>, f: Seq<char>|
                            self.holds(s, f) <==> (old(self).holds(s, f) || (s == system@ && f
                                == file@)) by {
                            if s == system@ && f == file@ {
                                assert(self.data@[k as int].system@ == s);
                            }
                        }
                    }
                }
            },
        }
    }

    fn file_in(&self, k: usize, file: &String) -> (r: bool)
        requires
            k < self.data@.len(),
        ensures
            r == views(self.data@[k as int].files@).contains(file@),
    {
        let files = &self.data[k].files;
        assert(files@ == self.data@[k as int].files@);
        let mut i: usize = 0;
        while i < files.len()
            invariant
                i <= files.len(),
                k < self.data@.len(),
                files@ == self.data@[k as int].files@,
                forall|j: int| 0 <= j < i ==> files@[j]@ != file@,
            decreases files.len() - i,
        {
            if string_eq(&files[i], file) {
                assert(views(files@)[i as int] == file@);
                assert(views(files@).contains(file@));
                return true;
            }
            i += 1;
        }
        proof {
            if views(files@).contains(file@) {
                let j = choose|j: int| 0 <= j < views(files@).len() && #[trigger] views(files@)[j] == file@;
                assert(files@[j]@ == file@);
            }
        }
        false
    }

    fn take_entry(&mut self, k: usize) -> (r: SystemFavorites)
        requires
            k < old(self).data@.len(),
        ensures
            r == old(self).data@[k as int],
            final(self).data@.len() == old(self).data@.len(),
            forall|j: int| 0 <= j < old(self).data@.len() && j != k ==> final(self).data@[j] == old(
                self,
            ).data@[j],
            final(self).dir_mtime == old(self).dir_mtime,
            final(self).expires_ms == old(self).expires_ms,
    {
        let placeholder = SystemFavorites { system: String::new(), files: Vec::new() };
        let mut entry = placeholder;
        std::mem::swap(&mut entry, &mut self.data[k]);
        entry
    }

    fn put_entry(&mut self, k: usize, e: SystemFavorites)
        requires
            k < old(self).data@.len(),
        ensures
            final(self).data@ == old(self).data@.update(k as int, e),
            final(self).dir_mtime == old(self).dir_mtime,
            final(self).expires_ms == old(self).expires_ms,
    {
        self.data.set(k, e);
    }

    /// Fresh: the hard TTL has not expired and the favorites directory's
    /// mtime is unchanged.
    pub fn is_fresh(&self, current_mtime: Option<i128>, now_ms: u64) -> (r: bool)
        ensures
            r == self.fresh(current_mtime, now_ms),
    {
        now_ms < self.expires_ms && mtime_matches(self.dir_mtime, current_mtime)
    }

    /// The favorited filenames of a system (empty when it has none).
    pub fn favorites_for(&self, system: &String) -> (r: Vec<String>)
        requires
            self.wf(),
        ensures
            views(r@).no_duplicates(),
            forall|f: Seq<char>| views(r@).contains(f) <==> self.holds(system@, f),
    {
        match self.find_system(system) {
            Some(k) => {
                let r = self.data[k].files.clone();
                proof {
                    assert forall|f: Seq<char>| views(r@).contains(f) <==> self.holds(system@, f) by {
                        if self.holds(system@, f) {
                            let j = choose|j: int|
                                0 <= j < self.data@.len() && #[trigger] self.data@[j].system@
                                    == system@ && views(self.data@[j].files@).contains(f);
                            assert(j == k);
                        }
                    }
                }
                r
            },
            None => {
                let r: Vec<String> = Vec::new();
                assert(views(r@) =~= Seq::<Seq<char>>::empty());
                r
            },
        }
    }

    /// The system with the most favorites and its filenames; `None` when
    /// there are no favorites. Among systems with equally many favorites,
    /// any one may be given.
    pub fn top_favorited_system(&self) -> (r: Option<(String, Vec<String>)>)
        requires
            self.wf(),
        ensures
            r is None <==> self.data@.len() == 0,
            r matches Some((s, files)) ==> exists|k: int|
                0 <= k < self.data@.len() && #[trigger] self.data@[k].system@ == s@ && views(
                    self.data@[k].files@,
                ) == views(files@) && forall|j: int|
                    0 <= j < self.data@.len() ==> self.data@[j].files@.len() <= files@.len(),
    {
        if self.data.len() == 0 {
            return None;
        }
        let mut best: usize = 0;
        let mut k: usize = 1;
        while k < self.data.len()
            invariant
                1 <= k <= self.data.len(),
                best < k,
                forall|j: int| 0 <= j < k ==> self.data@[j].files@.len() <= self.data@[best as int].files@.len(),
            decreases self.data.len() - k,
        {
            if self.data[k].files.len() > self.data[best].files.len() {
                best = k;
            }
            k += 1;
        }
        let s = self.data[best].system.clone();
        let files = self.data[best].files.clone();
        assert(self.data@[best as int].system@ == s@);
        Some((s, files))
    }

    /// Every system that has favorites, with its filenames, in cache
    /// order; `None` when there are none.
    pub fn all_favorited_systems(&self) -> (r: Option<Vec<(String, Vec<String>)>>)
        ensures
            r is None <==> favorited(self.data@).len() == 0,
            r matches Some(v) ==> entry_views(v@) == favorited(self.data@),
    {
        let mut out: Vec<(String, Vec<String>)> = Vec::new();
        let mut k: usize = 0;
        while k < self.data.len()
            invariant
                k <= self.data.len(),
                entry_views(out@) == favorited(self.data@.take(k as int)),
            decreases self.data.len() - k,
        {
            let ghost prev = out@;
            assert(self.data@.take(k + 1).drop_last() =~= self.data@.take(k as int));
            if self.data[k].files.len() > 0 {
                let s = self.data[k].system.clone();
                let f = self.data[k].files.clone();
                out.push((s, f));
                assert(entry_views(out@) =~= entry_views(prev).push(
                    (self.data@[k as int].system@, views(self.data@[k as int].files@)),
                ));
            }
            k += 1;
        }
        assert(self.data@.take(self.data@.len() as int) =~= self.data@);
        if out.len() == 0 {
            None
        } else {
            Some(out)
        }
    }

    /// The number of favorites over all systems.
    pub fn favorites_count(&self) -> (r: usize)
        requires
            total_files(self.data@) <= usize::MAX,
        ensures
            r == total_files(self.data@),
    {
        let mut total: usize = 0;
        let mut k: usize = 0;
        while k < self.data.len()
            invariant
                k <= self.data.len(),
                total == total_files(self.data@.take(k as int)),
                total_files(self.data@) <= usize::MAX,
            decreases self.data.len() - k,
        {
            assert(self.data@.take(k + 1).drop_last() =~= self.data@.take(k as int));
            proof {
                lemma_total_prefix(self.data@, k as int + 1);
            }
            total = total + self.data[k].files.len();
            k += 1;
        }
        assert(self.data@.take(self.data@.len() as int) =~= self.data@);
        total
    }
}

proof fn lemma_total_prefix(d: Seq<SystemFavorites>, n: int)
    requires
        0 <= n <= d.len(),
    ensures
        total_files(d.take(n)) <= total_files(d),
    decreases d.len(),
{
    if n < d.len() {
        assert(d.drop_last().take(n) =~= d.take(n));
        lemma_total_prefix(d.drop_last(), n);
    } else {
        assert(d.take(n) =~= d);
    }
}

proof fn lemma_total_update(d: Seq<SystemFavorites>, k: int, e: SystemFavorites)
    requires
        0 <= k < d.len(),
    ensures
        total_files(d.update(k, e)) + d[k].files@.len() == total_files(d) + e.files@.len(),
    decreases d.len(),
{
    if k == d.len() - 1 {
        assert(d.update(k, e).drop_last() =~= d.drop_last());
    } else {
        lemma_total_update(d.drop_last(), k, e);
        assert(d.update(k, e).drop_last() =~= d.drop_last().update(k, e));
    }
}

/// `String` equality.
fn string_eq(a: &String, b: &String) -> (r: bool)
    ensures
        r == (a@ == b@),
{
    a.eq(b)
}

} // verus!
