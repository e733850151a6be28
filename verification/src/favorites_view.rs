//! What the favorites page shows: the newest favorites, the per-system
//! cards, the list grouped by system, and the links and marker names of a
//! favorite.
use vstd::prelude::*;

use crate::encoding::{percent_encoded, url_encode};

verus! {

// ---------------------------------------------------------------------------
// The order of text keys.

/// Lexicographic order of character sequences: the order `String`'s `Ord`
/// gives (UTF-8 byte order and code-point order agree).
pub open spec fn text_lt(a: Seq<char>, b: Seq<char>) -> bool
    decreases a.len(),
{
    if a.len() == 0 {
        b.len() > 0
    } else if b.len() == 0 {
        false
    } else if a[0] != b[0] {
        a[0] < b[0]
    } else {
        text_lt(a.drop_first(), b.drop_first())
    }
}

proof fn lemma_text_lt_irreflexive(a: Seq<char>)
    ensures
        !text_lt(a, a),
    decreases a.len(),
{
    if a.len() > 0 {
        lemma_text_lt_irreflexive(a.drop_first());
    }
}

proof fn lemma_text_lt_transitive(a: Seq<char>, b: Seq<char>, c: Seq<char>)
    requires
        text_lt(a, b),
        text_lt(b, c),
    ensures
        text_lt(a, c),
    decreases a.len(),
{
    if a.len() > 0 && b.len() > 0 && c.len() > 0 && a[0] == b[0] && b[0] == c[0] {
        lemma_text_lt_transitive(a.drop_first(), b.drop_first(), c.drop_first());
    }
}

proof fn lemma_text_lt_total(a: Seq<char>, b: Seq<char>)
    ensures
        a == b || text_lt(a, b) || text_lt(b, a),
    decreases a.len(),
{
    if a.len() > 0 && b.len() > 0 && a[0] == b[0] {
        lemma_text_lt_total(a.drop_first(), b.drop_first());
        if a.drop_first() == b.drop_first() {
            assert(a =~= seq![a[0]] + a.drop_first());
            assert(b =~= seq![b[0]] + b.drop_first());
        }
    }
}

/// Whether `a` sorts before `b`.
fn text_less(a: &Vec<char>, b: &Vec<char>) -> (r: bool)
    ensures
        r == text_lt(a@, b@),
{
    let mut i: usize = 0;
    assert(a@.skip(0) =~= a@);
    assert(b@.skip(0) =~= b@);
    while i < a.len() && i < b.len() && a[i] == b[i]
        invariant
            i <= a.len(),
            i <= b.len(),
            a@.subrange(0, i as int) == b@.subrange(0, i as int),
            text_lt(a@, b@) == text_lt(a@.skip(i as int), b@.skip(i as int)),
        decreases a.len() - i,
    {
        assert(a@.skip(i as int).drop_first() =~= a@.skip(i + 1));
        assert(b@.skip(i as int).drop_first() =~= b@.skip(i + 1));
        assert(a@.subrange(0, i + 1) =~= a@.subrange(0, i as int).push(a@[i as int]));
        assert(b@.subrange(0, i + 1) =~= b@.subrange(0, i as int).push(b@[i as int]));
        i += 1;
    }
    if i == a.len() {
        i < b.len()
    } else if i == b.len() {
        false
    } else {
        a[i] < b[i]
    }
}

/// Keys in strictly increasing order (so each once).
pub open spec fn strictly_sorted(keys: Seq<Seq<char>>) -> bool {
    forall|p: int, q: int| 0 <= p < q < keys.len() ==> text_lt(#[trigger] keys[p], #[trigger] keys[q])
}

pub open spec fn char_views(v: Seq<Vec<char>>) -> Seq<Seq<char>> {
    v.map_values(|x: Vec<char>| x@)
}

/// Adds `k` to strictly sorted keys unless it is there already.
fn insert_sorted(keys: &mut Vec<Vec<char>>, k: Vec<char>)
    requires
        strictly_sorted(char_views(old(keys)@)),
    ensures
        strictly_sorted(char_views(final(keys)@)),
        forall|x: Seq<char>|
            #[trigger] char_views(final(keys)@).contains(x) <==> (char_views(old(keys)@).contains(x)
                || x == k@),
{
    let ghost before = char_views(keys@);
    let mut p: usize = 0;
    while p < keys.len() && text_less(&keys[p], &k)
        invariant
            p <= keys.len(),
            char_views(keys@) == before,
            strictly_sorted(before),
            forall|x: int| 0 <= x < p ==> text_lt(#[trigger] before[x], k@),
        decreases keys.len() - p,
    {
        p += 1;
    }
    if p < keys.len() && crate::text::same_chars(&keys[p], &k) {
        assert(before[p as int] == k@);
        assert(before.contains(k@));
        return;
    }
    proof {
        if p < keys.len() {
            lemma_text_lt_total(before[p as int], k@);
            assert(text_lt(k@, before[p as int]));
        }
    }
    keys.insert(p, k);
    let ghost after = char_views(keys@);
    assert(after =~= before.insert(p as int, k@));
    proof {
        before.insert_ensures(p as int, k@);
        assert forall|a: int, b: int| 0 <= a < b < after.len() implies text_lt(
            #[trigger] after[a],
            #[trigger] after[b],
        ) by {
            if b < p {
                assert(after[a] == before[a] && after[b] == before[b]);
            } else if b == p {
                assert(after[a] == before[a]);
            } else if a < p {
                assert(after[a] == before[a] && after[b] == before[b - 1]);
                lemma_text_lt_transitive(before[a], k@, before[p as int]);
                if b - 1 > p {
                    lemma_text_lt_transitive(before[a], before[p as int], before[b - 1]);
                }
            } else if a == p {
                assert(after[b] == before[b - 1]);
                if b - 1 > p {
                    lemma_text_lt_transitive(k@, before[p as int], before[b - 1]);
                }
            } else {
                assert(after[a] == before[a - 1] && after[b] == before[b - 1]);
            }
        }
        assert forall|x: Seq<char>| #[trigger] after.contains(x) <==> (before.contains(x) || x == k@) by {
            if after.contains(x) {
                let t = choose|t: int| 0 <= t < after.len() && after[t] == x;
                if t < p {
                    assert(before[t] == x);
                } else if t > p {
                    assert(before[t - 1] == x);
                }
            }
            if before.contains(x) {
                let t = choose|t: int| 0 <= t < before.len() && before[t] == x;
                if t < p {
                    assert(after[t] == x);
                } else {
                    assert(after[t + 1] == x);
                }
            }
            if x == k@ {
                assert(after[p as int] == x);
            }
        }
    }
}

/// The distinct keys of a list, in increasing order.
fn sorted_distinct(keys: &Vec<Vec<char>>) -> (r: Vec<Vec<char>>)
    ensures
        strictly_sorted(char_views(r@)),
        forall|x: Seq<char>| #[trigger] char_views(r@).contains(x) <==> char_views(keys@).contains(x),
{
    let mut out: Vec<Vec<char>> = Vec::new();
    let mut i: usize = 0;
    while i < keys.len()
        invariant
            i <= keys.len(),
            strictly_sorted(char_views(out@)),
            forall|x: Seq<char>|
                #[trigger] char_views(out@).contains(x) <==> char_views(keys@).take(i as int).contains(x),
        decreases keys.len() - i,
    {
        let ghost t1 = char_views(keys@).take(i + 1);
        let ghost t0 = char_views(keys@).take(i as int);
        assert(t1 =~= t0.push(keys@[i as int]@));
        insert_sorted(&mut out, keys[i].clone());
        proof {
            assert forall|x: Seq<char>| #[trigger] t1.contains(x) <==> (t0.contains(x) || x == keys@[i as int]@) by {
                if t1.contains(x) {
                    let t = choose|t: int| 0 <= t < t1.len() && t1[t] == x;
                    if t < i {
                        assert(t0[t] == x);
                    }
                }
                if t0.contains(x) {
                    let t = choose|t: int| 0 <= t < t0.len() && t0[t] == x;
                    assert(t1[t] == x);
                }
                if x == keys@[i as int]@ {
                    assert(t1[i as int] == x);
                }
            }
        }
        i += 1;
    }
    assert(char_views(keys@).take(keys.len() as int) =~= char_views(keys@));
    out
}

// ---------------------------------------------------------------------------
// Favorites.

/// A favorite as the favorites page lists it.
#[derive(Debug)]
pub struct FavoriteListing {
    /// The `.fav` marker file.
    pub marker_filename: String,
    /// The marker's subfolder of the favorites directory (empty at the top).
    pub subfolder: String,
    pub system: String,
    pub system_display: String,
    pub rom_filename: String,
    pub display_name: Option<String>,
    /// When it was added (seconds since the Unix epoch).
    pub date_added: u64,
}

/// The title shown for a favorite: its display name, else its file name.
pub open spec fn title(f: FavoriteListing) -> Seq<char> {
    match f.display_name {
        Some(d) => d@,
        None => f.rom_filename@,
    }
}

/// The title shown for a favorite.
pub fn favorite_title(f: &FavoriteListing) -> (r: String)
    ensures
        r@ == title(*f),
{
    match &f.display_name {
        Some(d) => d.clone(),
        None => f.rom_filename.clone(),
    }
}

/// The link to a game's page: `/games/<system>/<file name, percent-encoded>`.
pub fn game_href(system: &str, rom_filename: &str) -> (r: String)
    ensures
        r@ == "/games/"@ + system@ + "/"@ + percent_encoded(rom_filename@),
{
    let mut s = String::from_str("/games/");
    s.append(system);
    s.append("/");
    s.append(url_encode(rom_filename).as_str());
    s
}

/// The marker file of a favorite: `<system>@<file name>.fav`.
pub fn favorite_marker_name(system: &str, rom_filename: &str) -> (r: String)
    ensures
        r@ == system@ + "@"@ + rom_filename@ + ".fav"@,
{
    let mut s = String::from_str(system);
    s.append("@");
    s.append(rom_filename);
    s.append(".fav");
    s
}

pub open spec fn systems_of(favs: Seq<FavoriteListing>) -> Seq<Seq<char>> {
    favs.map_values(|f: FavoriteListing| f.system@)
}

pub open spec fn displays_of(favs: Seq<FavoriteListing>) -> Seq<Seq<char>> {
    favs.map_values(|f: FavoriteListing| f.system_display@)
}

/// The number of distinct keys: how many keys occur for the first time.
pub open spec fn distinct_count(keys: Seq<Seq<char>>) -> nat
    decreases keys.len(),
{
    if keys.len() == 0 {
        0
    } else {
        distinct_count(keys.drop_last()) + if keys.drop_last().contains(keys.last()) {
            0nat
        } else {
            1nat
        }
    }
}

proof fn lemma_distinct_count_bound(keys: Seq<Seq<char>>)
    ensures
        distinct_count(keys) <= keys.len(),
    decreases keys.len(),
{
    if keys.len() > 0 {
        lemma_distinct_count_bound(keys.drop_last());
    }
}

fn system_chars(favs: &Vec<FavoriteListing>) -> (r: Vec<Vec<char>>)
    ensures
        char_views(r@) == systems_of(favs@),
{
    let mut out: Vec<Vec<char>> = Vec::new();
    let mut i: usize = 0;
    while i < favs.len()
        invariant
            i <= favs.len(),
            char_views(out@) == systems_of(favs@).take(i as int),
        decreases favs.len() - i,
    {
        let ghost before = char_views(out@);
        out.push(crate::text::to_chars(favs[i].system.as_str()));
        assert(char_views(out@) =~= before.push(favs@[i as int].system@));
        assert(systems_of(favs@).take(i + 1) =~= systems_of(favs@).take(i as int).push(
            favs@[i as int].system@,
        ));
        i += 1;
    }
    assert(systems_of(favs@).take(favs.len() as int) =~= systems_of(favs@));
    out
}

fn display_chars(favs: &Vec<FavoriteListing>) -> (r: Vec<Vec<char>>)
    ensures
        char_views(r@) == displays_of(favs@),
{
    let mut out: Vec<Vec<char>> = Vec::new();
    let mut i: usize = 0;
    while i < favs.len()
        invariant
            i <= favs.len(),
            char_views(out@) == displays_of(favs@).take(i as int),
        decreases favs.len() - i,
    {
        let ghost before = char_views(out@);
        out.push(crate::text::to_chars(favs[i].system_display.as_str()));
        assert(char_views(out@) =~= before.push(favs@[i as int].system_display@));
        assert(displays_of(favs@).take(i + 1) =~= displays_of(favs@).take(i as int).push(
            favs@[i as int].system_display@,
        ));
        i += 1;
    }
    assert(displays_of(favs@).take(favs.len() as int) =~= displays_of(favs@));
    out
}

/// The number of systems with favorites.
pub fn system_count(favs: &Vec<FavoriteListing>) -> (r: usize)
    ensures
        r == distinct_count(systems_of(favs@)),
{
    let keys = system_chars(favs);
    let ghost ks = char_views(keys@);
    let mut count: usize = 0;
    let mut i: usize = 0;
    while i < keys.len()
        invariant
            i <= keys.len(),
            ks == char_views(keys@),
            count == distinct_count(ks.take(i as int)),
        decreases keys.len() - i,
    {
        let ghost t = ks.take(i + 1);
        assert(t.drop_last() =~= ks.take(i as int));
        assert(t.last() == keys@[i as int]@);
        let mut seen = false;
        let mut j: usize = 0;
        while j < i
            invariant
                j <= i < keys.len(),
                ks == char_views(keys@),
                seen == ks.take(j as int).contains(ks[i as int]),
            decreases i - j,
        {
            let ghost tj = ks.take(j + 1);
            assert(tj =~= ks.take(j as int).push(ks[j as int]));
            let eq = crate::text::same_chars(&keys[j], &keys[i]);
            proof {
                if eq {
                    assert(tj[j as int] == ks[i as int]);
                } else {
                    if tj.contains(ks[i as int]) {
                        let w = choose|w: int| 0 <= w < tj.len() && tj[w] == ks[i as int];
                        assert(ks.take(j as int)[w] == ks[i as int]);
                    }
                }
                if ks.take(j as int).contains(ks[i as int]) {
                    let w = choose|w: int| 0 <= w < j && ks.take(j as int)[w] == ks[i as int];
                    assert(tj[w] == ks[i as int]);
                }
            }
            if eq {
                seen = true;
            }
            j += 1;
        }
        proof {
            lemma_distinct_count_bound(ks.take(i as int));
        }
        if !seen {
            count = count + 1;
        }
        i += 1;
    }
    assert(ks.take(keys.len() as int) =~= ks);
    count
}

/// `a` comes before `b` among the newest: added later, or added at the
/// same time and listed earlier.
pub open spec fn newer(favs: Seq<FavoriteListing>, a: int, b: int) -> bool {
    favs[a].date_added > favs[b].date_added || (favs[a].date_added == favs[b].date_added && a < b)
}

/// The favorites' positions, newest first (a stable sort by date, newest
/// first): every position once, each pair in `newer` order.
pub open spec fn newest_order(favs: Seq<FavoriteListing>, r: Seq<usize>) -> bool {
    &&& r.len() == favs.len()
    &&& forall|p: int| 0 <= p < r.len() ==> #[trigger] r[p] < favs.len()
    &&& forall|k: int| 0 <= k < favs.len() ==> #[trigger] r.contains(k as usize)
    &&& forall|p: int, q: int| 0 <= p < q < r.len() ==> newer(favs, #[trigger] r[p] as int, #[trigger] r[q] as int)
}

/// The favorites' positions, newest first.
pub fn newest_first(favs: &Vec<FavoriteListing>) -> (r: Vec<usize>)
    ensures
        newest_order(favs@, r@),
{
    let ghost fs = favs@;
    let mut order: Vec<usize> = Vec::new();
    let mut i: usize = 0;
    while i < favs.len()
        invariant
            i <= favs.len(),
            fs == favs@,
            order@.len() == i,
            forall|p: int| 0 <= p < order@.len() ==> #[trigger] order@[p] < i,
            forall|k: int| 0 <= k < i ==> #[trigger] order@.contains(k as usize),
            forall|p: int, q: int|
                0 <= p < q < order@.len() ==> newer(fs, #[trigger] order@[p] as int, #[trigger] order@[q] as int),
        decreases favs.len() - i,
    {
        let date = favs[i].date_added;
        let mut p: usize = 0;
        while p < order.len() && favs[order[p]].date_added >= date
            invariant
                p <= order@.len(),
                i < favs@.len(),
                fs == favs@,
                date == fs[i as int].date_added,
                forall|t: int| 0 <= t < order@.len() ==> #[trigger] order@[t] < i,
                forall|t: int| 0 <= t < p ==> fs[#[trigger] order@[t] as int].date_added >= date,
            decreases order.len() - p,
        {
            p += 1;
        }
        let ghost before = order@;
        order.insert(p, i);
        proof {
            before.insert_ensures(p as int, i);
            let after = order@;
            assert forall|a: int, b: int| 0 <= a < b < after.len() implies newer(
                fs,
                #[trigger] after[a] as int,
                #[trigger] after[b] as int,
            ) by {
                if b < p {
                    assert(after[a] == before[a] && after[b] == before[b]);
                } else if b == p {
                    assert(after[a] == before[a]);
                    assert(fs[before[a] as int].date_added >= date);
                } else if a < p {
                    assert(after[a] == before[a] && after[b] == before[b - 1]);
                } else if a == p {
                    assert(after[b] == before[b - 1]);
                    assert(p < before.len());
                    assert(fs[before[p as int] as int].date_added < date);
                    if b - 1 > p {
                        assert(newer(fs, before[p as int] as int, before[b - 1] as int));
                    }
                } else {
                    assert(after[a] == before[a - 1] && after[b] == before[b - 1]);
                }
            }
            assert forall|t: int| 0 <= t < after.len() implies #[trigger] after[t] < i + 1 by {
                if t < p {
                    assert(after[t] == before[t]);
                } else if t > p {
                    assert(after[t] == before[t - 1]);
                }
            }
            assert forall|k: int| 0 <= k < i + 1 implies #[trigger] after.contains(k as usize) by {
                if k < i {
                    assert(before.contains(k as usize));
                    let t = choose|t: int| 0 <= t < before.len() && before[t] == k as usize;
                    if t < p {
                        assert(after[t] == k as usize);
                    } else {
                        assert(after[t + 1] == k as usize);
                    }
                } else {
                    assert(after[p as int] == k as usize);
                }
            }
        }
        i += 1;
    }
    order
}

/// The most recently added favorite; `None` when there are none.
pub fn latest_added(order: &Vec<usize>) -> (r: Option<usize>)
    ensures
        r == (if order@.len() > 0 {
            Some(order@[0])
        } else {
            None
        }),
{
    if order.len() > 0 {
        Some(order[0])
    } else {
        None
    }
}

/// The recently added favorites after the latest one: at most ten, newest
/// first.
pub fn recently_added(order: &Vec<usize>) -> (r: Vec<usize>)
    ensures
        r@ == (if order@.len() <= 1 {
            Seq::<usize>::empty()
        } else if order@.len() <= 11 {
            order@.subrange(1, order@.len() as int)
        } else {
            order@.subrange(1, 11)
        }),
{
    let end = if order.len() <= 11 {
        order.len()
    } else {
        11
    };
    let mut out: Vec<usize> = Vec::new();
    let mut k: usize = 1;
    while k < end
        invariant
            1 <= k,
            end <= order@.len(),
            k <= end || end <= 1,
            end == (if order@.len() <= 11 {
                order@.len()
            } else {
                11
            }),
            out@ == (if k <= end {
                order@.subrange(1, k as int)
            } else {
                Seq::empty()
            }),
        decreases end - k,
    {
        out.push(order[k]);
        assert(order@.subrange(1, k + 1) =~= order@.subrange(1, k as int).push(order@[k as int]));
        k += 1;
    }
    proof {
        if order@.len() <= 1 {
            assert(out@ =~= Seq::<usize>::empty()) by {
                if end == 1 {
                    assert(order@.subrange(1, 1) =~= Seq::<usize>::empty());
                }
            }
        }
    }
    out
}

// ---------------------------------------------------------------------------
// Per-system cards.

/// What a system's card shows: the system's display name (from its first
/// favorite), its favorites count, and the title and date of its latest
/// favorite (the last one listed among those added last).
pub struct SystemCard {
    pub display_name: String,
    pub system: String,
    pub count: usize,
    pub latest: String,
    pub latest_date: u64,
}

pub open spec fn card_systems(v: Seq<SystemCard>) -> Seq<Seq<char>> {
    v.map_values(|c: SystemCard| c.system@)
}

/// The card of `system` over the favorites, as they are folded in order;
/// `None` when the system has none.
pub open spec fn card_state(favs: Seq<FavoriteListing>, system: Seq<char>) -> Option<
    (Seq<char>, nat, Seq<char>, u64),
>
    decreases favs.len(),
{
    if favs.len() == 0 {
        None
    } else {
        let prev = card_state(favs.drop_last(), system);
        let f = favs.last();
        if f.system@ != system {
            prev
        } else {
            let (d, c, l, dt) = match prev {
                Some(e) => e,
                None => (f.system_display@, 0nat, Seq::empty(), 0u64),
            };
            if f.date_added >= dt {
                Some((d, c + 1, title(f), f.date_added))
            } else {
                Some((d, c + 1, l, dt))
            }
        }
    }
}

proof fn lemma_card_count_bound(favs: Seq<FavoriteListing>, system: Seq<char>)
    ensures
        card_state(favs, system) matches Some(e) ==> e.1 <= favs.len(),
    decreases favs.len(),
{
    if favs.len() > 0 {
        lemma_card_count_bound(favs.drop_last(), system);
    }
}

fn card_for(favs: &Vec<FavoriteListing>, system: &Vec<char>) -> (r: Option<SystemCard>)
    ensures
        match r {
            Some(c) => card_state(favs@, system@) == Some(
                (c.display_name@, c.count as nat, c.latest@, c.latest_date),
            ) && c.system@ == system@,
            None => card_state(favs@, system@) is None,
        },
{
    let mut card: Option<SystemCard> = None;
    let mut i: usize = 0;
    while i < favs.len()
        invariant
            i <= favs.len(),
            match card {
                Some(c) => card_state(favs@.take(i as int), system@) == Some(
                    (c.display_name@, c.count as nat, c.latest@, c.latest_date),
                ) && c.system@ == system@,
                None => card_state(favs@.take(i as int), system@) is None,
            },
        decreases favs.len() - i,
    {
        let ghost t = favs@.take(i + 1);
        assert(t.drop_last() =~= favs@.take(i as int));
        assert(t.last() == favs@[i as int]);
        proof {
            lemma_card_count_bound(favs@.take(i as int), system@);
        }
        let f = &favs[i];
        let same = crate::text::same_chars(&crate::text::to_chars(f.system.as_str()), system);
        if same {
            let mut c = match card {
                Some(c) => c,
                None => SystemCard {
                    display_name: f.system_display.clone(),
                    system: f.system.clone(),
                    count: 0,
                    latest: String::new(),
                    latest_date: 0,
                },
            };
            c.count = c.count + 1;
            if f.date_added >= c.latest_date {
                c.latest = favorite_title(f);
                c.latest_date = f.date_added;
            }
            card = Some(c);
        }
        i += 1;
    }
    assert(favs@.take(favs.len() as int) =~= favs@);
    card
}

/// One card per system with favorites, in the order of the systems' folder
/// names.
pub fn system_cards(favs: &Vec<FavoriteListing>) -> (r: Vec<SystemCard>)
    ensures
        strictly_sorted(card_systems(r@)),
        forall|x: Seq<char>|
            #[trigger] card_systems(r@).contains(x) <==> systems_of(
                favs@,
            ).contains(x),
        forall|k: int|
            0 <= k < r@.len() ==> card_state(favs@, (#[trigger] r@[k]).system@) == Some(
                (r@[k].display_name@, r@[k].count as nat, r@[k].latest@, r@[k].latest_date),
            ),
{
    let keys = sorted_distinct(&system_chars(favs));
    let ghost ks = char_views(keys@);
    let mut out: Vec<SystemCard> = Vec::new();
    let mut k: usize = 0;
    while k < keys.len()
        invariant
            k <= keys.len(),
            ks == char_views(keys@),
            strictly_sorted(ks),
            forall|x: Seq<char>| #[trigger] ks.contains(x) <==> systems_of(favs@).contains(x),
            card_systems(out@) == ks.take(k as int),
            forall|t: int|
                0 <= t < out@.len() ==> card_state(favs@, (#[trigger] out@[t]).system@) == Some(
                    (out@[t].display_name@, out@[t].count as nat, out@[t].latest@, out@[t].latest_date),
                ),
        decreases keys.len() - k,
    {
        proof {
            assert(ks.contains(ks[k as int]));
            let w = choose|w: int| 0 <= w < favs@.len() && systems_of(favs@)[w] == ks[k as int];
            let pre = favs@.take(w + 1);
            // The system has a favorite, so its card exists.
            lemma_card_exists(favs@, ks[k as int], w);
        }
        let ghost before = out@;
        match card_for(favs, &keys[k]) {
            Some(c) => {
                out.push(c);
            },
            None => {
                assert(false);
            },
        }
        assert(card_systems(out@) =~= card_systems(before).push(ks[k as int]));
        assert(ks.take(k + 1) =~= ks.take(k as int).push(ks[k as int]));
        k += 1;
    }
    assert(ks.take(keys.len() as int) =~= ks);
    out
}

proof fn lemma_card_exists(favs: Seq<FavoriteListing>, system: Seq<char>, w: int)
    requires
        0 <= w < favs.len(),
        favs[w].system@ == system,
    ensures
        card_state(favs, system) is Some,
    decreases favs.len(),
{
    if w < favs.len() - 1 {
        lemma_card_exists(favs.drop_last(), system, w);
    }
}

// ---------------------------------------------------------------------------
// The grouped list.

/// The positions of the favorites of one system display name, in order.
pub open spec fn members_of(favs: Seq<FavoriteListing>, display: Seq<char>) -> Seq<int>
    decreases favs.len(),
{
    if favs.len() == 0 {
        Seq::empty()
    } else {
        let prev = members_of(favs.drop_last(), display);
        if favs.last().system_display@ == display {
            prev.push(favs.len() - 1)
        } else {
            prev
        }
    }
}

pub open spec fn group_names(v: Seq<FavoriteGroup>) -> Seq<Seq<char>> {
    v.map_values(|g: FavoriteGroup| g.system_display@)
}

/// One group of the grouped list.
pub struct FavoriteGroup {
    pub system_display: String,
    /// Positions of the group's favorites, in list order.
    pub members: Vec<usize>,
}

pub open spec fn index_views(v: Seq<usize>) -> Seq<int> {
    v.map_values(|i: usize| i as int)
}

fn members_for(favs: &Vec<FavoriteListing>, display: &Vec<char>) -> (r: Vec<usize>)
    ensures
        index_views(r@) == members_of(favs@, display@),
{
    let mut out: Vec<usize> = Vec::new();
    let mut i: usize = 0;
    while i < favs.len()
        invariant
            i <= favs.len(),
            index_views(out@) == members_of(favs@.take(i as int), display@),
        decreases favs.len() - i,
    {
        let ghost t = favs@.take(i + 1);
        assert(t.drop_last() =~= favs@.take(i as int));
        assert(t.last() == favs@[i as int]);
        let d = crate::text::to_chars(favs[i].system_display.as_str());
        if crate::text::same_chars(&d, display) {
            let ghost before = out@;
            out.push(i);
            assert(index_views(out@) =~= index_views(before).push(i as int));
        }
        i += 1;
    }
    assert(favs@.take(favs.len() as int) =~= favs@);
    out
}

/// The favorites grouped by system display name, groups in name order and
/// favorites in list order.
pub fn grouped_by_system(favs: &Vec<FavoriteListing>) -> (r: Vec<FavoriteGroup>)
    ensures
        strictly_sorted(group_names(r@)),
        forall|x: Seq<char>|
            #[trigger] group_names(r@).contains(x)
                <==> displays_of(favs@).contains(x),
        forall|k: int|
            0 <= k < r@.len() ==> index_views((#[trigger] r@[k]).members@) == members_of(
                favs@,
                r@[k].system_display@,
            ),
{
    let keys = sorted_distinct(&display_chars(favs));
    let ghost ks = char_views(keys@);
    let mut out: Vec<FavoriteGroup> = Vec::new();
    let mut k: usize = 0;
    while k < keys.len()
        invariant
            k <= keys.len(),
            ks == char_views(keys@),
            strictly_sorted(ks),
            forall|x: Seq<char>| #[trigger] ks.contains(x) <==> displays_of(favs@).contains(x),
            group_names(out@) == ks.take(k as int),
            forall|t: int|
                0 <= t < out@.len() ==> index_views((#[trigger] out@[t]).members@) == members_of(
                    favs@,
                    out@[t].system_display@,
                ),
        decreases keys.len() - k,
    {
        let ghost before = out@;
        let members = members_for(favs, &keys[k]);
        out.push(FavoriteGroup { system_display: crate::text::from_chars(&keys[k]), members });
        assert(group_names(out@) =~= group_names(before).push(ks[k as int]));
        assert(ks.take(k + 1) =~= ks.take(k as int).push(ks[k as int]));
        k += 1;
    }
    assert(ks.take(keys.len() as int) =~= ks);
    out
}

} // verus!
