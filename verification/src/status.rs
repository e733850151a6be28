//! The library-state report served at `/api/core/status` (polled by the
//! libretro core, health checks and the end-to-end harness).
use vstd::prelude::*;

use crate::types::SystemSummary;

verus! {

/// One system's durable refresh state and ROM count.
pub struct SystemStatusRow {
    pub system: String,
    pub roms: usize,
    /// The system is being (re)scanned.
    pub refreshing: bool,
}

/// The summary part of the report.
#[derive(Clone, Copy, Debug, PartialEq, Eq, Structural)]
pub struct LibraryStatusSummary {
    /// Safe to browse: the boot populate has completed and nothing scans.
    pub ready: bool,
    /// Some system is being (re)scanned.
    pub scanning: bool,
    pub total_roms: usize,
}

pub open spec fn sum_roms(rows: Seq<SystemStatusRow>) -> nat
    decreases rows.len(),
{
    if rows.len() == 0 {
        0
    } else {
        sum_roms(rows.drop_last()) + rows.last().roms as nat
    }
}

pub open spec fn any_refreshing(rows: Seq<SystemStatusRow>) -> bool {
    exists|i: int| 0 <= i < rows.len() && #[trigger] rows[i].refreshing
}

proof fn lemma_sum_prefix(rows: Seq<SystemStatusRow>, n: int)
    requires
        0 <= n <= rows.len(),
    ensures
        sum_roms(rows.take(n)) <= sum_roms(rows),
    decreases rows.len(),
{
    if n < rows.len() {
        assert(rows.drop_last().take(n) =~= rows.take(n));
        lemma_sum_prefix(rows.drop_last(), n);
    } else {
        assert(rows.take(n) =~= rows);
    }
}

/// Summarizes the per-system rows: scanning when any system refreshes,
/// the total ROM count, and ready once the boot populate is done and
/// nothing scans.
pub fn summarize_library_status(rows: &Vec<SystemStatusRow>, initial_populate_done: bool) -> (r:
    LibraryStatusSummary)
    requires
        sum_roms(rows@) <= usize::MAX,
    ensures
        r.scanning == any_refreshing(rows@),
        r.total_roms == sum_roms(rows@),
        r.ready == (initial_populate_done && !any_refreshing(rows@)),
{
    let mut scanning = false;
    let mut total: usize = 0;
    let mut i: usize = 0;
    while i < rows.len()
        invariant
            i <= rows.len(),
            sum_roms(rows@) <= usize::MAX,
            total == sum_roms(rows@.take(i as int)),
            scanning == exists|k: int| 0 <= k < i && #[trigger] rows@[k].refreshing,
        decreases rows.len() - i,
    {
        assert(rows@.take(i + 1).drop_last() =~= rows@.take(i as int));
        proof {
            lemma_sum_prefix(rows@, i + 1);
        }
        total = total + rows[i].roms;
        if rows[i].refreshing {
            scanning = true;
        }
        i += 1;
    }
    assert(rows@.take(rows.len() as int) =~= rows@);
    LibraryStatusSummary { ready: initial_populate_done && !scanning, scanning, total_roms: total }
}

/// Never ready while a system scans, nor before the boot populate is done.
pub proof fn law_ready_means_settled(rows: Seq<SystemStatusRow>, done: bool, r: LibraryStatusSummary)
    requires
        r.scanning == any_refreshing(rows),
        r.ready == (done && !any_refreshing(rows)),
    ensures
        r.ready ==> done && forall|i: int| 0 <= i < rows.len() ==> !(#[trigger] rows[i].refreshing),
{
}

/// Counts of the library page.
#[derive(Clone, Copy, Debug, PartialEq, Eq, Structural)]
pub struct LibraryTotals {
    pub total_systems: usize,
    pub systems_with_games: usize,
    pub total_games: usize,
}

pub open spec fn sum_games(s: Seq<SystemSummary>) -> nat
    decreases s.len(),
{
    if s.len() == 0 {
        0
    } else {
        sum_games(s.drop_last()) + s.last().game_count as nat
    }
}

pub open spec fn count_with_games(s: Seq<SystemSummary>) -> nat
    decreases s.len(),
{
    if s.len() == 0 {
        0
    } else {
        count_with_games(s.drop_last()) + if s.last().game_count > 0 {
            1nat
        } else {
            0nat
        }
    }
}

proof fn lemma_games_prefix(s: Seq<SystemSummary>, n: int)
    requires
        0 <= n <= s.len(),
    ensures
        sum_games(s.take(n)) <= sum_games(s),
        count_with_games(s.take(n)) <= n,
    decreases s.len(),
{
    if n < s.len() {
        assert(s.drop_last().take(n) =~= s.take(n));
        lemma_games_prefix(s.drop_last(), n);
    } else {
        assert(s.take(n) =~= s);
        lemma_count_bound(s);
    }
}

proof fn lemma_count_bound(s: Seq<SystemSummary>)
    ensures
        count_with_games(s) <= s.len(),
    decreases s.len(),
{
    if s.len() > 0 {
        lemma_count_bound(s.drop_last());
    }
}

/// The number of systems, of systems with at least one game, and of games.
pub fn library_totals(summaries: &Vec<SystemSummary>) -> (r: LibraryTotals)
    requires
        sum_games(summaries@) <= usize::MAX,
    ensures
        r.total_systems == summaries@.len(),
        r.systems_with_games == count_with_games(summaries@),
        r.total_games == sum_games(summaries@),
{
    let mut with_games: usize = 0;
    let mut total: usize = 0;
    let mut i: usize = 0;
    while i < summaries.len()
        invariant
            i <= summaries.len(),
            sum_games(summaries@) <= usize::MAX,
            total == sum_games(summaries@.take(i as int)),
            with_games == count_with_games(summaries@.take(i as int)),
            with_games <= i,
        decreases summaries.len() - i,
    {
        assert(summaries@.take(i + 1).drop_last() =~= summaries@.take(i as int));
        proof {
            lemma_games_prefix(summaries@, i + 1);
        }
        total = total + summaries[i].game_count;
        if summaries[i].game_count > 0 {
            with_games = with_games + 1;
        }
        i += 1;
    }
    assert(summaries@.take(summaries.len() as int) =~= summaries@);
    LibraryTotals { total_systems: summaries.len(), systems_with_games: with_games, total_games: total }
}

} // verus!
