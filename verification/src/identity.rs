//! The identity phase: per-system jobs that hash ROMs and resolve their
//! identities in batches, and the tally of their outcomes.
//!
//! A job alternates database claims and hashing (done by the caller) with
//! the decisions kept here: which rows to claim next, when to stop, and how
//! the job ended.
use vstd::prelude::*;

use crate::text::same_chars;

verus! {

/// How one identity job ended.
#[derive(Clone, Copy, Debug, PartialEq, Eq, Structural)]
pub enum IdentityJobOutcome {
    Completed { rows_done: usize },
    Cancelled { work_system_done: bool },
    Failed { work_system_done: bool },
    Skipped { rows_done: usize, work_system_done: bool },
}

/// How the whole identity phase ended.
#[derive(Clone, Copy, Debug, PartialEq, Eq, Structural)]
pub enum IdentityRunResult {
    Complete,
    Failed,
    Cancelled,
}

/// Running counts over the outcomes of the jobs that have finished.
#[derive(Clone, Copy, Debug, PartialEq, Eq, Structural)]
pub struct IdentityTally {
    pub completed: usize,
    pub cancelled: usize,
    pub failed: usize,
    pub skipped: usize,
    pub rows_done: usize,
    pub work_systems_done: usize,
}

pub open spec fn sat_add(a: usize, b: usize) -> usize {
    if a + b > usize::MAX {
        usize::MAX
    } else {
        (a + b) as usize
    }
}

/// The tally after one more job finished; `None` stands for a worker that
/// failed to join, which counts as a failure.
pub open spec fn tally_step(t: IdentityTally, o: Option<IdentityJobOutcome>) -> IdentityTally {
    match o {
        Some(IdentityJobOutcome::Completed { rows_done }) => IdentityTally {
            completed: (t.completed + 1) as usize,
            rows_done: sat_add(t.rows_done, rows_done),
            work_systems_done: (t.work_systems_done + 1) as usize,
            ..t
        },
        Some(IdentityJobOutcome::Cancelled { work_system_done }) => IdentityTally {
            cancelled: (t.cancelled + 1) as usize,
            work_systems_done: if work_system_done {
                (t.work_systems_done + 1) as usize
            } else {
                t.work_systems_done
            },
            ..t
        },
        Some(IdentityJobOutcome::Failed { work_system_done }) => IdentityTally {
            failed: (t.failed + 1) as usize,
            work_systems_done: if work_system_done {
                (t.work_systems_done + 1) as usize
            } else {
                t.work_systems_done
            },
            ..t
        },
        Some(IdentityJobOutcome::Skipped { rows_done, work_system_done }) => IdentityTally {
            skipped: (t.skipped + 1) as usize,
            rows_done: sat_add(t.rows_done, rows_done),
            work_systems_done: if work_system_done {
                (t.work_systems_done + 1) as usize
            } else {
                t.work_systems_done
            },
            ..t
        },
        None => IdentityTally { failed: (t.failed + 1) as usize, ..t },
    }
}

pub open spec fn empty_tally() -> IdentityTally {
    IdentityTally {
        completed: 0,
        cancelled: 0,
        failed: 0,
        skipped: 0,
        rows_done: 0,
        work_systems_done: 0,
    }
}

/// The tally of a sequence of outcomes.
pub open spec fn tally_of(os: Seq<Option<IdentityJobOutcome>>) -> IdentityTally
    decreases os.len(),
{
    if os.len() == 0 {
        empty_tally()
    } else {
        tally_step(tally_of(os.drop_last()), os.last())
    }
}

impl IdentityTally {
    pub open spec fn jobs(self) -> int {
        self.completed + self.cancelled + self.failed + self.skipped
    }

    pub fn new() -> (r: Self)
        ensures
            r == empty_tally(),
    {
        IdentityTally {
            completed: 0,
            cancelled: 0,
            failed: 0,
            skipped: 0,
            rows_done: 0,
            work_systems_done: 0,
        }
    }

    /// Counts one more finished job (`None`: the worker failed to join).
    pub fn record(&mut self, outcome: Option<IdentityJobOutcome>)
        requires
            old(self).jobs() < usize::MAX,
            old(self).work_systems_done <= old(self).jobs(),
        ensures
            *final(self) == tally_step(*old(self), outcome),
    {
        match outcome {
            Some(IdentityJobOutcome::Completed { rows_done }) => {
                self.completed += 1;
                self.rows_done = self.rows_done.saturating_add(rows_done);
                self.work_systems_done += 1;
            },
            Some(IdentityJobOutcome::Cancelled { work_system_done }) => {
                self.cancelled += 1;
                if work_system_done {
                    self.work_systems_done += 1;
                }
            },
            Some(IdentityJobOutcome::Failed { work_system_done }) => {
                self.failed += 1;
                if work_system_done {
                    self.work_systems_done += 1;
                }
            },
            Some(IdentityJobOutcome::Skipped { rows_done, work_system_done }) => {
                self.skipped += 1;
                self.rows_done = self.rows_done.saturating_add(rows_done);
                if work_system_done {
                    self.work_systems_done += 1;
                }
            },
            None => {
                self.failed += 1;
            },
        }
    }
}

/// The tally counts every finished job exactly once, and no more systems
/// are counted as worked than jobs finished.
pub proof fn law_tally_counts_every_job(os: Seq<Option<IdentityJobOutcome>>)
    requires
        os.len() < usize::MAX,
    ensures
        tally_of(os).jobs() == os.len(),
        tally_of(os).work_systems_done <= os.len(),
    decreases os.len(),
{
    if os.len() > 0 {
        law_tally_counts_every_job(os.drop_last());
    }
}

/// The progress counters shown while the identity phase runs.
#[derive(Clone, Copy, Debug, PartialEq, Eq, Structural)]
pub struct IdentityProgressCounts {
    pub rows_done: usize,
    pub rows_total: usize,
    pub systems_done: usize,
    pub systems_total: usize,
}

impl IdentityProgressCounts {
    pub open spec fn within_totals(self) -> bool {
        self.rows_done <= self.rows_total && self.systems_done <= self.systems_total
    }

    /// The counters at the start of the phase.
    pub fn initial(rows_total: usize, systems_total: usize) -> (r: Self)
        ensures
            r.rows_done == 0,
            r.systems_done == 0,
            r.rows_total == rows_total,
            r.systems_total == systems_total,
            r.within_totals(),
    {
        IdentityProgressCounts { rows_done: 0, rows_total, systems_done: 0, systems_total }
    }

    /// Brings the counters up to date after a job finished: rows never move
    /// backwards, and neither count exceeds its total.
    pub fn after_job(&mut self, tally: &IdentityTally)
        ensures
            final(self).rows_total == old(self).rows_total,
            final(self).systems_total == old(self).systems_total,
            final(self).rows_done == min_usize(
                max_usize(old(self).rows_done, tally.rows_done),
                old(self).rows_total,
            ),
            final(self).systems_done == min_usize(tally.work_systems_done, old(self).systems_total),
            final(self).within_totals(),
    {
        let rows = if self.rows_done > tally.rows_done {
            self.rows_done
        } else {
            tally.rows_done
        };
        self.rows_done = if rows < self.rows_total {
            rows
        } else {
            self.rows_total
        };
        self.systems_done = if tally.work_systems_done < self.systems_total {
            tally.work_systems_done
        } else {
            self.systems_total
        };
    }

    /// The final counters and result of the phase: cancelled when any job
    /// was cancelled, else failed when any failed; a complete phase reports
    /// every row and system as done.
    pub fn finish(&mut self, tally: &IdentityTally) -> (r: IdentityRunResult)
        ensures
            r == (if tally.cancelled > 0 {
                IdentityRunResult::Cancelled
            } else if tally.failed > 0 {
                IdentityRunResult::Failed
            } else {
                IdentityRunResult::Complete
            }),
            final(self).rows_total == old(self).rows_total,
            final(self).systems_total == old(self).systems_total,
            r == IdentityRunResult::Complete ==> final(self).rows_done == old(self).rows_total
                && final(self).systems_done == old(self).systems_total,
            r != IdentityRunResult::Complete ==> final(self).rows_done == min_usize(
                tally.rows_done,
                old(self).rows_total,
            ) && final(self).systems_done == min_usize(
                tally.work_systems_done,
                old(self).systems_total,
            ),
            final(self).within_totals(),
    {
        self.rows_done = if tally.rows_done < self.rows_total {
            tally.rows_done
        } else {
            self.rows_total
        };
        self.systems_done = if tally.work_systems_done < self.systems_total {
            tally.work_systems_done
        } else {
            self.systems_total
        };
        if tally.cancelled > 0 {
            IdentityRunResult::Cancelled
        } else if tally.failed > 0 {
            IdentityRunResult::Failed
        } else {
            self.rows_done = self.rows_total;
            self.systems_done = self.systems_total;
            IdentityRunResult::Complete
        }
    }
}

pub open spec fn min_usize(a: usize, b: usize) -> usize {
    if a < b {
        a
    } else {
        b
    }
}

pub open spec fn max_usize(a: usize, b: usize) -> usize {
    if a > b {
        a
    } else {
        b
    }
}

// ---------------------------------------------------------------------------
// One job.

/// Rows claimed per batch.
pub const IDENTITY_BATCH_SIZE: usize = 200;

/// Where a forced slice that starts at `offset` ends.
pub open spec fn batch_end(offset: int, len: int) -> int {
    if offset + IDENTITY_BATCH_SIZE < len {
        offset + IDENTITY_BATCH_SIZE
    } else {
        len
    }
}

/// What to claim next.
#[derive(Debug)]
pub enum ClaimStep {
    /// Claim these filenames (forced rehash).
    Filenames(Vec<String>),
    /// Claim the next pending batch of the system.
    NextBatch,
    /// Every forced candidate has been claimed.
    NoMore,
}

/// What to do with a claim's result.
#[derive(Clone, Copy, Debug, PartialEq, Eq, Structural)]
pub enum ClaimVerdict {
    /// Nothing claimed but forced candidates remain: claim again.
    Continue,
    /// Nothing left to claim: the job's loop ends.
    Stop,
    /// Every claimed row was already attempted in this run: the rows keep
    /// failing, so the job stops instead of re-claiming them forever.
    Stalled,
    /// Hash and resolve the claimed rows.
    Process,
}

pub open spec fn views(v: Seq<String>) -> Seq<Seq<char>> {
    v.map_values(|s: String| s@)
}

/// The state of one identity job.
pub struct IdentityJobRun {
    pub force_rehash: bool,
    /// Filenames to rehash, in order, when `force_rehash` is set.
    pub force_candidates: Vec<String>,
    /// How many forced candidates have been handed out.
    pub force_offset: usize,
    pub rows_done: usize,
    pub updated_rows: usize,
    pub claimed_any: bool,
    /// Filenames claimed so far in this run, each once.
    pub attempted: Vec<String>,
}

impl IdentityJobRun {
    pub open spec fn wf(&self) -> bool {
        &&& self.force_offset <= self.force_candidates.len()
        &&& views(self.attempted@).no_duplicates()
    }

    /// A job that has claimed nothing yet.
    pub fn new(force_rehash: bool, force_candidates: Vec<String>) -> (r: Self)
        ensures
            r.wf(),
            r.force_rehash == force_rehash,
            r.force_candidates@ == force_candidates@,
            r.force_offset == 0,
            r.rows_done == 0,
            r.updated_rows == 0,
            !r.claimed_any,
            r.attempted@.len() == 0,
    {
        let r = IdentityJobRun {
            force_rehash,
            force_candidates,
            force_offset: 0,
            rows_done: 0,
            updated_rows: 0,
            claimed_any: false,
            attempted: Vec::new(),
        };
        assert(views(r.attempted@) =~= Seq::<Seq<char>>::empty());
        r
    }

    /// The next claim: a forced job hands out its candidates in consecutive
    /// slices of at most [`IDENTITY_BATCH_SIZE`]; any other job claims the
    /// next pending batch.
    pub fn next_claim(&mut self) -> (r: ClaimStep)
        requires
            old(self).wf(),
        ensures
            final(self).wf(),
            final(self).force_candidates == old(self).force_candidates,
            final(self).force_rehash == old(self).force_rehash,
            final(self).attempted == old(self).attempted,
            final(self).rows_done == old(self).rows_done,
            final(self).updated_rows == old(self).updated_rows,
            final(self).claimed_any == old(self).claimed_any,
            !old(self).force_rehash ==> r is NextBatch && final(self).force_offset == old(
                self,
            ).force_offset,
            old(self).force_rehash && old(self).force_offset >= old(self).force_candidates.len()
                ==> r is NoMore && final(self).force_offset == old(self).force_offset,
            old(self).force_rehash && old(self).force_offset < old(self).force_candidates.len()
                ==> {
                let end = batch_end(old(self).force_offset as int, old(self).force_candidates.len() as int);
                &&& final(self).force_offset == end
                &&& r matches ClaimStep::Filenames(names) && names@ == old(
                    self,
                ).force_candidates@.subrange(old(self).force_offset as int, end as int)
            },
    {
        if !self.force_rehash {
            return ClaimStep::NextBatch;
        }
        if self.force_offset >= self.force_candidates.len() {
            return ClaimStep::NoMore;
        }
        let len = self.force_candidates.len();
        let end = if len - self.force_offset > IDENTITY_BATCH_SIZE {
            self.force_offset + IDENTITY_BATCH_SIZE
        } else {
            len
        };
        let mut names: Vec<String> = Vec::new();
        let mut i = self.force_offset;
        while i < end
            invariant
                self.force_offset <= i <= end <= self.force_candidates.len(),
                names@ == self.force_candidates@.subrange(self.force_offset as int, i as int),
            decreases end - i,
        {
            names.push(self.force_candidates[i].clone());
            assert(self.force_candidates@.subrange(self.force_offset as int, i + 1)
                =~= self.force_candidates@.subrange(self.force_offset as int, i as int).push(
                self.force_candidates@[i as int],
            ));
            i += 1;
        }
        self.force_offset = end;
        ClaimStep::Filenames(names)
    }

    /// Decides what to do with the filenames a claim returned. Every claim
    /// that is processed holds at least one filename not attempted before,
    /// and those filenames join the attempted ones.
    pub fn after_claim(&mut self, claimed: &Vec<String>) -> (r: ClaimVerdict)
        requires
            old(self).wf(),
        ensures
            final(self).wf(),
            final(self).force_candidates == old(self).force_candidates,
            final(self).force_rehash == old(self).force_rehash,
            final(self).force_offset == old(self).force_offset,
            final(self).rows_done == old(self).rows_done,
            final(self).updated_rows == old(self).updated_rows,
            claimed@.len() == 0 ==> final(self).attempted == old(self).attempted
                && final(self).claimed_any == old(self).claimed_any && r == (if old(
                self,
            ).force_rehash && old(self).force_offset < old(self).force_candidates.len() {
                ClaimVerdict::Continue
            } else {
                ClaimVerdict::Stop
            }),
            claimed@.len() > 0 ==> final(self).claimed_any,
            claimed@.len() > 0 ==> (r == ClaimVerdict::Stalled <==> (forall|i: int|
                0 <= i < claimed@.len() ==> views(old(self).attempted@).contains(
                    #[trigger] claimed@[i]@,
                ))),
            claimed@.len() > 0 ==> r == ClaimVerdict::Stalled || r == ClaimVerdict::Process,
            r == ClaimVerdict::Stalled ==> final(self).attempted == old(self).attempted,
            r == ClaimVerdict::Process ==> views(final(self).attempted@).len() > views(
                old(self).attempted@,
            ).len(),
            r == ClaimVerdict::Process ==> forall|x: Seq<char>|
                #[trigger] views(final(self).attempted@).contains(x) <==> (views(
                    old(self).attempted@,
                ).contains(x) || views(claimed@).contains(x)),
    {
        if claimed.len() == 0 {
            if self.force_rehash && self.force_offset < self.force_candidates.len() {
                return ClaimVerdict::Continue;
            }
            return ClaimVerdict::Stop;
        }
        self.claimed_any = true;
        let mut all_seen = true;
        let mut i: usize = 0;
        while i < claimed.len()
            invariant
                i <= claimed.len(),
                all_seen == (forall|k: int|
                    0 <= k < i ==> views(self.attempted@).contains(#[trigger] claimed@[k]@)),
            decreases claimed.len() - i,
        {
            if !self.contains_attempted(&claimed[i]) {
                all_seen = false;
            }
            i += 1;
        }
        if all_seen {
            return ClaimVerdict::Stalled;
        }
        let ghost before = views(self.attempted@);
        let mut j: usize = 0;
        while j < claimed.len()
            invariant
                j <= claimed.len(),
                views(self.attempted@).no_duplicates(),
                before.len() <= views(self.attempted@).len(),
                forall|x: Seq<char>|
                    #[trigger] views(self.attempted@).contains(x) <==> (before.contains(x)
                        || views(claimed@.take(j as int)).contains(x)),
                !all_seen,
                self.force_candidates == old(self).force_candidates,
                self.force_rehash == old(self).force_rehash,
                self.force_offset == old(self).force_offset,
                self.rows_done == old(self).rows_done,
                self.updated_rows == old(self).updated_rows,
                self.claimed_any,
                self.force_offset <= self.force_candidates.len(),
                !(forall|k: int| 0 <= k < claimed.len() ==> before.contains(#[trigger] claimed@[k]@)),
                (forall|k: int| 0 <= k < j ==> before.contains(#[trigger] claimed@[k]@))
                    ==> views(self.attempted@) == before,
                !(forall|k: int| 0 <= k < j ==> before.contains(#[trigger] claimed@[k]@))
                    ==> views(self.attempted@).len() > before.len(),
            decreases claimed.len() - j,
        {
            let ghost prev = views(self.attempted@);
            let name = &claimed[j];
            assert(views(claimed@.take(j + 1)) =~= views(claimed@.take(j as int)).push(name@));
            let ghost cj = views(claimed@.take(j as int));
            let ghost cj1 = views(claimed@.take(j + 1));
            proof {
                lemma_push_contains(cj, name@);
            }
            if !self.contains_attempted(name) {
                self.attempted.push(name.clone());
                proof {
                    let now = views(self.attempted@);
                    assert(now =~= prev.push(name@));
                    lemma_push_contains(prev, name@);
                    if before.contains(name@) {
                        assert(prev.contains(name@));
                    }
                    assert(now.no_duplicates()) by {
                        assert forall|p: int, q: int| 0 <= p < now.len() && 0 <= q < now.len() && p != q
                            implies now[p] != now[q] by {
                            if p == prev.len() {
                                assert(now[q] == prev[q]);
                                assert(!prev.contains(name@));
                                assert(prev[q] != name@);
                            } else if q == prev.len() {
                                assert(now[p] == prev[p]);
                                assert(!prev.contains(name@));
                                assert(prev[p] != name@);
                            } else {
                                assert(now[p] == prev[p]);
                                assert(now[q] == prev[q]);
                            }
                        }
                    }
                }
            } else {
                proof {
                    if !before.contains(name@) {
                        assert(prev.contains(name@));
                        assert(prev != before);
                    }
                }
            }
            j += 1;
        }
        proof {
            assert(claimed@.take(claimed@.len() as int) =~= claimed@);
        }
        ClaimVerdict::Process
    }

    fn contains_attempted(&self, name: &String) -> (r: bool)
        ensures
            r == views(self.attempted@).contains(name@),
    {
        let mut i: usize = 0;
        while i < self.attempted.len()
            invariant
                i <= self.attempted.len(),
                forall|k: int| 0 <= k < i ==> self.attempted@[k]@ != name@,
            decreases self.attempted.len() - i,
        {
            let a = &self.attempted[i];
            if string_eq(a, name) {
                assert(views(self.attempted@)[i as int] == name@);
                return true;
            }
            i += 1;
        }
        proof {
            if views(self.attempted@).contains(name@) {
                let k = choose|k: int|
                    0 <= k < views(self.attempted@).len() && views(self.attempted@)[k] == name@;
                assert(self.attempted@[k]@ == name@);
            }
        }
        false
    }

    /// Claimed rows whose ROMs are no longer present were handed back
    /// (`finished` of them).
    pub fn after_vanished_batch(&mut self, finished: usize)
        requires
            old(self).rows_done + finished <= usize::MAX,
        ensures
            final(self).rows_done == old(self).rows_done + finished,
            final(self).updated_rows == old(self).updated_rows,
            final(self).force_candidates == old(self).force_candidates,
            final(self).force_rehash == old(self).force_rehash,
            final(self).force_offset == old(self).force_offset,
            final(self).attempted == old(self).attempted,
            final(self).claimed_any == old(self).claimed_any,
    {
        self.rows_done = self.rows_done + finished;
    }

    /// Counts a hashed batch: `batch_updated` rows resolved and
    /// `unresolved` rows handed back. A batch whose hashing was interrupted
    /// ends the job as cancelled (after the system is re-enriched when any
    /// row was updated).
    pub fn after_batch(&mut self, batch_updated: usize, unresolved: usize, interrupted: bool) -> (r:
        Option<IdentityJobOutcome>)
        requires
            batch_updated + unresolved <= usize::MAX,
        ensures
            final(self).rows_done == sat_add(old(self).rows_done, (batch_updated + unresolved) as usize),
            final(self).updated_rows == sat_add(old(self).updated_rows, batch_updated),
            final(self).force_candidates == old(self).force_candidates,
            final(self).force_rehash == old(self).force_rehash,
            final(self).force_offset == old(self).force_offset,
            final(self).attempted == old(self).attempted,
            final(self).claimed_any == old(self).claimed_any,
            r == (if interrupted {
                Some(IdentityJobOutcome::Cancelled { work_system_done: true })
            } else {
                None
            }),
    {
        self.rows_done = self.rows_done.saturating_add(batch_updated + unresolved);
        self.updated_rows = self.updated_rows.saturating_add(batch_updated);
        if interrupted {
            Some(IdentityJobOutcome::Cancelled { work_system_done: true })
        } else {
            None
        }
    }

    /// Whether the system must be re-enriched before the job ends.
    pub fn needs_enrichment(&self) -> (r: bool)
        ensures
            r == (self.updated_rows > 0),
    {
        self.updated_rows > 0
    }

    /// How a job that left its loop ended: skipped when it claimed nothing,
    /// failed when the re-enrichment it needed failed, completed otherwise.
    pub fn finish(&self, enrichment_ok: bool) -> (r: IdentityJobOutcome)
        ensures
            r == (if !self.claimed_any {
                IdentityJobOutcome::Skipped { rows_done: 0, work_system_done: false }
            } else if self.updated_rows > 0 && !enrichment_ok {
                IdentityJobOutcome::Failed { work_system_done: true }
            } else {
                IdentityJobOutcome::Completed { rows_done: self.rows_done }
            }),
    {
        if !self.claimed_any {
            return IdentityJobOutcome::Skipped { rows_done: 0, work_system_done: false };
        }
        if self.updated_rows > 0 && !enrichment_ok {
            return IdentityJobOutcome::Failed { work_system_done: true };
        }
        IdentityJobOutcome::Completed { rows_done: self.rows_done }
    }
}

/// `String` equality.
fn string_eq(a: &String, b: &String) -> (r: bool)
    ensures
        r == (a@ == b@),
{
    a.eq(b)
}

proof fn lemma_push_contains(s: Seq<Seq<char>>, e: Seq<char>)
    ensures
        forall|x: Seq<char>| #[trigger] s.push(e).contains(x) <==> (s.contains(x) || x == e),
{
    assert forall|x: Seq<char>| #[trigger] s.push(e).contains(x) <==> (s.contains(x) || x == e) by {
        if s.push(e).contains(x) {
            let k = choose|k: int| 0 <= k < s.push(e).len() && #[trigger] s.push(e)[k] == x;
            if k < s.len() {
                assert(s[k] == x);
            }
        }
        if s.contains(x) {
            let k = choose|k: int| 0 <= k < s.len() && #[trigger] s[k] == x;
            assert(s.push(e)[k] == x);
        }
        if x == e {
            assert(s.push(e)[s.len() as int] == x);
        }
    }
}

/// A job's forced claims never overlap and never skip a candidate: two
/// successive claims hand out adjacent slices of the candidate list.
pub proof fn law_forced_claims_are_adjacent(candidates: Seq<String>, offset: usize)
    requires
        offset < candidates.len(),
    ensures
        ({
            let end = batch_end(offset as int, candidates.len() as int);
            &&& offset < end <= candidates.len()
            &&& end - offset <= IDENTITY_BATCH_SIZE
            &&& candidates.subrange(0, offset as int) + candidates.subrange(
                offset as int,
                end as int,
            ) == candidates.subrange(0, end as int)
        }),
{
    let end = batch_end(offset as int, candidates.len() as int);
    assert(candidates.subrange(0, offset as int) + candidates.subrange(offset as int, end as int)
        =~= candidates.subrange(0, end as int));
}

// ---------------------------------------------------------------------------
// Starting the phase.

/// The identity phase runs only when some system was queued for it.
pub fn identity_jobs_queued(jobs: usize) -> (r: bool)
    ensures
        r == (jobs > 0),
{
    jobs > 0
}

/// After counting the queued work: no activity is claimed when no row needs
/// identifying; otherwise the phase starts with these counters.
pub fn identity_work(work_rows: usize, work_systems: usize) -> (r: Option<IdentityProgressCounts>)
    ensures
        r is None <==> work_rows == 0,
        r matches Some(c) ==> c.rows_done == 0 && c.systems_done == 0 && c.rows_total == work_rows
            && c.systems_total == work_systems,
{
    if work_rows == 0 {
        None
    } else {
        Some(IdentityProgressCounts::initial(work_rows, work_systems))
    }
}

/// One turn of the wait for the activity slot.
#[derive(Clone, Copy, Debug, PartialEq, Eq, Structural)]
pub enum ClaimAttempt {
    /// The storage was swapped: the queued work is void.
    GiveUp,
    /// Nothing runs: try to claim the slot.
    TryClaim,
    /// Another activity runs: wait and look again.
    Wait,
}

/// The next turn of the wait for the activity slot.
pub fn identity_claim_attempt(current_generation: u64, generation: u64, idle: bool) -> (r: ClaimAttempt)
    ensures
        r == (if current_generation != generation {
            ClaimAttempt::GiveUp
        } else if idle {
            ClaimAttempt::TryClaim
        } else {
            ClaimAttempt::Wait
        }),
{
    if current_generation != generation {
        ClaimAttempt::GiveUp
    } else if idle {
        ClaimAttempt::TryClaim
    } else {
        ClaimAttempt::Wait
    }
}

/// The worker slots of the phase: at most `limit` jobs run at once.
#[derive(Clone, Copy, Debug, PartialEq, Eq, Structural)]
pub struct WorkerSlots {
    pub running: usize,
    pub limit: usize,
}

impl WorkerSlots {
    pub open spec fn wf(&self) -> bool {
        self.running <= self.limit
    }

    /// No job runs yet.
    pub fn new(limit: usize) -> (r: Self)
        ensures
            r.wf(),
            r.running == 0,
            r.limit == limit,
    {
        WorkerSlots { running: 0, limit }
    }

    /// A job may start when a slot is free; it then holds the slot.
    pub fn try_acquire(&mut self) -> (r: bool)
        requires
            old(self).wf(),
        ensures
            final(self).wf(),
            final(self).limit == old(self).limit,
            r == (old(self).running < old(self).limit),
            final(self).running == old(self).running + (if r {
                1int
            } else {
                0
            }),
    {
        if self.running < self.limit {
            self.running = self.running + 1;
            true
        } else {
            false
        }
    }

    /// A job ended and gives its slot back.
    pub fn release(&mut self)
        requires
            old(self).wf(),
            old(self).running > 0,
        ensures
            final(self).wf(),
            final(self).limit == old(self).limit,
            final(self).running == old(self).running - 1,
    {
        self.running = self.running - 1;
    }
}

} // verus!
