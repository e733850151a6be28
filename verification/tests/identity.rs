use replay_control::identity::{
    ClaimStep, ClaimVerdict, IdentityJobOutcome, IdentityJobRun, IdentityProgressCounts,
    IdentityRunResult, IdentityTally, IDENTITY_BATCH_SIZE,
};

fn names(prefix: &str, n: usize) -> Vec<String> {
    (0..n).map(|i| format!("{prefix}{i}.zip")).collect()
}

#[test]
fn tally_counts_every_job() {
    let mut t = IdentityTally::new();
    t.record(Some(IdentityJobOutcome::Completed { rows_done: 10 }));
    t.record(Some(IdentityJobOutcome::Skipped { rows_done: 0, work_system_done: false }));
    t.record(Some(IdentityJobOutcome::Failed { work_system_done: true }));
    t.record(None);
    t.record(Some(IdentityJobOutcome::Cancelled { work_system_done: true }));
    assert_eq!(t.completed, 1);
    assert_eq!(t.skipped, 1);
    assert_eq!(t.failed, 2);
    assert_eq!(t.cancelled, 1);
    assert_eq!(t.completed + t.skipped + t.failed + t.cancelled, 5);
    assert_eq!(t.rows_done, 10);
    assert_eq!(t.work_systems_done, 3);
}

#[test]
fn progress_never_exceeds_totals() {
    let mut p = IdentityProgressCounts::initial(100, 3);
    let mut t = IdentityTally::new();
    t.record(Some(IdentityJobOutcome::Completed { rows_done: 250 }));
    p.after_job(&t);
    assert_eq!(p.rows_done, 100);
    assert_eq!(p.systems_done, 1);
    let earlier = IdentityTally::new();
    p.after_job(&earlier);
    assert_eq!(p.rows_done, 100);
    assert_eq!(p.systems_done, 0);
}

#[test]
fn phase_result_prefers_cancelled_then_failed() {
    let mut t = IdentityTally::new();
    t.record(Some(IdentityJobOutcome::Completed { rows_done: 4 }));
    let mut p = IdentityProgressCounts::initial(10, 2);
    assert_eq!(p.finish(&t), IdentityRunResult::Complete);
    assert_eq!(p.rows_done, 10);
    assert_eq!(p.systems_done, 2);

    t.record(Some(IdentityJobOutcome::Failed { work_system_done: true }));
    let mut p = IdentityProgressCounts::initial(10, 2);
    assert_eq!(p.finish(&t), IdentityRunResult::Failed);

    t.record(Some(IdentityJobOutcome::Cancelled { work_system_done: false }));
    let mut p = IdentityProgressCounts::initial(10, 2);
    assert_eq!(p.finish(&t), IdentityRunResult::Cancelled);
}

#[test]
fn forced_claims_hand_out_adjacent_slices() {
    let candidates = names("rom", IDENTITY_BATCH_SIZE + 5);
    let mut run = IdentityJobRun::new(true, candidates.clone());
    match run.next_claim() {
        ClaimStep::Filenames(first) => assert_eq!(first, candidates[..IDENTITY_BATCH_SIZE].to_vec()),
        other => panic!("unexpected {other:?}"),
    }
    match run.next_claim() {
        ClaimStep::Filenames(second) => assert_eq!(second, candidates[IDENTITY_BATCH_SIZE..].to_vec()),
        other => panic!("unexpected {other:?}"),
    }
    assert!(matches!(run.next_claim(), ClaimStep::NoMore));
}

#[test]
fn unforced_jobs_claim_pending_batches() {
    let mut run = IdentityJobRun::new(false, Vec::new());
    assert!(matches!(run.next_claim(), ClaimStep::NextBatch));
    assert!(matches!(run.next_claim(), ClaimStep::NextBatch));
}

#[test]
fn empty_claims_continue_only_while_forced_candidates_remain() {
    let mut forced = IdentityJobRun::new(true, names("a", 3));
    assert_eq!(forced.after_claim(&Vec::new()), ClaimVerdict::Continue);
    let _ = forced.next_claim();
    assert_eq!(forced.after_claim(&Vec::new()), ClaimVerdict::Stop);
    let mut plain = IdentityJobRun::new(false, Vec::new());
    assert_eq!(plain.after_claim(&Vec::new()), ClaimVerdict::Stop);
}

#[test]
fn reclaiming_only_attempted_rows_stalls() {
    let mut run = IdentityJobRun::new(false, Vec::new());
    let batch = names("b", 2);
    assert_eq!(run.after_claim(&batch), ClaimVerdict::Process);
    assert!(run.claimed_any);
    assert_eq!(run.attempted, batch);
    assert_eq!(run.after_claim(&batch), ClaimVerdict::Stalled);
    let mut mixed = batch.clone();
    mixed.push("new.zip".to_string());
    assert_eq!(run.after_claim(&mixed), ClaimVerdict::Process);
    assert_eq!(run.attempted.len(), 3);
}

#[test]
fn job_outcomes() {
    let run = IdentityJobRun::new(false, Vec::new());
    assert_eq!(
        run.finish(true),
        IdentityJobOutcome::Skipped { rows_done: 0, work_system_done: false }
    );

    let mut run = IdentityJobRun::new(false, Vec::new());
    run.after_claim(&names("c", 2));
    assert_eq!(run.after_batch(1, 1, false), None);
    assert_eq!(run.rows_done, 2);
    assert!(run.needs_enrichment());
    assert_eq!(run.finish(false), IdentityJobOutcome::Failed { work_system_done: true });
    assert_eq!(run.finish(true), IdentityJobOutcome::Completed { rows_done: 2 });

    let mut run = IdentityJobRun::new(false, Vec::new());
    run.after_claim(&names("d", 1));
    run.after_vanished_batch(4);
    assert_eq!(run.rows_done, 4);
    assert!(!run.needs_enrichment());
    assert_eq!(
        run.after_batch(0, 0, true),
        Some(IdentityJobOutcome::Cancelled { work_system_done: true })
    );
}
