use replay_control::activity::{
    Activity, AppState, ImportProgress, ImportState, MaintenanceKind, RebuildPhase,
    RebuildProgress, RefreshMetadataPhase, RefreshMetadataProgress, StartupPhase, ThumbnailPhase,
    ThumbnailProgress, UpdatePhase, UpdateProgress,
};

fn startup_scanning() -> Activity {
    Activity::Startup { phase: StartupPhase::Scanning, system: String::new() }
}

fn thumbnails(phase: ThumbnailPhase, error: Option<&str>) -> Activity {
    Activity::ThumbnailUpdate {
        progress: ThumbnailProgress {
            phase,
            current_label: String::new(),
            step_done: 0,
            step_total: 0,
            downloaded: 7,
            entries_indexed: 120,
            elapsed_secs: 42,
            error: error.map(|e| e.to_string()),
        },
    }
}

fn rebuild(phase: RebuildPhase, is_rescan: bool, error: Option<&str>) -> Activity {
    let mut progress = RebuildProgress::initial(is_rescan);
    progress.phase = phase;
    progress.elapsed_secs = 9;
    progress.error = error.map(|e| e.to_string());
    Activity::Rebuild { progress }
}

fn import(state: ImportState, error: Option<&str>) -> Activity {
    Activity::Import {
        progress: ImportProgress {
            state,
            matched: 10,
            inserted: 3,
            elapsed_secs: 5,
            error: error.map(|e| e.to_string()),
        },
    }
}

fn update(phase: UpdatePhase, error: Option<&str>) -> Activity {
    Activity::Update {
        progress: UpdateProgress {
            phase,
            downloaded_bytes: 0,
            total_bytes: 0,
            phase_detail: String::new(),
            elapsed_secs: 12,
            error: error.map(|e| e.to_string()),
        },
    }
}

fn refresh(phase: RefreshMetadataPhase, source_entries: usize, error: Option<&str>) -> Activity {
    let mut progress = RefreshMetadataProgress::initial();
    progress.phase = phase;
    progress.source_entries = source_entries;
    progress.elapsed_secs = 4;
    progress.error = error.map(|e| e.to_string());
    Activity::RefreshExternalMetadata { progress }
}

// The activity slot is set to the startup pipeline, stays set while it
// runs, and is idle again once the run ends.
#[test]
fn activity_activity_guard_resets_to_idle_on_drop() {
    let mut board = AppState::new();
    assert!(board.try_start_activity(startup_scanning()).is_ok());
    assert!(matches!(board.activity(), Activity::Startup { .. }));
    assert!(matches!(board.activity(), Activity::Startup { .. }));
    board.finish();
    assert!(matches!(board.activity(), Activity::Idle));
}

#[test]
fn mod_activity_guard_resets_to_idle_on_drop() {
    let mut board = AppState::new();
    board.update_activity(startup_scanning());
    assert!(matches!(board.activity(), Activity::Startup { .. }));
    assert!(matches!(board.activity(), Activity::Startup { .. }));
    board.finish();
    assert!(matches!(board.activity(), Activity::Idle));
}

#[test]
fn second_activity_is_refused_while_one_runs() {
    let mut board = AppState::new();
    assert!(board.is_idle());
    assert!(board.try_start_activity(Activity::Maintenance { kind: MaintenanceKind::ClearImages }).is_ok());
    assert!(!board.is_idle());
    let refused = board.try_start_activity(startup_scanning());
    assert_eq!(refused, Err("Another operation is already running"));
    assert!(matches!(
        board.activity(),
        Activity::Maintenance { kind: MaintenanceKind::ClearImages }
    ));
    board.finish();
    assert!(board.is_idle());
    assert!(board.try_start_activity(startup_scanning()).is_ok());
    assert!(board.is_startup_scanning());
}

#[test]
fn startup_scanning_only_in_scanning_phase() {
    let mut board = AppState::new();
    assert!(!board.is_startup_scanning());
    board.update_activity(Activity::Startup {
        phase: StartupPhase::RebuildingIndex,
        system: String::new(),
    });
    assert!(!board.is_startup_scanning());
    board.update_activity(startup_scanning());
    assert!(board.is_startup_scanning());
}

#[test]
fn only_thumbnail_updates_can_be_cancelled() {
    let mut board = AppState::new();
    assert!(!board.request_cancel());
    assert!(!board.cancel_requested);
    board.try_start_activity(rebuild(RebuildPhase::Scanning, false, None)).unwrap();
    assert!(!board.request_cancel());
    assert!(!board.cancel_requested);
    board.finish();
    board.try_start_activity(thumbnails(ThumbnailPhase::Downloading, None)).unwrap();
    assert!(board.request_cancel());
    assert!(board.cancel_requested);
    board.finish();
    assert!(!board.cancel_requested);
}

#[test]
fn initial_progress_values() {
    let r = RefreshMetadataProgress::initial();
    assert_eq!(r.phase, RefreshMetadataPhase::Checking);
    assert_eq!(r.source_entries, 0);
    assert_eq!(r.downloaded_bytes, 0);
    assert_eq!(r.total_bytes, None);
    assert_eq!(r.error, None);
    let b = RebuildProgress::initial(true);
    assert_eq!(b.phase, RebuildPhase::Scanning);
    assert!(b.is_rescan);
    assert_eq!(b.systems_done, 0);
    assert!(b.current_system.is_empty());
    assert!(!RebuildProgress::initial(false).is_rescan);
}

#[test]
fn terminal_states() {
    assert!(!Activity::Idle.is_terminal());
    assert!(!startup_scanning().is_terminal());
    assert!(!import(ImportState::Running, None).is_terminal());
    assert!(import(ImportState::Complete, None).is_terminal());
    assert!(import(ImportState::Failed, None).is_terminal());
    assert!(thumbnails(ThumbnailPhase::Cancelled, None).is_terminal());
    assert!(!thumbnails(ThumbnailPhase::Indexing, None).is_terminal());
    assert!(rebuild(RebuildPhase::Complete, false, None).is_terminal());
    assert!(!rebuild(RebuildPhase::Enriching, false, None).is_terminal());
    assert!(update(UpdatePhase::Failed, None).is_terminal());
    assert!(!update(UpdatePhase::Restarting, None).is_terminal());
    assert!(refresh(RefreshMetadataPhase::UpToDate, 0, None).is_terminal());
    assert!(!refresh(RefreshMetadataPhase::Parsing, 0, None).is_terminal());
    assert!(!Activity::Maintenance { kind: MaintenanceKind::CleanupOrphans }.is_terminal());
}

#[test]
fn terminal_messages() {
    assert_eq!(
        import(ImportState::Complete, None).terminal_message(),
        "Import complete: 10 matched, 3 inserted (5s)"
    );
    assert_eq!(
        import(ImportState::Failed, Some("bad file")).terminal_message(),
        "Import failed: bad file"
    );
    assert_eq!(
        import(ImportState::Failed, None).terminal_message(),
        "Import failed: unknown error"
    );
    assert_eq!(
        thumbnails(ThumbnailPhase::Complete, None).terminal_message(),
        "Complete: 120 indexed, 7 downloaded (42s)"
    );
    assert_eq!(
        thumbnails(ThumbnailPhase::Cancelled, None).terminal_message(),
        "Cancelled after 42s (7 downloaded)"
    );
    assert_eq!(
        thumbnails(ThumbnailPhase::Failed, Some("offline")).terminal_message(),
        "Failed: offline"
    );
    assert_eq!(
        rebuild(RebuildPhase::Complete, false, None).terminal_message(),
        "Rebuild complete (9s)"
    );
    assert_eq!(
        rebuild(RebuildPhase::Complete, true, None).terminal_message(),
        "Rescan complete (9s)"
    );
    assert_eq!(
        rebuild(RebuildPhase::Failed, true, Some("disk")).terminal_message(),
        "Rescan failed: disk"
    );
    assert_eq!(update(UpdatePhase::Complete, None).terminal_message(), "Update complete (12s)");
    assert_eq!(
        update(UpdatePhase::Failed, Some("checksum")).terminal_message(),
        "Update failed: checksum"
    );
    assert_eq!(
        refresh(RefreshMetadataPhase::Complete, 0, None).terminal_message(),
        "Metadata refresh complete (4s)"
    );
    assert_eq!(
        refresh(RefreshMetadataPhase::Complete, 250, None).terminal_message(),
        "Metadata refresh complete (4s, 250 source entries)"
    );
    assert_eq!(
        refresh(RefreshMetadataPhase::Failed, 0, Some("timeout")).terminal_message(),
        "Metadata refresh failed: timeout"
    );
    assert_eq!(
        refresh(RefreshMetadataPhase::UpToDate, 0, None).terminal_message(),
        "Metadata already up to date"
    );
}

#[test]
fn non_terminal_activities_have_no_message() {
    assert_eq!(Activity::Idle.terminal_message(), "");
    assert_eq!(startup_scanning().terminal_message(), "");
    assert_eq!(rebuild(RebuildPhase::Scanning, true, None).terminal_message(), "");
    assert_eq!(update(UpdatePhase::Downloading, None).terminal_message(), "");
    assert_eq!(refresh(RefreshMetadataPhase::Downloading, 3, None).terminal_message(), "");
}
