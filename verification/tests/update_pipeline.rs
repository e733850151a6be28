use replay_control::activity::{
    Activity, AppState, RebuildPhase, RebuildProgress, RefreshMetadataPhase,
    RefreshMetadataProgress, StartupPhase, UpdatePhase,
};
use replay_control::pipeline::{
    after_enrichment, fail_refresh_metadata, launchbox_refresh_reason, report_rebuild_start,
    report_system, PopulateProgress, RefreshReason,
    PopulateTally, ScanDecision, SystemScan, PIPELINE_ACTIVITY_RETRY_ATTEMPTS,
};
use replay_control::update_flow::{
    check_disk_space, initial_update_activity, invalid_tag_message, release_version,
    report_download, report_installing, report_restarting, report_update_failed, update_sizes,
    update_timeout_message, update_total, DownloadStage, UpdateSizes, UPDATE_TIMEOUT_SECS,
};

fn update_board() -> AppState {
    let mut b = AppState::new();
    b.try_start_activity(initial_update_activity()).unwrap();
    b
}

fn update_of(b: &AppState) -> &replay_control::activity::UpdateProgress {
    match b.activity() {
        Activity::Update { progress } => progress,
        _ => panic!("not an update"),
    }
}

#[test]
fn versions_and_messages() {
    assert_eq!(release_version("v0.5.0"), "0.5.0");
    assert_eq!(release_version("0.5.0"), "0.5.0");
    assert_eq!(release_version("vv1"), "v1");
    assert_eq!(release_version(""), "");
    assert_eq!(invalid_tag_message("bad tag"), "Invalid version tag: bad tag");
    assert_eq!(update_timeout_message(), "Update timed out after 5 minutes");
    assert_eq!(UPDATE_TIMEOUT_SECS, 300);
}

#[test]
fn sizes_and_disk_space() {
    let announced = UpdateSizes { binary: 10, site: 20, catalog: 30 };
    assert_eq!(update_sizes(Some(announced), true), announced);
    assert_eq!(update_sizes(Some(announced), false).catalog, 0);
    assert_eq!(update_sizes(None, true), UpdateSizes { binary: 0, site: 0, catalog: 0 });
    assert_eq!(update_total(&announced), 60);
    assert_eq!(check_disk_space(0, 0), Ok(()));
    assert_eq!(check_disk_space(100, 200), Ok(()));
    assert_eq!(
        check_disk_space(3 * 1024 * 1024, 5 * 1024 * 1024),
        Err("Insufficient disk space: need 6 MB, have 5 MB".to_string())
    );
}

#[test]
fn update_progress_through_its_phases() {
    let mut b = update_board();
    let p = update_of(&b);
    assert_eq!(p.phase, UpdatePhase::Downloading);
    assert_eq!(p.phase_detail, "Resolving download URLs...");
    let sizes = UpdateSizes { binary: 100, site: 50, catalog: 25 };
    report_download(&mut b, DownloadStage::Binary, 40, &sizes, 1);
    assert_eq!(update_of(&b).downloaded_bytes, 40);
    assert_eq!(update_of(&b).total_bytes, 175);
    assert_eq!(update_of(&b).phase_detail, "Downloading binary...");
    report_download(&mut b, DownloadStage::Site, 10, &sizes, 2);
    assert_eq!(update_of(&b).downloaded_bytes, 110);
    assert_eq!(update_of(&b).phase_detail, "Downloading site assets...");
    report_download(&mut b, DownloadStage::Catalog, 5, &sizes, 3);
    assert_eq!(update_of(&b).downloaded_bytes, 155);
    assert_eq!(update_of(&b).phase_detail, "Downloading catalog...");
    report_installing(&mut b, 4);
    assert_eq!(update_of(&b).phase, UpdatePhase::Installing);
    assert_eq!(update_of(&b).phase_detail, "Extracting archives...");
    report_restarting(&mut b, 5);
    assert_eq!(update_of(&b).phase, UpdatePhase::Restarting);
    assert_eq!(update_of(&b).phase_detail, "Restarting service...");
    assert_eq!(update_of(&b).elapsed_secs, 5);
}

#[test]
fn failed_update_records_its_error() {
    let mut b = update_board();
    report_update_failed(&mut b, "checksum mismatch", 7);
    let p = update_of(&b);
    assert_eq!(p.phase, UpdatePhase::Failed);
    assert_eq!(p.phase_detail, "checksum mismatch");
    assert_eq!(p.error.as_deref(), Some("checksum mismatch"));
    assert_eq!(b.activity().terminal_message(), "Update failed: checksum mismatch");
}

#[test]
fn update_reports_leave_other_activities_alone() {
    let mut b = AppState::new();
    b.try_start_activity(Activity::Startup { phase: StartupPhase::Scanning, system: String::new() })
        .unwrap();
    report_installing(&mut b, 1);
    report_update_failed(&mut b, "x", 1);
    assert!(b.is_startup_scanning());
}

#[test]
fn populate_reports_into_startup_and_rebuild() {
    let mut b = AppState::new();
    b.try_start_activity(Activity::Startup { phase: StartupPhase::Scanning, system: String::new() })
        .unwrap();
    report_system(&mut b, PopulateProgress::Startup, 3, "Super Nintendo", true, 9);
    match b.activity() {
        Activity::Startup { phase, system } => {
            assert_eq!(*phase, StartupPhase::Scanning);
            assert_eq!(system, "Super Nintendo");
        }
        _ => panic!("not startup"),
    }

    let mut r = AppState::new();
    r.try_start_activity(Activity::Rebuild { progress: RebuildProgress::initial(true) }).unwrap();
    report_rebuild_start(&mut r, 12, 0);
    report_system(&mut r, PopulateProgress::Rebuild { start_ms: 100 }, 2, "Mega Drive", false, 4);
    match r.activity() {
        Activity::Rebuild { progress } => {
            assert_eq!(progress.systems_total, 12);
            assert_eq!(progress.systems_done, 2);
            assert_eq!(progress.current_system, "Mega Drive");
            assert_eq!(progress.phase, RebuildPhase::Scanning);
            assert!(progress.is_rescan);
        }
        _ => panic!("not rebuild"),
    }
    report_system(&mut r, PopulateProgress::Rebuild { start_ms: 100 }, 2, "Mega Drive", true, 5);
    match r.activity() {
        Activity::Rebuild { progress } => assert_eq!(progress.phase, RebuildPhase::Enriching),
        _ => panic!("not rebuild"),
    }
}

#[test]
fn refresh_failure_is_recorded() {
    let mut b = AppState::new();
    b.try_start_activity(Activity::RefreshExternalMetadata { progress: RefreshMetadataProgress::initial() })
        .unwrap();
    fail_refresh_metadata(&mut b, "download failed".to_string(), 8);
    assert_eq!(b.activity().terminal_message(), "Metadata refresh failed: download failed");
    match b.activity() {
        Activity::RefreshExternalMetadata { progress } => {
            assert_eq!(progress.phase, RefreshMetadataPhase::Failed);
            assert_eq!(progress.elapsed_secs, 8);
        }
        _ => panic!("not a refresh"),
    }
}

#[test]
fn populate_decisions() {
    assert_eq!(PIPELINE_ACTIVITY_RETRY_ATTEMPTS, 240);
    assert_eq!(PopulateProgress::Startup.rebuild_start(), None);
    assert_eq!(PopulateProgress::Rebuild { start_ms: 7 }.rebuild_start(), Some(7));
    let mut t = PopulateTally::new();
    assert_eq!(
        t.after_scan(SystemScan::Scanned { roms: 10, discovery_changed: true }, true),
        ScanDecision::Enrich { queue_identity: true }
    );
    assert_eq!(
        t.after_scan(SystemScan::Scanned { roms: 5, discovery_changed: false }, true),
        ScanDecision::NextSystem
    );
    assert_eq!(
        t.after_scan(SystemScan::Scanned { roms: 0, discovery_changed: true }, true),
        ScanDecision::Enrich { queue_identity: false }
    );
    assert_eq!(
        t.after_scan(SystemScan::Scanned { roms: 3, discovery_changed: true }, false),
        ScanDecision::Enrich { queue_identity: false }
    );
    assert_eq!(t.after_scan(SystemScan::Failed, true), ScanDecision::NextSystem);
    assert_eq!(t.after_scan(SystemScan::StorageChanged, true), ScanDecision::Abort);
    assert_eq!(t.total_roms, 18);
    assert_eq!(t.identity_jobs, 1);
    assert!(after_enrichment(true, true));
    assert!(!after_enrichment(true, false));
    assert!(!after_enrichment(false, false));
}

#[test]
fn launchbox_import_is_skipped_when_every_stamp_matches() {
    assert_eq!(launchbox_refresh_reason(Some("abc123"), "abc123", Some("7"), 7, Some("p1"), "p1"), None);
    // `str::parse` accepts a leading `+` and leading zeros.
    assert_eq!(launchbox_refresh_reason(Some("abc123"), "abc123", Some("+007"), 7, Some("p1"), "p1"), None);
}

#[test]
fn launchbox_import_reasons_come_in_order() {
    assert_eq!(
        launchbox_refresh_reason(Some("old"), "new", Some("1"), 7, Some("p0"), "p1"),
        Some(RefreshReason::XmlChanged)
    );
    assert_eq!(
        launchbox_refresh_reason(None, "new", Some("7"), 7, Some("p1"), "p1"),
        Some(RefreshReason::XmlChanged)
    );
    assert_eq!(
        launchbox_refresh_reason(Some("h"), "h", Some("6"), 7, Some("p0"), "p1"),
        Some(RefreshReason::NormalizerChanged)
    );
    assert_eq!(
        launchbox_refresh_reason(Some("h"), "h", None, 7, Some("p1"), "p1"),
        Some(RefreshReason::NormalizerChanged)
    );
    assert_eq!(
        launchbox_refresh_reason(Some("h"), "h", Some("seven"), 7, Some("p1"), "p1"),
        Some(RefreshReason::NormalizerChanged)
    );
    assert_eq!(
        launchbox_refresh_reason(Some("h"), "h", Some("4294967303"), 7, Some("p1"), "p1"),
        Some(RefreshReason::NormalizerChanged)
    );
    assert_eq!(
        launchbox_refresh_reason(Some("h"), "h", Some("7"), 7, Some("p0"), "p1"),
        Some(RefreshReason::PlatformMapChanged)
    );
    assert_eq!(
        launchbox_refresh_reason(Some("h"), "h", Some("7"), 7, None, "p1"),
        Some(RefreshReason::PlatformMapChanged)
    );
}
