//! Progress reporting and per-system decisions of the library populate
//! (the boot pipeline's scan, and the user's rebuild or rescan).
//!
//! The caller scans, enriches and queues identity work for each system and
//! reports what happened; these functions keep the activity's progress and
//! say what to do next.
use vstd::prelude::*;

use crate::activity::{
    Activity, AppState, RebuildPhase, RebuildProgress, RefreshMetadataPhase,
    RefreshMetadataProgress,
};
use crate::text::{same_chars, to_chars};
use crate::tuning::{opt_view, parse_u32, unsigned_value};

verus! {

/// How often, and how far apart (in milliseconds), the startup pipeline
/// tries to claim the activity slot before it gives up.
pub const PIPELINE_ACTIVITY_RETRY_ATTEMPTS: usize = 240;

pub const PIPELINE_ACTIVITY_RETRY_DELAY_MS: u64 = 250;

/// Which activity a populate reports into.
#[derive(Clone, Copy, Debug, PartialEq, Eq, Structural)]
pub enum PopulateProgress {
    /// The boot pipeline (or a post-import scan): `Activity::Startup`.
    Startup,
    /// The user's rebuild or rescan: `Activity::Rebuild`, started at
    /// `start_ms` (milliseconds of a monotonic clock).
    Rebuild { start_ms: u64 },
}

impl PopulateProgress {
    /// When the rebuild started; `None` for the boot pipeline.
    pub fn rebuild_start(&self) -> (r: Option<u64>)
        ensures
            r == (match *self {
                PopulateProgress::Startup => None,
                PopulateProgress::Rebuild { start_ms } => Some(start_ms),
            }),
    {
        match self {
            PopulateProgress::Startup => None,
            PopulateProgress::Rebuild { start_ms } => Some(*start_ms),
        }
    }
}

pub open spec fn rebuild_progress(a: Activity) -> Option<RebuildProgress> {
    match a {
        Activity::Rebuild { progress } => Some(progress),
        _ => None,
    }
}

/// The state after an update of a rebuild's progress: the progress changed
/// as `changed` says when a rebuild runs, the state unchanged otherwise.
pub open spec fn rebuild_reported(
    before: AppState,
    after: AppState,
    changed: spec_fn(RebuildProgress, RebuildProgress) -> bool,
) -> bool {
    &&& after.cancel_requested == before.cancel_requested
    &&& (before.current is Rebuild) == (after.current is Rebuild)
    &&& !(before.current is Rebuild) ==> after.current == before.current
    &&& before.current is Rebuild ==> changed(
        rebuild_progress(before.current)->0,
        rebuild_progress(after.current)->0,
    )
}

/// A rebuild's populate starts: scanning, no system yet, `total` to go.
pub fn report_rebuild_start(state: &mut AppState, total: usize, elapsed_secs: u64)
    ensures
        rebuild_reported(
            *old(state),
            *final(state),
            |p0: RebuildProgress, p: RebuildProgress|
                {
                    &&& p.phase == RebuildPhase::Scanning
                    &&& p.current_system@ == Seq::<char>::empty()
                    &&& p.systems_done == 0
                    &&& p.systems_total == total
                    &&& p.elapsed_secs == elapsed_secs
                    &&& p.error == p0.error
                    &&& p.is_rescan == p0.is_rescan
                },
        ),
{
    match &mut state.current {
        Activity::Rebuild { progress } => {
            progress.phase = RebuildPhase::Scanning;
            progress.current_system = String::new();
            progress.systems_done = 0;
            progress.systems_total = total;
            progress.elapsed_secs = elapsed_secs;
        },
        _ => {},
    }
}

/// Reports the system a populate works on (the `i`-th, by display name),
/// scanning it or enriching it. The startup activity shows only the name;
/// a rebuild also counts the systems done and its phase follows `enriching`.
pub fn report_system(
    state: &mut AppState,
    progress: PopulateProgress,
    i: usize,
    display_name: &str,
    enriching: bool,
    elapsed_secs: u64,
)
    ensures
        final(state).cancel_requested == old(state).cancel_requested,
        progress == PopulateProgress::Startup ==> match old(state).current {
            Activity::Startup { phase, .. } => final(state).current matches Activity::Startup {
                phase: p,
                system,
            } && p == phase && system@ == display_name@,
            _ => final(state).current == old(state).current,
        },
        progress is Rebuild ==> rebuild_reported(
            *old(state),
            *final(state),
            |p0: RebuildProgress, p: RebuildProgress|
                {
                    &&& p.phase == (if enriching {
                        RebuildPhase::Enriching
                    } else {
                        RebuildPhase::Scanning
                    })
                    &&& p.current_system@ == display_name@
                    &&& p.systems_done == i
                    &&& p.systems_total == p0.systems_total
                    &&& p.elapsed_secs == elapsed_secs
                    &&& p.error == p0.error
                    &&& p.is_rescan == p0.is_rescan
                },
        ),
{
    match progress {
        PopulateProgress::Startup => match &mut state.current {
            Activity::Startup { system, .. } => {
                *system = String::from_str(display_name);
            },
            _ => {},
        },
        PopulateProgress::Rebuild { .. } => match &mut state.current {
            Activity::Rebuild { progress } => {
                progress.current_system = String::from_str(display_name);
                progress.systems_done = i;
                progress.elapsed_secs = elapsed_secs;
                progress.phase = if enriching {
                    RebuildPhase::Enriching
                } else {
                    RebuildPhase::Scanning
                };
            },
            _ => {},
        },
    }
}

pub open spec fn refresh_progress(a: Activity) -> Option<RefreshMetadataProgress> {
    match a {
        Activity::RefreshExternalMetadata { progress } => Some(progress),
        _ => None,
    }
}

/// The external metadata refresh failed with `error`.
pub fn fail_refresh_metadata(state: &mut AppState, error: String, elapsed_secs: u64)
    ensures
        final(state).cancel_requested == old(state).cancel_requested,
        (old(state).current is RefreshExternalMetadata) == (final(state).current is RefreshExternalMetadata),
        !(old(state).current is RefreshExternalMetadata) ==> final(state).current == old(state).current,
        old(state).current is RefreshExternalMetadata ==> {
            let p0 = refresh_progress(old(state).current)->0;
            let p = refresh_progress(final(state).current)->0;
            &&& p.phase == RefreshMetadataPhase::Failed
            &&& p.error matches Some(e) && e@ == error@
            &&& p.elapsed_secs == elapsed_secs
            &&& p.source_entries == p0.source_entries
            &&& p.downloaded_bytes == p0.downloaded_bytes
            &&& p.total_bytes == p0.total_bytes
        },
{
    match &mut state.current {
        Activity::RefreshExternalMetadata { progress } => {
            progress.phase = RefreshMetadataPhase::Failed;
            progress.error = Some(error);
            progress.elapsed_secs = elapsed_secs;
        },
        _ => {},
    }
}

// ---------------------------------------------------------------------------
// The LaunchBox auto-import gate.

/// Why the LaunchBox import runs again, checked in this order.
#[derive(Clone, Copy, Debug, PartialEq, Eq, Structural)]
pub enum RefreshReason {
    /// The LaunchBox XML's content hash differs from the stored one.
    XmlChanged,
    /// The title normaliser's version differs from the stored one.
    NormalizerChanged,
    /// The platform map's fingerprint differs from the stored one.
    PlatformMapChanged,
}

/// A stored stamp matches when it is present and equal to the current one.
pub open spec fn stamp_matches(stored: Option<Seq<char>>, current: Seq<char>) -> bool {
    stored == Some(current)
}

/// The stored normaliser version matches when it reads as a `u32` equal to
/// the current version (an unreadable stamp matches nothing).
pub open spec fn norm_version_matches(stored: Option<Seq<char>>, version: u32) -> bool {
    match stored {
        Some(v) => unsigned_value(v) == Some(version as nat),
        None => false,
    }
}

/// Whether the import runs, and why: the first stamp, in the order XML hash,
/// normaliser version, platform map, that does not match; `None` when all
/// three match.
pub open spec fn refresh_reason(
    stored_hash: Option<Seq<char>>,
    current_hash: Seq<char>,
    stored_norm_version: Option<Seq<char>>,
    norm_version: u32,
    stored_platform_hash: Option<Seq<char>>,
    current_platform_hash: Seq<char>,
) -> Option<RefreshReason> {
    if !stamp_matches(stored_hash, current_hash) {
        Some(RefreshReason::XmlChanged)
    } else if !norm_version_matches(stored_norm_version, norm_version) {
        Some(RefreshReason::NormalizerChanged)
    } else if !stamp_matches(stored_platform_hash, current_platform_hash) {
        Some(RefreshReason::PlatformMapChanged)
    } else {
        None
    }
}

fn stored_stamp_matches(stored: Option<&str>, current: &str) -> (r: bool)
    ensures
        r == stamp_matches(opt_view(stored), current@),
{
    match stored {
        Some(s) => same_chars(&to_chars(s), &to_chars(current)),
        None => false,
    }
}

/// Decides whether the LaunchBox import runs again from the stamps stored
/// by the last import and the current ones: the XML content hash, the title
/// normaliser's version (stored as text) and the platform map fingerprint.
pub fn launchbox_refresh_reason(
    stored_hash: Option<&str>,
    current_hash: &str,
    stored_norm_version: Option<&str>,
    norm_version: u32,
    stored_platform_hash: Option<&str>,
    current_platform_hash: &str,
) -> (r: Option<RefreshReason>)
    ensures
        r == refresh_reason(
            opt_view(stored_hash),
            current_hash@,
            opt_view(stored_norm_version),
            norm_version,
            opt_view(stored_platform_hash),
            current_platform_hash@,
        ),
        r is None <==> (stamp_matches(opt_view(stored_hash), current_hash@)
            && norm_version_matches(opt_view(stored_norm_version), norm_version)
            && stamp_matches(opt_view(stored_platform_hash), current_platform_hash@)),
{
    let hash_matches = stored_stamp_matches(stored_hash, current_hash);
    let version_matches = match stored_norm_version {
        Some(v) => match parse_u32(v) {
            Some(n) => n == norm_version,
            None => false,
        },
        None => false,
    };
    let platform_hash_matches = stored_stamp_matches(stored_platform_hash, current_platform_hash);
    if !hash_matches {
        Some(RefreshReason::XmlChanged)
    } else if !version_matches {
        Some(RefreshReason::NormalizerChanged)
    } else if !platform_hash_matches {
        Some(RefreshReason::PlatformMapChanged)
    } else {
        None
    }
}

// ---------------------------------------------------------------------------
// Per-system decisions.

/// What scanning one system gave.
#[derive(Clone, Copy, Debug, PartialEq, Eq, Structural)]
pub enum SystemScan {
    /// Scanned: `roms` ROMs; `discovery_changed` when the set of files
    /// differs from what was stored.
    Scanned { roms: usize, discovery_changed: bool },
    /// The storage was swapped underneath the scan.
    StorageChanged,
    /// The scan failed otherwise; the stored state is kept.
    Failed,
}

/// What the populate does after a system's scan.
#[derive(Clone, Copy, Debug, PartialEq, Eq, Structural)]
pub enum ScanDecision {
    /// Stop the whole populate (the caller redoes it on the new storage).
    Abort,
    /// Go on with the next system.
    NextSystem,
    /// Enrich the system; queue its identity work first when asked.
    Enrich { queue_identity: bool },
}

/// The decision after a scan: abort on a storage swap; skip a failed scan
/// or an unchanged system; otherwise enrich it, with identity work for a
/// non-empty system whose ROMs can be identified by hash.
pub open spec fn scan_decision(scan: SystemScan, hash_identifiable: bool) -> ScanDecision {
    match scan {
        SystemScan::StorageChanged => ScanDecision::Abort,
        SystemScan::Failed => ScanDecision::NextSystem,
        SystemScan::Scanned { roms, discovery_changed } => if !discovery_changed {
            ScanDecision::NextSystem
        } else {
            ScanDecision::Enrich { queue_identity: roms > 0 && hash_identifiable }
        },
    }
}

/// The populate's running state: ROMs counted and systems queued for
/// identity work.
#[derive(Clone, Copy, Debug, PartialEq, Eq, Structural)]
pub struct PopulateTally {
    pub total_roms: usize,
    pub identity_jobs: usize,
}

impl PopulateTally {
    pub fn new() -> (r: Self)
        ensures
            r.total_roms == 0,
            r.identity_jobs == 0,
    {
        PopulateTally { total_roms: 0, identity_jobs: 0 }
    }

    /// Counts a system's scan and decides what follows (see
    /// [`scan_decision`]). Every scanned ROM is counted, changed or not.
    pub fn after_scan(&mut self, scan: SystemScan, hash_identifiable: bool) -> (r: ScanDecision)
        requires
            old(self).identity_jobs < usize::MAX,
            scan matches SystemScan::Scanned { roms, .. } ==> old(self).total_roms + roms
                <= usize::MAX,
        ensures
            r == scan_decision(scan, hash_identifiable),
            final(self).total_roms == old(self).total_roms + (match scan {
                SystemScan::Scanned { roms, .. } => roms as int,
                _ => 0,
            }),
            final(self).identity_jobs == old(self).identity_jobs + (if r
                == (ScanDecision::Enrich { queue_identity: true }) {
                1int
            } else {
                0
            }),
    {
        match scan {
            SystemScan::StorageChanged => ScanDecision::Abort,
            SystemScan::Failed => ScanDecision::NextSystem,
            SystemScan::Scanned { roms, discovery_changed } => {
                self.total_roms = self.total_roms + roms;
                if !discovery_changed {
                    return ScanDecision::NextSystem;
                }
                let queue = roms > 0 && hash_identifiable;
                if queue {
                    self.identity_jobs = self.identity_jobs + 1;
                }
                ScanDecision::Enrich { queue_identity: queue }
            },
        }
    }
}

/// After a system's enrichment: a storage swap aborts the populate; any
/// other failure is skipped (the stored state is kept) and the populate
/// goes on.
pub fn after_enrichment(failed: bool, storage_changed: bool) -> (r: bool)
    ensures
        r == (failed && storage_changed),
{
    failed && storage_changed
}

/// Whether the startup pipeline rebuilds the thumbnail index: when no
/// thumbnail source is recorded but images are on disk (the database was
/// lost), or when sources are recorded but the index is empty.
pub fn thumbnail_index_rebuild_needed(has_sources: bool, index_empty: bool, images_on_disk: bool) -> (r:
    bool)
    ensures
        r == ((!has_sources && images_on_disk) || (has_sources && index_empty)),
{
    if !has_sources {
        images_on_disk
    } else {
        index_empty
    }
}

/// A storage swap aborts the populate; nothing else does.
pub proof fn law_only_storage_swaps_abort(scan: SystemScan, hash_identifiable: bool)
    ensures
        (scan_decision(scan, hash_identifiable) == ScanDecision::Abort) <==> (scan
            == SystemScan::StorageChanged),
        scan_decision(scan, hash_identifiable) matches ScanDecision::Enrich { queue_identity }
            ==> (scan matches SystemScan::Scanned { discovery_changed, .. } && discovery_changed),
{
}

} // verus!
