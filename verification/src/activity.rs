//! What the server is doing right now. At most one activity runs at a
//! time; the [`AppState`] is the single slot that holds it.
use vstd::prelude::*;

use crate::text::{decimal, u64_text, usize_text};

verus! {

#[derive(Debug, Clone, Copy, PartialEq, Eq, Structural)]
pub enum StartupPhase {
    /// Downloading LaunchBox XML and the thumbnail manifest on first boot.
    FetchingMetadata,
    /// Scanning ROM directories, populating the game library.
    Scanning,
    /// Rebuilding the thumbnail index from disk.
    RebuildingIndex,
}

#[derive(Debug, Clone, Copy, PartialEq, Eq, Structural)]
pub enum MaintenanceKind {
    ClearMetadata,
    ClearImages,
    ClearThumbnailIndex,
    CleanupOrphans,
}

/// Phase of the external metadata refresh (download, then parse).
#[derive(Debug, Clone, Copy, PartialEq, Eq, Structural)]
pub enum RefreshMetadataPhase {
    Checking,
    Downloading,
    Parsing,
    Enriching,
    Complete,
    Failed,
    /// The upstream file is unchanged; nothing was downloaded or parsed.
    UpToDate,
}

/// Progress of the external metadata refresh.
#[derive(Debug)]
pub struct RefreshMetadataProgress {
    pub phase: RefreshMetadataPhase,
    /// Source entries parsed so far (during `Parsing`).
    pub source_entries: usize,
    /// Bytes downloaded so far (during `Downloading`).
    pub downloaded_bytes: u64,
    /// Bytes expected, when known.
    pub total_bytes: Option<u64>,
    pub elapsed_secs: u64,
    pub error: Option<String>,
}

impl RefreshMetadataProgress {
    /// The progress a refresh starts with: checking, nothing counted.
    pub fn initial() -> (r: Self)
        ensures
            r.phase == RefreshMetadataPhase::Checking,
            r.source_entries == 0,
            r.downloaded_bytes == 0,
            r.total_bytes is None,
            r.elapsed_secs == 0,
            r.error is None,
    {
        RefreshMetadataProgress {
            phase: RefreshMetadataPhase::Checking,
            source_entries: 0,
            downloaded_bytes: 0,
            total_bytes: None,
            elapsed_secs: 0,
            error: None,
        }
    }
}

/// Phase of the thumbnail pipeline (index, then download).
#[derive(Debug, Clone, Copy, PartialEq, Eq, Structural)]
pub enum ThumbnailPhase {
    Indexing,
    Downloading,
    Complete,
    Failed,
    Cancelled,
}

/// Progress of the thumbnail pipeline.
#[derive(Debug)]
pub struct ThumbnailProgress {
    pub phase: ThumbnailPhase,
    pub current_label: String,
    pub step_done: usize,
    pub step_total: usize,
    pub downloaded: usize,
    pub entries_indexed: usize,
    pub elapsed_secs: u64,
    pub error: Option<String>,
}

/// Phase of a game library rebuild.
#[derive(Debug, Clone, Copy, PartialEq, Eq, Structural)]
pub enum RebuildPhase {
    Scanning,
    Enriching,
    Complete,
    Failed,
}

/// Progress of a rebuild (`is_rescan == false`) or an additive rescan.
#[derive(Debug)]
pub struct RebuildProgress {
    pub phase: RebuildPhase,
    pub current_system: String,
    pub systems_done: usize,
    pub systems_total: usize,
    pub elapsed_secs: u64,
    pub error: Option<String>,
    pub is_rescan: bool,
}

impl RebuildProgress {
    /// The progress at the moment a rebuild or rescan starts.
    pub fn initial(is_rescan: bool) -> (r: Self)
        ensures
            r.phase == RebuildPhase::Scanning,
            r.current_system@ == Seq::<char>::empty(),
            r.systems_done == 0,
            r.systems_total == 0,
            r.elapsed_secs == 0,
            r.error is None,
            r.is_rescan == is_rescan,
    {
        RebuildProgress {
            phase: RebuildPhase::Scanning,
            current_system: String::new(),
            systems_done: 0,
            systems_total: 0,
            elapsed_secs: 0,
            error: None,
            is_rescan,
        }
    }
}

/// Phase of a software update.
#[derive(Debug, Clone, Copy, PartialEq, Eq, Structural)]
pub enum UpdatePhase {
    Downloading,
    Installing,
    Restarting,
    Complete,
    Failed,
}

/// Progress of a software update.
#[derive(Debug)]
pub struct UpdateProgress {
    pub phase: UpdatePhase,
    pub downloaded_bytes: u64,
    pub total_bytes: u64,
    pub phase_detail: String,
    pub elapsed_secs: u64,
    pub error: Option<String>,
}

/// Where a metadata import stands.
#[derive(Debug, Clone, Copy, PartialEq, Eq, Structural)]
pub enum ImportState {
    Running,
    Complete,
    Failed,
}

/// Progress of a metadata import: what the activity logic reads of it.
#[derive(Debug)]
pub struct ImportProgress {
    pub state: ImportState,
    pub matched: usize,
    pub inserted: usize,
    pub elapsed_secs: u64,
    pub error: Option<String>,
}

/// What the server is doing right now.
#[derive(Debug)]
pub enum Activity {
    /// Nothing runs.
    Idle,
    /// The startup pipeline (cache populate and thumbnail index rebuild).
    Startup { phase: StartupPhase, system: String },
    /// A metadata import.
    Import { progress: ImportProgress },
    /// A refresh of the host-wide external metadata database.
    RefreshExternalMetadata { progress: RefreshMetadataProgress },
    /// A thumbnail update; the only activity that can be cancelled.
    ThumbnailUpdate { progress: ThumbnailProgress },
    /// A game library rebuild or rescan.
    Rebuild { progress: RebuildProgress },
    /// A short exclusive database or filesystem operation.
    Maintenance { kind: MaintenanceKind },
    /// A software update.
    Update { progress: UpdateProgress },
}

/// The text of an optional error, `unknown error` when absent.
pub open spec fn error_text(e: Option<String>) -> Seq<char> {
    match e {
        Some(s) => s@,
        None => "unknown error"@,
    }
}

impl Activity {
    /// Whether the activity has reached a completed, failed or cancelled state.
    pub open spec fn terminal(&self) -> bool {
        match self {
            Activity::Import { progress } => progress.state == ImportState::Complete
                || progress.state == ImportState::Failed,
            Activity::ThumbnailUpdate { progress } => progress.phase == ThumbnailPhase::Complete
                || progress.phase == ThumbnailPhase::Failed || progress.phase
                == ThumbnailPhase::Cancelled,
            Activity::Rebuild { progress } => progress.phase == RebuildPhase::Complete
                || progress.phase == RebuildPhase::Failed,
            Activity::Update { progress } => progress.phase == UpdatePhase::Complete
                || progress.phase == UpdatePhase::Failed,
            Activity::RefreshExternalMetadata { progress } => progress.phase
                == RefreshMetadataPhase::Complete || progress.phase == RefreshMetadataPhase::Failed
                || progress.phase == RefreshMetadataPhase::UpToDate,
            _ => false,
        }
    }

    /// The human-readable message of a terminal activity; empty otherwise.
    pub open spec fn terminal_text(&self) -> Seq<char> {
        match self {
            Activity::Import { progress } => match progress.state {
                ImportState::Complete => "Import complete: "@ + decimal(progress.matched as nat)
                    + " matched, "@ + decimal(progress.inserted as nat) + " inserted ("@ + decimal(
                    progress.elapsed_secs as nat,
                ) + "s)"@,
                ImportState::Failed => "Import failed: "@ + error_text(progress.error),
                _ => Seq::empty(),
            },
            Activity::ThumbnailUpdate { progress } => match progress.phase {
                ThumbnailPhase::Complete => "Complete: "@ + decimal(progress.entries_indexed as nat)
                    + " indexed, "@ + decimal(progress.downloaded as nat) + " downloaded ("@
                    + decimal(progress.elapsed_secs as nat) + "s)"@,
                ThumbnailPhase::Cancelled => "Cancelled after "@ + decimal(
                    progress.elapsed_secs as nat,
                ) + "s ("@ + decimal(progress.downloaded as nat) + " downloaded)"@,
                ThumbnailPhase::Failed => "Failed: "@ + error_text(progress.error),
                _ => Seq::empty(),
            },
            Activity::Rebuild { progress } => {
                let label = if progress.is_rescan {
                    "Rescan"@
                } else {
                    "Rebuild"@
                };
                match progress.phase {
                    RebuildPhase::Complete => label + " complete ("@ + decimal(
                        progress.elapsed_secs as nat,
                    ) + "s)"@,
                    RebuildPhase::Failed => label + " failed: "@ + error_text(progress.error),
                    _ => Seq::empty(),
                }
            },
            Activity::Update { progress } => match progress.phase {
                UpdatePhase::Complete => "Update complete ("@ + decimal(
                    progress.elapsed_secs as nat,
                ) + "s)"@,
                UpdatePhase::Failed => "Update failed: "@ + error_text(progress.error),
                _ => Seq::empty(),
            },
            Activity::RefreshExternalMetadata { progress } => match progress.phase {
                RefreshMetadataPhase::Complete => if progress.source_entries > 0 {
                    "Metadata refresh complete ("@ + decimal(progress.elapsed_secs as nat)
                        + "s, "@ + decimal(progress.source_entries as nat) + " source entries)"@
                } else {
                    "Metadata refresh complete ("@ + decimal(progress.elapsed_secs as nat) + "s)"@
                },
                RefreshMetadataPhase::Failed => "Metadata refresh failed: "@ + error_text(
                    progress.error,
                ),
                RefreshMetadataPhase::UpToDate => "Metadata already up to date"@,
                _ => Seq::empty(),
            },
            _ => Seq::empty(),
        }
    }

    /// Whether this activity represents a terminal state.
    pub fn is_terminal(&self) -> (r: bool)
        ensures
            r == self.terminal(),
    {
        match self {
            Activity::Import { progress } => match progress.state {
                ImportState::Complete | ImportState::Failed => true,
                _ => false,
            },
            Activity::ThumbnailUpdate { progress } => match progress.phase {
                ThumbnailPhase::Complete | ThumbnailPhase::Failed | ThumbnailPhase::Cancelled => true,
                _ => false,
            },
            Activity::Rebuild { progress } => match progress.phase {
                RebuildPhase::Complete | RebuildPhase::Failed => true,
                _ => false,
            },
            Activity::Update { progress } => match progress.phase {
                UpdatePhase::Complete | UpdatePhase::Failed => true,
                _ => false,
            },
            Activity::RefreshExternalMetadata { progress } => match progress.phase {
                RefreshMetadataPhase::Complete
                | RefreshMetadataPhase::Failed
                | RefreshMetadataPhase::UpToDate => true,
                _ => false,
            },
            _ => false,
        }
    }

    /// The human-readable message of a terminal activity; an empty string
    /// when the activity is not in a terminal state.
    pub fn terminal_message(&self) -> (r: String)
        ensures
            r@ == self.terminal_text(),
    {
        match self {
            Activity::Import { progress } => match progress.state {
                ImportState::Complete => {
                    let mut s = String::from_str("Import complete: ");
                    s.append(usize_text(progress.matched).as_str());
                    s.append(" matched, ");
                    s.append(usize_text(progress.inserted).as_str());
                    s.append(" inserted (");
                    s.append(u64_text(progress.elapsed_secs).as_str());
                    s.append("s)");
                    s
                },
                ImportState::Failed => {
                    let mut s = String::from_str("Import failed: ");
                    append_error(&mut s, &progress.error);
                    s
                },
                _ => String::new(),
            },
            Activity::ThumbnailUpdate { progress } => match progress.phase {
                ThumbnailPhase::Complete => {
                    let mut s = String::from_str("Complete: ");
                    s.append(usize_text(progress.entries_indexed).as_str());
                    s.append(" indexed, ");
                    s.append(usize_text(progress.downloaded).as_str());
                    s.append(" downloaded (");
                    s.append(u64_text(progress.elapsed_secs).as_str());
                    s.append("s)");
                    s
                },
                ThumbnailPhase::Cancelled => {
                    let mut s = String::from_str("Cancelled after ");
                    s.append(u64_text(progress.elapsed_secs).as_str());
                    s.append("s (");
                    s.append(usize_text(progress.downloaded).as_str());
                    s.append(" downloaded)");
                    s
                },
                ThumbnailPhase::Failed => {
                    let mut s = String::from_str("Failed: ");
                    append_error(&mut s, &progress.error);
                    s
                },
                _ => String::new(),
            },
            Activity::Rebuild { progress } => {
                let mut s = if progress.is_rescan {
                    String::from_str("Rescan")
                } else {
                    String::from_str("Rebuild")
                };
                match progress.phase {
                    RebuildPhase::Complete => {
                        s.append(" complete (");
                        s.append(u64_text(progress.elapsed_secs).as_str());
                        s.append("s)");
                        s
                    },
                    RebuildPhase::Failed => {
                        s.append(" failed: ");
                        append_error(&mut s, &progress.error);
                        s
                    },
                    _ => String::new(),
                }
            },
            Activity::Update { progress } => match progress.phase {
                UpdatePhase::Complete => {
                    let mut s = String::from_str("Update complete (");
                    s.append(u64_text(progress.elapsed_secs).as_str());
                    s.append("s)");
                    s
                },
                UpdatePhase::Failed => {
                    let mut s = String::from_str("Update failed: ");
                    append_error(&mut s, &progress.error);
                    s
                },
                _ => String::new(),
            },
            Activity::RefreshExternalMetadata { progress } => match progress.phase {
                RefreshMetadataPhase::Complete => {
                    let mut s = String::from_str("Metadata refresh complete (");
                    s.append(u64_text(progress.elapsed_secs).as_str());
                    if progress.source_entries > 0 {
                        s.append("s, ");
                        s.append(usize_text(progress.source_entries).as_str());
                        s.append(" source entries)");
                    } else {
                        s.append("s)");
                    }
                    s
                },
                RefreshMetadataPhase::Failed => {
                    let mut s = String::from_str("Metadata refresh failed: ");
                    append_error(&mut s, &progress.error);
                    s
                },
                RefreshMetadataPhase::UpToDate => String::from_str("Metadata already up to date"),
                _ => String::new(),
            },
            _ => String::new(),
        }
    }
}

fn append_error(s: &mut String, e: &Option<String>)
    ensures
        final(s)@ == old(s)@ + error_text(*e),
{
    match e {
        Some(t) => s.append(t.as_str()),
        None => s.append("unknown error"),
    }
}

/// The server's shared state as far as the activity logic reads it: the
/// single activity slot, which every long-running operation claims, and the
/// cancellation request of the running one.
pub struct AppState {
    /// The activity that runs now.
    pub current: Activity,
    /// Whether cancellation of the current activity was requested.
    pub cancel_requested: bool,
}

/// The message a second activity gets while one runs.
pub open spec fn busy_message() -> Seq<char> {
    "Another operation is already running"@
}

impl AppState {
    pub open spec fn idle(&self) -> bool {
        self.current is Idle
    }

    /// The state after an attempt to start `a`.
    pub open spec fn after_start(self, a: Activity) -> AppState {
        if self.idle() {
            AppState { current: a, cancel_requested: false }
        } else {
            self
        }
    }

    /// The state after the running activity ends.
    pub open spec fn after_finish(self) -> AppState {
        AppState { current: Activity::Idle, cancel_requested: false }
    }

    /// A state with nothing running.
    pub fn new() -> (r: Self)
        ensures
            r.idle(),
            !r.cancel_requested,
    {
        AppState { current: Activity::Idle, cancel_requested: false }
    }

    /// Starts `initial` when nothing runs; otherwise refuses and leaves the
    /// state as it was.
    pub fn try_start_activity(&mut self, initial: Activity) -> (r: Result<(), &'static str>)
        ensures
            *final(self) == old(self).after_start(initial),
            r is Ok == old(self).idle(),
            r matches Err(m) ==> m@ == busy_message(),
    {
        match self.current {
            Activity::Idle => {
                self.current = initial;
                self.cancel_requested = false;
                Ok(())
            },
            _ => Err("Another operation is already running"),
        }
    }

    /// The current activity.
    pub fn activity(&self) -> (r: &Activity)
        ensures
            *r == self.current,
    {
        &self.current
    }

    /// Replaces the running activity's state (progress updates).
    pub fn update_activity(&mut self, next: Activity)
        ensures
            final(self).current == next,
            final(self).cancel_requested == old(self).cancel_requested,
    {
        self.current = next;
    }

    /// Ends the running activity: the state is idle again.
    pub fn finish(&mut self)
        ensures
            *final(self) == old(self).after_finish(),
    {
        self.current = Activity::Idle;
        self.cancel_requested = false;
    }

    pub fn is_idle(&self) -> (r: bool)
        ensures
            r == self.idle(),
    {
        match self.current {
            Activity::Idle => true,
            _ => false,
        }
    }

    /// Whether the startup pipeline is scanning ROM directories.
    pub fn is_startup_scanning(&self) -> (r: bool)
        ensures
            r == (self.current matches Activity::Startup { phase, .. } && phase
                == StartupPhase::Scanning),
    {
        match &self.current {
            Activity::Startup { phase: StartupPhase::Scanning, .. } => true,
            _ => false,
        }
    }

    /// Requests cancellation of the running activity. Only a thumbnail
    /// update supports it: the answer is whether it was requested.
    pub fn request_cancel(&mut self) -> (r: bool)
        ensures
            r == (old(self).current is ThumbnailUpdate),
            final(self).current == old(self).current,
            final(self).cancel_requested == (old(self).cancel_requested || r),
    {
        match &self.current {
            Activity::ThumbnailUpdate { .. } => {
                self.cancel_requested = true;
                true
            },
            _ => false,
        }
    }
}

/// Single flight: once an activity has started, every other start is
/// refused until it finishes, and after it finishes the next start succeeds.
pub proof fn law_single_flight(b: AppState, first: Activity, second: Activity)
    requires
        b.idle(),
        !(first is Idle),
    ensures
        b.after_start(first).current == first,
        !b.after_start(first).idle(),
        b.after_start(first).after_start(second) == b.after_start(first),
        b.after_start(first).after_finish().idle(),
        b.after_start(first).after_finish().after_start(second).current == second,
{
}

/// A message is produced exactly for the terminal activities: the text is
/// empty when the activity has not reached a terminal state, and non-empty
/// when it has.
pub proof fn law_terminal_message_iff_terminal(a: Activity)
    ensures
        a.terminal() <==> a.terminal_text().len() > 0,
{
    reveal_strlit("Import complete: ");
    reveal_strlit("Import failed: ");
    reveal_strlit("Complete: ");
    reveal_strlit("Cancelled after ");
    reveal_strlit("Failed: ");
    reveal_strlit("Rescan");
    reveal_strlit("Rebuild");
    reveal_strlit("Update complete (");
    reveal_strlit("Update failed: ");
    reveal_strlit("Metadata refresh complete (");
    reveal_strlit("Metadata refresh failed: ");
    reveal_strlit("Metadata already up to date");
}

} // verus!
