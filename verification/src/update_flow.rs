//! The software update flow around the download: the version of a release
//! tag, the disk-space check, and the progress the update activity shows
//! while it downloads, installs and restarts.
//!
//! The caller performs each step (resolve, download, extract, spawn the
//! helper script) and reports it here; the activity state holds the state.
use vstd::prelude::*;

use crate::activity::{Activity, AppState, UpdatePhase, UpdateProgress};
use crate::text::{decimal, u64_text};

verus! {

/// An update gives up after this long (5 minutes).
pub const UPDATE_TIMEOUT_SECS: u64 = 300;

/// The message of an update that ran out of time.
pub fn update_timeout_message() -> (r: &'static str)
    ensures
        r@ == "Update timed out after 5 minutes"@,
{
    "Update timed out after 5 minutes"
}

/// The error for a tag that is not a valid version.
pub fn invalid_tag_message(tag: &str) -> (r: String)
    ensures
        r@ == "Invalid version tag: "@ + tag@,
{
    let mut s = String::from_str("Invalid version tag: ");
    s.append(tag);
    s
}

/// The version of a release tag: the tag without one leading `v`.
pub open spec fn tag_version(tag: Seq<char>) -> Seq<char> {
    if tag.len() > 0 && tag[0] == 'v' {
        tag.drop_first()
    } else {
        tag
    }
}

/// The version of a release tag (see [`tag_version`]).
pub fn release_version(tag: &str) -> (r: String)
    ensures
        r@ == tag_version(tag@),
{
    let c = crate::text::to_chars(tag);
    if c.len() > 0 && c[0] == 'v' {
        let rest = crate::text::sub_chars(&c, 1, c.len());
        assert(rest@ =~= tag@.drop_first());
        crate::text::from_chars(&rest)
    } else {
        String::from_str(tag)
    }
}

/// The activity an update starts with.
pub fn initial_update_activity() -> (r: Activity)
    ensures
        r matches Activity::Update { progress } && progress.phase == UpdatePhase::Downloading
            && progress.downloaded_bytes == 0 && progress.total_bytes == 0
            && progress.phase_detail@ == "Resolving download URLs..."@ && progress.elapsed_secs
            == 0 && progress.error is None,
{
    Activity::Update {
        progress: UpdateProgress {
            phase: UpdatePhase::Downloading,
            downloaded_bytes: 0,
            total_bytes: 0,
            phase_detail: String::from_str("Resolving download URLs..."),
            elapsed_secs: 0,
            error: None,
        },
    }
}

// ---------------------------------------------------------------------------
// Sizes and disk space.

/// The sizes of a release's assets, as the stored update announcement
/// gives them (used for progress and the disk-space check only).
#[derive(Clone, Copy, Debug, PartialEq, Eq, Structural)]
pub struct UpdateSizes {
    pub binary: u64,
    pub site: u64,
    pub catalog: u64,
}

impl UpdateSizes {
    pub open spec fn total(self) -> int {
        self.binary + self.site + self.catalog
    }
}

/// The sizes to report: the announced ones (zero without an announcement);
/// the catalog's only when the release ships a catalog.
pub fn update_sizes(announced: Option<UpdateSizes>, ships_catalog: bool) -> (r: UpdateSizes)
    ensures
        match announced {
            Some(a) => r.binary == a.binary && r.site == a.site && r.catalog == (if ships_catalog {
                a.catalog
            } else {
                0
            }),
            None => r.binary == 0 && r.site == 0 && r.catalog == 0,
        },
{
    match announced {
        Some(a) => UpdateSizes {
            binary: a.binary,
            site: a.site,
            catalog: if ships_catalog {
                a.catalog
            } else {
                0
            },
        },
        None => UpdateSizes { binary: 0, site: 0, catalog: 0 },
    }
}

/// The total download size.
pub fn update_total(s: &UpdateSizes) -> (r: u64)
    requires
        s.total() <= u64::MAX,
    ensures
        r == s.total(),
{
    s.binary + s.site + s.catalog
}

pub open spec fn mib(n: int) -> nat {
    (n / 1048576int) as nat
}

/// Enough space: nothing to download is announced, or the free space holds
/// twice the download (the archives and their extracted contents).
pub open spec fn enough_space(total: u64, available: u64) -> bool {
    total == 0 || available >= 2 * total
}

/// Checks the free space of the update directory before downloading.
pub fn check_disk_space(total: u64, available: u64) -> (r: Result<(), String>)
    requires
        2 * total <= u64::MAX,
    ensures
        r is Ok <==> enough_space(total, available),
        r matches Err(m) ==> m@ == "Insufficient disk space: need "@ + decimal(mib(2 * total))
            + " MB, have "@ + decimal(mib(available as int)) + " MB"@,
{
    if total > 0 {
        let required = total * 2;
        if available < required {
            let mut m = String::from_str("Insufficient disk space: need ");
            m.append(u64_text(required / (1024 * 1024)).as_str());
            m.append(" MB, have ");
            m.append(u64_text(available / (1024 * 1024)).as_str());
            m.append(" MB");
            return Err(m);
        }
    }
    Ok(())
}

// ---------------------------------------------------------------------------
// Progress.

/// The asset being downloaded.
#[derive(Clone, Copy, Debug, PartialEq, Eq, Structural)]
pub enum DownloadStage {
    Binary,
    Site,
    Catalog,
}

/// Bytes of the assets downloaded before a stage.
pub open spec fn stage_offset(stage: DownloadStage, s: UpdateSizes) -> int {
    match stage {
        DownloadStage::Binary => 0,
        DownloadStage::Site => s.binary as int,
        DownloadStage::Catalog => s.binary + s.site,
    }
}

pub open spec fn stage_detail(stage: DownloadStage) -> Seq<char> {
    match stage {
        DownloadStage::Binary => "Downloading binary..."@,
        DownloadStage::Site => "Downloading site assets..."@,
        DownloadStage::Catalog => "Downloading catalog..."@,
    }
}

/// The update's progress, when the state runs an update.
pub open spec fn update_progress(a: Activity) -> Option<UpdateProgress> {
    match a {
        Activity::Update { progress } => Some(progress),
        _ => None,
    }
}

/// The state after a progress report: the update's progress changed as
/// `changed` says, anything else left as it is.
pub open spec fn reported(
    before: AppState,
    after: AppState,
    changed: spec_fn(UpdateProgress, UpdateProgress) -> bool,
) -> bool {
    &&& after.cancel_requested == before.cancel_requested
    &&& (before.current is Update) == (after.current is Update)
    &&& !(before.current is Update) ==> after.current == before.current
    &&& before.current is Update ==> changed(
        update_progress(before.current)->0,
        update_progress(after.current)->0,
    )
}

/// Reports the bytes downloaded so far of a stage's asset.
pub fn report_download(
    state: &mut AppState,
    stage: DownloadStage,
    bytes: u64,
    sizes: &UpdateSizes,
    elapsed_secs: u64,
)
    requires
        sizes.total() <= u64::MAX,
        stage_offset(stage, *sizes) + bytes <= u64::MAX,
    ensures
        reported(
            *old(state),
            *final(state),
            |p0: UpdateProgress, p: UpdateProgress|
                {
                    &&& p.phase == p0.phase
                    &&& p.downloaded_bytes == stage_offset(stage, *sizes) + bytes
                    &&& p.total_bytes == sizes.total()
                    &&& p.phase_detail@ == stage_detail(stage)
                    &&& p.elapsed_secs == elapsed_secs
                    &&& p.error == p0.error
                },
        ),
{
    let total = update_total(sizes);
    let offset = match stage {
        DownloadStage::Binary => 0,
        DownloadStage::Site => sizes.binary,
        DownloadStage::Catalog => sizes.binary + sizes.site,
    };
    let detail = match stage {
        DownloadStage::Binary => "Downloading binary...",
        DownloadStage::Site => "Downloading site assets...",
        DownloadStage::Catalog => "Downloading catalog...",
    };
    match &mut state.current {
        Activity::Update { progress } => {
            progress.downloaded_bytes = offset + bytes;
            progress.total_bytes = total;
            progress.phase_detail = String::from_str(detail);
            progress.elapsed_secs = elapsed_secs;
        },
        _ => {},
    }
}

/// Reports the move to a new phase with its detail text.
fn report_phase(state: &mut AppState, phase: UpdatePhase, detail: String, elapsed_secs: u64)
    ensures
        reported(
            *old(state),
            *final(state),
            |p0: UpdateProgress, p: UpdateProgress|
                {
                    &&& p.phase == phase
                    &&& p.downloaded_bytes == p0.downloaded_bytes
                    &&& p.total_bytes == p0.total_bytes
                    &&& p.phase_detail@ == detail@
                    &&& p.elapsed_secs == elapsed_secs
                    &&& p.error == p0.error
                },
        ),
{
    match &mut state.current {
        Activity::Update { progress } => {
            progress.phase = phase;
            progress.phase_detail = detail;
            progress.elapsed_secs = elapsed_secs;
        },
        _ => {},
    }
}

/// The downloads are done: the archives are being extracted.
pub fn report_installing(state: &mut AppState, elapsed_secs: u64)
    ensures
        reported(
            *old(state),
            *final(state),
            |p0: UpdateProgress, p: UpdateProgress|
                {
                    &&& p.phase == UpdatePhase::Installing
                    &&& p.downloaded_bytes == p0.downloaded_bytes
                    &&& p.total_bytes == p0.total_bytes
                    &&& p.phase_detail@ == "Extracting archives..."@
                    &&& p.elapsed_secs == elapsed_secs
                    &&& p.error == p0.error
                },
        ),
{
    report_phase(state, UpdatePhase::Installing, String::from_str("Extracting archives..."), elapsed_secs);
}

/// The helper script runs: the service is about to restart. The activity
/// stays in place (the restart ends the process).
pub fn report_restarting(state: &mut AppState, elapsed_secs: u64)
    ensures
        reported(
            *old(state),
            *final(state),
            |p0: UpdateProgress, p: UpdateProgress|
                {
                    &&& p.phase == UpdatePhase::Restarting
                    &&& p.downloaded_bytes == p0.downloaded_bytes
                    &&& p.total_bytes == p0.total_bytes
                    &&& p.phase_detail@ == "Restarting service..."@
                    &&& p.elapsed_secs == elapsed_secs
                    &&& p.error == p0.error
                },
        ),
{
    report_phase(state, UpdatePhase::Restarting, String::from_str("Restarting service..."), elapsed_secs);
}

/// The update failed: the error is both the detail and the error text.
pub fn report_update_failed(state: &mut AppState, message: &str, elapsed_secs: u64)
    ensures
        reported(
            *old(state),
            *final(state),
            |p0: UpdateProgress, p: UpdateProgress|
                {
                    &&& p.phase == UpdatePhase::Failed
                    &&& p.downloaded_bytes == p0.downloaded_bytes
                    &&& p.total_bytes == p0.total_bytes
                    &&& p.phase_detail@ == message@
                    &&& p.error matches Some(e) && e@ == message@
                    &&& p.elapsed_secs == elapsed_secs
                },
        ),
{
    match &mut state.current {
        Activity::Update { progress } => {
            progress.phase = UpdatePhase::Failed;
            progress.phase_detail = String::from_str(message);
            progress.error = Some(String::from_str(message));
            progress.elapsed_secs = elapsed_secs;
        },
        _ => {},
    }
}

} // verus!
