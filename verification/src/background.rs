//! The background manager: the startup pipeline, the filesystem watchers
//! and the update checker of the server. Its decisions live in the modules
//! that name them (`identity`, `pipeline`, `watcher`, `update_flow`), its
//! settings in `tuning` and its update script in `update_script`.
use vstd::prelude::*;

verus! {

/// Owner of the server's background work.
pub struct BackgroundManager;

/// The GitHub repository releases are fetched from.
pub const UPDATE_REPO: &'static str = "lapastillaroja/replay-control";

} // verus!
