//! Plain records shared by the library and the web layer.
use vstd::prelude::*;

verus! {

/// One system folder of the library.
#[derive(Debug)]
pub struct SystemSummary {
    pub folder_name: String,
    pub display_name: String,
    pub manufacturer: String,
    pub category: String,
    pub game_count: usize,
    pub total_size_bytes: u64,
}

/// One ROM file.
#[derive(Debug)]
pub struct RomEntry {
    pub system: String,
    pub system_display: String,
    pub filename: String,
    pub relative_path: String,
    pub size_bytes: u64,
    pub is_m3u: bool,
}

/// One favorite.
#[derive(Debug)]
pub struct Favorite {
    pub filename: String,
    pub system: String,
    pub system_display: String,
    pub rom_filename: String,
    pub rom_path: String,
    pub subfolder: String,
}

/// One recently played game.
#[derive(Debug)]
pub struct RecentEntry {
    pub filename: String,
    pub system: String,
    pub system_display: String,
    pub rom_filename: String,
    pub rom_path: String,
    pub last_played: u64,
}

} // verus!
