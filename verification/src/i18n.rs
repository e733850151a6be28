//! User-facing strings of the web UI, by locale and key.
use vstd::prelude::*;

use crate::text::{chars_eq, to_chars};

verus! {

/// Supported locales. English is the default.
#[derive(Debug, Clone, Copy, PartialEq, Eq, Hash, Structural)]
pub enum Locale {
    En,
}

impl Locale {
    /// The locale's language code.
    pub fn code(&self) -> (r: &'static str)
        ensures
            r@ == "en"@,
    {
        match self {
            Locale::En => "en",
        }
    }
}

impl Default for Locale {
    fn default() -> (r: Self)
        ensures
            r == Locale::En,
    {
        Locale::En
    }
}

/// The English text of a key; `???` for a key that has none.
pub open spec fn english_text(key: Seq<char>) -> Seq<char> {
    if key == "app.title"@ {
        "Replay"@
    } else if key == "nav.home"@ {
        "Home"@
    } else if key == "nav.games"@ {
        "Games"@
    } else if key == "nav.favorites"@ {
        "Favs"@
    } else if key == "nav.more"@ {
        "More"@
    } else if key == "home.last_played"@ {
        "Last Played"@
    } else if key == "home.recently_played"@ {
        "Recently Played"@
    } else if key == "home.library"@ {
        "Library"@
    } else if key == "home.systems"@ {
        "Systems"@
    } else if key == "home.no_games_played"@ {
        "No games played yet"@
    } else if key == "home.no_recent"@ {
        "No recent games"@
    } else if key == "home.no_systems"@ {
        "No systems with games"@
    } else if key == "stats.games"@ {
        "Games"@
    } else if key == "stats.systems"@ {
        "Systems"@
    } else if key == "stats.favorites"@ {
        "Favorites"@
    } else if key == "stats.used"@ {
        "Used"@
    } else if key == "stats.storage"@ {
        "Storage"@
    } else if key == "games.systems"@ {
        "Systems"@
    } else if key == "games.search_placeholder"@ {
        "Search games..."@
    } else if key == "games.back"@ {
        "\u{2190} Back"@
    } else if key == "games.no_games"@ {
        "No games"@
    } else if key == "games.loading_roms"@ {
        "Loading ROMs..."@
    } else if key == "games.delete_confirm"@ {
        "Delete this ROM?"@
    } else if key == "games.deleted"@ {
        "ROM deleted"@
    } else if key == "games.renamed"@ {
        "ROM renamed"@
    } else if key == "games.rename"@ {
        "Rename"@
    } else if key == "games.delete"@ {
        "Delete"@
    } else if key == "games.cancel"@ {
        "Cancel"@
    } else if key == "games.confirm"@ {
        "Confirm"@
    } else if key == "games.actions"@ {
        "Actions"@
    } else if key == "games.load_more"@ {
        "Load more"@
    } else if key == "favorites.title"@ {
        "Favorites"@
    } else if key == "favorites.view_grouped"@ {
        "View: Grouped"@
    } else if key == "favorites.view_flat"@ {
        "View: Flat"@
    } else if key == "favorites.empty"@ {
        "No favorites yet"@
    } else if key == "favorites.latest_added"@ {
        "Latest Added"@
    } else if key == "favorites.recently_added"@ {
        "Recently Added"@
    } else if key == "favorites.by_system"@ {
        "By System"@
    } else if key == "favorites.all"@ {
        "All Favorites"@
    } else if key == "more.title"@ {
        "More"@
    } else if key == "more.upload"@ {
        "Upload ROMs"@
    } else if key == "more.backup"@ {
        "Backup & Restore"@
    } else if key == "more.wifi"@ {
        "Wi-Fi Configuration"@
    } else if key == "more.nfs"@ {
        "NFS Share Settings"@
    } else if key == "more.system_info"@ {
        "System Info"@
    } else if key == "more.storage"@ {
        "Storage"@
    } else if key == "more.path"@ {
        "Path"@
    } else if key == "more.disk_total"@ {
        "Disk Total"@
    } else if key == "more.disk_used"@ {
        "Disk Used"@
    } else if key == "more.disk_available"@ {
        "Disk Available"@
    } else if key == "more.refresh_storage"@ {
        "Refresh Storage"@
    } else if key == "more.refreshing"@ {
        "Refreshing..."@
    } else if key == "more.storage_changed"@ {
        "Storage updated"@
    } else if key == "more.storage_unchanged"@ {
        "Storage unchanged"@
    } else if key == "wifi.title"@ {
        "Wi-Fi Configuration"@
    } else if key == "wifi.ssid"@ {
        "Network Name (SSID)"@
    } else if key == "wifi.password"@ {
        "Password"@
    } else if key == "wifi.country"@ {
        "Country Code"@
    } else if key == "wifi.mode"@ {
        "Security Mode"@
    } else if key == "wifi.hidden"@ {
        "Hidden Network"@
    } else if key == "nfs.title"@ {
        "NFS Share Settings"@
    } else if key == "nfs.server"@ {
        "Server Address"@
    } else if key == "nfs.share"@ {
        "Share Path"@
    } else if key == "nfs.version"@ {
        "NFS Version"@
    } else if key == "nfs.hint"@ {
        "NFS changes take effect after switching storage to NFS and restarting the ReplayOS UI."@
    } else if key == "settings.save"@ {
        "Save"@
    } else if key == "settings.saving"@ {
        "Saving..."@
    } else if key == "settings.saved"@ {
        "Settings saved"@
    } else if key == "settings.apply_hint"@ {
        "Restart the ReplayOS UI to apply changes."@
    } else if key == "settings.restart_ui"@ {
        "Restart ReplayOS UI"@
    } else if key == "settings.restarting"@ {
        "Restarting..."@
    } else if key == "settings.password_keep"@ {
        "Leave empty to keep current"@
    } else if key == "settings.password_enter"@ {
        "Enter password"@
    } else if key == "game_detail.info"@ {
        "Game Info"@
    } else if key == "game_detail.system"@ {
        "System"@
    } else if key == "game_detail.filename"@ {
        "Filename"@
    } else if key == "game_detail.file_size"@ {
        "File Size"@
    } else if key == "game_detail.format"@ {
        "Format"@
    } else if key == "game_detail.arcade_info"@ {
        "Arcade Info"@
    } else if key == "game_detail.year"@ {
        "Year"@
    } else if key == "game_detail.manufacturer"@ {
        "Manufacturer"@
    } else if key == "game_detail.players"@ {
        "Players"@
    } else if key == "game_detail.rotation"@ {
        "Rotation"@
    } else if key == "game_detail.category"@ {
        "Category"@
    } else if key == "game_detail.parent_rom"@ {
        "Parent ROM"@
    } else if key == "game_detail.description"@ {
        "Description"@
    } else if key == "game_detail.no_description"@ {
        "No description available"@
    } else if key == "game_detail.screenshots"@ {
        "Screenshots"@
    } else if key == "game_detail.no_screenshots"@ {
        "No screenshots available"@
    } else if key == "game_detail.videos"@ {
        "Videos"@
    } else if key == "game_detail.no_videos"@ {
        "No videos available"@
    } else if key == "game_detail.music"@ {
        "Music / Soundtrack"@
    } else if key == "game_detail.no_music"@ {
        "No soundtrack available"@
    } else if key == "game_detail.manual"@ {
        "Manual"@
    } else if key == "game_detail.no_manual"@ {
        "No manual available"@
    } else if key == "game_detail.actions"@ {
        "Actions"@
    } else if key == "game_detail.favorite"@ {
        "Favorite"@
    } else if key == "game_detail.unfavorite"@ {
        "Unfavorite"@
    } else if key == "game_detail.rename"@ {
        "Rename"@
    } else if key == "game_detail.delete"@ {
        "Delete"@
    } else if key == "game_detail.confirm_delete"@ {
        "Confirm Delete"@
    } else if key == "common.loading"@ {
        "Loading..."@
    } else if key == "common.error"@ {
        "Error"@
    } else {
        "???"@
    }
}

/// The text of `key` in `locale`. Every locale currently falls through to
/// the English text; an unknown key gives `???`.
pub fn t(locale: Locale, key: &str) -> (r: &'static str)
    ensures
        r@ == translation(locale, key@),
{
    let _ = locale;
    let k = to_chars(key);
    // App chrome
    if chars_eq(&k, "app.title") {
        return "Replay";
    }
    if chars_eq(&k, "nav.home") {
        return "Home";
    }
    if chars_eq(&k, "nav.games") {
        return "Games";
    }
    if chars_eq(&k, "nav.favorites") {
        return "Favs";
    }
    if chars_eq(&k, "nav.more") {
        return "More";
    }
    // Home page
    if chars_eq(&k, "home.last_played") {
        return "Last Played";
    }
    if chars_eq(&k, "home.recently_played") {
        return "Recently Played";
    }
    if chars_eq(&k, "home.library") {
        return "Library";
    }
    if chars_eq(&k, "home.systems") {
        return "Systems";
    }
    if chars_eq(&k, "home.no_games_played") {
        return "No games played yet";
    }
    if chars_eq(&k, "home.no_recent") {
        return "No recent games";
    }
    if chars_eq(&k, "home.no_systems") {
        return "No systems with games";
    }
    // Stats
    if chars_eq(&k, "stats.games") {
        return "Games";
    }
    if chars_eq(&k, "stats.systems") {
        return "Systems";
    }
    if chars_eq(&k, "stats.favorites") {
        return "Favorites";
    }
    if chars_eq(&k, "stats.used") {
        return "Used";
    }
    if chars_eq(&k, "stats.storage") {
        return "Storage";
    }
    // Games page
    if chars_eq(&k, "games.systems") {
        return "Systems";
    }
    if chars_eq(&k, "games.search_placeholder") {
        return "Search games...";
    }
    if chars_eq(&k, "games.back") {
        return "\u{2190} Back";
    }
    if chars_eq(&k, "games.no_games") {
        return "No games";
    }
    if chars_eq(&k, "games.loading_roms") {
        return "Loading ROMs...";
    }
    if chars_eq(&k, "games.delete_confirm") {
        return "Delete this ROM?";
    }
    if chars_eq(&k, "games.deleted") {
        return "ROM deleted";
    }
    if chars_eq(&k, "games.renamed") {
        return "ROM renamed";
    }
    if chars_eq(&k, "games.rename") {
        return "Rename";
    }
    if chars_eq(&k, "games.delete") {
        return "Delete";
    }
    if chars_eq(&k, "games.cancel") {
        return "Cancel";
    }
    if chars_eq(&k, "games.confirm") {
        return "Confirm";
    }
    if chars_eq(&k, "games.actions") {
        return "Actions";
    }
    if chars_eq(&k, "games.load_more") {
        return "Load more";
    }
    // Favorites page
    if chars_eq(&k, "favorites.title") {
        return "Favorites";
    }
    if chars_eq(&k, "favorites.view_grouped") {
        return "View: Grouped";
    }
    if chars_eq(&k, "favorites.view_flat") {
        return "View: Flat";
    }
    if chars_eq(&k, "favorites.empty") {
        return "No favorites yet";
    }
    if chars_eq(&k, "favorites.latest_added") {
        return "Latest Added";
    }
    if chars_eq(&k, "favorites.recently_added") {
        return "Recently Added";
    }
    if chars_eq(&k, "favorites.by_system") {
        return "By System";
    }
    if chars_eq(&k, "favorites.all") {
        return "All Favorites";
    }
    // More page
    if chars_eq(&k, "more.title") {
        return "More";
    }
    if chars_eq(&k, "more.upload") {
        return "Upload ROMs";
    }
    if chars_eq(&k, "more.backup") {
        return "Backup & Restore";
    }
    if chars_eq(&k, "more.wifi") {
        return "Wi-Fi Configuration";
    }
    if chars_eq(&k, "more.nfs") {
        return "NFS Share Settings";
    }
    if chars_eq(&k, "more.system_info") {
        return "System Info";
    }
    if chars_eq(&k, "more.storage") {
        return "Storage";
    }
    if chars_eq(&k, "more.path") {
        return "Path";
    }
    if chars_eq(&k, "more.disk_total") {
        return "Disk Total";
    }
    if chars_eq(&k, "more.disk_used") {
        return "Disk Used";
    }
    if chars_eq(&k, "more.disk_available") {
        return "Disk Available";
    }
    if chars_eq(&k, "more.refresh_storage") {
        return "Refresh Storage";
    }
    if chars_eq(&k, "more.refreshing") {
        return "Refreshing...";
    }
    if chars_eq(&k, "more.storage_changed") {
        return "Storage updated";
    }
    if chars_eq(&k, "more.storage_unchanged") {
        return "Storage unchanged";
    }
    // WiFi configuration
    if chars_eq(&k, "wifi.title") {
        return "Wi-Fi Configuration";
    }
    if chars_eq(&k, "wifi.ssid") {
        return "Network Name (SSID)";
    }
    if chars_eq(&k, "wifi.password") {
        return "Password";
    }
    if chars_eq(&k, "wifi.country") {
        return "Country Code";
    }
    if chars_eq(&k, "wifi.mode") {
        return "Security Mode";
    }
    if chars_eq(&k, "wifi.hidden") {
        return "Hidden Network";
    }
    // NFS settings
    if chars_eq(&k, "nfs.title") {
        return "NFS Share Settings";
    }
    if chars_eq(&k, "nfs.server") {
        return "Server Address";
    }
    if chars_eq(&k, "nfs.share") {
        return "Share Path";
    }
    if chars_eq(&k, "nfs.version") {
        return "NFS Version";
    }
    if chars_eq(&k, "nfs.hint") {
        return "NFS changes take effect after switching storage to NFS and restarting the ReplayOS UI.";
    }
    // Settings (shared)
    if chars_eq(&k, "settings.save") {
        return "Save";
    }
    if chars_eq(&k, "settings.saving") {
        return "Saving...";
    }
    if chars_eq(&k, "settings.saved") {
        return "Settings saved";
    }
    if chars_eq(&k, "settings.apply_hint") {
        return "Restart the ReplayOS UI to apply changes.";
    }
    if chars_eq(&k, "settings.restart_ui") {
        return "Restart ReplayOS UI";
    }
    if chars_eq(&k, "settings.restarting") {
        return "Restarting...";
    }
    if chars_eq(&k, "settings.password_keep") {
        return "Leave empty to keep current";
    }
    if chars_eq(&k, "settings.password_enter") {
        return "Enter password";
    }
    // Game detail page
    if chars_eq(&k, "game_detail.info") {
        return "Game Info";
    }
    if chars_eq(&k, "game_detail.system") {
        return "System";
    }
    if chars_eq(&k, "game_detail.filename") {
        return "Filename";
    }
    if chars_eq(&k, "game_detail.file_size") {
        return "File Size";
    }
    if chars_eq(&k, "game_detail.format") {
        return "Format";
    }
    if chars_eq(&k, "game_detail.arcade_info") {
        return "Arcade Info";
    }
    if chars_eq(&k, "game_detail.year") {
        return "Year";
    }
    if chars_eq(&k, "game_detail.manufacturer") {
        return "Manufacturer";
    }
    if chars_eq(&k, "game_detail.players") {
        return "Players";
    }
    if chars_eq(&k, "game_detail.rotation") {
        return "Rotation";
    }
    if chars_eq(&k, "game_detail.category") {
        return "Category";
    }
    if chars_eq(&k, "game_detail.parent_rom") {
        return "Parent ROM";
    }
    if chars_eq(&k, "game_detail.description") {
        return "Description";
    }
    if chars_eq(&k, "game_detail.no_description") {
        return "No description available";
    }
    if chars_eq(&k, "game_detail.screenshots") {
        return "Screenshots";
    }
    if chars_eq(&k, "game_detail.no_screenshots") {
        return "No screenshots available";
    }
    if chars_eq(&k, "game_detail.videos") {
        return "Videos";
    }
    if chars_eq(&k, "game_detail.no_videos") {
        return "No videos available";
    }
    if chars_eq(&k, "game_detail.music") {
        return "Music / Soundtrack";
    }
    if chars_eq(&k, "game_detail.no_music") {
        return "No soundtrack available";
    }
    if chars_eq(&k, "game_detail.manual") {
        return "Manual";
    }
    if chars_eq(&k, "game_detail.no_manual") {
        return "No manual available";
    }
    if chars_eq(&k, "game_detail.actions") {
        return "Actions";
    }
    if chars_eq(&k, "game_detail.favorite") {
        return "Favorite";
    }
    if chars_eq(&k, "game_detail.unfavorite") {
        return "Unfavorite";
    }
    if chars_eq(&k, "game_detail.rename") {
        return "Rename";
    }
    if chars_eq(&k, "game_detail.delete") {
        return "Delete";
    }
    if chars_eq(&k, "game_detail.confirm_delete") {
        return "Confirm Delete";
    }
    // Common
    if chars_eq(&k, "common.loading") {
        return "Loading...";
    }
    if chars_eq(&k, "common.error") {
        return "Error";
    }    "???"
}

/// The keys the table has a text for.
pub open spec fn has_text(key: Seq<char>) -> bool {
    key == "app.title"@
        || key == "nav.home"@
        || key == "nav.games"@
        || key == "nav.favorites"@
        || key == "nav.more"@
        || key == "home.last_played"@
        || key == "home.recently_played"@
        || key == "home.library"@
        || key == "home.systems"@
        || key == "home.no_games_played"@
        || key == "home.no_recent"@
        || key == "home.no_systems"@
        || key == "stats.games"@
        || key == "stats.systems"@
        || key == "stats.favorites"@
        || key == "stats.used"@
        || key == "stats.storage"@
        || key == "games.systems"@
        || key == "games.search_placeholder"@
        || key == "games.back"@
        || key == "games.no_games"@
        || key == "games.loading_roms"@
        || key == "games.delete_confirm"@
        || key == "games.deleted"@
        || key == "games.renamed"@
        || key == "games.rename"@
        || key == "games.delete"@
        || key == "games.cancel"@
        || key == "games.confirm"@
        || key == "games.actions"@
        || key == "games.load_more"@
        || key == "favorites.title"@
        || key == "favorites.view_grouped"@
        || key == "favorites.view_flat"@
        || key == "favorites.empty"@
        || key == "favorites.latest_added"@
        || key == "favorites.recently_added"@
        || key == "favorites.by_system"@
        || key == "favorites.all"@
        || key == "more.title"@
        || key == "more.upload"@
        || key == "more.backup"@
        || key == "more.wifi"@
        || key == "more.nfs"@
        || key == "more.system_info"@
        || key == "more.storage"@
        || key == "more.path"@
        || key == "more.disk_total"@
        || key == "more.disk_used"@
        || key == "more.disk_available"@
        || key == "more.refresh_storage"@
        || key == "more.refreshing"@
        || key == "more.storage_changed"@
        || key == "more.storage_unchanged"@
        || key == "wifi.title"@
        || key == "wifi.ssid"@
        || key == "wifi.password"@
        || key == "wifi.country"@
        || key == "wifi.mode"@
        || key == "wifi.hidden"@
        || key == "nfs.title"@
        || key == "nfs.server"@
        || key == "nfs.share"@
        || key == "nfs.version"@
        || key == "nfs.hint"@
        || key == "settings.save"@
        || key == "settings.saving"@
        || key == "settings.saved"@
        || key == "settings.apply_hint"@
        || key == "settings.restart_ui"@
        || key == "settings.restarting"@
        || key == "settings.password_keep"@
        || key == "settings.password_enter"@
        || key == "game_detail.info"@
        || key == "game_detail.system"@
        || key == "game_detail.filename"@
        || key == "game_detail.file_size"@
        || key == "game_detail.format"@
        || key == "game_detail.arcade_info"@
        || key == "game_detail.year"@
        || key == "game_detail.manufacturer"@
        || key == "game_detail.players"@
        || key == "game_detail.rotation"@
        || key == "game_detail.category"@
        || key == "game_detail.parent_rom"@
        || key == "game_detail.description"@
        || key == "game_detail.no_description"@
        || key == "game_detail.screenshots"@
        || key == "game_detail.no_screenshots"@
        || key == "game_detail.videos"@
        || key == "game_detail.no_videos"@
        || key == "game_detail.music"@
        || key == "game_detail.no_music"@
        || key == "game_detail.manual"@
        || key == "game_detail.no_manual"@
        || key == "game_detail.actions"@
        || key == "game_detail.favorite"@
        || key == "game_detail.unfavorite"@
        || key == "game_detail.rename"@
        || key == "game_detail.delete"@
        || key == "game_detail.confirm_delete"@
        || key == "common.loading"@
        || key == "common.error"@
}

/// The text of a key in a locale: every locale has the English text.
pub open spec fn translation(locale: Locale, key: Seq<char>) -> Seq<char> {
    english_text(key)
}

/// The text of every key of the table, in every locale: the key is shown as
/// exactly this text (`nav.games` reads "Games", `nav.home` reads "Home",
/// and so on through the whole table).
pub proof fn law_translation_table(locale: Locale)
    ensures
        translation(locale, "app.title"@) == "Replay"@,
        translation(locale, "nav.home"@) == "Home"@,
        translation(locale, "nav.games"@) == "Games"@,
        translation(locale, "nav.favorites"@) == "Favs"@,
        translation(locale, "nav.more"@) == "More"@,
        translation(locale, "home.last_played"@) == "Last Played"@,
        translation(locale, "home.recently_played"@) == "Recently Played"@,
        translation(locale, "home.library"@) == "Library"@,
        translation(locale, "home.systems"@) == "Systems"@,
        translation(locale, "home.no_games_played"@) == "No games played yet"@,
        translation(locale, "home.no_recent"@) == "No recent games"@,
        translation(locale, "home.no_systems"@) == "No systems with games"@,
        translation(locale, "stats.games"@) == "Games"@,
        translation(locale, "stats.systems"@) == "Systems"@,
        translation(locale, "stats.favorites"@) == "Favorites"@,
        translation(locale, "stats.used"@) == "Used"@,
        translation(locale, "stats.storage"@) == "Storage"@,
        translation(locale, "games.systems"@) == "Systems"@,
        translation(locale, "games.search_placeholder"@) == "Search games..."@,
        translation(locale, "games.back"@) == "\u{2190} Back"@,
        translation(locale, "games.no_games"@) == "No games"@,
        translation(locale, "games.loading_roms"@) == "Loading ROMs..."@,
        translation(locale, "games.delete_confirm"@) == "Delete this ROM?"@,
        translation(locale, "games.deleted"@) == "ROM deleted"@,
        translation(locale, "games.renamed"@) == "ROM renamed"@,
        translation(locale, "games.rename"@) == "Rename"@,
        translation(locale, "games.delete"@) == "Delete"@,
        translation(locale, "games.cancel"@) == "Cancel"@,
        translation(locale, "games.confirm"@) == "Confirm"@,
        translation(locale, "games.actions"@) == "Actions"@,
        translation(locale, "games.load_more"@) == "Load more"@,
        translation(locale, "favorites.title"@) == "Favorites"@,
        translation(locale, "favorites.view_grouped"@) == "View: Grouped"@,
        translation(locale, "favorites.view_flat"@) == "View: Flat"@,
        translation(locale, "favorites.empty"@) == "No favorites yet"@,
        translation(locale, "favorites.latest_added"@) == "Latest Added"@,
        translation(locale, "favorites.recently_added"@) == "Recently Added"@,
        translation(locale, "favorites.by_system"@) == "By System"@,
        translation(locale, "favorites.all"@) == "All Favorites"@,
        translation(locale, "more.title"@) == "More"@,
        translation(locale, "more.upload"@) == "Upload ROMs"@,
        translation(locale, "more.backup"@) == "Backup & Restore"@,
        translation(locale, "more.wifi"@) == "Wi-Fi Configuration"@,
        translation(locale, "more.nfs"@) == "NFS Share Settings"@,
        translation(locale, "more.system_info"@) == "System Info"@,
        translation(locale, "more.storage"@) == "Storage"@,
        translation(locale, "more.path"@) == "Path"@,
        translation(locale, "more.disk_total"@) == "Disk Total"@,
        translation(locale, "more.disk_used"@) == "Disk Used"@,
        translation(locale, "more.disk_available"@) == "Disk Available"@,
        translation(locale, "more.refresh_storage"@) == "Refresh Storage"@,
        translation(locale, "more.refreshing"@) == "Refreshing..."@,
        translation(locale, "more.storage_changed"@) == "Storage updated"@,
        translation(locale, "more.storage_unchanged"@) == "Storage unchanged"@,
        translation(locale, "wifi.title"@) == "Wi-Fi Configuration"@,
        translation(locale, "wifi.ssid"@) == "Network Name (SSID)"@,
        translation(locale, "wifi.password"@) == "Password"@,
        translation(locale, "wifi.country"@) == "Country Code"@,
        translation(locale, "wifi.mode"@) == "Security Mode"@,
        translation(locale, "wifi.hidden"@) == "Hidden Network"@,
        translation(locale, "nfs.title"@) == "NFS Share Settings"@,
        translation(locale, "nfs.server"@) == "Server Address"@,
        translation(locale, "nfs.share"@) == "Share Path"@,
        translation(locale, "nfs.version"@) == "NFS Version"@,
        translation(locale, "nfs.hint"@) == "NFS changes take effect after switching storage to NFS and restarting the ReplayOS UI."@,
        translation(locale, "settings.save"@) == "Save"@,
        translation(locale, "settings.saving"@) == "Saving..."@,
        translation(locale, "settings.saved"@) == "Settings saved"@,
        translation(locale, "settings.apply_hint"@) == "Restart the ReplayOS UI to apply changes."@,
        translation(locale, "settings.restart_ui"@) == "Restart ReplayOS UI"@,
        translation(locale, "settings.restarting"@) == "Restarting..."@,
        translation(locale, "settings.password_keep"@) == "Leave empty to keep current"@,
        translation(locale, "settings.password_enter"@) == "Enter password"@,
        translation(locale, "game_detail.info"@) == "Game Info"@,
        translation(locale, "game_detail.system"@) == "System"@,
        translation(locale, "game_detail.filename"@) == "Filename"@,
        translation(locale, "game_detail.file_size"@) == "File Size"@,
        translation(locale, "game_detail.format"@) == "Format"@,
        translation(locale, "game_detail.arcade_info"@) == "Arcade Info"@,
        translation(locale, "game_detail.year"@) == "Year"@,
        translation(locale, "game_detail.manufacturer"@) == "Manufacturer"@,
        translation(locale, "game_detail.players"@) == "Players"@,
        translation(locale, "game_detail.rotation"@) == "Rotation"@,
        translation(locale, "game_detail.category"@) == "Category"@,
        translation(locale, "game_detail.parent_rom"@) == "Parent ROM"@,
        translation(locale, "game_detail.description"@) == "Description"@,
        translation(locale, "game_detail.no_description"@) == "No description available"@,
        translation(locale, "game_detail.screenshots"@) == "Screenshots"@,
        translation(locale, "game_detail.no_screenshots"@) == "No screenshots available"@,
        translation(locale, "game_detail.videos"@) == "Videos"@,
        translation(locale, "game_detail.no_videos"@) == "No videos available"@,
        translation(locale, "game_detail.music"@) == "Music / Soundtrack"@,
        translation(locale, "game_detail.no_music"@) == "No soundtrack available"@,
        translation(locale, "game_detail.manual"@) == "Manual"@,
        translation(locale, "game_detail.no_manual"@) == "No manual available"@,
        translation(locale, "game_detail.actions"@) == "Actions"@,
        translation(locale, "game_detail.favorite"@) == "Favorite"@,
        translation(locale, "game_detail.unfavorite"@) == "Unfavorite"@,
        translation(locale, "game_detail.rename"@) == "Rename"@,
        translation(locale, "game_detail.delete"@) == "Delete"@,
        translation(locale, "game_detail.confirm_delete"@) == "Confirm Delete"@,
        translation(locale, "common.loading"@) == "Loading..."@,
        translation(locale, "common.error"@) == "Error"@,
{
    reveal_strlit("app.title");
    reveal_strlit("nav.home");
    reveal_strlit("nav.games");
    reveal_strlit("nav.favorites");
    reveal_strlit("nav.more");
    reveal_strlit("home.last_played");
    reveal_strlit("home.recently_played");
    reveal_strlit("home.library");
    reveal_strlit("home.systems");
    reveal_strlit("home.no_games_played");
    reveal_strlit("home.no_recent");
    reveal_strlit("home.no_systems");
    reveal_strlit("stats.games");
    reveal_strlit("stats.systems");
    reveal_strlit("stats.favorites");
    reveal_strlit("stats.used");
    reveal_strlit("stats.storage");
    reveal_strlit("games.systems");
    reveal_strlit("games.search_placeholder");
    reveal_strlit("games.back");
    reveal_strlit("games.no_games");
    reveal_strlit("games.loading_roms");
    reveal_strlit("games.delete_confirm");
    reveal_strlit("games.deleted");
    reveal_strlit("games.renamed");
    reveal_strlit("games.rename");
    reveal_strlit("games.delete");
    reveal_strlit("games.cancel");
    reveal_strlit("games.confirm");
    reveal_strlit("games.actions");
    reveal_strlit("games.load_more");
    reveal_strlit("favorites.title");
    reveal_strlit("favorites.view_grouped");
    reveal_strlit("favorites.view_flat");
    reveal_strlit("favorites.empty");
    reveal_strlit("favorites.latest_added");
    reveal_strlit("favorites.recently_added");
    reveal_strlit("favorites.by_system");
    reveal_strlit("favorites.all");
    reveal_strlit("more.title");
    reveal_strlit("more.upload");
    reveal_strlit("more.backup");
    reveal_strlit("more.wifi");
    reveal_strlit("more.nfs");
    reveal_strlit("more.system_info");
    reveal_strlit("more.storage");
    reveal_strlit("more.path");
    reveal_strlit("more.disk_total");
    reveal_strlit("more.disk_used");
    reveal_strlit("more.disk_available");
    reveal_strlit("more.refresh_storage");
    reveal_strlit("more.refreshing");
    reveal_strlit("more.storage_changed");
    reveal_strlit("more.storage_unchanged");
    reveal_strlit("wifi.title");
    reveal_strlit("wifi.ssid");
    reveal_strlit("wifi.password");
    reveal_strlit("wifi.country");
    reveal_strlit("wifi.mode");
    reveal_strlit("wifi.hidden");
    reveal_strlit("nfs.title");
    reveal_strlit("nfs.server");
    reveal_strlit("nfs.share");
    reveal_strlit("nfs.version");
    reveal_strlit("nfs.hint");
    reveal_strlit("settings.save");
    reveal_strlit("settings.saving");
    reveal_strlit("settings.saved");
    reveal_strlit("settings.apply_hint");
    reveal_strlit("settings.restart_ui");
    reveal_strlit("settings.restarting");
    reveal_strlit("settings.password_keep");
    reveal_strlit("settings.password_enter");
    reveal_strlit("game_detail.info");
    reveal_strlit("game_detail.system");
    reveal_strlit("game_detail.filename");
    reveal_strlit("game_detail.file_size");
    reveal_strlit("game_detail.format");
    reveal_strlit("game_detail.arcade_info");
    reveal_strlit("game_detail.year");
    reveal_strlit("game_detail.manufacturer");
    reveal_strlit("game_detail.players");
    reveal_strlit("game_detail.rotation");
    reveal_strlit("game_detail.category");
    reveal_strlit("game_detail.parent_rom");
    reveal_strlit("game_detail.description");
    reveal_strlit("game_detail.no_description");
    reveal_strlit("game_detail.screenshots");
    reveal_strlit("game_detail.no_screenshots");
    reveal_strlit("game_detail.videos");
    reveal_strlit("game_detail.no_videos");
    reveal_strlit("game_detail.music");
    reveal_strlit("game_detail.no_music");
    reveal_strlit("game_detail.manual");
    reveal_strlit("game_detail.no_manual");
    reveal_strlit("game_detail.actions");
    reveal_strlit("game_detail.favorite");
    reveal_strlit("game_detail.unfavorite");
    reveal_strlit("game_detail.rename");
    reveal_strlit("game_detail.delete");
    reveal_strlit("game_detail.confirm_delete");
    reveal_strlit("common.loading");
    reveal_strlit("common.error");
    // Each key differs from every earlier key of the table: by its length,
    // or at the first character where two keys of one length differ.
    assert("app.title"@.len() == 9);
    assert("nav.home"@.len() == 8);
    assert("nav.games"@.len() == 9);
    assert("nav.favorites"@.len() == 13);
    assert("nav.more"@.len() == 8);
    assert("home.last_played"@.len() == 16);
    assert("home.recently_played"@.len() == 20);
    assert("home.library"@.len() == 12);
    assert("home.systems"@.len() == 12);
    assert("home.no_games_played"@.len() == 20);
    assert("home.no_recent"@.len() == 14);
    assert("home.no_systems"@.len() == 15);
    assert("stats.games"@.len() == 11);
    assert("stats.systems"@.len() == 13);
    assert("stats.favorites"@.len() == 15);
    assert("stats.used"@.len() == 10);
    assert("stats.storage"@.len() == 13);
    assert("games.systems"@.len() == 13);
    assert("games.search_placeholder"@.len() == 24);
    assert("games.back"@.len() == 10);
    assert("games.no_games"@.len() == 14);
    assert("games.loading_roms"@.len() == 18);
    assert("games.delete_confirm"@.len() == 20);
    assert("games.deleted"@.len() == 13);
    assert("games.renamed"@.len() == 13);
    assert("games.rename"@.len() == 12);
    assert("games.delete"@.len() == 12);
    assert("games.cancel"@.len() == 12);
    assert("games.confirm"@.len() == 13);
    assert("games.actions"@.len() == 13);
    assert("games.load_more"@.len() == 15);
    assert("favorites.title"@.len() == 15);
    assert("favorites.view_grouped"@.len() == 22);
    assert("favorites.view_flat"@.len() == 19);
    assert("favorites.empty"@.len() == 15);
    assert("favorites.latest_added"@.len() == 22);
    assert("favorites.recently_added"@.len() == 24);
    assert("favorites.by_system"@.len() == 19);
    assert("favorites.all"@.len() == 13);
    assert("more.title"@.len() == 10);
    assert("more.upload"@.len() == 11);
    assert("more.backup"@.len() == 11);
    assert("more.wifi"@.len() == 9);
    assert("more.nfs"@.len() == 8);
    assert("more.system_info"@.len() == 16);
    assert("more.storage"@.len() == 12);
    assert("more.path"@.len() == 9);
    assert("more.disk_total"@.len() == 15);
    assert("more.disk_used"@.len() == 14);
    assert("more.disk_available"@.len() == 19);
    assert("more.refresh_storage"@.len() == 20);
    assert("more.refreshing"@.len() == 15);
    assert("more.storage_changed"@.len() == 20);
    assert("more.storage_unchanged"@.len() == 22);
    assert("wifi.title"@.len() == 10);
    assert("wifi.ssid"@.len() == 9);
    assert("wifi.password"@.len() == 13);
    assert("wifi.country"@.len() == 12);
    assert("wifi.mode"@.len() == 9);
    assert("wifi.hidden"@.len() == 11);
    assert("nfs.title"@.len() == 9);
    assert("nfs.server"@.len() == 10);
    assert("nfs.share"@.len() == 9);
    assert("nfs.version"@.len() == 11);
    assert("nfs.hint"@.len() == 8);
    assert("settings.save"@.len() == 13);
    assert("settings.saving"@.len() == 15);
    assert("settings.saved"@.len() == 14);
    assert("settings.apply_hint"@.len() == 19);
    assert("settings.restart_ui"@.len() == 19);
    assert("settings.restarting"@.len() == 19);
    assert("settings.password_keep"@.len() == 22);
    assert("settings.password_enter"@.len() == 23);
    assert("game_detail.info"@.len() == 16);
    assert("game_detail.system"@.len() == 18);
    assert("game_detail.filename"@.len() == 20);
    assert("game_detail.file_size"@.len() == 21);
    assert("game_detail.format"@.len() == 18);
    assert("game_detail.arcade_info"@.len() == 23);
    assert("game_detail.year"@.len() == 16);
    assert("game_detail.manufacturer"@.len() == 24);
    assert("game_detail.players"@.len() == 19);
    assert("game_detail.rotation"@.len() == 20);
    assert("game_detail.category"@.len() == 20);
    assert("game_detail.parent_rom"@.len() == 22);
    assert("game_detail.description"@.len() == 23);
    assert("game_detail.no_description"@.len() == 26);
    assert("game_detail.screenshots"@.len() == 23);
    assert("game_detail.no_screenshots"@.len() == 26);
    assert("game_detail.videos"@.len() == 18);
    assert("game_detail.no_videos"@.len() == 21);
    assert("game_detail.music"@.len() == 17);
    assert("game_detail.no_music"@.len() == 20);
    assert("game_detail.manual"@.len() == 18);
    assert("game_detail.no_manual"@.len() == 21);
    assert("game_detail.actions"@.len() == 19);
    assert("game_detail.favorite"@.len() == 20);
    assert("game_detail.unfavorite"@.len() == 22);
    assert("game_detail.rename"@.len() == 18);
    assert("game_detail.delete"@.len() == 18);
    assert("game_detail.confirm_delete"@.len() == 26);
    assert("common.loading"@.len() == 14);
    assert("common.error"@.len() == 12);
    assert("nav.games"@[0] != "app.title"@[0]);
    assert("nav.more"@[4] != "nav.home"@[4]);
    assert("home.systems"@[5] != "home.library"@[5]);
    assert("home.no_games_played"@[5] != "home.recently_played"@[5]);
    assert("stats.systems"@[0] != "nav.favorites"@[0]);
    assert("stats.favorites"@[0] != "home.no_systems"@[0]);
    assert("stats.storage"@[0] != "nav.favorites"@[0]);
    assert("stats.storage"@[7] != "stats.systems"@[7]);
    assert("games.systems"@[0] != "nav.favorites"@[0]);
    assert("games.systems"@[0] != "stats.systems"@[0]);
    assert("games.systems"@[0] != "stats.storage"@[0]);
    assert("games.back"@[0] != "stats.used"@[0]);
    assert("games.no_games"@[0] != "home.no_recent"@[0]);
    assert("games.delete_confirm"@[0] != "home.recently_played"@[0]);
    assert("games.delete_confirm"@[0] != "home.no_games_played"@[0]);
    assert("games.deleted"@[0] != "nav.favorites"@[0]);
    assert("games.deleted"@[0] != "stats.systems"@[0]);
    assert("games.deleted"@[0] != "stats.storage"@[0]);
    assert("games.deleted"@[6] != "games.systems"@[6]);
    assert("games.renamed"@[0] != "nav.favorites"@[0]);
    assert("games.renamed"@[0] != "stats.systems"@[0]);
    assert("games.renamed"@[0] != "stats.storage"@[0]);
    assert("games.renamed"@[6] != "games.systems"@[6]);
    assert("games.renamed"@[6] != "games.deleted"@[6]);
    assert("games.rename"@[0] != "home.library"@[0]);
    assert("games.rename"@[0] != "home.systems"@[0]);
    assert("games.delete"@[0] != "home.library"@[0]);
    assert("games.delete"@[0] != "home.systems"@[0]);
    assert("games.delete"@[6] != "games.rename"@[6]);
    assert("games.cancel"@[0] != "home.library"@[0]);
    assert("games.cancel"@[0] != "home.systems"@[0]);
    assert("games.cancel"@[6] != "games.rename"@[6]);
    assert("games.cancel"@[6] != "games.delete"@[6]);
    assert("games.confirm"@[0] != "nav.favorites"@[0]);
    assert("games.confirm"@[0] != "stats.systems"@[0]);
    assert("games.confirm"@[0] != "stats.storage"@[0]);
    assert("games.confirm"@[6] != "games.systems"@[6]);
    assert("games.confirm"@[6] != "games.deleted"@[6]);
    assert("games.confirm"@[6] != "games.renamed"@[6]);
    assert("games.actions"@[0] != "nav.favorites"@[0]);
    assert("games.actions"@[0] != "stats.systems"@[0]);
    assert("games.actions"@[0] != "stats.storage"@[0]);
    assert("games.actions"@[6] != "games.systems"@[6]);
    assert("games.actions"@[6] != "games.deleted"@[6]);
    assert("games.actions"@[6] != "games.renamed"@[6]);
    assert("games.actions"@[6] != "games.confirm"@[6]);
    assert("games.load_more"@[0] != "home.no_systems"@[0]);
    assert("games.load_more"@[0] != "stats.favorites"@[0]);
    assert("favorites.title"@[0] != "home.no_systems"@[0]);
    assert("favorites.title"@[0] != "stats.favorites"@[0]);
    assert("favorites.title"@[0] != "games.load_more"@[0]);
    assert("favorites.empty"@[0] != "home.no_systems"@[0]);
    assert("favorites.empty"@[0] != "stats.favorites"@[0]);
    assert("favorites.empty"@[0] != "games.load_more"@[0]);
    assert("favorites.empty"@[10] != "favorites.title"@[10]);
    assert("favorites.latest_added"@[10] != "favorites.view_grouped"@[10]);
    assert("favorites.recently_added"@[0] != "games.search_placeholder"@[0]);
    assert("favorites.by_system"@[10] != "favorites.view_flat"@[10]);
    assert("favorites.all"@[0] != "nav.favorites"@[0]);
    assert("favorites.all"@[0] != "stats.systems"@[0]);
    assert("favorites.all"@[0] != "stats.storage"@[0]);
    assert("favorites.all"@[0] != "games.systems"@[0]);
    assert("favorites.all"@[0] != "games.deleted"@[0]);
    assert("favorites.all"@[0] != "games.renamed"@[0]);
    assert("favorites.all"@[0] != "games.confirm"@[0]);
    assert("favorites.all"@[0] != "games.actions"@[0]);
    assert("more.title"@[0] != "stats.used"@[0]);
    assert("more.title"@[0] != "games.back"@[0]);
    assert("more.upload"@[0] != "stats.games"@[0]);
    assert("more.backup"@[0] != "stats.games"@[0]);
    assert("more.backup"@[5] != "more.upload"@[5]);
    assert("more.wifi"@[0] != "app.title"@[0]);
    assert("more.wifi"@[0] != "nav.games"@[0]);
    assert("more.nfs"@[0] != "nav.home"@[0]);
    assert("more.nfs"@[0] != "nav.more"@[0]);
    assert("more.system_info"@[0] != "home.last_played"@[0]);
    assert("more.storage"@[0] != "home.library"@[0]);
    assert("more.storage"@[0] != "home.systems"@[0]);
    assert("more.storage"@[0] != "games.rename"@[0]);
    assert("more.storage"@[0] != "games.delete"@[0]);
    assert("more.storage"@[0] != "games.cancel"@[0]);
    assert("more.path"@[0] != "app.title"@[0]);
    assert("more.path"@[0] != "nav.games"@[0]);
    assert("more.path"@[5] != "more.wifi"@[5]);
    assert("more.disk_total"@[0] != "home.no_systems"@[0]);
    assert("more.disk_total"@[0] != "stats.favorites"@[0]);
    assert("more.disk_total"@[0] != "games.load_more"@[0]);
    assert("more.disk_total"@[0] != "favorites.title"@[0]);
    assert("more.disk_total"@[0] != "favorites.empty"@[0]);
    assert("more.disk_used"@[0] != "home.no_recent"@[0]);
    assert("more.disk_used"@[0] != "games.no_games"@[0]);
    assert("more.disk_available"@[0] != "favorites.view_flat"@[0]);
    assert("more.disk_available"@[0] != "favorites.by_system"@[0]);
    assert("more.refresh_storage"@[0] != "home.recently_played"@[0]);
    assert("more.refresh_storage"@[0] != "home.no_games_played"@[0]);
    assert("more.refresh_storage"@[0] != "games.delete_confirm"@[0]);
    assert("more.refreshing"@[0] != "home.no_systems"@[0]);
    assert("more.refreshing"@[0] != "stats.favorites"@[0]);
    assert("more.refreshing"@[0] != "games.load_more"@[0]);
    assert("more.refreshing"@[0] != "favorites.title"@[0]);
    assert("more.refreshing"@[0] != "favorites.empty"@[0]);
    assert("more.refreshing"@[5] != "more.disk_total"@[5]);
    assert("more.storage_changed"@[0] != "home.recently_played"@[0]);
    assert("more.storage_changed"@[0] != "home.no_games_played"@[0]);
    assert("more.storage_changed"@[0] != "games.delete_confirm"@[0]);
    assert("more.storage_changed"@[5] != "more.refresh_storage"@[5]);
    assert("more.storage_unchanged"@[0] != "favorites.view_grouped"@[0]);
    assert("more.storage_unchanged"@[0] != "favorites.latest_added"@[0]);
    assert("wifi.title"@[0] != "stats.used"@[0]);
    assert("wifi.title"@[0] != "games.back"@[0]);
    assert("wifi.title"@[0] != "more.title"@[0]);
    assert("wifi.ssid"@[0] != "app.title"@[0]);
    assert("wifi.ssid"@[0] != "nav.games"@[0]);
    assert("wifi.ssid"@[0] != "more.wifi"@[0]);
    assert("wifi.ssid"@[0] != "more.path"@[0]);
    assert("wifi.password"@[0] != "nav.favorites"@[0]);
    assert("wifi.password"@[0] != "stats.systems"@[0]);
    assert("wifi.password"@[0] != "stats.storage"@[0]);
    assert("wifi.password"@[0] != "games.systems"@[0]);
    assert("wifi.password"@[0] != "games.deleted"@[0]);
    assert("wifi.password"@[0] != "games.renamed"@[0]);
    assert("wifi.password"@[0] != "games.confirm"@[0]);
    assert("wifi.password"@[0] != "games.actions"@[0]);
    assert("wifi.password"@[0] != "favorites.all"@[0]);
    assert("wifi.country"@[0] != "home.library"@[0]);
    assert("wifi.country"@[0] != "home.systems"@[0]);
    assert("wifi.country"@[0] != "games.rename"@[0]);
    assert("wifi.country"@[0] != "games.delete"@[0]);
    assert("wifi.country"@[0] != "games.cancel"@[0]);
    assert("wifi.country"@[0] != "more.storage"@[0]);
    assert("wifi.mode"@[0] != "app.title"@[0]);
    assert("wifi.mode"@[0] != "nav.games"@[0]);
    assert("wifi.mode"@[0] != "more.wifi"@[0]);
    assert("wifi.mode"@[0] != "more.path"@[0]);
    assert("wifi.mode"@[5] != "wifi.ssid"@[5]);
    assert("wifi.hidden"@[0] != "stats.games"@[0]);
    assert("wifi.hidden"@[0] != "more.upload"@[0]);
    assert("wifi.hidden"@[0] != "more.backup"@[0]);
    assert("nfs.title"@[0] != "app.title"@[0]);
    assert("nfs.title"@[1] != "nav.games"@[1]);
    assert("nfs.title"@[0] != "more.wifi"@[0]);
    assert("nfs.title"@[0] != "more.path"@[0]);
    assert("nfs.title"@[0] != "wifi.ssid"@[0]);
    assert("nfs.title"@[0] != "wifi.mode"@[0]);
    assert("nfs.server"@[0] != "stats.used"@[0]);
    assert("nfs.server"@[0] != "games.back"@[0]);
    assert("nfs.server"@[0] != "more.title"@[0]);
    assert("nfs.server"@[0] != "wifi.title"@[0]);
    assert("nfs.share"@[0] != "app.title"@[0]);
    assert("nfs.share"@[1] != "nav.games"@[1]);
    assert("nfs.share"@[0] != "more.wifi"@[0]);
    assert("nfs.share"@[0] != "more.path"@[0]);
    assert("nfs.share"@[0] != "wifi.ssid"@[0]);
    assert("nfs.share"@[0] != "wifi.mode"@[0]);
    assert("nfs.share"@[4] != "nfs.title"@[4]);
    assert("nfs.version"@[0] != "stats.games"@[0]);
    assert("nfs.version"@[0] != "more.upload"@[0]);
    assert("nfs.version"@[0] != "more.backup"@[0]);
    assert("nfs.version"@[0] != "wifi.hidden"@[0]);
    assert("nfs.hint"@[1] != "nav.home"@[1]);
    assert("nfs.hint"@[1] != "nav.more"@[1]);
    assert("nfs.hint"@[0] != "more.nfs"@[0]);
    assert("settings.save"@[0] != "nav.favorites"@[0]);
    assert("settings.save"@[1] != "stats.systems"@[1]);
    assert("settings.save"@[1] != "stats.storage"@[1]);
    assert("settings.save"@[0] != "games.systems"@[0]);
    assert("settings.save"@[0] != "games.deleted"@[0]);
    assert("settings.save"@[0] != "games.renamed"@[0]);
    assert("settings.save"@[0] != "games.confirm"@[0]);
    assert("settings.save"@[0] != "games.actions"@[0]);
    assert("settings.save"@[0] != "favorites.all"@[0]);
    assert("settings.save"@[0] != "wifi.password"@[0]);
    assert("settings.saving"@[0] != "home.no_systems"@[0]);
    assert("settings.saving"@[1] != "stats.favorites"@[1]);
    assert("settings.saving"@[0] != "games.load_more"@[0]);
    assert("settings.saving"@[0] != "favorites.title"@[0]);
    assert("settings.saving"@[0] != "favorites.empty"@[0]);
    assert("settings.saving"@[0] != "more.disk_total"@[0]);
    assert("settings.saving"@[0] != "more.refreshing"@[0]);
    assert("settings.saved"@[0] != "home.no_recent"@[0]);
    assert("settings.saved"@[0] != "games.no_games"@[0]);
    assert("settings.saved"@[0] != "more.disk_used"@[0]);
    assert("settings.apply_hint"@[0] != "favorites.view_flat"@[0]);
    assert("settings.apply_hint"@[0] != "favorites.by_system"@[0]);
    assert("settings.apply_hint"@[0] != "more.disk_available"@[0]);
    assert("settings.restart_ui"@[0] != "favorites.view_flat"@[0]);
    assert("settings.restart_ui"@[0] != "favorites.by_system"@[0]);
    assert("settings.restart_ui"@[0] != "more.disk_available"@[0]);
    assert("settings.restart_ui"@[9] != "settings.apply_hint"@[9]);
    assert("settings.restarting"@[0] != "favorites.view_flat"@[0]);
    assert("settings.restarting"@[0] != "favorites.by_system"@[0]);
    assert("settings.restarting"@[0] != "more.disk_available"@[0]);
    assert("settings.restarting"@[9] != "settings.apply_hint"@[9]);
    assert("settings.restarting"@[16] != "settings.restart_ui"@[16]);
    assert("settings.password_keep"@[0] != "favorites.view_grouped"@[0]);
    assert("settings.password_keep"@[0] != "favorites.latest_added"@[0]);
    assert("settings.password_keep"@[0] != "more.storage_unchanged"@[0]);
    assert("game_detail.info"@[0] != "home.last_played"@[0]);
    assert("game_detail.info"@[0] != "more.system_info"@[0]);
    assert("game_detail.system"@[4] != "games.loading_roms"@[4]);
    assert("game_detail.filename"@[0] != "home.recently_played"@[0]);
    assert("game_detail.filename"@[0] != "home.no_games_played"@[0]);
    assert("game_detail.filename"@[4] != "games.delete_confirm"@[4]);
    assert("game_detail.filename"@[0] != "more.refresh_storage"@[0]);
    assert("game_detail.filename"@[0] != "more.storage_changed"@[0]);
    assert("game_detail.format"@[4] != "games.loading_roms"@[4]);
    assert("game_detail.format"@[12] != "game_detail.system"@[12]);
    assert("game_detail.arcade_info"@[0] != "settings.password_enter"@[0]);
    assert("game_detail.year"@[0] != "home.last_played"@[0]);
    assert("game_detail.year"@[0] != "more.system_info"@[0]);
    assert("game_detail.year"@[12] != "game_detail.info"@[12]);
    assert("game_detail.manufacturer"@[4] != "games.search_placeholder"@[4]);
    assert("game_detail.manufacturer"@[0] != "favorites.recently_added"@[0]);
    assert("game_detail.players"@[0] != "favorites.view_flat"@[0]);
    assert("game_detail.players"@[0] != "favorites.by_system"@[0]);
    assert("game_detail.players"@[0] != "more.disk_available"@[0]);
    assert("game_detail.players"@[0] != "settings.apply_hint"@[0]);
    assert("game_detail.players"@[0] != "settings.restart_ui"@[0]);
    assert("game_detail.players"@[0] != "settings.restarting"@[0]);
    assert("game_detail.rotation"@[0] != "home.recently_played"@[0]);
    assert("game_detail.rotation"@[0] != "home.no_games_played"@[0]);
    assert("game_detail.rotation"@[4] != "games.delete_confirm"@[4]);
    assert("game_detail.rotation"@[0] != "more.refresh_storage"@[0]);
    assert("game_detail.rotation"@[0] != "more.storage_changed"@[0]);
    assert("game_detail.rotation"@[12] != "game_detail.filename"@[12]);
    assert("game_detail.category"@[0] != "home.recently_played"@[0]);
    assert("game_detail.category"@[0] != "home.no_games_played"@[0]);
    assert("game_detail.category"@[4] != "games.delete_confirm"@[4]);
    assert("game_detail.category"@[0] != "more.refresh_storage"@[0]);
    assert("game_detail.category"@[0] != "more.storage_changed"@[0]);
    assert("game_detail.category"@[12] != "game_detail.filename"@[12]);
    assert("game_detail.category"@[12] != "game_detail.rotation"@[12]);
    assert("game_detail.parent_rom"@[0] != "favorites.view_grouped"@[0]);
    assert("game_detail.parent_rom"@[0] != "favorites.latest_added"@[0]);
    assert("game_detail.parent_rom"@[0] != "more.storage_unchanged"@[0]);
    assert("game_detail.parent_rom"@[0] != "settings.password_keep"@[0]);
    assert("game_detail.description"@[0] != "settings.password_enter"@[0]);
    assert("game_detail.description"@[12] != "game_detail.arcade_info"@[12]);
    assert("game_detail.screenshots"@[0] != "settings.password_enter"@[0]);
    assert("game_detail.screenshots"@[12] != "game_detail.arcade_info"@[12]);
    assert("game_detail.screenshots"@[12] != "game_detail.description"@[12]);
    assert("game_detail.no_screenshots"@[15] != "game_detail.no_description"@[15]);
    assert("game_detail.videos"@[4] != "games.loading_roms"@[4]);
    assert("game_detail.videos"@[12] != "game_detail.system"@[12]);
    assert("game_detail.videos"@[12] != "game_detail.format"@[12]);
    assert("game_detail.no_videos"@[12] != "game_detail.file_size"@[12]);
    assert("game_detail.no_music"@[0] != "home.recently_played"@[0]);
    assert("game_detail.no_music"@[0] != "home.no_games_played"@[0]);
    assert("game_detail.no_music"@[4] != "games.delete_confirm"@[4]);
    assert("game_detail.no_music"@[0] != "more.refresh_storage"@[0]);
    assert("game_detail.no_music"@[0] != "more.storage_changed"@[0]);
    assert("game_detail.no_music"@[12] != "game_detail.filename"@[12]);
    assert("game_detail.no_music"@[12] != "game_detail.rotation"@[12]);
    assert("game_detail.no_music"@[12] != "game_detail.category"@[12]);
    assert("game_detail.manual"@[4] != "games.loading_roms"@[4]);
    assert("game_detail.manual"@[12] != "game_detail.system"@[12]);
    assert("game_detail.manual"@[12] != "game_detail.format"@[12]);
    assert("game_detail.manual"@[12] != "game_detail.videos"@[12]);
    assert("game_detail.no_manual"@[12] != "game_detail.file_size"@[12]);
    assert("game_detail.no_manual"@[15] != "game_detail.no_videos"@[15]);
    assert("game_detail.actions"@[0] != "favorites.view_flat"@[0]);
    assert("game_detail.actions"@[0] != "favorites.by_system"@[0]);
    assert("game_detail.actions"@[0] != "more.disk_available"@[0]);
    assert("game_detail.actions"@[0] != "settings.apply_hint"@[0]);
    assert("game_detail.actions"@[0] != "settings.restart_ui"@[0]);
    assert("game_detail.actions"@[0] != "settings.restarting"@[0]);
    assert("game_detail.actions"@[12] != "game_detail.players"@[12]);
    assert("game_detail.favorite"@[0] != "home.recently_played"@[0]);
    assert("game_detail.favorite"@[0] != "home.no_games_played"@[0]);
    assert("game_detail.favorite"@[4] != "games.delete_confirm"@[4]);
    assert("game_detail.favorite"@[0] != "more.refresh_storage"@[0]);
    assert("game_detail.favorite"@[0] != "more.storage_changed"@[0]);
    assert("game_detail.favorite"@[13] != "game_detail.filename"@[13]);
    assert("game_detail.favorite"@[12] != "game_detail.rotation"@[12]);
    assert("game_detail.favorite"@[12] != "game_detail.category"@[12]);
    assert("game_detail.favorite"@[12] != "game_detail.no_music"@[12]);
    assert("game_detail.unfavorite"@[0] != "favorites.view_grouped"@[0]);
    assert("game_detail.unfavorite"@[0] != "favorites.latest_added"@[0]);
    assert("game_detail.unfavorite"@[0] != "more.storage_unchanged"@[0]);
    assert("game_detail.unfavorite"@[0] != "settings.password_keep"@[0]);
    assert("game_detail.unfavorite"@[12] != "game_detail.parent_rom"@[12]);
    assert("game_detail.rename"@[4] != "games.loading_roms"@[4]);
    assert("game_detail.rename"@[12] != "game_detail.system"@[12]);
    assert("game_detail.rename"@[12] != "game_detail.format"@[12]);
    assert("game_detail.rename"@[12] != "game_detail.videos"@[12]);
    assert("game_detail.rename"@[12] != "game_detail.manual"@[12]);
    assert("game_detail.delete"@[4] != "games.loading_roms"@[4]);
    assert("game_detail.delete"@[12] != "game_detail.system"@[12]);
    assert("game_detail.delete"@[12] != "game_detail.format"@[12]);
    assert("game_detail.delete"@[12] != "game_detail.videos"@[12]);
    assert("game_detail.delete"@[12] != "game_detail.manual"@[12]);
    assert("game_detail.delete"@[12] != "game_detail.rename"@[12]);
    assert("game_detail.confirm_delete"@[12] != "game_detail.no_description"@[12]);
    assert("game_detail.confirm_delete"@[12] != "game_detail.no_screenshots"@[12]);
    assert("common.loading"@[0] != "home.no_recent"@[0]);
    assert("common.loading"@[0] != "games.no_games"@[0]);
    assert("common.loading"@[0] != "more.disk_used"@[0]);
    assert("common.loading"@[0] != "settings.saved"@[0]);
    assert("common.error"@[0] != "home.library"@[0]);
    assert("common.error"@[0] != "home.systems"@[0]);
    assert("common.error"@[0] != "games.rename"@[0]);
    assert("common.error"@[0] != "games.delete"@[0]);
    assert("common.error"@[0] != "games.cancel"@[0]);
    assert("common.error"@[0] != "more.storage"@[0]);
    assert("common.error"@[0] != "wifi.country"@[0]);
}

/// Every key gets a non-empty text, the same in every locale, and the
/// placeholder `???` exactly when the table has no text for it.
pub proof fn law_translations(a: Locale, b: Locale, key: Seq<char>)
    ensures
        translation(a, key).len() > 0,
        translation(a, key) == translation(b, key),
        (translation(a, key) == "???"@) <==> !has_text(key),
{
    reveal_strlit("???");
    reveal_strlit("Actions");
    reveal_strlit("All Favorites");
    reveal_strlit("Arcade Info");
    reveal_strlit("Backup & Restore");
    reveal_strlit("By System");
    reveal_strlit("Cancel");
    reveal_strlit("Category");
    reveal_strlit("Confirm");
    reveal_strlit("Confirm Delete");
    reveal_strlit("Country Code");
    reveal_strlit("Delete");
    reveal_strlit("Delete this ROM?");
    reveal_strlit("Description");
    reveal_strlit("Disk Available");
    reveal_strlit("Disk Total");
    reveal_strlit("Disk Used");
    reveal_strlit("Enter password");
    reveal_strlit("Error");
    reveal_strlit("Favorite");
    reveal_strlit("Favorites");
    reveal_strlit("Favs");
    reveal_strlit("File Size");
    reveal_strlit("Filename");
    reveal_strlit("Format");
    reveal_strlit("Game Info");
    reveal_strlit("Games");
    reveal_strlit("Hidden Network");
    reveal_strlit("Home");
    reveal_strlit("Last Played");
    reveal_strlit("Latest Added");
    reveal_strlit("Leave empty to keep current");
    reveal_strlit("Library");
    reveal_strlit("Load more");
    reveal_strlit("Loading ROMs...");
    reveal_strlit("Loading...");
    reveal_strlit("Manual");
    reveal_strlit("Manufacturer");
    reveal_strlit("More");
    reveal_strlit("Music / Soundtrack");
    reveal_strlit("NFS Share Settings");
    reveal_strlit("NFS Version");
    reveal_strlit("NFS changes take effect after switching storage to NFS and restarting the ReplayOS UI.");
    reveal_strlit("Network Name (SSID)");
    reveal_strlit("No description available");
    reveal_strlit("No favorites yet");
    reveal_strlit("No games");
    reveal_strlit("No games played yet");
    reveal_strlit("No manual available");
    reveal_strlit("No recent games");
    reveal_strlit("No screenshots available");
    reveal_strlit("No soundtrack available");
    reveal_strlit("No systems with games");
    reveal_strlit("No videos available");
    reveal_strlit("Parent ROM");
    reveal_strlit("Password");
    reveal_strlit("Path");
    reveal_strlit("Players");
    reveal_strlit("ROM deleted");
    reveal_strlit("ROM renamed");
    reveal_strlit("Recently Added");
    reveal_strlit("Recently Played");
    reveal_strlit("Refresh Storage");
    reveal_strlit("Refreshing...");
    reveal_strlit("Rename");
    reveal_strlit("Replay");
    reveal_strlit("Restart ReplayOS UI");
    reveal_strlit("Restart the ReplayOS UI to apply changes.");
    reveal_strlit("Restarting...");
    reveal_strlit("Rotation");
    reveal_strlit("Save");
    reveal_strlit("Saving...");
    reveal_strlit("Screenshots");
    reveal_strlit("Search games...");
    reveal_strlit("Security Mode");
    reveal_strlit("Server Address");
    reveal_strlit("Settings saved");
    reveal_strlit("Share Path");
    reveal_strlit("Storage");
    reveal_strlit("Storage unchanged");
    reveal_strlit("Storage updated");
    reveal_strlit("System");
    reveal_strlit("System Info");
    reveal_strlit("Systems");
    reveal_strlit("Unfavorite");
    reveal_strlit("Upload ROMs");
    reveal_strlit("Used");
    reveal_strlit("Videos");
    reveal_strlit("View: Flat");
    reveal_strlit("View: Grouped");
    reveal_strlit("Wi-Fi Configuration");
    reveal_strlit("Year");
    reveal_strlit("\u{2190} Back");
    assert("Actions"@[0] != '?');
    assert("All Favorites"@[0] != '?');
    assert("Arcade Info"@[0] != '?');
    assert("Backup & Restore"@[0] != '?');
    assert("By System"@[0] != '?');
    assert("Cancel"@[0] != '?');
    assert("Category"@[0] != '?');
    assert("Confirm"@[0] != '?');
    assert("Confirm Delete"@[0] != '?');
    assert("Country Code"@[0] != '?');
    assert("Delete"@[0] != '?');
    assert("Delete this ROM?"@[0] != '?');
    assert("Description"@[0] != '?');
    assert("Disk Available"@[0] != '?');
    assert("Disk Total"@[0] != '?');
    assert("Disk Used"@[0] != '?');
    assert("Enter password"@[0] != '?');
    assert("Error"@[0] != '?');
    assert("Favorite"@[0] != '?');
    assert("Favorites"@[0] != '?');
    assert("Favs"@[0] != '?');
    assert("File Size"@[0] != '?');
    assert("Filename"@[0] != '?');
    assert("Format"@[0] != '?');
    assert("Game Info"@[0] != '?');
    assert("Games"@[0] != '?');
    assert("Hidden Network"@[0] != '?');
    assert("Home"@[0] != '?');
    assert("Last Played"@[0] != '?');
    assert("Latest Added"@[0] != '?');
    assert("Leave empty to keep current"@[0] != '?');
    assert("Library"@[0] != '?');
    assert("Load more"@[0] != '?');
    assert("Loading ROMs..."@[0] != '?');
    assert("Loading..."@[0] != '?');
    assert("Manual"@[0] != '?');
    assert("Manufacturer"@[0] != '?');
    assert("More"@[0] != '?');
    assert("Music / Soundtrack"@[0] != '?');
    assert("NFS Share Settings"@[0] != '?');
    assert("NFS Version"@[0] != '?');
    assert("NFS changes take effect after switching storage to NFS and restarting the ReplayOS UI."@[0] != '?');
    assert("Network Name (SSID)"@[0] != '?');
    assert("No description available"@[0] != '?');
    assert("No favorites yet"@[0] != '?');
    assert("No games"@[0] != '?');
    assert("No games played yet"@[0] != '?');
    assert("No manual available"@[0] != '?');
    assert("No recent games"@[0] != '?');
    assert("No screenshots available"@[0] != '?');
    assert("No soundtrack available"@[0] != '?');
    assert("No systems with games"@[0] != '?');
    assert("No videos available"@[0] != '?');
    assert("Parent ROM"@[0] != '?');
    assert("Password"@[0] != '?');
    assert("Path"@[0] != '?');
    assert("Players"@[0] != '?');
    assert("ROM deleted"@[0] != '?');
    assert("ROM renamed"@[0] != '?');
    assert("Recently Added"@[0] != '?');
    assert("Recently Played"@[0] != '?');
    assert("Refresh Storage"@[0] != '?');
    assert("Refreshing..."@[0] != '?');
    assert("Rename"@[0] != '?');
    assert("Replay"@[0] != '?');
    assert("Restart ReplayOS UI"@[0] != '?');
    assert("Restart the ReplayOS UI to apply changes."@[0] != '?');
    assert("Restarting..."@[0] != '?');
    assert("Rotation"@[0] != '?');
    assert("Save"@[0] != '?');
    assert("Saving..."@[0] != '?');
    assert("Screenshots"@[0] != '?');
    assert("Search games..."@[0] != '?');
    assert("Security Mode"@[0] != '?');
    assert("Server Address"@[0] != '?');
    assert("Settings saved"@[0] != '?');
    assert("Share Path"@[0] != '?');
    assert("Storage"@[0] != '?');
    assert("Storage unchanged"@[0] != '?');
    assert("Storage updated"@[0] != '?');
    assert("System"@[0] != '?');
    assert("System Info"@[0] != '?');
    assert("Systems"@[0] != '?');
    assert("Unfavorite"@[0] != '?');
    assert("Upload ROMs"@[0] != '?');
    assert("Used"@[0] != '?');
    assert("Videos"@[0] != '?');
    assert("View: Flat"@[0] != '?');
    assert("View: Grouped"@[0] != '?');
    assert("Wi-Fi Configuration"@[0] != '?');
    assert("Year"@[0] != '?');
    assert("\u{2190} Back"@[0] != '?');
}

} // verus!
