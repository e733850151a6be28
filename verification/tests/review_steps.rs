use replay_control::analytics::ping_accepted;
use replay_control::app_state::{refresh_storage, StorageKind, StorageSetting};
use replay_control::auth::{
    is_admin_server_function, is_public_auth_server_function, is_user_read_server_function,
    is_user_server_function, normalize_authority, server_function_required_role,
};
use replay_control::i18n::{t, Locale};
use replay_control::identity::{
    identity_claim_attempt, identity_jobs_queued, identity_work, ClaimAttempt, WorkerSlots,
};
use replay_control::pipeline::thumbnail_index_rebuild_needed;
use replay_control::rom_cache::RomCache;
use replay_control::server_fns::{wifi_config_updates, wifi_config_view};
use replay_control::types::SystemSummary;
use replay_control::watcher::watcher_continues;

fn setting(root: &str, kind: StorageKind, config: u32) -> StorageSetting<u32> {
    StorageSetting { root: root.to_string(), kind, config }
}

fn cached() -> RomCache {
    let mut c = RomCache::new();
    c.store_systems(
        vec![SystemSummary {
            folder_name: "snes".to_string(),
            display_name: "SNES".to_string(),
            manufacturer: String::new(),
            category: String::new(),
            game_count: 1,
            total_size_bytes: 0,
        }],
        0,
    );
    c
}

#[test]
fn storage_refresh_replaces_only_on_change() {
    let mut cur = setting("/media/sd", StorageKind::Sd, 1);
    let mut cache = cached();
    let r: Result<bool, String> = refresh_storage(&mut cur, &mut cache, None);
    assert_eq!(r, Ok(false));
    assert!(cache.cached_systems(1).is_some());

    let r = refresh_storage(&mut cur, &mut cache, Some(Err("no config".to_string())));
    assert_eq!(r, Err("no config".to_string()));
    assert_eq!(cur.config, 1);

    let r: Result<bool, String> =
        refresh_storage(&mut cur, &mut cache, Some(Ok(setting("/media/sd", StorageKind::Sd, 2))));
    assert_eq!(r, Ok(false));
    assert_eq!(cur.config, 1);
    assert!(cache.cached_systems(1).is_some());

    let r: Result<bool, String> =
        refresh_storage(&mut cur, &mut cache, Some(Ok(setting("/media/usb", StorageKind::Usb, 3))));
    assert_eq!(r, Ok(true));
    assert_eq!(cur.root, "/media/usb");
    assert_eq!(cur.kind, StorageKind::Usb);
    assert_eq!(cur.config, 3);
    assert!(cache.cached_systems(1).is_none());
}

#[test]
fn identity_phase_start_decisions() {
    assert!(!identity_jobs_queued(0));
    assert!(identity_jobs_queued(3));
    assert!(identity_work(0, 5).is_none());
    let c = identity_work(40, 2).unwrap();
    assert_eq!((c.rows_done, c.rows_total, c.systems_done, c.systems_total), (0, 40, 0, 2));
    assert_eq!(identity_claim_attempt(2, 1, true), ClaimAttempt::GiveUp);
    assert_eq!(identity_claim_attempt(1, 1, true), ClaimAttempt::TryClaim);
    assert_eq!(identity_claim_attempt(1, 1, false), ClaimAttempt::Wait);
    let mut slots = WorkerSlots::new(2);
    assert!(slots.try_acquire());
    assert!(slots.try_acquire());
    assert!(!slots.try_acquire());
    assert_eq!(slots.running, 2);
    slots.release();
    assert!(slots.try_acquire());
}

#[test]
fn watcher_generation_and_thumbnail_decisions() {
    assert!(watcher_continues(4, 4));
    assert!(!watcher_continues(5, 4));
    assert!(thumbnail_index_rebuild_needed(false, true, true));
    assert!(!thumbnail_index_rebuild_needed(false, true, false));
    assert!(thumbnail_index_rebuild_needed(true, true, false));
    assert!(!thumbnail_index_rebuild_needed(true, false, true));
}

#[test]
fn analytics_status() {
    assert!(ping_accepted(200));
    assert!(ping_accepted(204));
    assert!(!ping_accepted(500));
    assert!(!ping_accepted(302));
    assert!(!ping_accepted(199));
}

#[test]
fn translations_are_locale_free_and_never_empty() {
    for key in ["app.title", "nav.home", "common.loading", "unknown.key", ""] {
        assert!(!t(Locale::En, key).is_empty());
    }
    assert_eq!(t(Locale::En, "unknown.key"), "???");
    assert_ne!(t(Locale::En, "common.loading"), "???");
}

#[test]
fn role_ignores_spelling_and_lists_are_disjoint() {
    for (snake, pascal) in [("save_wifi_config", "SaveWifiConfig"), ("add_favorite", "AddFavorite"), ("get_auth_status", "GetAuthStatus")] {
        let r = server_function_required_role(&format!("/sfn/{snake}"));
        assert_eq!(server_function_required_role(&format!("/sfn/{pascal}")), r);
        assert_eq!(server_function_required_role(&format!("/sfn/{snake}12345")), r);
        assert_eq!(server_function_required_role(&format!("/sfn/{snake}/extra")), r);
    }
    for f in ["get_systems", "save_wifi_config", "logout", "add_favorite", "unknown"] {
        let n = [is_public_auth_server_function(f), is_admin_server_function(f), is_user_server_function(f)]
            .iter()
            .filter(|b| **b)
            .count();
        assert!(n <= 1);
        if is_user_read_server_function(f) {
            assert!(is_user_server_function(f) && !is_admin_server_function(f));
        }
    }
}

#[test]
fn authority_normalization_is_idempotent() {
    for v in [" Replay.Local:8443. ", "HOST", "a.b.c..", "x\u{3000}"] {
        if let Some(y) = normalize_authority(v) {
            assert_eq!(normalize_authority(&y), Some(y.clone()));
        }
    }
    assert_eq!(normalize_authority("bad\u{3000}host"), None);
}

#[test]
fn wifi_round_trip_keeps_password_private() {
    let ups = wifi_config_updates("home", "", "US", "wpa2", true);
    let get = |k: &str| ups.iter().rev().find(|(key, _)| key == k).map(|(_, v)| v.as_str());
    let stored_pwd = Some("secret");
    let pwd = get("wifi_pwd").or(stored_pwd);
    let v = wifi_config_view(get("wifi_name"), get("wifi_country"), get("wifi_mode"), get("wifi_hidden"), pwd);
    assert_eq!((v.ssid.as_str(), v.country.as_str(), v.mode.as_str(), v.hidden, v.has_password), ("home", "US", "wpa2", true, true));
}
