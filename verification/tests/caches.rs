use replay_control::cache::{
    CacheEntry, FavoritesCache, Freshness, FAVORITES_CACHE_TTL_MS, NFS_CACHE_TTL_MS,
};
use replay_control::rom_cache::{RomCache, CACHE_TTL_MS};
use replay_control::types::{RomEntry, SystemSummary};

fn pair(system: &str, file: &str) -> (String, String) {
    (system.to_string(), file.to_string())
}

fn summary(folder: &str, games: usize) -> SystemSummary {
    SystemSummary {
        folder_name: folder.to_string(),
        display_name: folder.to_uppercase(),
        manufacturer: String::new(),
        category: String::new(),
        game_count: games,
        total_size_bytes: 0,
    }
}

fn rom(system: &str, file: &str) -> RomEntry {
    RomEntry {
        system: system.to_string(),
        system_display: system.to_uppercase(),
        filename: file.to_string(),
        relative_path: format!("roms/{system}/{file}"),
        size_bytes: 1,
        is_m3u: false,
    }
}

#[test]
fn local_freshness_follows_the_mtime() {
    let f = Freshness::new(Some(100), true, 5);
    assert_eq!(f.expires_ms, None);
    assert!(f.is_fresh(Some(100), u64::MAX));
    assert!(!f.is_fresh(Some(101), 6));
    assert!(f.is_fresh(None, 6));
    let unknown = Freshness::new(None, true, 5);
    assert!(unknown.is_fresh(Some(7), 6));
}

#[test]
fn nfs_freshness_expires_after_ttl() {
    let f = Freshness::new(Some(100), false, 1_000);
    assert_eq!(f.expires_ms, Some(1_000 + NFS_CACHE_TTL_MS));
    assert!(f.is_fresh(Some(100), 1_000 + NFS_CACHE_TTL_MS - 1));
    assert!(!f.is_fresh(Some(100), 1_000 + NFS_CACHE_TTL_MS));
    assert!(!f.is_fresh(Some(99), 1_001));
    let e = CacheEntry::new(vec![1u8, 2], Some(3), false, 0);
    assert_eq!(e.data, vec![1, 2]);
    assert!(e.is_fresh(Some(3), 10));
    assert!(!e.is_fresh(Some(3), NFS_CACHE_TTL_MS));
}

#[test]
fn favorites_cache_groups_by_system() {
    let favs = vec![
        pair("snes", "Mario.sfc"),
        pair("md", "Sonic.md"),
        pair("snes", "Zelda.sfc"),
        pair("snes", "Mario.sfc"),
    ];
    let c = FavoritesCache::new(&favs, Some(1), 10);
    assert_eq!(c.expires_ms, 10 + FAVORITES_CACHE_TTL_MS);
    let mut snes = c.favorites_for(&"snes".to_string());
    snes.sort();
    assert_eq!(snes, vec!["Mario.sfc".to_string(), "Zelda.sfc".to_string()]);
    assert_eq!(c.favorites_for(&"md".to_string()), vec!["Sonic.md".to_string()]);
    assert!(c.favorites_for(&"nes".to_string()).is_empty());
    assert_eq!(c.favorites_count(), 3);
    let (top, files) = c.top_favorited_system().unwrap();
    assert_eq!(top, "snes");
    assert_eq!(files.len(), 2);
    let all = c.all_favorited_systems().unwrap();
    assert_eq!(all.len(), 2);
    assert!(c.is_fresh(Some(1), 11));
    assert!(!c.is_fresh(Some(2), 11));
    assert!(!c.is_fresh(Some(1), 10 + FAVORITES_CACHE_TTL_MS));
}

#[test]
fn empty_favorites_cache() {
    let c = FavoritesCache::new(&Vec::new(), None, 0);
    assert!(c.top_favorited_system().is_none());
    assert!(c.all_favorited_systems().is_none());
    assert_eq!(c.favorites_count(), 0);
}

#[test]
fn rom_cache_reads_back_what_was_stored() {
    let mut c = RomCache::new();
    assert!(c.cached_systems(0).is_none());
    c.store_systems(vec![summary("snes", 2)], 100);
    assert_eq!(c.cached_systems(100 + CACHE_TTL_MS - 1).unwrap().len(), 1);
    assert!(c.cached_systems(100 + CACHE_TTL_MS).is_none());

    c.store_roms("snes".to_string(), vec![rom("snes", "a.sfc")], 100);
    c.store_roms("md".to_string(), vec![rom("md", "s.md"), rom("md", "t.md")], 100);
    assert_eq!(c.cached_roms("snes", 200).unwrap()[0].filename, "a.sfc");
    assert_eq!(c.cached_roms("md", 200).unwrap().len(), 2);
    assert!(c.cached_roms("nes", 200).is_none());
    assert!(c.cached_roms("md", 100 + CACHE_TTL_MS).is_none());

    c.store_roms("snes".to_string(), Vec::new(), 300);
    assert!(c.cached_roms("snes", 301).unwrap().is_empty());
}

#[test]
fn rom_cache_invalidation() {
    let mut c = RomCache::new();
    c.store_systems(vec![summary("snes", 2)], 0);
    c.store_roms("snes".to_string(), vec![rom("snes", "a.sfc")], 0);
    c.store_roms("md".to_string(), vec![rom("md", "s.md")], 0);
    c.invalidate_system("snes");
    assert!(c.cached_roms("snes", 1).is_none());
    assert!(c.cached_roms("md", 1).is_some());
    assert!(c.cached_systems(1).is_none());
    c.store_systems(vec![summary("snes", 2)], 0);
    c.invalidate();
    assert!(c.cached_roms("md", 1).is_none());
    assert!(c.cached_systems(1).is_none());
}
