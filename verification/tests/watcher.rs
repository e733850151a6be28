use replay_control::watcher::{
    is_config_event, is_rom_event, plan_rom_rescan, RomEventSummary, WatchEventKind,
};

fn rel(parts: &[&str]) -> Option<Vec<String>> {
    Some(parts.iter().map(|s| s.to_string()).collect())
}

fn strings(v: &[&str]) -> Vec<String> {
    v.iter().map(|s| s.to_string()).collect()
}

#[test]
fn rom_events_are_create_modify_remove() {
    assert!(is_rom_event(WatchEventKind::Create));
    assert!(is_rom_event(WatchEventKind::Modify));
    assert!(is_rom_event(WatchEventKind::Remove));
    assert!(!is_rom_event(WatchEventKind::Access));
    assert!(!is_rom_event(WatchEventKind::Any));
    assert!(!is_rom_event(WatchEventKind::Other));
}

#[test]
fn config_events_name_the_config_file() {
    let names = vec![None, Some("replay.cfg".to_string())];
    assert!(is_config_event(WatchEventKind::Modify, &names, "replay.cfg"));
    assert!(is_config_event(WatchEventKind::Create, &names, "replay.cfg"));
    assert!(!is_config_event(WatchEventKind::Remove, &names, "replay.cfg"));
    assert!(!is_config_event(WatchEventKind::Modify, &names, "other.cfg"));
    assert!(!is_config_event(WatchEventKind::Modify, &vec![None], "replay.cfg"));
}

#[test]
fn events_are_folded_by_system() {
    let mut s = RomEventSummary::new();
    s.collect_rom_event_systems(&vec![
        rel(&["nintendo_snes", "Mario.sfc"]),
        rel(&["nintendo_snes", "Zelda.sfc"]),
        rel(&["sega_md", "sub", "Sonic.md"]),
        rel(&["_favorites", "x.fav"]),
        None,
    ]);
    assert_eq!(s.affected_systems, strings(&["nintendo_snes", "sega_md"]));
    assert!(s.favorites_changed);
    assert!(!s.recents_changed);
    assert!(!s.roms_dir_changed);
    s.collect_rom_event_systems(&vec![rel(&["_recent", "y.rec"]), rel(&["arcade"])]);
    assert!(s.recents_changed);
    assert!(s.roms_dir_changed);
    assert_eq!(s.affected_systems, strings(&["nintendo_snes", "sega_md", "arcade"]));
}

#[test]
fn internal_directories_are_not_systems() {
    let mut s = RomEventSummary::new();
    s.collect_rom_event_systems(&vec![rel(&["_cache", "a"]), rel(&["_tmp"])]);
    assert!(s.affected_systems.is_empty());
    assert!(!s.roms_dir_changed);
}

#[test]
fn roms_root_change_marks_directory_changed() {
    let mut s = RomEventSummary::new();
    s.collect_rom_event_systems(&vec![rel(&[])]);
    assert!(s.roms_dir_changed);
    assert!(s.affected_systems.is_empty());
}

#[test]
fn rescan_plan_follows_the_summary() {
    let mut s = RomEventSummary::new();
    s.collect_rom_event_systems(&vec![rel(&["sega_md", "a.md"]), rel(&["_favorites", "f"])]);
    let visible = strings(&["arcade", "sega_md", "nintendo_nes"]);

    let busy = plan_rom_rescan(&s, false, &visible);
    assert!(busy.to_scan.is_empty());
    assert!(busy.invalidate_favorites);
    assert!(!busy.invalidate_library);

    let plan = plan_rom_rescan(&s, true, &visible);
    assert_eq!(plan.to_scan, strings(&["sega_md"]));
    assert!(plan.invalidate_library);
    assert!(!plan.invalidate_recents);

    s.collect_rom_event_systems(&vec![rel(&["nintendo_nes"])]);
    let full = plan_rom_rescan(&s, true, &visible);
    assert_eq!(full.to_scan, strings(&["sega_md", "nintendo_nes", "arcade"]));
}

#[test]
fn empty_window_plans_nothing() {
    let s = RomEventSummary::new();
    let plan = plan_rom_rescan(&s, true, &strings(&["arcade"]));
    assert!(plan.to_scan.is_empty());
    assert!(!plan.invalidate_library);
    assert!(!plan.invalidate_favorites);
}
