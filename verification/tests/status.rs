use replay_control::status::{library_totals, summarize_library_status, SystemStatusRow};
use replay_control::types::SystemSummary;

fn row(system: &str, roms: usize, refreshing: bool) -> SystemStatusRow {
    SystemStatusRow { system: system.to_string(), roms, refreshing }
}

fn summary(folder: &str, games: usize) -> SystemSummary {
    SystemSummary {
        folder_name: folder.to_string(),
        display_name: folder.to_string(),
        manufacturer: String::new(),
        category: String::new(),
        game_count: games,
        total_size_bytes: 0,
    }
}

#[test]
fn ready_once_populated_and_nothing_scans() {
    let rows = vec![row("snes", 10, false), row("md", 5, false)];
    let s = summarize_library_status(&rows, true);
    assert!(s.ready);
    assert!(!s.scanning);
    assert_eq!(s.total_roms, 15);
}

#[test]
fn not_ready_while_a_system_scans() {
    let rows = vec![row("snes", 10, false), row("md", 5, true)];
    let s = summarize_library_status(&rows, true);
    assert!(!s.ready);
    assert!(s.scanning);
    assert_eq!(s.total_roms, 15);
}

#[test]
fn not_ready_before_boot_populate() {
    let s = summarize_library_status(&Vec::new(), false);
    assert!(!s.ready);
    assert!(!s.scanning);
    assert_eq!(s.total_roms, 0);
    assert!(summarize_library_status(&Vec::new(), true).ready);
}

#[test]
fn library_totals_count_systems_and_games() {
    let t = library_totals(&vec![summary("snes", 3), summary("md", 0), summary("nes", 4)]);
    assert_eq!(t.total_systems, 3);
    assert_eq!(t.systems_with_games, 2);
    assert_eq!(t.total_games, 7);
    let empty = library_totals(&Vec::new());
    assert_eq!(empty.total_systems, 0);
    assert_eq!(empty.total_games, 0);
}
