use replay_control::images::{apply_box_art_overrides, BoxArtPath};

fn entry(rom: &str, path: &str) -> BoxArtPath {
    BoxArtPath { rom_filename: rom.to_string(), path: path.to_string() }
}

fn lookup<'a>(paths: &'a [BoxArtPath], rom: &str) -> Option<&'a str> {
    paths.iter().find(|e| e.rom_filename == rom).map(|e| e.path.as_str())
}

#[test]
fn user_overrides_replace_matched_box_art() {
    let db = vec![entry("a.zip", "boxart/A.png"), entry("b.zip", "boxart/B.png")];
    let overrides = vec![entry("b.zip", "boxart/B (Alt).png"), entry("c.zip", "boxart/C.png")];
    let merged = apply_box_art_overrides(&db, &overrides);
    assert_eq!(merged.len(), 3);
    assert_eq!(lookup(&merged, "a.zip"), Some("boxart/A.png"));
    assert_eq!(lookup(&merged, "b.zip"), Some("boxart/B (Alt).png"));
    assert_eq!(lookup(&merged, "c.zip"), Some("boxart/C.png"));
    assert_eq!(lookup(&merged, "d.zip"), None);
}

#[test]
fn no_overrides_keep_the_matched_paths() {
    let db = vec![entry("a.zip", "boxart/A.png"), entry("b.zip", "boxart/B.png")];
    let merged = apply_box_art_overrides(&db, &Vec::new());
    assert_eq!(merged.len(), 2);
    assert_eq!(lookup(&merged, "a.zip"), Some("boxart/A.png"));
    assert_eq!(lookup(&merged, "b.zip"), Some("boxart/B.png"));
    let only_overrides = apply_box_art_overrides(&Vec::new(), &vec![entry("x.zip", "boxart/X.png")]);
    assert_eq!(only_overrides.len(), 1);
    assert_eq!(lookup(&only_overrides, "x.zip"), Some("boxart/X.png"));
}

#[test]
fn a_later_entry_for_the_same_rom_wins() {
    let db = vec![entry("a.zip", "boxart/Old.png"), entry("a.zip", "boxart/New.png")];
    let merged = apply_box_art_overrides(&db, &Vec::new());
    assert_eq!(merged.len(), 1);
    assert_eq!(lookup(&merged, "a.zip"), Some("boxart/New.png"));
}
