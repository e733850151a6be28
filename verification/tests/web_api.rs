use replay_control::core_api::{core_game_entries, game_keys, BoxArtEntry, GameRef};
use replay_control::i18n::{t, Locale};
use replay_control::rest::{
    attachment_header, export_filename, favorite_removal, require_read, requested_export_system,
    FavoriteRemoval, ReadFailure,
};

fn game(system: &str, file: &str, display: Option<&str>) -> GameRef {
    GameRef {
        system: system.to_string(),
        system_display: system.to_uppercase(),
        rom_filename: file.to_string(),
        display_name: display.map(|s| s.to_string()),
    }
}

fn art(system: &str, file: &str, url: Option<&str>) -> BoxArtEntry {
    BoxArtEntry {
        system: system.to_string(),
        rom_filename: file.to_string(),
        box_art_url: url.map(|s| s.to_string()),
    }
}

#[test]
fn translations() {
    let l = Locale::default();
    assert_eq!(l, Locale::En);
    assert_eq!(l.code(), "en");
    assert_eq!(t(l, "app.title"), "Replay");
    assert_eq!(t(l, "nav.favorites"), "Favs");
    assert_eq!(t(l, "games.back"), "\u{2190} Back");
    assert_eq!(t(l, "game_detail.confirm_delete"), "Confirm Delete");
    assert_eq!(t(l, "common.error"), "Error");
    assert_eq!(t(l, "no.such.key"), "???");
    assert_eq!(t(l, ""), "???");
}

#[test]
fn core_entries_use_display_names_and_box_art() {
    let games = vec![
        game("snes", "mario.sfc", Some("Super Mario World")),
        game("md", "sonic.md", None),
        game("snes", "zelda.sfc", None),
    ];
    let arts = vec![
        art("md", "sonic.md", Some("/media/md/sonic.png")),
        art("snes", "mario.sfc", None),
        art("nes", "zelda.sfc", Some("/wrong.png")),
    ];
    let keys = game_keys(&games);
    assert_eq!(keys[1], ("md".to_string(), "sonic.md".to_string()));
    let out = core_game_entries(&games, &arts);
    assert_eq!(out.len(), 3);
    assert_eq!(out[0].display_name, "Super Mario World");
    assert_eq!(out[0].box_art_url, None);
    assert_eq!(out[1].display_name, "sonic.md");
    assert_eq!(out[1].system_display, "MD");
    assert_eq!(out[1].box_art_url.as_deref(), Some("/media/md/sonic.png"));
    assert_eq!(out[2].box_art_url, None);
    assert_eq!(out[2].rom_filename, "zelda.sfc");
}

#[test]
fn export_parameters() {
    assert_eq!(requested_export_system(Some("snes")), Some("snes".to_string()));
    assert_eq!(requested_export_system(Some("")), None);
    assert_eq!(requested_export_system(None), None);
    assert_eq!(
        export_filename(Some("snes"), "20250101-120000"),
        "library-metadata-snes-20250101-120000.csv"
    );
    assert_eq!(export_filename(None, "X"), "library-metadata-all-X.csv");
    assert_eq!(attachment_header("a.csv"), "attachment; filename=\"a.csv\"");
}

#[test]
fn reads_that_fail_are_not_empty_results() {
    assert_eq!(require_read::<Vec<u8>, String>(Some(Ok(vec![]))).unwrap(), Vec::<u8>::new());
    assert!(matches!(
        require_read::<u8, String>(Some(Err("boom".to_string()))),
        Err(ReadFailure::Query(e)) if e == "boom"
    ));
    assert!(matches!(require_read::<u8, String>(None), Err(ReadFailure::PoolUnavailable)));
}

#[test]
fn favorite_removal_scope() {
    assert_eq!(favorite_removal(Some("by-system")), FavoriteRemoval::InSubfolder("by-system".to_string()));
    assert_eq!(favorite_removal(Some("")), FavoriteRemoval::Everywhere);
    assert_eq!(favorite_removal(None), FavoriteRemoval::Everywhere);
}
