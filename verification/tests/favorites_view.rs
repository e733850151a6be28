use replay_control::favorites_view::{
    favorite_marker_name, favorite_title, game_href, grouped_by_system, latest_added,
    newest_first, recently_added, system_cards, system_count, FavoriteListing,
};

fn fav(system: &str, display: &str, file: &str, name: Option<&str>, date: u64) -> FavoriteListing {
    FavoriteListing {
        marker_filename: format!("{system}@{file}.fav"),
        subfolder: String::new(),
        system: system.to_string(),
        system_display: display.to_string(),
        rom_filename: file.to_string(),
        display_name: name.map(|s| s.to_string()),
        date_added: date,
    }
}

fn sample() -> Vec<FavoriteListing> {
    vec![
        fav("snes", "Super Nintendo", "mario.sfc", Some("Super Mario World"), 100),
        fav("md", "Mega Drive", "sonic.md", None, 300),
        fav("snes", "Super Nintendo", "zelda.sfc", Some("Zelda"), 300),
        fav("arcade", "Arcade", "sf2.zip", Some("Street Fighter II"), 50),
        fav("snes", "Super Nintendo", "metroid.sfc", None, 300),
    ]
}

#[test]
fn titles_links_and_markers() {
    let v = sample();
    assert_eq!(favorite_title(&v[0]), "Super Mario World");
    assert_eq!(favorite_title(&v[1]), "sonic.md");
    assert_eq!(game_href("snes", "Super Mario World (USA).sfc"), "/games/snes/Super%20Mario%20World%20%28USA%29.sfc");
    assert_eq!(favorite_marker_name("snes", "mario.sfc"), "snes@mario.sfc.fav");
}

#[test]
fn counts_and_newest_first() {
    let v = sample();
    assert_eq!(system_count(&v), 3);
    assert_eq!(system_count(&Vec::new()), 0);
    let order = newest_first(&v);
    // Newest first; equal dates keep list order.
    assert_eq!(order, vec![1, 2, 4, 0, 3]);
    assert_eq!(latest_added(&order), Some(1));
    assert_eq!(recently_added(&order), vec![2, 4, 0, 3]);
    assert_eq!(latest_added(&Vec::new()), None);
    assert!(recently_added(&vec![7]).is_empty());
    let many: Vec<usize> = (0..15).collect();
    assert_eq!(recently_added(&many), (1..11).collect::<Vec<usize>>());
}

#[test]
fn cards_per_system_in_folder_order() {
    let v = sample();
    let cards = system_cards(&v);
    let systems: Vec<&str> = cards.iter().map(|c| c.system.as_str()).collect();
    assert_eq!(systems, vec!["arcade", "md", "snes"]);
    let snes = &cards[2];
    assert_eq!(snes.display_name, "Super Nintendo");
    assert_eq!(snes.count, 3);
    // Among the latest additions, the last one listed wins.
    assert_eq!(snes.latest, "metroid.sfc");
    assert_eq!(snes.latest_date, 300);
    assert_eq!(cards[0].latest, "Street Fighter II");
    assert_eq!(cards[1].count, 1);
}

#[test]
fn groups_by_display_name() {
    let v = sample();
    let groups = grouped_by_system(&v);
    let names: Vec<&str> = groups.iter().map(|g| g.system_display.as_str()).collect();
    assert_eq!(names, vec!["Arcade", "Mega Drive", "Super Nintendo"]);
    assert_eq!(groups[2].members, vec![0, 2, 4]);
    assert_eq!(groups[0].members, vec![3]);
    assert!(grouped_by_system(&Vec::new()).is_empty());
}
