use replay_control::titles::{
    disambiguate_display_names, infer_tosec_clones, TosecEntry, normalize_for_wikidata_match, NamedRom, TosecInfo,
};

fn rom(
    file: &str,
    display: Option<&str>,
    is_clone: bool,
    developer: &str,
    publisher: Option<&str>,
    date: Option<&str>,
    year: Option<u16>,
    descriptors: &[&str],
) -> NamedRom {
    NamedRom {
        rom_filename: file.to_string(),
        display_name: display.map(|s| s.to_string()),
        is_clone,
        developer: developer.to_string(),
        tosec: TosecInfo {
            publisher: publisher.map(|s| s.to_string()),
            date: date.map(|s| s.to_string()),
            year,
        },
        descriptors: descriptors.iter().map(|s| s.to_string()).collect(),
    }
}

fn names(v: &[NamedRom]) -> Vec<Option<String>> {
    v.iter().map(|e| e.display_name.clone()).collect()
}

#[test]
fn wikidata_keys() {
    assert_eq!(normalize_for_wikidata_match("  Super Mario Bros. 3  "), "super mario bros 3");
    assert_eq!(normalize_for_wikidata_match("Zelda: A Link  to the Past"), "zelda a link to the past");
    assert_eq!(normalize_for_wikidata_match("Pokémon - Red"), "pokémon red");
    assert_eq!(normalize_for_wikidata_match("!!!"), "");
    assert_eq!(normalize_for_wikidata_match("ÉLAN Vital!"), "élan vital");
    assert_eq!(normalize_for_wikidata_match("Sonic & Knuckles"), "sonic knuckles");
    assert_eq!(normalize_for_wikidata_match(""), "");
}

#[test]
fn publishers_tell_duplicates_apart() {
    let mut v = vec![
        rom("Barbarian (1987)(Palace).d64", Some("Barbarian"), false, "", Some("Palace"), Some("1987"), Some(1987), &[]),
        rom("Barbarian (1987)(Psygnosis).d64", Some("Barbarian"), false, "Psygnosis Ltd", Some("Psygnosis"), Some("1987"), Some(1987), &[]),
    ];
    disambiguate_display_names(&mut v);
    assert_eq!(
        names(&v),
        vec![Some("Barbarian (Palace)".to_string()), Some("Barbarian (Psygnosis Ltd)".to_string())]
    );
}

#[test]
fn years_then_full_dates() {
    let mut by_year = vec![
        rom("cc1", Some("Cross Chase"), false, "", None, Some("2017"), Some(2017), &[]),
        rom("cc2", Some("Cross Chase"), false, "", None, Some("2018-03-01"), Some(2018), &[]),
    ];
    disambiguate_display_names(&mut by_year);
    assert_eq!(
        names(&by_year),
        vec![Some("Cross Chase (2017)".to_string()), Some("Cross Chase (2018)".to_string())]
    );

    let mut by_date = vec![
        rom("cc1", Some("Cross Chase"), false, "", None, Some("2018-01-02"), Some(2018), &[]),
        rom("cc2", Some("Cross Chase"), false, "", None, Some("2018-03-01"), Some(2018), &[]),
    ];
    disambiguate_display_names(&mut by_date);
    assert_eq!(
        names(&by_date),
        vec![Some("Cross Chase (2018-01-02)".to_string()), Some("Cross Chase (2018-03-01)".to_string())]
    );
}

#[test]
fn descriptors_and_existing_parentheses() {
    let mut v = vec![
        rom("g1", Some("Game (USA)"), false, "", None, None, None, &["joystick"]),
        rom("g2", Some("Game (USA)"), false, "", None, None, None, &["experimental", "beta"]),
        rom("g3", Some("Game (USA)"), false, "", None, None, None, &[]),
    ];
    disambiguate_display_names(&mut v);
    assert_eq!(
        names(&v),
        vec![
            Some("Game (USA, joystick)".to_string()),
            Some("Game (USA, experimental, beta)".to_string()),
            Some("Game (USA)".to_string()),
        ]
    );
}

#[test]
fn clones_and_unique_names_are_kept() {
    let mut v = vec![
        rom("a.zip", Some("Alpha"), false, "", Some("X"), Some("1990"), Some(1990), &["v1"]),
        rom("b.zip", Some("Alpha"), true, "", Some("Y"), Some("1991"), Some(1991), &["v2"]),
        rom("c.zip", None, false, "", Some("Z"), None, None, &["v3"]),
        rom("c.zip", None, false, "", Some("W"), None, None, &[]),
    ];
    disambiguate_display_names(&mut v);
    assert_eq!(v[0].display_name.as_deref(), Some("Alpha"));
    assert_eq!(v[1].display_name.as_deref(), Some("Alpha"));
    // Names fall back to the file name, and the suffix goes after it.
    assert_eq!(v[2].display_name.as_deref(), Some("c.zip (Z, v3)"));
    assert_eq!(v[3].display_name.as_deref(), Some("c.zip (W)"));
    assert_eq!(v[3].rom_filename, "c.zip");
    assert_eq!(v[1].descriptors, vec!["v2".to_string()]);
}

#[test]
fn bracket_flagged_roms_with_a_clean_sibling_are_clones() {
    let e = |t: &str, flagged: bool, clone: bool| TosecEntry {
        base_title: t.to_string(),
        bracket_flagged: flagged,
        is_clone: clone,
    };
    let mut v = vec![e("Elite", false, false), e("Elite", true, false), e("Zork", true, false), e("Zork", true, true)];
    infer_tosec_clones(&mut v, false);
    let clones: Vec<bool> = v.iter().map(|x| x.is_clone).collect();
    assert_eq!(clones, vec![false, true, false, true]);
    let mut arcade = vec![e("Elite", false, false), e("Elite", true, false)];
    infer_tosec_clones(&mut arcade, true);
    assert!(!arcade[1].is_clone);
}
