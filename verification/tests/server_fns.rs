use replay_control::server_fns::{
    arcade_lookup_name, command_outcome, find_rom, ip_for_interface, network_ips,
    nfs_config_updates, nfs_config_view, rotation_label, select_rom_page, skipped_message,
    wifi_config_updates, wifi_config_view, RomSearchKey, Rotation, SystemCommand, PAGE_SIZE,
};
use replay_control::types::RomEntry;

const IP_OUTPUT: &str = "1: lo    inet 127.0.0.1/8 scope host lo\\       valid_lft forever\n\
2: eth0    inet 192.168.1.100/24 brd 192.168.1.255 scope global eth0\n\
3: wlan0    inet 10.0.0.7/24 brd 10.0.0.255 scope global dynamic wlan0\n";

fn key(file: &str, display: Option<&str>) -> RomSearchKey {
    RomSearchKey { rom_filename: file.to_string(), display_name: display.map(|s| s.to_string()) }
}

fn rom(file: &str) -> RomEntry {
    RomEntry {
        system: "snes".to_string(),
        system_display: "SNES".to_string(),
        filename: file.to_string(),
        relative_path: format!("roms/snes/{file}"),
        size_bytes: 0,
        is_m3u: false,
    }
}

#[test]
fn network_addresses_come_from_ip_output() {
    let (eth, wifi) = network_ips(IP_OUTPUT);
    assert_eq!(eth.as_deref(), Some("192.168.1.100"));
    assert_eq!(wifi.as_deref(), Some("10.0.0.7"));
    assert_eq!(ip_for_interface(IP_OUTPUT, "lo").as_deref(), Some("127.0.0.1"));
    assert_eq!(ip_for_interface(IP_OUTPUT, "usb"), None);
}

#[test]
fn network_addresses_fall_back_to_predictable_names() {
    let out = "2: enp3s0 inet 172.16.0.2/16 scope global enp3s0\r\n4: wlp2s0 inet 10.1.1.1/8 x\n";
    let (eth, wifi) = network_ips(out);
    assert_eq!(eth.as_deref(), Some("172.16.0.2"));
    assert_eq!(wifi.as_deref(), Some("10.1.1.1"));
    assert_eq!(network_ips(""), (None, None));
    assert_eq!(network_ips("2: eth0 inet\n"), (None, None));
}

#[test]
fn search_is_case_insensitive_over_file_and_display_names() {
    let keys = vec![
        key("Super Mario World.sfc", None),
        key("zelda.sfc", Some("The Legend of Zelda")),
        key("SMW2.sfc", Some("Super MARIO World 2")),
        key("metroid.sfc", None),
    ];
    let page = select_rom_page(&keys, 0, PAGE_SIZE, "mario");
    assert_eq!(page.indices, vec![0, 2]);
    assert_eq!(page.total, 2);
    assert!(!page.has_more);
    let page = select_rom_page(&keys, 0, PAGE_SIZE, "LEGEND");
    assert_eq!(page.indices, vec![1]);
    let page = select_rom_page(&keys, 0, PAGE_SIZE, "");
    assert_eq!(page.indices, vec![0, 1, 2, 3]);
    assert_eq!(page.total, 4);
}

#[test]
fn pages_skip_and_take() {
    let keys: Vec<RomSearchKey> = (0..5).map(|i| key(&format!("game{i}.zip"), None)).collect();
    let first = select_rom_page(&keys, 0, 2, "");
    assert_eq!(first.indices, vec![0, 1]);
    assert!(first.has_more);
    let last = select_rom_page(&keys, 4, 2, "");
    assert_eq!(last.indices, vec![4]);
    assert!(!last.has_more);
    let beyond = select_rom_page(&keys, 9, 2, "");
    assert!(beyond.indices.is_empty());
    assert_eq!(beyond.total, 5);
    assert!(!beyond.has_more);
    let none = select_rom_page(&keys, 0, 0, "");
    assert!(none.indices.is_empty());
    assert!(none.has_more);
}

#[test]
fn rom_details() {
    let roms = vec![rom("a.zip"), rom("b.zip"), rom("a.zip")];
    assert_eq!(find_rom(&roms, "a.zip"), Ok(0));
    assert_eq!(find_rom(&roms, "b.zip"), Ok(1));
    assert_eq!(find_rom(&roms, "c.zip"), Err("ROM not found: c.zip".to_string()));
    assert_eq!(arcade_lookup_name("sf2.zip"), "sf2");
    assert_eq!(arcade_lookup_name("sf2.7z"), "sf2.7z");
    assert_eq!(arcade_lookup_name(".zip"), "");
    assert_eq!(rotation_label(Rotation::Horizontal), "Horizontal");
    assert_eq!(rotation_label(Rotation::Vertical), "Vertical");
    assert_eq!(rotation_label(Rotation::Unknown), "Unknown");
}

#[test]
fn wifi_settings_view_and_updates() {
    let v = wifi_config_view(Some("home"), Some("US"), None, Some("true"), Some("secret"));
    assert_eq!(v.ssid, "home");
    assert_eq!(v.country, "US");
    assert_eq!(v.mode, "transition");
    assert!(v.hidden);
    assert!(v.has_password);
    let empty = wifi_config_view(None, None, Some("wpa2"), None, Some("********"));
    assert_eq!(empty.ssid, "");
    assert_eq!(empty.mode, "wpa2");
    assert!(!empty.hidden);
    assert!(!empty.has_password);
    assert!(!wifi_config_view(None, None, None, Some("TRUE"), Some("")).hidden);
    assert!(!wifi_config_view(None, None, None, None, Some("")).has_password);

    let pairs = |v: Vec<(String, String)>| -> Vec<(String, String)> { v };
    assert_eq!(
        pairs(wifi_config_updates("home", "", "US", "wpa2", false)),
        vec![
            ("wifi_name".to_string(), "home".to_string()),
            ("wifi_country".to_string(), "US".to_string()),
            ("wifi_mode".to_string(), "wpa2".to_string()),
            ("wifi_hidden".to_string(), "false".to_string()),
        ]
    );
    assert_eq!(wifi_config_updates("home", "pw", "US", "wpa2", true)[1], ("wifi_pwd".to_string(), "pw".to_string()));
    assert_eq!(wifi_config_updates("home", "pw", "US", "wpa2", true)[4].1, "true");
}

#[test]
fn nfs_settings_view_and_updates() {
    let v = nfs_config_view(Some("10.0.0.2"), None, None);
    assert_eq!(v.server, "10.0.0.2");
    assert_eq!(v.share, "");
    assert_eq!(v.version, "4");
    assert_eq!(nfs_config_view(None, None, Some("3")).version, "3");
    assert_eq!(
        nfs_config_updates("s", "/export", "4"),
        vec![
            ("nfs_server".to_string(), "s".to_string()),
            ("nfs_share".to_string(), "/export".to_string()),
            ("nfs_version".to_string(), "4".to_string()),
        ]
    );
}

#[test]
fn restart_and_reboot_answers() {
    assert_eq!(skipped_message(SystemCommand::RestartUi), "Restart skipped (not running on ReplayOS)");
    assert_eq!(skipped_message(SystemCommand::Reboot), "Reboot skipped (not running on ReplayOS)");
    assert_eq!(
        command_outcome(SystemCommand::RestartUi, Ok((true, String::new()))),
        Ok("ReplayOS restarted".to_string())
    );
    assert_eq!(
        command_outcome(SystemCommand::RestartUi, Ok((false, "unit not found".to_string()))),
        Err("Restart failed: unit not found".to_string())
    );
    assert_eq!(
        command_outcome(SystemCommand::Reboot, Err("No such file".to_string())),
        Err("Failed to reboot: No such file".to_string())
    );
    assert_eq!(
        command_outcome(SystemCommand::Reboot, Ok((true, String::new()))),
        Ok("Rebooting...".to_string())
    );
    assert_eq!(
        command_outcome(SystemCommand::Reboot, Ok((false, "denied".to_string()))),
        Err("Reboot failed: denied".to_string())
    );
    assert_eq!(
        command_outcome(SystemCommand::RestartUi, Err("spawn".to_string())),
        Err("Failed to restart: spawn".to_string())
    );
}

#[test]
fn consecutive_pages_join_without_gaps() {
    let keys: Vec<RomSearchKey> = (0..7).map(|i| key(&format!("g{i}.zip"), None)).collect();
    let a = select_rom_page(&keys, 0, 3, "");
    let b = select_rom_page(&keys, 3, 3, "");
    let whole = select_rom_page(&keys, 0, 6, "");
    let mut joined = a.indices.clone();
    joined.extend(b.indices.iter().copied());
    assert_eq!(joined, whole.indices);
    let last = select_rom_page(&keys, 6, 3, "");
    assert!(!last.has_more);
    assert!(select_rom_page(&keys, 9, 3, "").indices.is_empty());
}
