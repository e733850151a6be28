use replay_control::auth::{login_redirect_target, normalize_authority, passes_csrf_origin_check};
use replay_control::favorites_view::game_href;
use replay_control::server_fns::ip_for_interface;
use replay_control::text::{
    before_char, has_prefix, has_sub, has_suffix, lower_all, to_chars, trim_chars,
};
use replay_control::titles::normalize_for_wikidata_match;
use replay_control::update_flow::check_disk_space;

fn s(v: &[char]) -> String {
    v.iter().collect()
}

#[test]
fn percent_encoding_of_links() {
    assert_eq!(
        login_redirect_target(Some("/settings/wifi?mode=manual")),
        "/login?next=%2Fsettings%2Fwifi%3Fmode%3Dmanual"
    );
    assert_eq!(game_href("snes", "a-b_c.d~e"), "/games/snes/a-b_c.d~e");
    assert_eq!(game_href("snes", "é"), "/games/snes/%C3%A9");
    assert_eq!(game_href("snes", ""), "/games/snes/");
}

#[test]
fn uri_authorities() {
    assert_eq!(normalize_authority(" Replay.Local:8443. "), Some("replay.local:8443".to_string()));
    assert_eq!(normalize_authority("https://replay.local:8443/x"), None);
    // The authority is read out of the Origin or Referer URI.
    assert!(passes_csrf_origin_check(None, Some("replay.local:8443"), None, Some("https://REPLAY.local:8443/settings")));
    assert!(!passes_csrf_origin_check(None, Some("replay.local:8443"), None, Some("/settings")));
    assert!(passes_csrf_origin_check(None, Some("replay.local:8443"), Some("https://replay.local:8443"), None));
    assert!(!passes_csrf_origin_check(None, Some("replay.local:8443"), Some("https://example.com"), None));
}

#[test]
fn whitespace_and_numbers() {
    // U+3000 is Unicode white space: it separates words like a space.
    assert_eq!(ip_for_interface("2:\u{3000}eth0 inet 10.0.0.1/8", "eth").as_deref(), Some("10.0.0.1"));
    assert_eq!(normalize_for_wikidata_match("\u{3000}Tetris\u{3000}"), "tetris");
    assert_eq!(
        check_disk_space(1024 * 1024, 0),
        Err("Insufficient disk space: need 2 MB, have 0 MB".to_string())
    );
    assert_eq!(
        check_disk_space(1234567 * 1024 * 1024, 1048576 * 7),
        Err("Insufficient disk space: need 2469134 MB, have 7 MB".to_string())
    );
}

#[test]
fn char_helpers() {
    let a = to_chars("  Hello World\t");
    assert_eq!(s(&trim_chars(&a)), "Hello World");
    assert_eq!(s(&lower_all(&to_chars("ABC-xyz"))), "abc-xyz");
    assert!(has_prefix(&to_chars("/sfn/get"), "/sfn/"));
    assert!(!has_prefix(&to_chars("/sf"), "/sfn/"));
    assert!(has_suffix(&to_chars("game.zip"), ".zip"));
    assert!(has_sub(&to_chars("super mario"), "mario"));
    assert!(!has_sub(&to_chars("zelda"), "mario"));
    assert_eq!(s(&before_char(&to_chars("192.168.1.2/24"), '/')), "192.168.1.2");
    assert_eq!(s(&before_char(&to_chars("nohost"), '/')), "nohost");
}

#[test]
fn trimming_agrees_with_std_white_space() {
    for code in (0u32..0x3100).chain([0x180E, 0x200B, 0xFEFF, 0x10FFFF]) {
        if let Some(c) = char::from_u32(code) {
            let text = format!("{c}a{c}");
            assert_eq!(s(&trim_chars(&to_chars(&text))), text.trim(), "U+{code:04X}");
        }
    }
}
