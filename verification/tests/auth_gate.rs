use replay_control::auth::{
    access_redirect_target, auth_guard_decision, is_admin_server_function,
    is_explicitly_classified_server_function, is_public_auth_server_function,
    is_public_during_first_setup, is_public_without_auth, is_user_read_server_function,
    is_user_server_function, login_redirect_target, needs_session, normalize_authority,
    normalize_server_function_name, normalized_server_function_path, passes_csrf_origin_check,
    route_required_role, server_function_required_role, session_cookie_candidates,
    session_token_from_candidates,
    wants_html_response, AuthRole, GuardDecision, GuardRequest, HttpMethod,
};

#[test]
fn auth_guard_keeps_bootstrap_server_functions_public() {
    assert_eq!(server_function_required_role("/sfn/get_auth_status"), Some(AuthRole::Anonymous));
    assert_eq!(
        server_function_required_role("/sfn/get_auth_status10507523110576576594"),
        Some(AuthRole::Anonymous)
    );
    assert_eq!(server_function_required_role("/sfn/GetAuthStatus"), Some(AuthRole::Anonymous));
    assert_eq!(
        server_function_required_role("/sfn/login_with_replay_code"),
        Some(AuthRole::Anonymous)
    );
    assert_eq!(
        server_function_required_role("/sfn/LoginWithReplayCode"),
        Some(AuthRole::Anonymous)
    );
    assert_eq!(
        server_function_required_role("/sfn/complete_first_setup"),
        Some(AuthRole::Anonymous)
    );
    assert_eq!(server_function_required_role("/sfn/CompleteFirstSetup"), Some(AuthRole::Anonymous));
}

#[test]
fn first_setup_public_paths_are_narrow() {
    assert!(is_public_during_first_setup("/first-setup"));
    assert!(is_public_during_first_setup("/static/style.css"));
    assert!(is_public_during_first_setup("/api/version"));
    assert!(is_public_during_first_setup("/sfn/get_auth_status"));
    assert!(is_public_during_first_setup("/sfn/complete_first_setup"));

    assert!(!is_public_during_first_setup("/login"));
    assert!(!is_public_during_first_setup("/settings"));
    assert!(!is_public_during_first_setup("/games/nintendo_nes"));
    assert!(!is_public_during_first_setup("/sfn/login_admin"));
    assert!(!is_public_during_first_setup("/sfn/login_with_replay_code"));
}

#[test]
fn auth_guard_classifies_admin_and_user_server_functions() {
    let admin = [
        "/sfn/save_wifi_config",
        "/sfn/SaveWifiConfig",
        "/sfn/get_wifi_config",
        "/sfn/get_hostname",
        "/sfn/delete_rom",
        "/sfn/DeleteRom",
        "/sfn/rename_rom",
        "/sfn/refresh_storage",
        "/sfn/save_region_preference",
        "/sfn/save_region_preference_secondary",
        "/sfn/save_language_preference",
        "/sfn/downgrade_admin_to_user",
        "/sfn/logout_all_browsers",
        "/sfn/get_admin_session_timeout",
        "/sfn/set_admin_session_timeout",
        "/sfn/get_tls_certificate_info",
        "/sfn/regenerate_tls_certificate_info",
        "/sfn/get_metadata_page_snapshot",
        "/sfn/get_metadata_library_overview",
        "/sfn/completely_new_server_function",
    ];
    for path in admin {
        assert_eq!(server_function_required_role(path), Some(AuthRole::Admin), "{path}");
    }
    let user = [
        "/sfn/add_favorite",
        "/sfn/launch_game",
        "/sfn/send_replay_player_command",
        "/sfn/save_locale",
        "/sfn/save_font_size",
    ];
    for path in user {
        assert_eq!(server_function_required_role(path), Some(AuthRole::User), "{path}");
    }
}

/// Every server-function name that the classification lists know, in snake
/// case and in the PascalCase form the router may use, is explicitly
/// classified; and the inventory is not trivially small.
#[test]
fn auth_guard_classifies_every_server_function_intentionally() {
    let names = known_server_function_names();
    assert!(names.len() > 100, "server-function inventory unexpectedly small: {}", names.len());

    let to_pascal = |snake: &str| -> String {
        snake
            .split('_')
            .map(|seg| {
                let mut chars = seg.chars();
                match chars.next() {
                    Some(first) => first.to_ascii_uppercase().to_string() + chars.as_str(),
                    None => String::new(),
                }
            })
            .collect()
    };

    let missing = names
        .iter()
        .filter(|name| {
            !is_explicitly_classified_server_function(name)
                || !is_explicitly_classified_server_function(&to_pascal(name))
        })
        .cloned()
        .collect::<Vec<_>>();
    assert!(missing.is_empty(), "server functions need explicit auth classification: {missing:?}");
    assert!(!is_explicitly_classified_server_function("completely_new_server_function"));
}

fn known_server_function_names() -> Vec<String> {
    let text = "get_auth_status login_with_replay_code login_admin complete_first_setup logout \
        get_wifi_config save_wifi_config get_nfs_config save_nfs_config get_retroachievements_config \
        save_retroachievements_config_and_restart reboot_system power_off_replayos_device \
        downgrade_admin_to_user logout_all_browsers get_admin_session_timeout \
        set_admin_session_timeout get_hostname save_hostname change_root_password clear_metadata \
        regenerate_metadata download_metadata clear_images cleanup_orphaned_images \
        get_metadata_library_overview get_metadata_page_snapshot get_system_logs \
        get_log_level_config save_log_level_config get_replayos_log_level get_github_api_key \
        save_github_api_key save_region_preference save_region_preference_secondary \
        save_language_preference refresh_storage regenerate_tls_certificate_info \
        get_tls_certificate_info get_analytics_preference delete_rom rename_rom \
        get_replayos_settings enable_replay_api_assisted verify_replay_api_token \
        save_replayos_kiosk_mode start_setup_metadata_downloads update_thumbnails \
        cancel_thumbnail_update clear_thumbnail_index rescan_game_library rebuild_game_library \
        rebuild_corrupt_library repair_corrupt_user_data restore_user_data_backup \
        check_for_updates get_update_channel save_update_channel skip_version start_update \
        save_analytics_preference get_systems get_recents get_roms_page get_rom_detail \
        get_rom_file_group global_search get_all_genres get_system_genres search_by_developer \
        get_developer_genres get_developer_games search_by_board get_board_genres get_board_games \
        random_game random_game_for_system get_related_games get_recommendations \
        get_game_documents get_local_manuals get_game_manual_suggestions get_game_resource_links \
        get_game_videos get_provider_game_videos search_game_videos get_boxart_variants \
        get_update_changelog get_info get_live_stats get_mode get_favorites get_system_favorites \
        add_favorite remove_favorite organize_favorites group_favorites flatten_favorites \
        get_favorites_recommendations delete_recent get_user_captures delete_user_capture \
        launch_game get_replay_api_status get_library_playtime get_game_playtime \
        reprobe_replay_api send_replay_player_command send_replayos_message \
        restart_replayos_game get_save_state_slots add_game_resource_link \
        remove_game_resource_link add_game_video remove_game_video download_manual delete_manual \
        set_boxart_override reset_boxart_override get_setup_status dismiss_setup get_skins \
        set_skin set_skin_sync get_font_size save_font_size get_region_preference \
        get_region_preference_secondary get_language_preference get_locale save_locale \
        get_preferred_languages";
    let mut names: Vec<String> = text.split_whitespace().map(str::to_string).collect();
    names.sort();
    names.dedup();
    names
}

#[test]
fn auth_guard_classifies_rest_mutations() {
    assert_eq!(route_required_role(HttpMethod::Post, "/api/upload/snes"), AuthRole::Admin);
    assert_eq!(route_required_role(HttpMethod::Get, "/api/upload/targets"), AuthRole::Admin);
    assert_eq!(route_required_role(HttpMethod::Post, "/api/manuals/upload/snes"), AuthRole::User);
    assert_eq!(route_required_role(HttpMethod::Put, "/api/roms/rename"), AuthRole::Admin);
    assert_eq!(route_required_role(HttpMethod::Delete, "/api/roms"), AuthRole::Admin);
    assert_eq!(route_required_role(HttpMethod::Post, "/api/favorites"), AuthRole::User);
    assert_eq!(route_required_role(HttpMethod::Delete, "/api/favorites"), AuthRole::User);
    assert_eq!(route_required_role(HttpMethod::Post, "/api/new-mutation"), AuthRole::Admin);
    assert_eq!(route_required_role(HttpMethod::Get, "/settings/wifi"), AuthRole::Admin);
}

#[test]
fn unauthenticated_browse_routes_require_user_access() {
    assert_eq!(route_required_role(HttpMethod::Get, "/games/nes"), AuthRole::User);
    assert_eq!(route_required_role(HttpMethod::Get, "/api/systems"), AuthRole::User);
    assert_eq!(route_required_role(HttpMethod::Get, "/media/nes/Mario.png"), AuthRole::User);
    assert_eq!(route_required_role(HttpMethod::Get, "/api/favorites"), AuthRole::User);
    assert_eq!(route_required_role(HttpMethod::Get, "/api/info"), AuthRole::User);
    assert_eq!(route_required_role(HttpMethod::Get, "/settings"), AuthRole::User);
    assert_eq!(server_function_required_role("/sfn/get_systems"), Some(AuthRole::User));
    assert_eq!(server_function_required_role("/sfn/add_favorite"), Some(AuthRole::User));
}

#[test]
fn login_redirect_preserves_local_next_path() {
    assert_eq!(
        login_redirect_target(Some("/settings/wifi?mode=manual")),
        "/login?next=%2Fsettings%2Fwifi%3Fmode%3Dmanual"
    );
    assert_eq!(login_redirect_target(Some("/login")), "/login?next=%2F");
}

#[test]
fn access_redirect_preserves_local_next_path_without_looping() {
    assert_eq!(
        access_redirect_target(Some("/settings/wifi?mode=manual")),
        "/settings/access?next=%2Fsettings%2Fwifi%3Fmode%3Dmanual"
    );
    assert_eq!(
        access_redirect_target(Some("/settings/access")),
        "/settings/access?next=%2Fsettings"
    );
}

/// The parser yields the trimmed value of every session pair; which of them
/// is a well-formed signed token is the session store's decision.
#[test]
fn route_auth_cookie_candidates_are_trimmed_values() {
    assert_eq!(
        session_cookie_candidates("theme=dark; ReplayControlSession= abc.def ; other=value"),
        vec!["abc.def".to_string()]
    );
    assert_eq!(session_cookie_candidates("ReplayControlSession= "), vec![String::new()]);
    assert_eq!(session_cookie_candidates("ReplayControlSession=abc"), vec!["abc".to_string()]);
    assert_eq!(
        session_cookie_candidates("ReplayControlSession=abc.def.ghi"),
        vec!["abc.def.ghi".to_string()]
    );
    assert_eq!(
        session_cookie_candidates("ReplayControlSession=abc\tdef"),
        vec!["abc\tdef".to_string()]
    );
    assert!(session_cookie_candidates("theme=dark; other=value").is_empty());
    assert!(session_cookie_candidates("ReplayControlSessionabc").is_empty());
    assert_eq!(
        session_cookie_candidates("ReplayControlSession=a=b;ReplayControlSession=c"),
        vec!["a=b".to_string(), "c".to_string()]
    );
}

#[test]
fn csrf_check_accepts_same_origin() {
    assert!(passes_csrf_origin_check(
        None,
        Some("replay.local:8443"),
        Some("https://replay.local:8443"),
        None
    ));
}

#[test]
fn csrf_check_accepts_same_origin_referer() {
    assert!(passes_csrf_origin_check(
        None,
        Some("192.168.1.20:8443"),
        None,
        Some("https://192.168.1.20:8443/settings")
    ));
}

#[test]
fn csrf_check_accepts_same_origin_fetch_metadata() {
    assert!(passes_csrf_origin_check(Some("same-origin"), None, None, None));
    assert!(!passes_csrf_origin_check(Some("none"), None, None, None));
    assert!(passes_csrf_origin_check(
        Some("none"),
        Some("replay.local:8443"),
        Some("https://replay.local:8443"),
        None
    ));
    assert!(!passes_csrf_origin_check(
        Some("cross-site"),
        Some("replay.local:8443"),
        Some("https://replay.local:8443"),
        None
    ));
}

#[test]
fn csrf_check_rejects_cross_origin_or_missing_headers() {
    assert!(!passes_csrf_origin_check(
        None,
        Some("replay.local:8443"),
        Some("https://example.com"),
        None
    ));
    assert!(!passes_csrf_origin_check(None, Some("replay.local:8443"), None, None));
}

#[test]
fn public_paths_without_auth() {
    assert!(is_public_without_auth("/login"));
    assert!(is_public_without_auth("/waiting"));
    assert!(is_public_without_auth("/api/version"));
    assert!(is_public_without_auth("/api/core/status"));
    assert!(is_public_without_auth("/static/app.js"));
    assert!(!is_public_without_auth("/static"));
    assert!(!is_public_without_auth("/settings"));
    assert!(!is_public_without_auth("/login/"));
}

#[test]
fn server_function_names_normalize() {
    assert_eq!(normalize_server_function_name("GetAuthStatus"), "get_auth_status");
    assert_eq!(normalize_server_function_name("get_Auth_status"), "get_auth_status");
    assert_eq!(normalize_server_function_name("GetTLSCertificateInfo"), "get_tls_certificate_info");
    assert_eq!(normalize_server_function_name("save-locale"), "save_locale");
    assert_eq!(normalize_server_function_name("Get2Fa"), "get2_fa");
    let once = normalize_server_function_name("SaveRegionPreferenceSecondary");
    assert_eq!(normalize_server_function_name(&once), once);
    assert_eq!(
        normalized_server_function_path("/sfn//GetAuthStatus123/extra/"),
        Some("get_auth_status".to_string())
    );
    assert_eq!(normalized_server_function_path("/api/sfn/x"), None);
    assert_eq!(normalized_server_function_path("/sfn/"), Some(String::new()));
}

#[test]
fn classification_lists() {
    assert!(is_public_auth_server_function("logout"));
    assert!(!is_public_auth_server_function("get_systems"));
    assert!(is_admin_server_function("start_update"));
    assert!(!is_admin_server_function("get_systems"));
    assert!(is_user_read_server_function("get_update_changelog"));
    assert!(!is_user_read_server_function("add_favorite"));
    assert!(is_user_server_function("add_favorite"));
    assert!(is_user_server_function("get_systems"));
    assert!(!is_user_server_function("delete_rom"));
    assert_eq!(server_function_required_role("/games/nes"), None);
    assert_eq!(server_function_required_role("/sfn/logout"), Some(AuthRole::Anonymous));
}

#[test]
fn authority_normalization() {
    assert_eq!(normalize_authority(" Replay.Local:8443. "), Some("replay.local:8443".to_string()));
    assert_eq!(normalize_authority(""), None);
    assert_eq!(normalize_authority("..."), None);
    assert_eq!(normalize_authority("user@host"), None);
    assert_eq!(normalize_authority("host/path"), None);
    assert_eq!(normalize_authority("host\\x"), None);
    assert_eq!(normalize_authority("ho st"), None);
}

#[test]
fn html_preference() {
    assert!(wants_html_response(None));
    assert!(wants_html_response(Some("text/html,application/xhtml+xml")));
    assert!(!wants_html_response(Some("application/json")));
    assert!(!wants_html_response(Some("")));
}

#[test]
fn redirects_without_path() {
    assert_eq!(login_redirect_target(None), "/login?next=%2F");
    assert_eq!(access_redirect_target(None), "/settings/access?next=%2F");
    assert_eq!(login_redirect_target(Some("/loginx")), "/login?next=%2F");
    assert_eq!(login_redirect_target(Some("/a b~.-_")), "/login?next=%2Fa%20b~.-_");
    assert_eq!(login_redirect_target(Some("/é")), "/login?next=%2F%C3%A9");
}

fn request(path: &str, method: HttpMethod, role: AuthRole) -> GuardRequest {
    GuardRequest {
        is_device: true,
        path: path.to_string(),
        method,
        role,
        first_setup_done: true,
        accept: Some("text/html".to_string()),
        sec_fetch_site: None,
        host: Some("replay.local".to_string()),
        origin: Some("http://replay.local".to_string()),
        referer: None,
        path_and_query: Some(path.to_string()),
    }
}

fn kind(d: &GuardDecision) -> String {
    match d {
        GuardDecision::Pass => "pass".to_string(),
        GuardDecision::Forbidden => "403".to_string(),
        GuardDecision::Unauthorized => "401".to_string(),
        GuardDecision::Redirect(t) => format!("redirect {t}"),
    }
}

#[test]
fn guard_decisions() {
    // Off the device everything passes.
    let mut q = request("/sfn/delete_rom", HttpMethod::Post, AuthRole::Anonymous);
    q.is_device = false;
    assert_eq!(kind(&auth_guard_decision(&q)), "pass");
    assert!(!needs_session(false, "/sfn/delete_rom"));
    assert!(!needs_session(true, "/static/app.css"));
    assert!(needs_session(true, "/login"));

    // Static assets pass for anyone.
    let q = request("/static/app.css", HttpMethod::Get, AuthRole::Anonymous);
    assert_eq!(kind(&auth_guard_decision(&q)), "pass");

    // Anonymous browser on a user page: to the login page.
    let q = request("/games/nes", HttpMethod::Get, AuthRole::Anonymous);
    assert_eq!(kind(&auth_guard_decision(&q)), "redirect /login?next=%2Fgames%2Fnes");

    // A user on an admin page: to the access page.
    let q = request("/settings/wifi", HttpMethod::Get, AuthRole::User);
    assert_eq!(kind(&auth_guard_decision(&q)), "redirect /settings/access?next=%2Fsettings%2Fwifi");

    // Server functions answer with status codes.
    let q = request("/sfn/delete_rom", HttpMethod::Post, AuthRole::User);
    assert_eq!(kind(&auth_guard_decision(&q)), "403");
    let q = request("/sfn/delete_rom", HttpMethod::Post, AuthRole::Anonymous);
    assert_eq!(kind(&auth_guard_decision(&q)), "401");
    let q = request("/sfn/delete_rom", HttpMethod::Post, AuthRole::Admin);
    assert_eq!(kind(&auth_guard_decision(&q)), "pass");
    let q = request("/sfn/get_auth_status", HttpMethod::Post, AuthRole::Anonymous);
    assert_eq!(kind(&auth_guard_decision(&q)), "pass");

    // Cross-site mutation by a signed-in browser.
    let mut q = request("/sfn/add_favorite", HttpMethod::Post, AuthRole::User);
    q.sec_fetch_site = Some("cross-site".to_string());
    assert_eq!(kind(&auth_guard_decision(&q)), "403");
    // Missing origin headers.
    let mut q = request("/sfn/add_favorite", HttpMethod::Post, AuthRole::User);
    q.origin = None;
    assert_eq!(kind(&auth_guard_decision(&q)), "403");
    let q = request("/sfn/add_favorite", HttpMethod::Post, AuthRole::User);
    assert_eq!(kind(&auth_guard_decision(&q)), "pass");

    // Signed-in browsers are sent home from the login page.
    let q = request("/login", HttpMethod::Get, AuthRole::User);
    assert_eq!(kind(&auth_guard_decision(&q)), "redirect /");
    let q = request("/login", HttpMethod::Get, AuthRole::Anonymous);
    assert_eq!(kind(&auth_guard_decision(&q)), "pass");

    // API clients get status codes, not redirects.
    let mut q = request("/api/roms", HttpMethod::Delete, AuthRole::User);
    q.accept = Some("application/json".to_string());
    assert_eq!(kind(&auth_guard_decision(&q)), "403");
    let mut q = request("/api/systems", HttpMethod::Get, AuthRole::Anonymous);
    q.accept = Some("application/json".to_string());
    assert_eq!(kind(&auth_guard_decision(&q)), "401");

    // Before first setup.
    let mut q = request("/games/nes", HttpMethod::Get, AuthRole::Anonymous);
    q.first_setup_done = false;
    assert_eq!(kind(&auth_guard_decision(&q)), "redirect /first-setup");
    let mut q = request("/sfn/get_systems", HttpMethod::Post, AuthRole::Anonymous);
    q.first_setup_done = false;
    assert_eq!(kind(&auth_guard_decision(&q)), "401");
    let mut q = request("/sfn/CompleteFirstSetup", HttpMethod::Post, AuthRole::Anonymous);
    q.first_setup_done = false;
    assert_eq!(kind(&auth_guard_decision(&q)), "pass");
}

#[test]
fn the_first_well_formed_candidate_is_the_session_token() {
    let candidates = vec!["abc".to_string(), "abc.def".to_string(), "x.y".to_string()];
    assert_eq!(
        session_token_from_candidates(&candidates, &vec![false, true, true]),
        Some("abc.def".to_string())
    );
    assert_eq!(session_token_from_candidates(&candidates, &vec![false, false, false]), None);
    assert_eq!(session_token_from_candidates(&Vec::new(), &Vec::new()), None);
}
