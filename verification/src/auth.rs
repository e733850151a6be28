//! Session-auth gating of the HTTP surface: which role each route and server
//! function needs, the CSRF origin check, the login/access redirect targets,
//! and the decision the auth middleware takes for one request.
//!
//! Classification is centralized here (one allowlist per role). Server
//! functions that no allowlist names require an administrator: the guard
//! fails closed.
use vstd::prelude::*;

use crate::encoding::{parse_uri_authority, percent_encoded, uri_authority, url_encode};
use crate::text::{
    before_char, char_is_whitespace, chars_eq, contains_sub, from_chars, has_char, has_prefix,
    has_sub, is_ascii_digit, join, is_ascii_lower, is_ascii_upper, lemma_take_until_index,
    lemma_take_until_len,
    lemma_trim_end_index, lemma_trim_start_index, lower, lower_all, lower_char, lower_seq,
    same_chars, segments, white_space_pred,
    starts_with, sub_chars, take_until, to_chars, trim_chars, trim_char, trim_end_by,
    trim_end_char, trim_start_by, trim_ws, unicode_white_space,
};

verus! {

/// The role a request carries, from weakest to strongest.
#[derive(Clone, Copy, Debug, PartialEq, Eq, Structural)]
pub enum AuthRole {
    Anonymous,
    User,
    Admin,
}

impl AuthRole {
    pub open spec fn rank(self) -> int {
        match self {
            AuthRole::Anonymous => 0,
            AuthRole::User => 1,
            AuthRole::Admin => 2,
        }
    }

    /// Whether a request with this role may use something that requires `required`.
    pub fn allows(&self, required: AuthRole) -> (r: bool)
        ensures
            r == (self.rank() >= required.rank()),
    {
        match (*self, required) {
            (AuthRole::Admin, _) => true,
            (AuthRole::User, AuthRole::Admin) => false,
            (AuthRole::User, _) => true,
            (AuthRole::Anonymous, AuthRole::Anonymous) => true,
            (AuthRole::Anonymous, _) => false,
        }
    }
}

/// The HTTP method of a request.
#[derive(Clone, Copy, Debug, PartialEq, Eq, Structural)]
pub enum HttpMethod {
    Get,
    Head,
    Options,
    Trace,
    Post,
    Put,
    Delete,
    Patch,
    Connect,
    /// Any extension method.
    Other,
}

/// Methods that change state: everything but GET, HEAD, OPTIONS and TRACE.
pub open spec fn unsafe_method(m: HttpMethod) -> bool {
    !(m == HttpMethod::Get || m == HttpMethod::Head || m == HttpMethod::Options || m
        == HttpMethod::Trace)
}

pub fn is_unsafe_method(m: HttpMethod) -> (r: bool)
    ensures
        r == unsafe_method(m),
{
    match m {
        HttpMethod::Get | HttpMethod::Head | HttpMethod::Options | HttpMethod::Trace => false,
        _ => true,
    }
}

// ---------------------------------------------------------------------------
// Public paths.

pub open spec fn public_without_auth(p: Seq<char>) -> bool {
    p == "/login"@ || p == "/waiting"@ || p == "/api/version"@ || p == "/api/core/status"@
        || starts_with(p, "/static/"@)
}

/// Paths served without a session once first setup is done: the login page,
/// the waiting page, version and status probes, and static assets.
pub fn is_public_without_auth(path: &str) -> (r: bool)
    ensures
        r == public_without_auth(path@),
{
    let p = to_chars(path);
    public_path(&p)
}

fn public_path(p: &Vec<char>) -> (r: bool)
    ensures
        r == public_without_auth(p@),
{
    chars_eq(p, "/login") || chars_eq(p, "/waiting") || chars_eq(p, "/api/version") || chars_eq(
        p,
        "/api/core/status",
    ) || has_prefix(p, "/static/")
}

/// Paths the middleware lets through before it looks at the session at all.
pub open spec fn early_public(p: Seq<char>) -> bool {
    starts_with(p, "/static/"@) || p == "/api/version"@ || p == "/waiting"@
}

fn early_public_path(p: &Vec<char>) -> (r: bool)
    ensures
        r == early_public(p@),
{
    has_prefix(p, "/static/") || chars_eq(p, "/api/version") || chars_eq(p, "/waiting")
}

// ---------------------------------------------------------------------------
// Server-function names.

/// One character of a name without `_`, rewritten from camel case: an
/// upper-case letter becomes its lower-case form, preceded by `_` when it is
/// not the first character and follows a lower-case letter or a digit or
/// precedes a lower-case letter; `-` becomes `_`.
pub open spec fn camel_piece(f: Seq<char>, i: int) -> Seq<char> {
    let c = f[i];
    if is_ascii_upper(c) {
        let prev_ok = i > 0 && (is_ascii_lower(f[i - 1]) || is_ascii_digit(f[i - 1]));
        let next_ok = i + 1 < f.len() && is_ascii_lower(f[i + 1]);
        if i > 0 && (prev_ok || next_ok) {
            seq!['_', lower_char(c)]
        } else {
            seq![lower_char(c)]
        }
    } else if c == '-' {
        seq!['_']
    } else {
        seq![c]
    }
}

/// The rewriting of the first `n` characters of `f`.
pub open spec fn camel_prefix(f: Seq<char>, n: int) -> Seq<char>
    decreases n,
{
    if n <= 0 {
        Seq::empty()
    } else {
        camel_prefix(f, n - 1) + camel_piece(f, n - 1)
    }
}

/// The snake-case form of a server-function name: a name that already holds
/// `_` is only lower-cased; otherwise it is rewritten from camel case.
pub open spec fn normalized_name(f: Seq<char>) -> Seq<char> {
    if f.contains('_') {
        lower_seq(f)
    } else {
        camel_prefix(f, f.len() as int)
    }
}

fn normalize_server_function_chars(f: &Vec<char>) -> (r: Vec<char>)
    ensures
        r@ == normalized_name(f@),
{
    if has_char(f, '_') {
        return lower_all(f);
    }
    let mut out: Vec<char> = Vec::new();
    let mut i: usize = 0;
    while i < f.len()
        invariant
            i <= f.len(),
            out@ == camel_prefix(f@, i as int),
        decreases f.len() - i,
    {
        let c = f[i];
        if 'A' <= c && c <= 'Z' {
            let prev_ok = i > 0 && (('a' <= f[i - 1] && f[i - 1] <= 'z') || ('0' <= f[i - 1]
                && f[i - 1] <= '9'));
            let next_ok = i + 1 < f.len() && ('a' <= f[i + 1] && f[i + 1] <= 'z');
            if i > 0 && (prev_ok || next_ok) {
                out.push('_');
            }
            out.push(lower(c));
        } else if c == '-' {
            out.push('_');
        } else {
            out.push(c);
        }
        assert(out@ =~= camel_prefix(f@, i as int) + camel_piece(f@, i as int));
        i += 1;
    }
    out
}

/// The snake-case form of a server-function name (`GetAuthStatus` and
/// `get_auth_status` both give `get_auth_status`).
pub fn normalize_server_function_name(function: &str) -> (r: String)
    ensures
        r@ == normalized_name(function@),
{
    let f = to_chars(function);
    let n = normalize_server_function_chars(&f);
    from_chars(&n)
}

pub open spec fn slash_pred() -> spec_fn(char) -> bool {
    |x: char| x == '/'
}

pub open spec fn digit_pred() -> spec_fn(char) -> bool {
    |x: char| is_ascii_digit(x)
}

/// The server function a `/sfn/...` path names: the first path segment after
/// `/sfn/` (surrounding slashes ignored), without the trailing digits of the
/// registration hash, in snake case. `None` for any other path.
pub open spec fn sfn_function(p: Seq<char>) -> Option<Seq<char>> {
    if starts_with(p, "/sfn/"@) {
        let rest = p.subrange(5, p.len() as int);
        let t = trim_end_by(trim_start_by(rest, slash_pred()), slash_pred());
        let seg = take_until(t, '/');
        Some(normalized_name(trim_end_by(seg, digit_pred())))
    } else {
        None
    }
}

fn trim_end_digits(a: &Vec<char>) -> (r: Vec<char>)
    ensures
        r@ == trim_end_by(a@, digit_pred()),
{
    let ghost p = digit_pred();
    let mut k: usize = a.len();
    while k > 0 && ('0' <= a[k - 1] && a[k - 1] <= '9')
        invariant
            k <= a.len(),
            forall|j: int| k <= j < a.len() ==> p(#[trigger] a@[j]),
            p == digit_pred(),
        decreases k,
    {
        k -= 1;
    }
    proof {
        lemma_trim_end_index(a@, p, k as int);
    }
    sub_chars(a, 0, k)
}

fn normalized_server_function_chars(p: &Vec<char>) -> (r: Option<Vec<char>>)
    ensures
        match r {
            Some(f) => sfn_function(p@) == Some(f@),
            None => sfn_function(p@) is None,
        },
{
    proof {
        reveal_strlit("/sfn/");
    }
    if !has_prefix(p, "/sfn/") {
        return None;
    }
    let rest = sub_chars(p, 5, p.len());
    let t = trim_char(&rest, '/');
    proof {
        assert((|x: char| x == '/') == slash_pred());
    }
    let seg = before_char(&t, '/');
    let d = trim_end_digits(&seg);
    Some(normalize_server_function_chars(&d))
}

/// The normalized name of the server function that a `/sfn/` path calls.
pub fn normalized_server_function_path(path: &str) -> (r: Option<String>)
    ensures
        match r {
            Some(f) => sfn_function(path@) == Some(f@),
            None => sfn_function(path@) is None,
        },
{
    let p = to_chars(path);
    match normalized_server_function_chars(&p) {
        Some(f) => Some(from_chars(&f)),
        None => None,
    }
}

/// Server functions that serve login and first setup: open to everybody.
pub open spec fn public_auth_fn(f: Seq<char>) -> bool {
    f == "get_auth_status"@ || f == "login_with_replay_code"@ || f == "login_admin"@ || f
        == "complete_first_setup"@ || f == "logout"@
}

fn public_auth_chars(f: &Vec<char>) -> (r: bool)
    ensures
        r == public_auth_fn(f@),
{
    chars_eq(f, "get_auth_status") || chars_eq(f, "login_with_replay_code") || chars_eq(
        f,
        "login_admin",
    ) || chars_eq(f, "complete_first_setup") || chars_eq(f, "logout")
}

pub fn is_public_auth_server_function(function: &str) -> (r: bool)
    ensures
        r == public_auth_fn(function@),
{
    let f = to_chars(function);
    public_auth_chars(&f)
}

/// Server functions reserved to administrators.
pub open spec fn admin_fn(f: Seq<char>) -> bool {
    f == "get_wifi_config"@ || f == "save_wifi_config"@ || f == "get_nfs_config"@ || f
        == "save_nfs_config"@ || f == "get_retroachievements_config"@ || f
        == "save_retroachievements_config_and_restart"@ || f == "reboot_system"@ || f
        == "power_off_replayos_device"@ || f == "downgrade_admin_to_user"@ || f
        == "logout_all_browsers"@ || f == "get_admin_session_timeout"@ || f
        == "set_admin_session_timeout"@ || f == "get_hostname"@ || f == "save_hostname"@ || f
        == "change_root_password"@ || f == "clear_metadata"@ || f == "regenerate_metadata"@ || f
        == "download_metadata"@ || f == "clear_images"@ || f == "cleanup_orphaned_images"@ || f
        == "get_metadata_library_overview"@ || f == "get_metadata_page_snapshot"@ || f
        == "get_system_logs"@ || f == "get_log_level_config"@ || f == "save_log_level_config"@
        || f == "get_replayos_log_level"@ || f == "get_github_api_key"@ || f
        == "save_github_api_key"@ || f == "save_region_preference"@ || f
        == "save_region_preference_secondary"@ || f == "save_language_preference"@ || f
        == "refresh_storage"@ || f == "regenerate_tls_certificate_info"@ || f
        == "get_tls_certificate_info"@ || f == "get_analytics_preference"@ || f == "delete_rom"@
        || f == "rename_rom"@ || f == "get_replayos_settings"@ || f
        == "enable_replay_api_assisted"@ || f == "verify_replay_api_token"@ || f
        == "save_replayos_kiosk_mode"@ || f == "start_setup_metadata_downloads"@ || f
        == "update_thumbnails"@ || f == "cancel_thumbnail_update"@ || f
        == "clear_thumbnail_index"@ || f == "rescan_game_library"@ || f
        == "rebuild_game_library"@ || f == "rebuild_corrupt_library"@ || f
        == "repair_corrupt_user_data"@ || f == "restore_user_data_backup"@ || f
        == "check_for_updates"@ || f == "get_update_channel"@ || f == "save_update_channel"@ || f
        == "skip_version"@ || f == "start_update"@ || f == "save_analytics_preference"@
}

fn admin_chars(f: &Vec<char>) -> (r: bool)
    ensures
        r == admin_fn(f@),
{
    chars_eq(f, "get_wifi_config") || chars_eq(f, "save_wifi_config") || chars_eq(
        f,
        "get_nfs_config",
    ) || chars_eq(f, "save_nfs_config") || chars_eq(f, "get_retroachievements_config")
        || chars_eq(f, "save_retroachievements_config_and_restart") || chars_eq(
        f,
        "reboot_system",
    ) || chars_eq(f, "power_off_replayos_device") || chars_eq(f, "downgrade_admin_to_user")
        || chars_eq(f, "logout_all_browsers") || chars_eq(f, "get_admin_session_timeout")
        || chars_eq(f, "set_admin_session_timeout") || chars_eq(f, "get_hostname") || chars_eq(
        f,
        "save_hostname",
    ) || chars_eq(f, "change_root_password") || chars_eq(f, "clear_metadata") || chars_eq(
        f,
        "regenerate_metadata",
    ) || chars_eq(f, "download_metadata") || chars_eq(f, "clear_images") || chars_eq(
        f,
        "cleanup_orphaned_images",
    ) || chars_eq(f, "get_metadata_library_overview") || chars_eq(
        f,
        "get_metadata_page_snapshot",
    ) || chars_eq(f, "get_system_logs") || chars_eq(f, "get_log_level_config") || chars_eq(
        f,
        "save_log_level_config",
    ) || chars_eq(f, "get_replayos_log_level") || chars_eq(f, "get_github_api_key")
        || chars_eq(f, "save_github_api_key") || chars_eq(f, "save_region_preference")
        || chars_eq(f, "save_region_preference_secondary") || chars_eq(
        f,
        "save_language_preference",
    ) || chars_eq(f, "refresh_storage") || chars_eq(f, "regenerate_tls_certificate_info")
        || chars_eq(f, "get_tls_certificate_info") || chars_eq(f, "get_analytics_preference")
        || chars_eq(f, "delete_rom") || chars_eq(f, "rename_rom") || chars_eq(
        f,
        "get_replayos_settings",
    ) || chars_eq(f, "enable_replay_api_assisted") || chars_eq(f, "verify_replay_api_token")
        || chars_eq(f, "save_replayos_kiosk_mode") || chars_eq(
        f,
        "start_setup_metadata_downloads",
    ) || chars_eq(f, "update_thumbnails") || chars_eq(f, "cancel_thumbnail_update")
        || chars_eq(f, "clear_thumbnail_index") || chars_eq(f, "rescan_game_library")
        || chars_eq(f, "rebuild_game_library") || chars_eq(f, "rebuild_corrupt_library")
        || chars_eq(f, "repair_corrupt_user_data") || chars_eq(f, "restore_user_data_backup")
        || chars_eq(f, "check_for_updates") || chars_eq(f, "get_update_channel") || chars_eq(
        f,
        "save_update_channel",
    ) || chars_eq(f, "skip_version") || chars_eq(f, "start_update") || chars_eq(
        f,
        "save_analytics_preference",
    )
}

pub fn is_admin_server_function(function: &str) -> (r: bool)
    ensures
        r == admin_fn(function@),
{
    let f = to_chars(function);
    admin_chars(&f)
}

/// Read-only library server functions open to every signed-in user.
pub open spec fn user_read_fn(f: Seq<char>) -> bool {
    f == "get_systems"@ || f == "get_recents"@ || f == "get_roms_page"@ || f
        == "get_rom_detail"@ || f == "get_rom_file_group"@ || f == "global_search"@ || f
        == "get_all_genres"@ || f == "get_system_genres"@ || f == "search_by_developer"@ || f
        == "get_developer_genres"@ || f == "get_developer_games"@ || f == "search_by_board"@
        || f == "get_board_genres"@ || f == "get_board_games"@ || f == "random_game"@ || f
        == "random_game_for_system"@ || f == "get_related_games"@ || f
        == "get_recommendations"@ || f == "get_game_documents"@ || f == "get_local_manuals"@
        || f == "get_game_manual_suggestions"@ || f == "get_game_resource_links"@ || f
        == "get_game_videos"@ || f == "get_provider_game_videos"@ || f
        == "search_game_videos"@ || f == "get_boxart_variants"@ || f
        == "get_update_changelog"@
}

fn user_read_chars(f: &Vec<char>) -> (r: bool)
    ensures
        r == user_read_fn(f@),
{
    chars_eq(f, "get_systems") || chars_eq(f, "get_recents") || chars_eq(f, "get_roms_page")
        || chars_eq(f, "get_rom_detail") || chars_eq(f, "get_rom_file_group") || chars_eq(
        f,
        "global_search",
    ) || chars_eq(f, "get_all_genres") || chars_eq(f, "get_system_genres") || chars_eq(
        f,
        "search_by_developer",
    ) || chars_eq(f, "get_developer_genres") || chars_eq(f, "get_developer_games")
        || chars_eq(f, "search_by_board") || chars_eq(f, "get_board_genres") || chars_eq(
        f,
        "get_board_games",
    ) || chars_eq(f, "random_game") || chars_eq(f, "random_game_for_system") || chars_eq(
        f,
        "get_related_games",
    ) || chars_eq(f, "get_recommendations") || chars_eq(f, "get_game_documents") || chars_eq(
        f,
        "get_local_manuals",
    ) || chars_eq(f, "get_game_manual_suggestions") || chars_eq(f, "get_game_resource_links")
        || chars_eq(f, "get_game_videos") || chars_eq(f, "get_provider_game_videos")
        || chars_eq(f, "search_game_videos") || chars_eq(f, "get_boxart_variants") || chars_eq(
        f,
        "get_update_changelog",
    )
}

pub fn is_user_read_server_function(function: &str) -> (r: bool)
    ensures
        r == user_read_fn(function@),
{
    let f = to_chars(function);
    user_read_chars(&f)
}

/// Server functions open to every signed-in user: the read-only library
/// functions, favorites, launching, and per-user preferences.
pub open spec fn user_fn(f: Seq<char>) -> bool {
    user_read_fn(f) || f == "get_info"@ || f == "get_live_stats"@ || f == "get_mode"@ || f
        == "get_favorites"@ || f == "get_system_favorites"@ || f == "add_favorite"@ || f
        == "remove_favorite"@ || f == "organize_favorites"@ || f == "group_favorites"@ || f
        == "flatten_favorites"@ || f == "get_favorites_recommendations"@ || f
        == "delete_recent"@ || f == "get_user_captures"@ || f == "delete_user_capture"@ || f
        == "launch_game"@ || f == "get_replay_api_status"@ || f == "get_library_playtime"@ || f
        == "get_game_playtime"@ || f == "reprobe_replay_api"@ || f
        == "send_replay_player_command"@ || f == "send_replayos_message"@ || f
        == "restart_replayos_game"@ || f == "get_save_state_slots"@ || f
        == "add_game_resource_link"@ || f == "remove_game_resource_link"@ || f
        == "add_game_video"@ || f == "remove_game_video"@ || f == "download_manual"@ || f
        == "delete_manual"@ || f == "set_boxart_override"@ || f == "reset_boxart_override"@ || f
        == "get_setup_status"@ || f == "dismiss_setup"@ || f == "get_skins"@ || f == "set_skin"@
        || f == "set_skin_sync"@ || f == "get_font_size"@ || f == "save_font_size"@ || f
        == "get_region_preference"@ || f == "get_region_preference_secondary"@ || f
        == "get_language_preference"@ || f == "get_locale"@ || f == "save_locale"@ || f
        == "get_preferred_languages"@
}

fn user_chars(f: &Vec<char>) -> (r: bool)
    ensures
        r == user_fn(f@),
{
    user_read_chars(f) || chars_eq(f, "get_info") || chars_eq(f, "get_live_stats") || chars_eq(
        f,
        "get_mode",
    ) || chars_eq(f, "get_favorites") || chars_eq(f, "get_system_favorites") || chars_eq(
        f,
        "add_favorite",
    ) || chars_eq(f, "remove_favorite") || chars_eq(f, "organize_favorites") || chars_eq(
        f,
        "group_favorites",
    ) || chars_eq(f, "flatten_favorites") || chars_eq(f, "get_favorites_recommendations")
        || chars_eq(f, "delete_recent") || chars_eq(f, "get_user_captures") || chars_eq(
        f,
        "delete_user_capture",
    ) || chars_eq(f, "launch_game") || chars_eq(f, "get_replay_api_status") || chars_eq(
        f,
        "get_library_playtime",
    ) || chars_eq(f, "get_game_playtime") || chars_eq(f, "reprobe_replay_api") || chars_eq(
        f,
        "send_replay_player_command",
    ) || chars_eq(f, "send_replayos_message") || chars_eq(f, "restart_replayos_game")
        || chars_eq(f, "get_save_state_slots") || chars_eq(f, "add_game_resource_link")
        || chars_eq(f, "remove_game_resource_link") || chars_eq(f, "add_game_video") || chars_eq(
        f,
        "remove_game_video",
    ) || chars_eq(f, "download_manual") || chars_eq(f, "delete_manual") || chars_eq(
        f,
        "set_boxart_override",
    ) || chars_eq(f, "reset_boxart_override") || chars_eq(f, "get_setup_status") || chars_eq(
        f,
        "dismiss_setup",
    ) || chars_eq(f, "get_skins") || chars_eq(f, "set_skin") || chars_eq(f, "set_skin_sync")
        || chars_eq(f, "get_font_size") || chars_eq(f, "save_font_size") || chars_eq(
        f,
        "get_region_preference",
    ) || chars_eq(f, "get_region_preference_secondary") || chars_eq(
        f,
        "get_language_preference",
    ) || chars_eq(f, "get_locale") || chars_eq(f, "save_locale") || chars_eq(
        f,
        "get_preferred_languages",
    )
}

pub fn is_user_server_function(function: &str) -> (r: bool)
    ensures
        r == user_fn(function@),
{
    let f = to_chars(function);
    user_chars(&f)
}

/// Whether some allowlist names the (normalized) function.
pub open spec fn explicitly_classified(f: Seq<char>) -> bool {
    let n = normalized_name(f);
    public_auth_fn(n) || admin_fn(n) || user_read_fn(n) || user_fn(n)
}

pub fn is_explicitly_classified_server_function(function: &str) -> (r: bool)
    ensures
        r == explicitly_classified(function@),
{
    let f = to_chars(function);
    let n = normalize_server_function_chars(&f);
    public_auth_chars(&n) || admin_chars(&n) || user_read_chars(&n) || user_chars(&n)
}

/// The role a server function requires: public for the login/setup
/// functions, then the admin list, then the user list, and admin for any
/// function that no list names.
pub open spec fn function_role(f: Seq<char>) -> AuthRole {
    if public_auth_fn(f) {
        AuthRole::Anonymous
    } else if admin_fn(f) {
        AuthRole::Admin
    } else if user_fn(f) {
        AuthRole::User
    } else {
        AuthRole::Admin
    }
}

pub open spec fn sfn_role(p: Seq<char>) -> Option<AuthRole> {
    match sfn_function(p) {
        Some(f) => Some(function_role(f)),
        None => None,
    }
}

fn sfn_role_chars(p: &Vec<char>) -> (r: Option<AuthRole>)
    ensures
        r == sfn_role(p@),
{
    match normalized_server_function_chars(p) {
        None => None,
        Some(f) => {
            if public_auth_chars(&f) {
                Some(AuthRole::Anonymous)
            } else if admin_chars(&f) {
                Some(AuthRole::Admin)
            } else if user_chars(&f) {
                Some(AuthRole::User)
            } else {
                Some(AuthRole::Admin)
            }
        },
    }
}

/// The role a `/sfn/` request requires; `None` when the path is not a
/// server-function call.
pub fn server_function_required_role(path: &str) -> (r: Option<AuthRole>)
    ensures
        r == sfn_role(path@),
{
    let p = to_chars(path);
    sfn_role_chars(&p)
}

/// Paths reachable while first setup is pending.
pub open spec fn first_setup_public(p: Seq<char>) -> bool {
    p == "/first-setup"@ || p == "/waiting"@ || p == "/api/version"@ || starts_with(
        p,
        "/static/"@,
    ) || match sfn_function(p) {
        Some(f) => f == "get_auth_status"@ || f == "complete_first_setup"@ || f == "logout"@,
        None => false,
    }
}

fn first_setup_public_chars(p: &Vec<char>) -> (r: bool)
    ensures
        r == first_setup_public(p@),
{
    if chars_eq(p, "/first-setup") || chars_eq(p, "/waiting") || chars_eq(p, "/api/version")
        || has_prefix(p, "/static/") {
        return true;
    }
    match normalized_server_function_chars(p) {
        Some(f) => chars_eq(&f, "get_auth_status") || chars_eq(&f, "complete_first_setup")
            || chars_eq(&f, "logout"),
        None => false,
    }
}

/// Whether a path stays reachable while first setup has not been completed.
pub fn is_public_during_first_setup(path: &str) -> (r: bool)
    ensures
        r == first_setup_public(path@),
{
    let p = to_chars(path);
    first_setup_public_chars(&p)
}

// ---------------------------------------------------------------------------
// REST routes.

pub open spec fn admin_page_route(p: Seq<char>) -> bool {
    p == "/settings/wifi"@ || p == "/settings/nfs"@ || p == "/settings/hostname"@ || p
        == "/settings/retroachievements"@ || p == "/settings/replayos"@ || p
        == "/settings/replay-net-control"@ || p == "/settings/game-library"@ || p
        == "/settings/metadata"@ || p == "/settings/logs"@ || p == "/settings/github"@ || p
        == "/updating"@
}

fn admin_page_chars(p: &Vec<char>) -> (r: bool)
    ensures
        r == admin_page_route(p@),
{
    chars_eq(p, "/settings/wifi") || chars_eq(p, "/settings/nfs") || chars_eq(
        p,
        "/settings/hostname",
    ) || chars_eq(p, "/settings/retroachievements") || chars_eq(p, "/settings/replayos")
        || chars_eq(p, "/settings/replay-net-control") || chars_eq(p, "/settings/game-library")
        || chars_eq(p, "/settings/metadata") || chars_eq(p, "/settings/logs") || chars_eq(
        p,
        "/settings/github",
    ) || chars_eq(p, "/updating")
}

/// Settings pages reserved to administrators.
pub fn is_admin_page_route(path: &str) -> (r: bool)
    ensures
        r == admin_page_route(path@),
{
    let p = to_chars(path);
    admin_page_chars(&p)
}

pub open spec fn user_route(m: HttpMethod, p: Seq<char>) -> bool {
    (m == HttpMethod::Post && p == "/api/favorites"@) || (m == HttpMethod::Delete && p
        == "/api/favorites"@) || (m == HttpMethod::Put && p == "/api/favorites/group"@) || (m
        == HttpMethod::Put && p == "/api/favorites/flatten"@) || (m == HttpMethod::Post
        && starts_with(p, "/api/manuals/upload/"@))
}

fn user_route_chars(m: HttpMethod, p: &Vec<char>) -> (r: bool)
    ensures
        r == user_route(m, p@),
{
    match m {
        HttpMethod::Post => chars_eq(p, "/api/favorites") || has_prefix(p, "/api/manuals/upload/"),
        HttpMethod::Delete => chars_eq(p, "/api/favorites"),
        HttpMethod::Put => chars_eq(p, "/api/favorites/group") || chars_eq(
            p,
            "/api/favorites/flatten",
        ),
        _ => false,
    }
}

/// Mutating REST routes open to every signed-in user (favorites, manual uploads).
pub fn is_user_route(method: HttpMethod, path: &str) -> (r: bool)
    ensures
        r == user_route(method, path@),
{
    let p = to_chars(path);
    user_route_chars(method, &p)
}

/// The role a plain (non server-function) route requires: uploads, ROM
/// renames, the library export and the admin pages need an administrator;
/// the user routes and every other safe request need a user; any other
/// mutation needs an administrator.
pub open spec fn route_role(m: HttpMethod, p: Seq<char>) -> AuthRole {
    if (m == HttpMethod::Post && starts_with(p, "/api/upload/"@)) || (m == HttpMethod::Get && p
        == "/api/upload/targets"@) {
        AuthRole::Admin
    } else if m == HttpMethod::Put && p == "/api/roms/rename"@ {
        AuthRole::Admin
    } else if m == HttpMethod::Get && p == "/api/export/library.csv"@ {
        AuthRole::Admin
    } else if m == HttpMethod::Get && admin_page_route(p) {
        AuthRole::Admin
    } else if user_route(m, p) {
        AuthRole::User
    } else if unsafe_method(m) {
        AuthRole::Admin
    } else {
        AuthRole::User
    }
}

fn route_role_chars(m: HttpMethod, p: &Vec<char>) -> (r: AuthRole)
    ensures
        r == route_role(m, p@),
{
    if (m == HttpMethod::Post && has_prefix(p, "/api/upload/")) || (m == HttpMethod::Get
        && chars_eq(p, "/api/upload/targets")) {
        return AuthRole::Admin;
    }
    if m == HttpMethod::Put && chars_eq(p, "/api/roms/rename") {
        return AuthRole::Admin;
    }
    if m == HttpMethod::Get && chars_eq(p, "/api/export/library.csv") {
        return AuthRole::Admin;
    }
    if m == HttpMethod::Get && admin_page_chars(p) {
        return AuthRole::Admin;
    }
    if user_route_chars(m, p) {
        return AuthRole::User;
    }
    if is_unsafe_method(m) {
        return AuthRole::Admin;
    }
    AuthRole::User
}

/// The role a plain route requires for the given method.
pub fn route_required_role(method: HttpMethod, path: &str) -> (r: AuthRole)
    ensures
        r == route_role(method, path@),
{
    let p = to_chars(path);
    route_role_chars(method, &p)
}

/// Every signed-in user may keep favorites and upload manuals: adding and
/// removing a favorite, grouping and flattening the favorites, and posting
/// a manual under `/api/manuals/upload/` need only a user, not an
/// administrator.
pub proof fn law_user_routes_need_only_a_user(path: Seq<char>)
    ensures
        route_role(HttpMethod::Post, "/api/favorites"@) == AuthRole::User,
        route_role(HttpMethod::Delete, "/api/favorites"@) == AuthRole::User,
        route_role(HttpMethod::Put, "/api/favorites/group"@) == AuthRole::User,
        route_role(HttpMethod::Put, "/api/favorites/flatten"@) == AuthRole::User,
        path.len() >= 20 && path.subrange(0, 20) == "/api/manuals/upload/"@ ==> route_role(
            HttpMethod::Post,
            path,
        ) == AuthRole::User,
{
    reveal_strlit("/api/favorites");
    reveal_strlit("/api/favorites/group");
    reveal_strlit("/api/favorites/flatten");
    reveal_strlit("/api/manuals/upload/");
    reveal_strlit("/api/upload/");
    reveal_strlit("/api/roms/rename");
    let fav = "/api/favorites"@;
    let up = "/api/upload/"@;
    assert(fav[5] != up[5]);
    assert(fav.subrange(0, 12)[5] == fav[5]);
    assert(!starts_with(fav, up));
    assert("/api/favorites/group"@[5] != "/api/roms/rename"@[5]);
    assert("/api/favorites/group"@ != "/api/roms/rename"@);
    assert("/api/favorites/flatten"@ != "/api/roms/rename"@);
    assert("/api/favorites/flatten"@[15] != "/api/favorites/group"@[15]);
    assert("/api/favorites/flatten"@ != "/api/favorites/group"@);
    if path.len() >= 20 && path.subrange(0, 20) == "/api/manuals/upload/"@ {
        assert(path.subrange(0, 20)[5] == path[5]);
        assert(path[5] == 'm');
        assert(path.subrange(0, 12)[5] == path[5]);
        assert(!starts_with(path, up));
        assert(path.subrange(0, 20) == "/api/manuals/upload/"@);
        assert(starts_with(path, "/api/manuals/upload/"@));
    }
}

/// Uploads, ROM renames, the library export and the administration pages
/// are reserved to administrators: posting under `/api/upload/`, listing the
/// upload targets, renaming a ROM, exporting the library and opening any of
/// the settings pages below need an administrator.
pub proof fn law_admin_routes_need_an_administrator(path: Seq<char>)
    ensures
        path.len() >= 12 && path.subrange(0, 12) == "/api/upload/"@ ==> route_role(
            HttpMethod::Post,
            path,
        ) == AuthRole::Admin,
        route_role(HttpMethod::Get, "/api/upload/targets"@) == AuthRole::Admin,
        route_role(HttpMethod::Put, "/api/roms/rename"@) == AuthRole::Admin,
        route_role(HttpMethod::Get, "/api/export/library.csv"@) == AuthRole::Admin,
        route_role(HttpMethod::Get, "/settings/wifi"@) == AuthRole::Admin,
        route_role(HttpMethod::Get, "/settings/nfs"@) == AuthRole::Admin,
        route_role(HttpMethod::Get, "/settings/hostname"@) == AuthRole::Admin,
        route_role(HttpMethod::Get, "/settings/retroachievements"@) == AuthRole::Admin,
        route_role(HttpMethod::Get, "/settings/replayos"@) == AuthRole::Admin,
        route_role(HttpMethod::Get, "/settings/replay-net-control"@) == AuthRole::Admin,
        route_role(HttpMethod::Get, "/settings/game-library"@) == AuthRole::Admin,
        route_role(HttpMethod::Get, "/settings/metadata"@) == AuthRole::Admin,
        route_role(HttpMethod::Get, "/settings/logs"@) == AuthRole::Admin,
        route_role(HttpMethod::Get, "/settings/github"@) == AuthRole::Admin,
        route_role(HttpMethod::Get, "/updating"@) == AuthRole::Admin,
{
    reveal_strlit("/api/upload/");
    reveal_strlit("/api/upload/targets");
    reveal_strlit("/api/export/library.csv");
    if path.len() >= 12 && path.subrange(0, 12) == "/api/upload/"@ {
        assert(starts_with(path, "/api/upload/"@));
    }
    reveal_strlit("/settings/wifi");
    assert("/settings/wifi"@[1] != "/api/upload/targets"@[1]);
    assert("/settings/wifi"@[1] != "/api/export/library.csv"@[1]);
    reveal_strlit("/settings/nfs");
    assert("/settings/nfs"@[1] != "/api/upload/targets"@[1]);
    assert("/settings/nfs"@[1] != "/api/export/library.csv"@[1]);
    reveal_strlit("/settings/hostname");
    assert("/settings/hostname"@[1] != "/api/upload/targets"@[1]);
    assert("/settings/hostname"@[1] != "/api/export/library.csv"@[1]);
    reveal_strlit("/settings/retroachievements");
    assert("/settings/retroachievements"@[1] != "/api/upload/targets"@[1]);
    assert("/settings/retroachievements"@[1] != "/api/export/library.csv"@[1]);
    reveal_strlit("/settings/replayos");
    assert("/settings/replayos"@[1] != "/api/upload/targets"@[1]);
    assert("/settings/replayos"@[1] != "/api/export/library.csv"@[1]);
    reveal_strlit("/settings/replay-net-control");
    assert("/settings/replay-net-control"@[1] != "/api/upload/targets"@[1]);
    assert("/settings/replay-net-control"@[1] != "/api/export/library.csv"@[1]);
    reveal_strlit("/settings/game-library");
    assert("/settings/game-library"@[1] != "/api/upload/targets"@[1]);
    assert("/settings/game-library"@[1] != "/api/export/library.csv"@[1]);
    reveal_strlit("/settings/metadata");
    assert("/settings/metadata"@[1] != "/api/upload/targets"@[1]);
    assert("/settings/metadata"@[1] != "/api/export/library.csv"@[1]);
    reveal_strlit("/settings/logs");
    assert("/settings/logs"@[1] != "/api/upload/targets"@[1]);
    assert("/settings/logs"@[1] != "/api/export/library.csv"@[1]);
    reveal_strlit("/settings/github");
    assert("/settings/github"@[1] != "/api/upload/targets"@[1]);
    assert("/settings/github"@[1] != "/api/export/library.csv"@[1]);
    reveal_strlit("/updating");
    assert("/updating"@[1] != "/api/upload/targets"@[1]);
    assert("/updating"@[1] != "/api/export/library.csv"@[1]);
}

// ---------------------------------------------------------------------------
// Headers.

/// A client that sends no `Accept` header, or one that mentions
/// `text/html`, wants an HTML page.
pub open spec fn wants_html(accept: Option<Seq<char>>) -> bool {
    match accept {
        None => true,
        Some(v) => contains_sub(v, "text/html"@),
    }
}

pub fn wants_html_response(accept: Option<&str>) -> (r: bool)
    ensures
        r == wants_html(opt_str_view(accept)),
{
    match accept {
        None => true,
        Some(v) => {
            let a = to_chars(v);
            has_sub(&a, "text/html")
        },
    }
}

pub open spec fn opt_str_view(o: Option<&str>) -> Option<Seq<char>> {
    match o {
        Some(s) => Some(s@),
        None => None,
    }
}

pub open spec fn opt_string_view(o: Option<String>) -> Option<Seq<char>> {
    match o {
        Some(s) => Some(s@),
        None => None,
    }
}

pub open spec fn dot_pred() -> spec_fn(char) -> bool {
    |x: char| x == '.'
}

/// A host or authority, trimmed of white space and trailing dots and
/// lower-cased; `None` when empty or when it holds `@`, `/`, `\` or white
/// space.
pub open spec fn normalized_authority(v: Seq<char>) -> Option<Seq<char>> {
    let t = trim_end_by(trim_ws(v), dot_pred());
    if t.len() == 0 || t.contains('@') || t.contains('/') || t.contains('\\') || (exists|i: int|
        0 <= i < t.len() && unicode_white_space(#[trigger] t[i])) {
        None
    } else {
        Some(lower_seq(t))
    }
}

fn normalize_authority_chars(v: &Vec<char>) -> (r: Option<Vec<char>>)
    ensures
        match r {
            Some(a) => normalized_authority(v@) == Some(a@),
            None => normalized_authority(v@) is None,
        },
{
    let trimmed = trim_chars(v);
    let t = trim_end_char(&trimmed, '.');
    proof {
        assert((|x: char| x == '.') == dot_pred());
    }
    if t.len() == 0 || has_char(&t, '@') || has_char(&t, '/') || has_char(&t, '\\') {
        return None;
    }
    let mut i: usize = 0;
    while i < t.len()
        invariant
            i <= t.len(),
            forall|j: int| 0 <= j < i ==> !unicode_white_space(#[trigger] t@[j]),
            t@ == trim_end_by(trim_ws(v@), dot_pred()),
        decreases t.len() - i,
    {
        if char_is_whitespace(t[i]) {
            assert(unicode_white_space(t@[i as int]));
            return None;
        }
        i += 1;
    }
    Some(lower_all(&t))
}

/// The normalized form of a host or authority (see [`normalized_authority`]).
pub fn normalize_authority(value: &str) -> (r: Option<String>)
    ensures
        opt_string_view(r) == normalized_authority(value@),
{
    let v = to_chars(value);
    match normalize_authority_chars(&v) {
        Some(a) => Some(from_chars(&a)),
        None => None,
    }
}

/// The normalized authority of an `Origin` or `Referer` value.
pub open spec fn origin_authority(v: Seq<char>) -> Option<Seq<char>> {
    match uri_authority(v) {
        Some(a) => normalized_authority(a),
        None => None,
    }
}

fn origin_authority_chars(value: &str) -> (r: Option<Vec<char>>)
    ensures
        match r {
            Some(a) => origin_authority(value@) == Some(a@),
            None => origin_authority(value@) is None,
        },
{
    match parse_uri_authority(value) {
        Some(a) => {
            let av = to_chars(a.as_str());
            normalize_authority_chars(&av)
        },
        None => None,
    }
}

/// Whether a state-changing request comes from this site: a
/// `Sec-Fetch-Site` of `same-origin` passes and `same-site` or `cross-site`
/// fails; otherwise the `Origin` header, or failing that the `Referer`
/// header, must name the same authority as `Host`.
pub open spec fn csrf_ok(
    fetch_site: Option<Seq<char>>,
    host: Option<Seq<char>>,
    origin: Option<Seq<char>>,
    referer: Option<Seq<char>>,
) -> bool {
    if fetch_site == Some("same-origin"@) {
        true
    } else if fetch_site == Some("same-site"@) || fetch_site == Some("cross-site"@) {
        false
    } else {
        match host {
            None => false,
            Some(h) => match normalized_authority(h) {
                None => false,
                Some(hn) => match origin {
                    Some(o) => origin_authority(o) == Some(hn),
                    None => match referer {
                        Some(r) => origin_authority(r) == Some(hn),
                        None => false,
                    },
                },
            },
        }
    }
}

/// The CSRF origin check. Each argument is the header's value when present
/// and readable as text.
pub fn passes_csrf_origin_check(
    fetch_site: Option<&str>,
    host: Option<&str>,
    origin: Option<&str>,
    referer: Option<&str>,
) -> (r: bool)
    ensures
        r == csrf_ok(
            opt_str_view(fetch_site),
            opt_str_view(host),
            opt_str_view(origin),
            opt_str_view(referer),
        ),
{
    if let Some(fs) = fetch_site {
        let f = to_chars(fs);
        if chars_eq(&f, "same-origin") {
            return true;
        }
        if chars_eq(&f, "same-site") || chars_eq(&f, "cross-site") {
            return false;
        }
    }
    let h = match host {
        None => return false,
        Some(h) => to_chars(h),
    };
    let hn = match normalize_authority_chars(&h) {
        None => return false,
        Some(hn) => hn,
    };
    if let Some(o) = origin {
        return match origin_authority_chars(o) {
            Some(a) => same_chars(&a, &hn),
            None => false,
        };
    }
    if let Some(r) = referer {
        return match origin_authority_chars(r) {
            Some(a) => same_chars(&a, &hn),
            None => false,
        };
    }
    false
}

// ---------------------------------------------------------------------------
// Session cookie.

/// The value of one `name=value` cookie pair when its name is
/// `ReplayControlSession`: the pair is trimmed, split at its first `=`, and
/// the value is trimmed again.
pub open spec fn session_value_of(part: Seq<char>) -> Option<Seq<char>> {
    let t = trim_ws(part);
    let name = take_until(t, '=');
    if name.len() < t.len() && name == "ReplayControlSession"@ {
        Some(trim_ws(t.subrange(name.len() + 1 as int, t.len() as int)))
    } else {
        None
    }
}

/// The session values found in the given cookie pairs, in order.
pub open spec fn session_values(parts: Seq<Seq<char>>) -> Seq<Seq<char>>
    decreases parts.len(),
{
    if parts.len() == 0 {
        Seq::empty()
    } else {
        let prev = session_values(parts.drop_last());
        match session_value_of(parts.last()) {
            Some(v) => prev.push(v),
            None => prev,
        }
    }
}

/// The session values of a `Cookie` header, in the order they appear.
pub open spec fn session_candidates(cookie: Seq<char>) -> Seq<Seq<char>> {
    session_values(segments(cookie, ';'))
}

fn session_value_chars(part: &Vec<char>) -> (r: Option<Vec<char>>)
    ensures
        match r {
            Some(v) => session_value_of(part@) == Some(v@),
            None => session_value_of(part@) is None,
        },
{
    let t = trim_chars(part);
    let name = before_char(&t, '=');
    proof {
        lemma_take_until_len(t@, '=');
    }
    if name.len() < t.len() && chars_eq(&name, "ReplayControlSession") {
        let rest = sub_chars(&t, name.len() + 1, t.len());
        Some(trim_chars(&rest))
    } else {
        None
    }
}

/// The candidate session tokens of a `Cookie` header: the trimmed value of
/// every `ReplayControlSession` pair, in header order. Which of them is a
/// well-formed signed token is decided by the session store; the first one
/// it accepts is the request's token.
pub fn session_cookie_candidates(cookie: &str) -> (r: Vec<String>)
    ensures
        r@.map_values(|s: String| s@) == session_candidates(cookie@),
{
    let c = to_chars(cookie);
    let mut out: Vec<String> = Vec::new();
    let mut cur: Vec<char> = Vec::new();
    let mut i: usize = 0;
    while i < c.len()
        invariant
            i <= c.len(),
            segments(c@.take(i as int), ';') == session_parts_done(c@.take(i as int)).push(cur@),
            out@.map_values(|s: String| s@) == session_values(
                session_parts_done(c@.take(i as int)),
            ),
        decreases c.len() - i,
    {
        let ghost before = c@.take(i as int);
        assert(c@.take(i + 1).drop_last() =~= before);
        if c[i] == ';' {
            if let Some(v) = session_value_chars(&cur) {
                out.push(from_chars(&v));
            }
            cur = Vec::new();
        } else {
            cur.push(c[i]);
        }
        proof {
            lemma_session_parts_step(before, c@[i as int]);
            assert(c@.take(i + 1) =~= before.push(c@[i as int]));
        }
        i += 1;
        assert(out@.map_values(|s: String| s@) =~= out@.map_values(|s: String| s@));
    }
    if let Some(v) = session_value_chars(&cur) {
        out.push(from_chars(&v));
    }
    proof {
        assert(c@.take(c.len() as int) =~= c@);
        let parts = segments(c@, ';');
        assert(parts.drop_last() =~= session_parts_done(c@));
    }
    out
}

/// The request's session token: the first candidate that the session
/// store's validator accepted (`well_formed[i]` is its verdict on
/// `candidates[i]`); `None` when it accepted none.
pub fn session_token_from_candidates(candidates: &Vec<String>, well_formed: &Vec<bool>) -> (r: Option<
    String,
>)
    requires
        candidates.len() == well_formed.len(),
    ensures
        match r {
            Some(t) => exists|i: int|
                0 <= i < candidates.len() && #[trigger] well_formed@[i] && t@ == candidates@[i]@
                    && forall|j: int| 0 <= j < i ==> !#[trigger] well_formed@[j],
            None => forall|i: int| 0 <= i < well_formed.len() ==> !#[trigger] well_formed@[i],
        },
{
    let mut i: usize = 0;
    while i < candidates.len()
        invariant
            i <= candidates.len(),
            candidates.len() == well_formed.len(),
            forall|j: int| 0 <= j < i ==> !#[trigger] well_formed@[j],
        decreases candidates.len() - i,
    {
        if well_formed[i] {
            let t = candidates[i].clone();
            assert(well_formed@[i as int]);
            return Some(t);
        }
        i += 1;
    }
    None
}

/// The complete pieces of `s` (all but the last, still open, one).
pub open spec fn session_parts_done(s: Seq<char>) -> Seq<Seq<char>> {
    segments(s, ';').drop_last()
}

proof fn lemma_segments_nonempty(s: Seq<char>, c: char)
    ensures
        segments(s, c).len() >= 1,
    decreases s.len(),
{
    if s.len() > 0 {
        lemma_segments_nonempty(s.drop_last(), c);
    }
}

proof fn lemma_session_parts_step(s: Seq<char>, x: char)
    ensures
        x == ';' ==> session_parts_done(s.push(x)) == session_parts_done(s).push(
            segments(s, ';').last(),
        ),
        x != ';' ==> session_parts_done(s.push(x)) == session_parts_done(s),
        segments(s.push(x), ';').last() == (if x == ';' {
            Seq::<char>::empty()
        } else {
            segments(s, ';').last().push(x)
        }),
{
    lemma_segments_nonempty(s, ';');
    assert(s.push(x).drop_last() =~= s);
    let prev = segments(s, ';');
    if x == ';' {
        assert(prev.push(Seq::empty()).drop_last() =~= prev);
        assert(prev =~= prev.drop_last().push(prev.last()));
    } else {
        let upd = prev.update(prev.len() - 1, prev.last().push(x));
        assert(upd.drop_last() =~= prev.drop_last());
    }
}

// ---------------------------------------------------------------------------
// Redirects.

/// Where an anonymous browser is sent: the login page, with the requested
/// path (or `/`, when it was the login page itself) as `next`.
pub open spec fn login_target(pq: Option<Seq<char>>) -> Seq<char> {
    let next = match pq {
        Some(p) => p,
        None => "/"@,
    };
    let next = if starts_with(next, "/login"@) {
        "/"@
    } else {
        next
    };
    "/login?next="@ + percent_encoded(next)
}

/// Where a signed-in browser without the needed role is sent: the access
/// settings page, with the requested path (or `/settings`, when it was the
/// access page itself) as `next`.
pub open spec fn access_target(pq: Option<Seq<char>>) -> Seq<char> {
    let next = match pq {
        Some(p) => p,
        None => "/"@,
    };
    let next = if starts_with(next, "/settings/access"@) {
        "/settings"@
    } else {
        next
    };
    "/settings/access?next="@ + percent_encoded(next)
}

/// The login redirect for a request whose path and query are given.
pub fn login_redirect_target(path_and_query: Option<&str>) -> (r: String)
    ensures
        r@ == login_target(opt_str_view(path_and_query)),
        exists|n: Seq<char>|
            !starts_with(n, "/login"@) && r@ == "/login?next="@ + percent_encoded(n),
{
    let next = match path_and_query {
        Some(p) => to_chars(p),
        None => to_chars("/"),
    };
    let next = if has_prefix(&next, "/login") {
        to_chars("/")
    } else {
        next
    };
    let nv = from_chars(&next);
    let enc = url_encode(nv.as_str());
    let mut out = String::from_str("/login?next=");
    out.append(enc.as_str());
    proof {
        reveal_strlit("/");
        reveal_strlit("/login");
        if starts_with(next@, "/login"@) {
            assert(next@ == "/"@);
            assert("/"@.len() < "/login"@.len());
        }
    }
    out
}

/// The access-page redirect for a request whose path and query are given.
pub fn access_redirect_target(path_and_query: Option<&str>) -> (r: String)
    ensures
        r@ == access_target(opt_str_view(path_and_query)),
{
    let next = match path_and_query {
        Some(p) => to_chars(p),
        None => to_chars("/"),
    };
    let next = if has_prefix(&next, "/settings/access") {
        to_chars("/settings")
    } else {
        next
    };
    let nv = from_chars(&next);
    let enc = url_encode(nv.as_str());
    let mut out = String::from_str("/settings/access?next=");
    out.append(enc.as_str());
    out
}


// ---------------------------------------------------------------------------
// The middleware's decision.

/// What the middleware does with a request.
#[derive(Clone, Copy, Debug, PartialEq, Eq, Structural)]
pub enum GuardKind {
    /// Hand the request on to the router.
    Pass,
    /// 403.
    Forbidden,
    /// 401.
    Unauthorized,
    /// A temporary redirect.
    Redirect,
}

/// The middleware's answer to one request.
#[derive(Clone, Debug)]
pub enum GuardDecision {
    Pass,
    Forbidden,
    Unauthorized,
    Redirect(String),
}

impl GuardDecision {
    /// The kind of the answer and, for a redirect, its target.
    pub open spec fn outcome(&self) -> (GuardKind, Seq<char>) {
        match self {
            GuardDecision::Pass => (GuardKind::Pass, Seq::empty()),
            GuardDecision::Forbidden => (GuardKind::Forbidden, Seq::empty()),
            GuardDecision::Unauthorized => (GuardKind::Unauthorized, Seq::empty()),
            GuardDecision::Redirect(t) => (GuardKind::Redirect, t@),
        }
    }
}

/// What the middleware knows of one request. The header fields hold the
/// header's value when it is present and readable as text.
#[derive(Clone, Debug)]
pub struct GuardRequest {
    /// The server runs on a RePlayOS device (the guard is off otherwise).
    pub is_device: bool,
    pub path: String,
    pub method: HttpMethod,
    /// The role of the request's session (`Anonymous` without one).
    pub role: AuthRole,
    pub first_setup_done: bool,
    pub accept: Option<String>,
    pub sec_fetch_site: Option<String>,
    pub host: Option<String>,
    pub origin: Option<String>,
    pub referer: Option<String>,
    /// The request URI's path and query, when it has one.
    pub path_and_query: Option<String>,
}

pub open spec fn pass() -> (GuardKind, Seq<char>) {
    (GuardKind::Pass, Seq::empty())
}

pub open spec fn forbidden() -> (GuardKind, Seq<char>) {
    (GuardKind::Forbidden, Seq::empty())
}

pub open spec fn unauthorized() -> (GuardKind, Seq<char>) {
    (GuardKind::Unauthorized, Seq::empty())
}

/// The middleware's decision for a request:
/// 1. off the device, or for static assets, `/api/version` and `/waiting`: pass;
/// 2. a signed-in state-changing request that fails the CSRF check: 403;
/// 3. before first setup: pass the setup paths, send browsers to
///    `/first-setup`, answer 401 otherwise;
/// 4. a signed-in browser asking for `/login` goes to `/`;
/// 5. public paths pass;
/// 6. a server function passes when the role allows its requirement, else
///    401 (anonymous) or 403;
/// 7. any other route passes when the role allows its requirement; else a
///    browser GET is sent to the login page (anonymous) or the access page,
///    and other requests get 403 (signed in) or 401.
pub open spec fn guard_outcome(q: GuardRequest) -> (GuardKind, Seq<char>) {
    let path = q.path@;
    let m = q.method;
    let role = q.role;
    if !q.is_device {
        pass()
    } else if early_public(path) {
        pass()
    } else if unsafe_method(m) && role != AuthRole::Anonymous && !csrf_ok(
        opt_string_view(q.sec_fetch_site),
        opt_string_view(q.host),
        opt_string_view(q.origin),
        opt_string_view(q.referer),
    ) {
        forbidden()
    } else if !q.first_setup_done {
        if first_setup_public(path) {
            pass()
        } else if m == HttpMethod::Get && wants_html(opt_string_view(q.accept)) {
            (GuardKind::Redirect, "/first-setup"@)
        } else {
            unauthorized()
        }
    } else if path == "/login"@ && m == HttpMethod::Get && role != AuthRole::Anonymous {
        (GuardKind::Redirect, "/"@)
    } else if public_without_auth(path) {
        pass()
    } else {
        match sfn_role(path) {
            Some(required) => {
                if role.rank() >= required.rank() {
                    pass()
                } else if role == AuthRole::Anonymous {
                    unauthorized()
                } else {
                    forbidden()
                }
            },
            None => {
                let required = route_role(m, path);
                if role.rank() >= required.rank() {
                    pass()
                } else if m == HttpMethod::Get && wants_html(opt_string_view(q.accept)) {
                    if role == AuthRole::Anonymous {
                        (GuardKind::Redirect, login_target(opt_string_view(q.path_and_query)))
                    } else {
                        (GuardKind::Redirect, access_target(opt_string_view(q.path_and_query)))
                    }
                } else if role != AuthRole::Anonymous {
                    forbidden()
                } else {
                    unauthorized()
                }
            },
        }
    }
}

/// Whether the middleware needs the request's role at all; when it does
/// not, the decision is the same for every role, so the session (whose
/// lookup reads credentials from disk) need not be resolved.
pub fn needs_session(is_device: bool, path: &str) -> (r: bool)
    ensures
        r == (is_device && !early_public(path@)),
{
    if !is_device {
        return false;
    }
    let p = to_chars(path);
    !early_public_path(&p)
}

fn opt_as_str(o: &Option<String>) -> (r: Option<&str>)
    ensures
        opt_str_view(r) == opt_string_view(*o),
{
    match o {
        Some(s) => Some(s.as_str()),
        None => None,
    }
}

/// The auth middleware's decision for one request (see [`guard_outcome`]).
pub fn auth_guard_decision(q: &GuardRequest) -> (r: GuardDecision)
    ensures
        r.outcome() == guard_outcome(*q),
{
    if !q.is_device {
        return GuardDecision::Pass;
    }
    let path = to_chars(q.path.as_str());
    if early_public_path(&path) {
        return GuardDecision::Pass;
    }
    let m = q.method;
    let role = q.role;
    let anonymous = role == AuthRole::Anonymous;
    if is_unsafe_method(m) && !anonymous && !passes_csrf_origin_check(
        opt_as_str(&q.sec_fetch_site),
        opt_as_str(&q.host),
        opt_as_str(&q.origin),
        opt_as_str(&q.referer),
    ) {
        return GuardDecision::Forbidden;
    }
    if !q.first_setup_done {
        if first_setup_public_chars(&path) {
            return GuardDecision::Pass;
        }
        if m == HttpMethod::Get && wants_html_response(opt_as_str(&q.accept)) {
            return GuardDecision::Redirect(String::from_str("/first-setup"));
        }
        return GuardDecision::Unauthorized;
    }
    if chars_eq(&path, "/login") && m == HttpMethod::Get && !anonymous {
        return GuardDecision::Redirect(String::from_str("/"));
    }
    if public_path(&path) {
        return GuardDecision::Pass;
    }
    match sfn_role_chars(&path) {
        Some(required) => {
            if role.allows(required) {
                GuardDecision::Pass
            } else if anonymous {
                GuardDecision::Unauthorized
            } else {
                GuardDecision::Forbidden
            }
        },
        None => {
            let required = route_role_chars(m, &path);
            if role.allows(required) {
                GuardDecision::Pass
            } else if m == HttpMethod::Get && wants_html_response(opt_as_str(&q.accept)) {
                let target = if anonymous {
                    login_redirect_target(opt_as_str(&q.path_and_query))
                } else {
                    access_redirect_target(opt_as_str(&q.path_and_query))
                };
                GuardDecision::Redirect(target)
            } else if !anonymous {
                GuardDecision::Forbidden
            } else {
                GuardDecision::Unauthorized
            }
        },
    }
}

// ---------------------------------------------------------------------------
// Laws of the guard.

/// Off the device, and for static assets, `/api/version` and `/waiting`,
/// every request passes, whatever its role and headers.
pub proof fn law_session_free_paths_pass(q: GuardRequest)
    requires
        !q.is_device || early_public(q.path@),
    ensures
        guard_outcome(q) == pass(),
{
}

/// Once setup is done, an anonymous request reaches only the public paths
/// and the login/setup server functions.
pub proof fn law_anonymous_reaches_only_public(q: GuardRequest)
    requires
        q.is_device,
        q.first_setup_done,
        q.role == AuthRole::Anonymous,
        guard_outcome(q).0 == GuardKind::Pass,
    ensures
        early_public(q.path@) || public_without_auth(q.path@) || sfn_role(q.path@) == Some(
            AuthRole::Anonymous,
        ),
{
}

/// Once setup is done, a user session never reaches a server function or
/// route that requires an administrator.
pub proof fn law_user_never_reaches_admin(q: GuardRequest)
    requires
        q.is_device,
        q.first_setup_done,
        q.role == AuthRole::User,
        guard_outcome(q).0 == GuardKind::Pass,
        !early_public(q.path@),
        !public_without_auth(q.path@),
    ensures
        match sfn_role(q.path@) {
            Some(r) => r != AuthRole::Admin,
            None => route_role(q.method, q.path@) != AuthRole::Admin,
        },
{
}

/// A signed-in, state-changing request that the browser marks as
/// cross-site is refused with 403 (unless it is a session-free path).
pub proof fn law_cross_site_mutation_refused(q: GuardRequest)
    requires
        q.is_device,
        !early_public(q.path@),
        unsafe_method(q.method),
        q.role != AuthRole::Anonymous,
        opt_string_view(q.sec_fetch_site) == Some("cross-site"@),
    ensures
        guard_outcome(q) == forbidden(),
{
    reveal_strlit("cross-site");
    reveal_strlit("same-origin");
    assert("cross-site"@ != "same-origin"@) by {
        assert("cross-site"@[0] != "same-origin"@[0]);
    }
}

/// Before first setup, only the setup paths (and the session-free ones)
/// pass.
pub proof fn law_setup_restriction(q: GuardRequest)
    requires
        q.is_device,
        !q.first_setup_done,
        guard_outcome(q).0 == GuardKind::Pass,
    ensures
        early_public(q.path@) || first_setup_public(q.path@),
{
}

/// After first setup, an administrator passes everywhere except on a
/// `GET /login` (which sends it home) and on a state-changing request that
/// fails the CSRF check.
pub proof fn law_admin_passes(q: GuardRequest)
    requires
        q.is_device,
        q.first_setup_done,
        q.role == AuthRole::Admin,
        !unsafe_method(q.method) || csrf_ok(
            opt_string_view(q.sec_fetch_site),
            opt_string_view(q.host),
            opt_string_view(q.origin),
            opt_string_view(q.referer),
        ),
        !(q.path@ == "/login"@ && q.method == HttpMethod::Get),
    ensures
        guard_outcome(q) == pass(),
{
}

/// Every `/sfn/` path is classified, and a server function that no
/// allowlist names requires an administrator.
pub proof fn law_server_functions_fail_closed(p: Seq<char>)
    ensures
        sfn_role(p) is Some <==> starts_with(p, "/sfn/"@),
        match sfn_function(p) {
            Some(f) => !public_auth_fn(f) && !admin_fn(f) && !user_fn(f) ==> sfn_role(p) == Some(
                AuthRole::Admin,
            ),
            None => true,
        },
{
}

/// A normalized name contains no ASCII capital.
proof fn lemma_normalized_no_upper(f: Seq<char>)
    ensures
        forall|i: int|
            0 <= i < normalized_name(f).len() ==> !is_ascii_upper(#[trigger] normalized_name(f)[i]),
{
    if f.contains('_') {
        assert forall|i: int| 0 <= i < lower_seq(f).len() implies !is_ascii_upper(
            #[trigger] lower_seq(f)[i],
        ) by {
            let c = f[i];
            if is_ascii_upper(c) {
                assert(lower_char(c) == ((c as u32) + 32) as char);
            }
        }
    } else {
        lemma_camel_shape(f, f.len() as int);
    }
}

proof fn lemma_camel_shape(f: Seq<char>, n: int)
    requires
        0 <= n <= f.len(),
        !f.contains('_'),
    ensures
        forall|i: int|
            0 <= i < camel_prefix(f, n).len() ==> !is_ascii_upper(#[trigger] camel_prefix(f, n)[i])
                && camel_prefix(f, n)[i] != '-',
    decreases n,
{
    if n > 0 {
        lemma_camel_shape(f, n - 1);
        let piece = camel_piece(f, n - 1);
        let c = f[n - 1];
        assert forall|i: int| 0 <= i < piece.len() implies !is_ascii_upper(#[trigger] piece[i])
            && piece[i] != '-' by {
            if is_ascii_upper(c) {
                assert(lower_char(c) == ((c as u32) + 32) as char);
            }
        }
        let a = camel_prefix(f, n - 1);
        assert forall|i: int| 0 <= i < (a + piece).len() implies !is_ascii_upper(
            #[trigger] (a + piece)[i],
        ) && (a + piece)[i] != '-' by {
            if i < a.len() {
                assert((a + piece)[i] == a[i]);
            } else {
                assert((a + piece)[i] == piece[i - a.len()]);
            }
        }
    }
}

/// On a name without capitals and `-`, the camel rewrite changes nothing.
proof fn lemma_camel_identity(f: Seq<char>, n: int)
    requires
        0 <= n <= f.len(),
        forall|i: int| 0 <= i < f.len() ==> !is_ascii_upper(#[trigger] f[i]) && f[i] != '-',
    ensures
        camel_prefix(f, n) == f.take(n),
    decreases n,
{
    if n == 0 {
        assert(f.take(0) =~= Seq::<char>::empty());
    } else {
        lemma_camel_identity(f, n - 1);
        assert(f.take(n) =~= f.take(n - 1) + seq![f[n - 1]]);
    }
}

/// Normalizing a server-function name twice gives the same name as
/// normalizing it once, so every spelling lands on one canonical form.
pub proof fn law_normalization_idempotent(f: Seq<char>)
    ensures
        normalized_name(normalized_name(f)) == normalized_name(f),
{
    let n = normalized_name(f);
    lemma_normalized_no_upper(f);
    if f.contains('_') {
        let k = choose|k: int| 0 <= k < f.len() && f[k] == '_';
        assert(n[k] == '_');
        assert(n.contains('_'));
    }
    if n.contains('_') {
        assert(lower_seq(n) =~= n) by {
            assert forall|i: int| 0 <= i < n.len() implies #[trigger] lower_seq(n)[i] == n[i] by {
                assert(!is_ascii_upper(n[i]));
            }
        }
    } else {
        lemma_camel_shape(f, f.len() as int);
        lemma_camel_identity(n, n.len() as int);
        assert(n.take(n.len() as int) =~= n);
    }
}

proof fn lemma_trim_end_last(s: Seq<char>, p: spec_fn(char) -> bool)
    ensures
        trim_end_by(s, p).len() > 0 ==> !p(trim_end_by(s, p).last()),
        trim_end_by(s, p).len() <= s.len(),
        forall|i: int| 0 <= i < trim_end_by(s, p).len() ==> #[trigger] trim_end_by(s, p)[i] == s[i],
    decreases s.len(),
{
    if s.len() > 0 && p(s.last()) {
        lemma_trim_end_last(s.drop_last(), p);
    }
}

/// A character that ASCII lower-casing turns into `x` is `x` itself unless
/// `x` is an ASCII lower-case letter.
proof fn lemma_lower_char_shape(c: char)
    ensures
        is_ascii_upper(c) ==> is_ascii_lower(lower_char(c)),
        !is_ascii_upper(c) ==> lower_char(c) == c,
        !is_ascii_upper(lower_char(c)),
{
    if is_ascii_upper(c) {
        assert(lower_char(c) == ((c as u32) + 32) as char);
    }
}

/// The authority normalizer is idempotent: a normalized authority
/// normalizes to itself.
pub proof fn law_authority_normalization_idempotent(v: Seq<char>, y: Seq<char>)
    requires
        normalized_authority(v) == Some(y),
    ensures
        normalized_authority(y) == Some(y),
{
    let t = trim_end_by(trim_ws(v), dot_pred());
    lemma_trim_end_last(trim_ws(v), dot_pred());
    assert(y == lower_seq(t));
    assert forall|i: int| 0 <= i < y.len() implies #[trigger] y[i] == lower_char(t[i])
        && !is_ascii_upper(y[i]) && !unicode_white_space(y[i]) && y[i] != '@' && y[i] != '/'
        && y[i] != '\\' && (i == y.len() - 1 ==> y[i] != '.') by {
        lemma_lower_char_shape(t[i]);
        assert(!unicode_white_space(t[i]));
        if t[i] == '@' {
            assert(t.contains('@'));
        }
        if t[i] == '/' {
            assert(t.contains('/'));
        }
        if t[i] == '\\' {
            assert(t.contains('\\'));
        }
    }
    lemma_trim_start_index(y, white_space_pred(), 0);
    assert(y.subrange(0, y.len() as int) =~= y);
    lemma_trim_end_index(y, white_space_pred(), y.len() as int);
    lemma_trim_end_index(y, dot_pred(), y.len() as int);
    assert(trim_ws(y) == y);
    assert(trim_end_by(trim_ws(y), dot_pred()) == y);
    assert(!y.contains('@'));
    assert(!y.contains('/'));
    assert(!y.contains('\\'));
    assert(lower_seq(y) =~= y);
}

/// The server-function lists do not overlap: a name is at most one of
/// public, admin and user; and every user-read name is a user name (so never
/// an admin name).
pub proof fn law_classification_lists_disjoint(f: Seq<char>)
    ensures
        !(public_auth_fn(f) && admin_fn(f)),
        !(public_auth_fn(f) && user_fn(f)),
        !(admin_fn(f) && user_fn(f)),
        user_read_fn(f) ==> user_fn(f) && !admin_fn(f),
{
    reveal_strlit("add_favorite");
    reveal_strlit("add_game_resource_link");
    reveal_strlit("add_game_video");
    reveal_strlit("cancel_thumbnail_update");
    reveal_strlit("change_root_password");
    reveal_strlit("check_for_updates");
    reveal_strlit("cleanup_orphaned_images");
    reveal_strlit("clear_images");
    reveal_strlit("clear_metadata");
    reveal_strlit("clear_thumbnail_index");
    reveal_strlit("complete_first_setup");
    reveal_strlit("delete_manual");
    reveal_strlit("delete_recent");
    reveal_strlit("delete_rom");
    reveal_strlit("delete_user_capture");
    reveal_strlit("dismiss_setup");
    reveal_strlit("downgrade_admin_to_user");
    reveal_strlit("download_manual");
    reveal_strlit("download_metadata");
    reveal_strlit("enable_replay_api_assisted");
    reveal_strlit("flatten_favorites");
    reveal_strlit("get_admin_session_timeout");
    reveal_strlit("get_all_genres");
    reveal_strlit("get_analytics_preference");
    reveal_strlit("get_auth_status");
    reveal_strlit("get_board_games");
    reveal_strlit("get_board_genres");
    reveal_strlit("get_boxart_variants");
    reveal_strlit("get_developer_games");
    reveal_strlit("get_developer_genres");
    reveal_strlit("get_favorites");
    reveal_strlit("get_favorites_recommendations");
    reveal_strlit("get_font_size");
    reveal_strlit("get_game_documents");
    reveal_strlit("get_game_manual_suggestions");
    reveal_strlit("get_game_playtime");
    reveal_strlit("get_game_resource_links");
    reveal_strlit("get_game_videos");
    reveal_strlit("get_github_api_key");
    reveal_strlit("get_hostname");
    reveal_strlit("get_info");
    reveal_strlit("get_language_preference");
    reveal_strlit("get_library_playtime");
    reveal_strlit("get_live_stats");
    reveal_strlit("get_local_manuals");
    reveal_strlit("get_locale");
    reveal_strlit("get_log_level_config");
    reveal_strlit("get_metadata_library_overview");
    reveal_strlit("get_metadata_page_snapshot");
    reveal_strlit("get_mode");
    reveal_strlit("get_nfs_config");
    reveal_strlit("get_preferred_languages");
    reveal_strlit("get_provider_game_videos");
    reveal_strlit("get_recents");
    reveal_strlit("get_recommendations");
    reveal_strlit("get_region_preference");
    reveal_strlit("get_region_preference_secondary");
    reveal_strlit("get_related_games");
    reveal_strlit("get_replay_api_status");
    reveal_strlit("get_replayos_log_level");
    reveal_strlit("get_replayos_settings");
    reveal_strlit("get_retroachievements_config");
    reveal_strlit("get_rom_detail");
    reveal_strlit("get_rom_file_group");
    reveal_strlit("get_roms_page");
    reveal_strlit("get_save_state_slots");
    reveal_strlit("get_setup_status");
    reveal_strlit("get_skins");
    reveal_strlit("get_system_favorites");
    reveal_strlit("get_system_genres");
    reveal_strlit("get_system_logs");
    reveal_strlit("get_systems");
    reveal_strlit("get_tls_certificate_info");
    reveal_strlit("get_update_changelog");
    reveal_strlit("get_update_channel");
    reveal_strlit("get_user_captures");
    reveal_strlit("get_wifi_config");
    reveal_strlit("global_search");
    reveal_strlit("group_favorites");
    reveal_strlit("launch_game");
    reveal_strlit("login_admin");
    reveal_strlit("login_with_replay_code");
    reveal_strlit("logout");
    reveal_strlit("logout_all_browsers");
    reveal_strlit("organize_favorites");
    reveal_strlit("power_off_replayos_device");
    reveal_strlit("random_game");
    reveal_strlit("random_game_for_system");
    reveal_strlit("reboot_system");
    reveal_strlit("rebuild_corrupt_library");
    reveal_strlit("rebuild_game_library");
    reveal_strlit("refresh_storage");
    reveal_strlit("regenerate_metadata");
    reveal_strlit("regenerate_tls_certificate_info");
    reveal_strlit("remove_favorite");
    reveal_strlit("remove_game_resource_link");
    reveal_strlit("remove_game_video");
    reveal_strlit("rename_rom");
    reveal_strlit("repair_corrupt_user_data");
    reveal_strlit("reprobe_replay_api");
    reveal_strlit("rescan_game_library");
    reveal_strlit("reset_boxart_override");
    reveal_strlit("restart_replayos_game");
    reveal_strlit("restore_user_data_backup");
    reveal_strlit("save_analytics_preference");
    reveal_strlit("save_font_size");
    reveal_strlit("save_github_api_key");
    reveal_strlit("save_hostname");
    reveal_strlit("save_language_preference");
    reveal_strlit("save_locale");
    reveal_strlit("save_log_level_config");
    reveal_strlit("save_nfs_config");
    reveal_strlit("save_region_preference");
    reveal_strlit("save_region_preference_secondary");
    reveal_strlit("save_replayos_kiosk_mode");
    reveal_strlit("save_retroachievements_config_and_restart");
    reveal_strlit("save_update_channel");
    reveal_strlit("save_wifi_config");
    reveal_strlit("search_by_board");
    reveal_strlit("search_by_developer");
    reveal_strlit("search_game_videos");
    reveal_strlit("send_replay_player_command");
    reveal_strlit("send_replayos_message");
    reveal_strlit("set_admin_session_timeout");
    reveal_strlit("set_boxart_override");
    reveal_strlit("set_skin");
    reveal_strlit("set_skin_sync");
    reveal_strlit("skip_version");
    reveal_strlit("start_setup_metadata_downloads");
    reveal_strlit("start_update");
    reveal_strlit("update_thumbnails");
    reveal_strlit("verify_replay_api_token");
    assert("add_favorite"@.len() == 12);
    assert("add_game_resource_link"@.len() == 22);
    assert("add_game_video"@.len() == 14);
    assert("cancel_thumbnail_update"@.len() == 23);
    assert("change_root_password"@.len() == 20);
    assert("check_for_updates"@.len() == 17);
    assert("cleanup_orphaned_images"@.len() == 23);
    assert("clear_images"@.len() == 12);
    assert("clear_metadata"@.len() == 14);
    assert("clear_thumbnail_index"@.len() == 21);
    assert("complete_first_setup"@.len() == 20);
    assert("delete_manual"@.len() == 13);
    assert("delete_recent"@.len() == 13);
    assert("delete_rom"@.len() == 10);
    assert("delete_user_capture"@.len() == 19);
    assert("dismiss_setup"@.len() == 13);
    assert("downgrade_admin_to_user"@.len() == 23);
    assert("download_manual"@.len() == 15);
    assert("download_metadata"@.len() == 17);
    assert("enable_replay_api_assisted"@.len() == 26);
    assert("flatten_favorites"@.len() == 17);
    assert("get_admin_session_timeout"@.len() == 25);
    assert("get_all_genres"@.len() == 14);
    assert("get_analytics_preference"@.len() == 24);
    assert("get_auth_status"@.len() == 15);
    assert("get_board_games"@.len() == 15);
    assert("get_board_genres"@.len() == 16);
    assert("get_boxart_variants"@.len() == 19);
    assert("get_developer_games"@.len() == 19);
    assert("get_developer_genres"@.len() == 20);
    assert("get_favorites"@.len() == 13);
    assert("get_favorites_recommendations"@.len() == 29);
    assert("get_font_size"@.len() == 13);
    assert("get_game_documents"@.len() == 18);
    assert("get_game_manual_suggestions"@.len() == 27);
    assert("get_game_playtime"@.len() == 17);
    assert("get_game_resource_links"@.len() == 23);
    assert("get_game_videos"@.len() == 15);
    assert("get_github_api_key"@.len() == 18);
    assert("get_hostname"@.len() == 12);
    assert("get_info"@.len() == 8);
    assert("get_language_preference"@.len() == 23);
    assert("get_library_playtime"@.len() == 20);
    assert("get_live_stats"@.len() == 14);
    assert("get_local_manuals"@.len() == 17);
    assert("get_locale"@.len() == 10);
    assert("get_log_level_config"@.len() == 20);
    assert("get_metadata_library_overview"@.len() == 29);
    assert("get_metadata_page_snapshot"@.len() == 26);
    assert("get_mode"@.len() == 8);
    assert("get_nfs_config"@.len() == 14);
    assert("get_preferred_languages"@.len() == 23);
    assert("get_provider_game_videos"@.len() == 24);
    assert("get_recents"@.len() == 11);
    assert("get_recommendations"@.len() == 19);
    assert("get_region_preference"@.len() == 21);
    assert("get_region_preference_secondary"@.len() == 31);
    assert("get_related_games"@.len() == 17);
    assert("get_replay_api_status"@.len() == 21);
    assert("get_replayos_log_level"@.len() == 22);
    assert("get_replayos_settings"@.len() == 21);
    assert("get_retroachievements_config"@.len() == 28);
    assert("get_rom_detail"@.len() == 14);
    assert("get_rom_file_group"@.len() == 18);
    assert("get_roms_page"@.len() == 13);
    assert("get_save_state_slots"@.len() == 20);
    assert("get_setup_status"@.len() == 16);
    assert("get_skins"@.len() == 9);
    assert("get_system_favorites"@.len() == 20);
    assert("get_system_genres"@.len() == 17);
    assert("get_system_logs"@.len() == 15);
    assert("get_systems"@.len() == 11);
    assert("get_tls_certificate_info"@.len() == 24);
    assert("get_update_changelog"@.len() == 20);
    assert("get_update_channel"@.len() == 18);
    assert("get_user_captures"@.len() == 17);
    assert("get_wifi_config"@.len() == 15);
    assert("global_search"@.len() == 13);
    assert("group_favorites"@.len() == 15);
    assert("launch_game"@.len() == 11);
    assert("login_admin"@.len() == 11);
    assert("login_with_replay_code"@.len() == 22);
    assert("logout"@.len() == 6);
    assert("logout_all_browsers"@.len() == 19);
    assert("organize_favorites"@.len() == 18);
    assert("power_off_replayos_device"@.len() == 25);
    assert("random_game"@.len() == 11);
    assert("random_game_for_system"@.len() == 22);
    assert("reboot_system"@.len() == 13);
    assert("rebuild_corrupt_library"@.len() == 23);
    assert("rebuild_game_library"@.len() == 20);
    assert("refresh_storage"@.len() == 15);
    assert("regenerate_metadata"@.len() == 19);
    assert("regenerate_tls_certificate_info"@.len() == 31);
    assert("remove_favorite"@.len() == 15);
    assert("remove_game_resource_link"@.len() == 25);
    assert("remove_game_video"@.len() == 17);
    assert("rename_rom"@.len() == 10);
    assert("repair_corrupt_user_data"@.len() == 24);
    assert("reprobe_replay_api"@.len() == 18);
    assert("rescan_game_library"@.len() == 19);
    assert("reset_boxart_override"@.len() == 21);
    assert("restart_replayos_game"@.len() == 21);
    assert("restore_user_data_backup"@.len() == 24);
    assert("save_analytics_preference"@.len() == 25);
    assert("save_font_size"@.len() == 14);
    assert("save_github_api_key"@.len() == 19);
    assert("save_hostname"@.len() == 13);
    assert("save_language_preference"@.len() == 24);
    assert("save_locale"@.len() == 11);
    assert("save_log_level_config"@.len() == 21);
    assert("save_nfs_config"@.len() == 15);
    assert("save_region_preference"@.len() == 22);
    assert("save_region_preference_secondary"@.len() == 32);
    assert("save_replayos_kiosk_mode"@.len() == 24);
    assert("save_retroachievements_config_and_restart"@.len() == 41);
    assert("save_update_channel"@.len() == 19);
    assert("save_wifi_config"@.len() == 16);
    assert("search_by_board"@.len() == 15);
    assert("search_by_developer"@.len() == 19);
    assert("search_game_videos"@.len() == 18);
    assert("send_replay_player_command"@.len() == 26);
    assert("send_replayos_message"@.len() == 21);
    assert("set_admin_session_timeout"@.len() == 25);
    assert("set_boxart_override"@.len() == 19);
    assert("set_skin"@.len() == 8);
    assert("set_skin_sync"@.len() == 13);
    assert("skip_version"@.len() == 12);
    assert("start_setup_metadata_downloads"@.len() == 30);
    assert("start_update"@.len() == 12);
    assert("update_thumbnails"@.len() == 17);
    assert("verify_replay_api_token"@.len() == 23);
    assert("get_wifi_config"@[0] != "search_by_board"@[0]);
    assert("get_wifi_config"@[4] != "get_board_games"@[4]);
    assert("get_wifi_config"@[4] != "get_game_videos"@[4]);
    assert("get_wifi_config"@[0] != "remove_favorite"@[0]);
    assert("get_wifi_config"@[1] != "group_favorites"@[1]);
    assert("get_wifi_config"@[0] != "download_manual"@[0]);
    assert("get_wifi_config"@[4] != "get_auth_status"@[4]);
    assert("save_wifi_config"@[0] != "get_board_genres"@[0]);
    assert("save_wifi_config"@[0] != "get_setup_status"@[0]);
    assert("get_nfs_config"@[4] != "get_rom_detail"@[4]);
    assert("get_nfs_config"@[4] != "get_all_genres"@[4]);
    assert("get_nfs_config"@[4] != "get_live_stats"@[4]);
    assert("get_nfs_config"@[0] != "add_game_video"@[0]);
    assert("get_nfs_config"@[0] != "save_font_size"@[0]);
    assert("save_nfs_config"@[1] != "search_by_board"@[1]);
    assert("save_nfs_config"@[0] != "get_board_games"@[0]);
    assert("save_nfs_config"@[0] != "get_game_videos"@[0]);
    assert("save_nfs_config"@[0] != "remove_favorite"@[0]);
    assert("save_nfs_config"@[0] != "group_favorites"@[0]);
    assert("save_nfs_config"@[0] != "download_manual"@[0]);
    assert("save_nfs_config"@[0] != "get_auth_status"@[0]);
    assert("reboot_system"@[0] != "get_roms_page"@[0]);
    assert("reboot_system"@[0] != "global_search"@[0]);
    assert("reboot_system"@[0] != "get_favorites"@[0]);
    assert("reboot_system"@[0] != "delete_recent"@[0]);
    assert("reboot_system"@[0] != "delete_manual"@[0]);
    assert("reboot_system"@[0] != "dismiss_setup"@[0]);
    assert("reboot_system"@[0] != "set_skin_sync"@[0]);
    assert("reboot_system"@[0] != "get_font_size"@[0]);
    assert("power_off_replayos_device"@[0] != "remove_game_resource_link"@[0]);
    assert("downgrade_admin_to_user"@[0] != "get_game_resource_links"@[0]);
    assert("downgrade_admin_to_user"@[0] != "get_language_preference"@[0]);
    assert("downgrade_admin_to_user"@[0] != "get_preferred_languages"@[0]);
    assert("logout_all_browsers"@[0] != "search_by_developer"@[0]);
    assert("logout_all_browsers"@[0] != "get_developer_games"@[0]);
    assert("logout_all_browsers"@[0] != "get_recommendations"@[0]);
    assert("logout_all_browsers"@[0] != "get_boxart_variants"@[0]);
    assert("logout_all_browsers"@[0] != "delete_user_capture"@[0]);
    assert("logout_all_browsers"@[0] != "set_boxart_override"@[0]);
    assert("get_admin_session_timeout"@[0] != "remove_game_resource_link"@[0]);
    assert("set_admin_session_timeout"@[0] != "remove_game_resource_link"@[0]);
    assert("get_hostname"@[0] != "add_favorite"@[0]);
    assert("save_hostname"@[0] != "get_roms_page"@[0]);
    assert("save_hostname"@[0] != "global_search"@[0]);
    assert("save_hostname"@[0] != "get_favorites"@[0]);
    assert("save_hostname"@[0] != "delete_recent"@[0]);
    assert("save_hostname"@[0] != "delete_manual"@[0]);
    assert("save_hostname"@[0] != "dismiss_setup"@[0]);
    assert("save_hostname"@[1] != "set_skin_sync"@[1]);
    assert("save_hostname"@[0] != "get_font_size"@[0]);
    assert("change_root_password"@[0] != "get_developer_genres"@[0]);
    assert("change_root_password"@[0] != "get_update_changelog"@[0]);
    assert("change_root_password"@[0] != "get_system_favorites"@[0]);
    assert("change_root_password"@[0] != "get_library_playtime"@[0]);
    assert("change_root_password"@[0] != "get_save_state_slots"@[0]);
    assert("change_root_password"@[1] != "complete_first_setup"@[1]);
    assert("clear_metadata"@[0] != "get_rom_detail"@[0]);
    assert("clear_metadata"@[0] != "get_all_genres"@[0]);
    assert("clear_metadata"@[0] != "get_live_stats"@[0]);
    assert("clear_metadata"@[0] != "add_game_video"@[0]);
    assert("clear_metadata"@[0] != "save_font_size"@[0]);
    assert("regenerate_metadata"@[0] != "search_by_developer"@[0]);
    assert("regenerate_metadata"@[0] != "get_developer_games"@[0]);
    assert("regenerate_metadata"@[0] != "get_recommendations"@[0]);
    assert("regenerate_metadata"@[0] != "get_boxart_variants"@[0]);
    assert("regenerate_metadata"@[0] != "delete_user_capture"@[0]);
    assert("regenerate_metadata"@[0] != "set_boxart_override"@[0]);
    assert("download_metadata"@[0] != "get_system_genres"@[0]);
    assert("download_metadata"@[0] != "get_related_games"@[0]);
    assert("download_metadata"@[0] != "get_local_manuals"@[0]);
    assert("download_metadata"@[0] != "flatten_favorites"@[0]);
    assert("download_metadata"@[0] != "get_user_captures"@[0]);
    assert("download_metadata"@[0] != "get_game_playtime"@[0]);
    assert("download_metadata"@[0] != "remove_game_video"@[0]);
    assert("clear_images"@[0] != "add_favorite"@[0]);
    assert("cleanup_orphaned_images"@[0] != "get_game_resource_links"@[0]);
    assert("cleanup_orphaned_images"@[0] != "get_language_preference"@[0]);
    assert("cleanup_orphaned_images"@[0] != "get_preferred_languages"@[0]);
    assert("get_metadata_library_overview"@[4] != "get_favorites_recommendations"@[4]);
    assert("get_metadata_page_snapshot"@[0] != "send_replay_player_command"@[0]);
    assert("get_system_logs"@[0] != "search_by_board"@[0]);
    assert("get_system_logs"@[4] != "get_board_games"@[4]);
    assert("get_system_logs"@[4] != "get_game_videos"@[4]);
    assert("get_system_logs"@[0] != "remove_favorite"@[0]);
    assert("get_system_logs"@[1] != "group_favorites"@[1]);
    assert("get_system_logs"@[0] != "download_manual"@[0]);
    assert("get_system_logs"@[4] != "get_auth_status"@[4]);
    assert("get_log_level_config"@[4] != "get_developer_genres"@[4]);
    assert("get_log_level_config"@[4] != "get_update_changelog"@[4]);
    assert("get_log_level_config"@[4] != "get_system_favorites"@[4]);
    assert("get_log_level_config"@[5] != "get_library_playtime"@[5]);
    assert("get_log_level_config"@[4] != "get_save_state_slots"@[4]);
    assert("get_log_level_config"@[0] != "complete_first_setup"@[0]);
    assert("save_log_level_config"@[0] != "get_replay_api_status"@[0]);
    assert("save_log_level_config"@[1] != "send_replayos_message"@[1]);
    assert("save_log_level_config"@[0] != "restart_replayos_game"@[0]);
    assert("save_log_level_config"@[0] != "reset_boxart_override"@[0]);
    assert("save_log_level_config"@[0] != "get_region_preference"@[0]);
    assert("get_replayos_log_level"@[0] != "random_game_for_system"@[0]);
    assert("get_replayos_log_level"@[0] != "add_game_resource_link"@[0]);
    assert("get_replayos_log_level"@[0] != "login_with_replay_code"@[0]);
    assert("get_github_api_key"@[4] != "get_rom_file_group"@[4]);
    assert("get_github_api_key"@[5] != "get_game_documents"@[5]);
    assert("get_github_api_key"@[0] != "search_game_videos"@[0]);
    assert("get_github_api_key"@[0] != "organize_favorites"@[0]);
    assert("get_github_api_key"@[0] != "reprobe_replay_api"@[0]);
    assert("save_github_api_key"@[1] != "search_by_developer"@[1]);
    assert("save_github_api_key"@[0] != "get_developer_games"@[0]);
    assert("save_github_api_key"@[0] != "get_recommendations"@[0]);
    assert("save_github_api_key"@[0] != "get_boxart_variants"@[0]);
    assert("save_github_api_key"@[0] != "delete_user_capture"@[0]);
    assert("save_github_api_key"@[1] != "set_boxart_override"@[1]);
    assert("save_region_preference"@[0] != "random_game_for_system"@[0]);
    assert("save_region_preference"@[0] != "add_game_resource_link"@[0]);
    assert("save_region_preference"@[0] != "login_with_replay_code"@[0]);
    assert("save_language_preference"@[0] != "get_provider_game_videos"@[0]);
    assert("refresh_storage"@[0] != "search_by_board"@[0]);
    assert("refresh_storage"@[0] != "get_board_games"@[0]);
    assert("refresh_storage"@[0] != "get_game_videos"@[0]);
    assert("refresh_storage"@[2] != "remove_favorite"@[2]);
    assert("refresh_storage"@[0] != "group_favorites"@[0]);
    assert("refresh_storage"@[0] != "download_manual"@[0]);
    assert("refresh_storage"@[0] != "get_auth_status"@[0]);
    assert("regenerate_tls_certificate_info"@[0] != "get_region_preference_secondary"@[0]);
    assert("get_tls_certificate_info"@[4] != "get_provider_game_videos"@[4]);
    assert("get_analytics_preference"@[4] != "get_provider_game_videos"@[4]);
    assert("delete_rom"@[0] != "get_locale"@[0]);
    assert("rename_rom"@[0] != "get_locale"@[0]);
    assert("get_replayos_settings"@[10] != "get_replay_api_status"@[10]);
    assert("get_replayos_settings"@[0] != "send_replayos_message"@[0]);
    assert("get_replayos_settings"@[0] != "restart_replayos_game"@[0]);
    assert("get_replayos_settings"@[0] != "reset_boxart_override"@[0]);
    assert("get_replayos_settings"@[6] != "get_region_preference"@[6]);
    assert("enable_replay_api_assisted"@[0] != "send_replay_player_command"@[0]);
    assert("verify_replay_api_token"@[0] != "get_game_resource_links"@[0]);
    assert("verify_replay_api_token"@[0] != "get_language_preference"@[0]);
    assert("verify_replay_api_token"@[0] != "get_preferred_languages"@[0]);
    assert("save_replayos_kiosk_mode"@[0] != "get_provider_game_videos"@[0]);
    assert("update_thumbnails"@[0] != "get_system_genres"@[0]);
    assert("update_thumbnails"@[0] != "get_related_games"@[0]);
    assert("update_thumbnails"@[0] != "get_local_manuals"@[0]);
    assert("update_thumbnails"@[0] != "flatten_favorites"@[0]);
    assert("update_thumbnails"@[0] != "get_user_captures"@[0]);
    assert("update_thumbnails"@[0] != "get_game_playtime"@[0]);
    assert("update_thumbnails"@[0] != "remove_game_video"@[0]);
    assert("cancel_thumbnail_update"@[0] != "get_game_resource_links"@[0]);
    assert("cancel_thumbnail_update"@[0] != "get_language_preference"@[0]);
    assert("cancel_thumbnail_update"@[0] != "get_preferred_languages"@[0]);
    assert("clear_thumbnail_index"@[0] != "get_replay_api_status"@[0]);
    assert("clear_thumbnail_index"@[0] != "send_replayos_message"@[0]);
    assert("clear_thumbnail_index"@[0] != "restart_replayos_game"@[0]);
    assert("clear_thumbnail_index"@[0] != "reset_boxart_override"@[0]);
    assert("clear_thumbnail_index"@[0] != "get_region_preference"@[0]);
    assert("rescan_game_library"@[0] != "search_by_developer"@[0]);
    assert("rescan_game_library"@[0] != "get_developer_games"@[0]);
    assert("rescan_game_library"@[0] != "get_recommendations"@[0]);
    assert("rescan_game_library"@[0] != "get_boxart_variants"@[0]);
    assert("rescan_game_library"@[0] != "delete_user_capture"@[0]);
    assert("rescan_game_library"@[0] != "set_boxart_override"@[0]);
    assert("rebuild_game_library"@[0] != "get_developer_genres"@[0]);
    assert("rebuild_game_library"@[0] != "get_update_changelog"@[0]);
    assert("rebuild_game_library"@[0] != "get_system_favorites"@[0]);
    assert("rebuild_game_library"@[0] != "get_library_playtime"@[0]);
    assert("rebuild_game_library"@[0] != "get_save_state_slots"@[0]);
    assert("rebuild_game_library"@[0] != "complete_first_setup"@[0]);
    assert("rebuild_corrupt_library"@[0] != "get_game_resource_links"@[0]);
    assert("rebuild_corrupt_library"@[0] != "get_language_preference"@[0]);
    assert("rebuild_corrupt_library"@[0] != "get_preferred_languages"@[0]);
    assert("repair_corrupt_user_data"@[0] != "get_provider_game_videos"@[0]);
    assert("restore_user_data_backup"@[0] != "get_provider_game_videos"@[0]);
    assert("check_for_updates"@[0] != "get_system_genres"@[0]);
    assert("check_for_updates"@[0] != "get_related_games"@[0]);
    assert("check_for_updates"@[0] != "get_local_manuals"@[0]);
    assert("check_for_updates"@[0] != "flatten_favorites"@[0]);
    assert("check_for_updates"@[0] != "get_user_captures"@[0]);
    assert("check_for_updates"@[0] != "get_game_playtime"@[0]);
    assert("check_for_updates"@[0] != "remove_game_video"@[0]);
    assert("get_update_channel"@[4] != "get_rom_file_group"@[4]);
    assert("get_update_channel"@[4] != "get_game_documents"@[4]);
    assert("get_update_channel"@[0] != "search_game_videos"@[0]);
    assert("get_update_channel"@[0] != "organize_favorites"@[0]);
    assert("get_update_channel"@[0] != "reprobe_replay_api"@[0]);
    assert("save_update_channel"@[1] != "search_by_developer"@[1]);
    assert("save_update_channel"@[0] != "get_developer_games"@[0]);
    assert("save_update_channel"@[0] != "get_recommendations"@[0]);
    assert("save_update_channel"@[0] != "get_boxart_variants"@[0]);
    assert("save_update_channel"@[0] != "delete_user_capture"@[0]);
    assert("save_update_channel"@[1] != "set_boxart_override"@[1]);
    assert("skip_version"@[0] != "add_favorite"@[0]);
    assert("start_update"@[0] != "add_favorite"@[0]);
    assert("save_analytics_preference"@[0] != "remove_game_resource_link"@[0]);
    assert("get_auth_status"@[0] != "search_by_board"@[0]);
    assert("get_auth_status"@[4] != "get_board_games"@[4]);
    assert("get_auth_status"@[4] != "get_game_videos"@[4]);
    assert("get_auth_status"@[0] != "remove_favorite"@[0]);
    assert("get_auth_status"@[1] != "group_favorites"@[1]);
    assert("get_auth_status"@[0] != "download_manual"@[0]);
    assert("login_with_replay_code"@[0] != "random_game_for_system"@[0]);
    assert("login_with_replay_code"@[0] != "add_game_resource_link"@[0]);
    assert("login_admin"@[0] != "get_systems"@[0]);
    assert("login_admin"@[0] != "get_recents"@[0]);
    assert("login_admin"@[0] != "random_game"@[0]);
    assert("login_admin"@[1] != "launch_game"@[1]);
    assert("login_admin"@[0] != "save_locale"@[0]);
    assert("complete_first_setup"@[0] != "get_developer_genres"@[0]);
    assert("complete_first_setup"@[0] != "get_update_changelog"@[0]);
    assert("complete_first_setup"@[0] != "get_system_favorites"@[0]);
    assert("complete_first_setup"@[0] != "get_library_playtime"@[0]);
    assert("complete_first_setup"@[0] != "get_save_state_slots"@[0]);
    assert(!user_fn("get_wifi_config"@) && !public_auth_fn("get_wifi_config"@));
    assert(!user_fn("save_wifi_config"@) && !public_auth_fn("save_wifi_config"@));
    assert(!user_fn("get_nfs_config"@) && !public_auth_fn("get_nfs_config"@));
    assert(!user_fn("save_nfs_config"@) && !public_auth_fn("save_nfs_config"@));
    assert(!user_fn("get_retroachievements_config"@) && !public_auth_fn("get_retroachievements_config"@));
    assert(!user_fn("save_retroachievements_config_and_restart"@) && !public_auth_fn("save_retroachievements_config_and_restart"@));
    assert(!user_fn("reboot_system"@) && !public_auth_fn("reboot_system"@));
    assert(!user_fn("power_off_replayos_device"@) && !public_auth_fn("power_off_replayos_device"@));
    assert(!user_fn("downgrade_admin_to_user"@) && !public_auth_fn("downgrade_admin_to_user"@));
    assert(!user_fn("logout_all_browsers"@) && !public_auth_fn("logout_all_browsers"@));
    assert(!user_fn("get_admin_session_timeout"@) && !public_auth_fn("get_admin_session_timeout"@));
    assert(!user_fn("set_admin_session_timeout"@) && !public_auth_fn("set_admin_session_timeout"@));
    assert(!user_fn("get_hostname"@) && !public_auth_fn("get_hostname"@));
    assert(!user_fn("save_hostname"@) && !public_auth_fn("save_hostname"@));
    assert(!user_fn("change_root_password"@) && !public_auth_fn("change_root_password"@));
    assert(!user_fn("clear_metadata"@) && !public_auth_fn("clear_metadata"@));
    assert(!user_fn("regenerate_metadata"@) && !public_auth_fn("regenerate_metadata"@));
    assert(!user_fn("download_metadata"@) && !public_auth_fn("download_metadata"@));
    assert(!user_fn("clear_images"@) && !public_auth_fn("clear_images"@));
    assert(!user_fn("cleanup_orphaned_images"@) && !public_auth_fn("cleanup_orphaned_images"@));
    assert(!user_fn("get_metadata_library_overview"@) && !public_auth_fn("get_metadata_library_overview"@));
    assert(!user_fn("get_metadata_page_snapshot"@) && !public_auth_fn("get_metadata_page_snapshot"@));
    assert(!user_fn("get_system_logs"@) && !public_auth_fn("get_system_logs"@));
    assert(!user_fn("get_log_level_config"@) && !public_auth_fn("get_log_level_config"@));
    assert(!user_fn("save_log_level_config"@) && !public_auth_fn("save_log_level_config"@));
    assert(!user_fn("get_replayos_log_level"@) && !public_auth_fn("get_replayos_log_level"@));
    assert(!user_fn("get_github_api_key"@) && !public_auth_fn("get_github_api_key"@));
    assert(!user_fn("save_github_api_key"@) && !public_auth_fn("save_github_api_key"@));
    assert(!user_fn("save_region_preference"@) && !public_auth_fn("save_region_preference"@));
    assert(!user_fn("save_region_preference_secondary"@) && !public_auth_fn("save_region_preference_secondary"@));
    assert(!user_fn("save_language_preference"@) && !public_auth_fn("save_language_preference"@));
    assert(!user_fn("refresh_storage"@) && !public_auth_fn("refresh_storage"@));
    assert(!user_fn("regenerate_tls_certificate_info"@) && !public_auth_fn("regenerate_tls_certificate_info"@));
    assert(!user_fn("get_tls_certificate_info"@) && !public_auth_fn("get_tls_certificate_info"@));
    assert(!user_fn("get_analytics_preference"@) && !public_auth_fn("get_analytics_preference"@));
    assert(!user_fn("delete_rom"@) && !public_auth_fn("delete_rom"@));
    assert(!user_fn("rename_rom"@) && !public_auth_fn("rename_rom"@));
    assert(!user_fn("get_replayos_settings"@) && !public_auth_fn("get_replayos_settings"@));
    assert(!user_fn("enable_replay_api_assisted"@) && !public_auth_fn("enable_replay_api_assisted"@));
    assert(!user_fn("verify_replay_api_token"@) && !public_auth_fn("verify_replay_api_token"@));
    assert(!user_fn("save_replayos_kiosk_mode"@) && !public_auth_fn("save_replayos_kiosk_mode"@));
    assert(!user_fn("start_setup_metadata_downloads"@) && !public_auth_fn("start_setup_metadata_downloads"@));
    assert(!user_fn("update_thumbnails"@) && !public_auth_fn("update_thumbnails"@));
    assert(!user_fn("cancel_thumbnail_update"@) && !public_auth_fn("cancel_thumbnail_update"@));
    assert(!user_fn("clear_thumbnail_index"@) && !public_auth_fn("clear_thumbnail_index"@));
    assert(!user_fn("rescan_game_library"@) && !public_auth_fn("rescan_game_library"@));
    assert(!user_fn("rebuild_game_library"@) && !public_auth_fn("rebuild_game_library"@));
    assert(!user_fn("rebuild_corrupt_library"@) && !public_auth_fn("rebuild_corrupt_library"@));
    assert(!user_fn("repair_corrupt_user_data"@) && !public_auth_fn("repair_corrupt_user_data"@));
    assert(!user_fn("restore_user_data_backup"@) && !public_auth_fn("restore_user_data_backup"@));
    assert(!user_fn("check_for_updates"@) && !public_auth_fn("check_for_updates"@));
    assert(!user_fn("get_update_channel"@) && !public_auth_fn("get_update_channel"@));
    assert(!user_fn("save_update_channel"@) && !public_auth_fn("save_update_channel"@));
    assert(!user_fn("skip_version"@) && !public_auth_fn("skip_version"@));
    assert(!user_fn("start_update"@) && !public_auth_fn("start_update"@));
    assert(!user_fn("save_analytics_preference"@) && !public_auth_fn("save_analytics_preference"@));
    assert(!user_fn("get_auth_status"@));
    assert(!user_fn("login_with_replay_code"@));
    assert(!user_fn("login_admin"@));
    assert(!user_fn("complete_first_setup"@));
    assert(!user_fn("logout"@));
}

// ---------------------------------------------------------------------------
// Spellings of a server function.

/// A word of a snake-case server-function name: at least two lower-case
/// ASCII letters.
pub open spec fn snake_word(w: Seq<char>) -> bool {
    w.len() >= 2 && forall|i: int| 0 <= i < w.len() ==> is_ascii_lower(#[trigger] w[i])
}

/// The ASCII upper-case form of a lower-case letter.
pub open spec fn upper_char(c: char) -> char {
    ((c as u32) - 32) as char
}

/// A word with its first letter in upper case.
pub open spec fn capitalized(w: Seq<char>) -> Seq<char> {
    seq![upper_char(w[0])] + w.drop_first()
}

/// The PascalCase spelling of a name given by its words.
pub open spec fn pascal_of(ws: Seq<Seq<char>>) -> Seq<char>
    decreases ws.len(),
{
    if ws.len() == 0 {
        Seq::empty()
    } else {
        pascal_of(ws.drop_last()) + capitalized(ws.last())
    }
}

pub open spec fn all_digits(d: Seq<char>) -> bool {
    forall|i: int| 0 <= i < d.len() ==> is_ascii_digit(#[trigger] d[i])
}

/// A name the `/sfn/` path rule reads whole: non-empty, without `/`, and
/// ending in neither a digit nor a `/`.
pub open spec fn plain_name(n: Seq<char>) -> bool {
    &&& n.len() > 0
    &&& forall|i: int| 0 <= i < n.len() ==> #[trigger] n[i] != '/'
    &&& !is_ascii_digit(n.last())
}

proof fn lemma_sfn_of_plain_name(n: Seq<char>, tail: Seq<char>)
    requires
        plain_name(n),
        all_digits(tail) || (tail.len() > 0 && tail[0] == '/'),
    ensures
        sfn_function("/sfn/"@ + n + tail) == Some(normalized_name(n)),
{
    reveal_strlit("/sfn/");
    let p = "/sfn/"@ + n + tail;
    assert(p.subrange(0, 5) =~= "/sfn/"@);
    let rest = p.subrange(5, p.len() as int);
    assert(rest =~= n + tail);
    assert(rest[0] == n[0]);
    lemma_trim_start_index(rest, slash_pred(), 0);
    assert(rest.subrange(0, rest.len() as int) =~= rest);
    assert(rest[n.len() - 1] == n.last());
    let k = choose_trim_end(rest, n.len() as int);
    lemma_trim_end_index(rest, slash_pred(), k);
    let t = rest.subrange(0, k);
    assert(trim_end_by(trim_start_by(rest, slash_pred()), slash_pred()) == t);
    assert forall|j: int| 0 <= j < n.len() implies #[trigger] t[j] != '/' by {
        assert(t[j] == n[j]);
    }
    if all_digits(tail) {
        assert forall|j: int| 0 <= j < t.len() implies #[trigger] t[j] != '/' by {
            if j >= n.len() {
                assert(t[j] == tail[j - n.len()]);
                assert(is_ascii_digit(tail[j - n.len()]));
            } else {
                assert(t[j] == n[j]);
            }
        }
        lemma_take_until_index(t, '/', t.len() as int);
        assert(take_until(t, '/') =~= t);
        assert forall|j: int| n.len() <= j < t.len() implies digit_pred()(#[trigger] t[j]) by {
            assert(t[j] == tail[j - n.len()]);
        }
        lemma_trim_end_index(t, digit_pred(), n.len() as int);
    } else {
        if k > n.len() {
            assert(t[n.len() as int] == tail[0]);
            lemma_take_until_index(t, '/', n.len() as int);
        } else {
            lemma_take_until_index(t, '/', t.len() as int);
        }
        assert(take_until(t, '/') =~= n);
        lemma_trim_end_index(n, digit_pred(), n.len() as int);
        assert(n.subrange(0, n.len() as int) =~= n);
    }
    assert(t.subrange(0, n.len() as int) =~= n);
}

/// Where the trailing slashes of `rest` begin, at `from` or later, when
/// `rest[from - 1]` is not a slash.
proof fn choose_trim_end(rest: Seq<char>, from: int) -> (k: int)
    requires
        0 < from <= rest.len(),
        rest[from - 1] != '/',
    ensures
        from <= k <= rest.len(),
        forall|j: int| k <= j < rest.len() ==> slash_pred()(#[trigger] rest[j]),
        !slash_pred()(rest[k - 1]),
    decreases rest.len() - from,
{
    if from == rest.len() {
        from
    } else if rest[rest.len() - 1] != '/' {
        rest.len() as int
    } else {
        let k = choose_trim_end(rest.drop_last(), from);
        if k == rest.len() - 1 {
            k
        } else {
            assert forall|j: int| k <= j < rest.len() implies slash_pred()(#[trigger] rest[j]) by {
                if j < rest.len() - 1 {
                    assert(rest.drop_last()[j] == rest[j]);
                }
            }
            assert(rest.drop_last()[k - 1] == rest[k - 1]);
            k
        }
    }
}

proof fn lemma_upper_char(c: char)
    requires
        is_ascii_lower(c),
    ensures
        is_ascii_upper(upper_char(c)),
        lower_char(upper_char(c)) == c,
        upper_char(c) != '_' && upper_char(c) != '/' && !is_ascii_digit(upper_char(c)),
{
    assert(lower_char(upper_char(c)) == ((upper_char(c) as u32) + 32) as char);
}

proof fn lemma_pascal_shape(ws: Seq<Seq<char>>)
    requires
        forall|i: int| 0 <= i < ws.len() ==> snake_word(#[trigger] ws[i]),
    ensures
        pascal_of(ws).len() == 0 <==> ws.len() == 0,
        ws.len() > 0 ==> is_ascii_lower(pascal_of(ws).last()),
        forall|j: int|
            0 <= j < pascal_of(ws).len() ==> (is_ascii_lower(#[trigger] pascal_of(ws)[j])
                || is_ascii_upper(pascal_of(ws)[j])),
    decreases ws.len(),
{
    if ws.len() > 0 {
        let a = pascal_of(ws.drop_last());
        let w = ws.last();
        assert(snake_word(ws[ws.len() - 1]));
        lemma_pascal_shape(ws.drop_last());
        assert forall|i: int| 0 <= i < ws.drop_last().len() implies snake_word(
            #[trigger] ws.drop_last()[i],
        ) by {
            assert(snake_word(ws[i]));
        }
        lemma_upper_char(w[0]);
        let q = capitalized(w);
        assert(q.last() == w.last());
        assert(is_ascii_lower(w[w.len() - 1]));
        assert forall|j: int| 0 <= j < (a + q).len() implies (is_ascii_lower(#[trigger] (a + q)[j])
            || is_ascii_upper((a + q)[j])) by {
            if j < a.len() {
                assert((a + q)[j] == a[j]);
            } else if j > a.len() {
                assert((a + q)[j] == w[j - a.len()]);
            }
        }
    }
}

/// Rewriting a prefix of `a + b` that lies in `a` looks at `a` alone, when
/// `a` does not end in a capital.
proof fn lemma_camel_prefix_stable(a: Seq<char>, b: Seq<char>, n: int)
    requires
        0 <= n <= a.len(),
        a.len() > 0 ==> !is_ascii_upper(a.last()),
    ensures
        camel_prefix(a + b, n) == camel_prefix(a, n),
    decreases n,
{
    if n > 0 {
        lemma_camel_prefix_stable(a, b, n - 1);
        let f = a + b;
        let i = n - 1;
        assert(f[i] == a[i]);
        if i > 0 {
            assert(f[i - 1] == a[i - 1]);
        }
        if i + 1 < a.len() {
            assert(f[i + 1] == a[i + 1]);
        }
        assert(camel_piece(f, i) == camel_piece(a, i));
    }
}

/// Rewriting the capitalized word that follows `a`: an underscore (unless
/// it is the first word) and the word's letters.
proof fn lemma_camel_word(a: Seq<char>, w: Seq<char>, k: int)
    requires
        snake_word(w),
        0 <= k <= w.len(),
        a.len() > 0 ==> is_ascii_lower(a.last()),
        forall|j: int| 0 <= j < a.len() ==> #[trigger] a[j] != '_',
    ensures
        camel_prefix(a + capitalized(w), a.len() + k) == camel_prefix(a + capitalized(w), a.len() as int)
            + (if k > 0 {
            (if a.len() > 0 {
                seq!['_']
            } else {
                Seq::empty()
            }) + w.take(k)
        } else {
            Seq::empty()
        }),
    decreases k,
{
    let f = a + capitalized(w);
    if k == 0 {
        assert(camel_prefix(f, a.len() as int) + Seq::<char>::empty() =~= camel_prefix(f, a.len() as int));
    } else {
        lemma_camel_word(a, w, k - 1);
        let i = a.len() + k - 1;
        if k == 1 {
            assert(is_ascii_lower(w[0]));
            lemma_upper_char(w[0]);
            assert(f[i] == upper_char(w[0]));
            if a.len() > 0 {
                assert(f[i - 1] == a.last());
            }
            assert(f[i + 1] == w[1]);
            assert(is_ascii_lower(w[1]));
            let sep = if a.len() > 0 {
                seq!['_']
            } else {
                Seq::<char>::empty()
            };
            assert(camel_piece(f, i) =~= sep + seq![w[0]]);
            assert(w.take(1) =~= seq![w[0]]);
            assert(camel_prefix(f, a.len() as int) + Seq::<char>::empty() =~= camel_prefix(f, a.len() as int));
            assert(camel_prefix(f, i + 1) =~= camel_prefix(f, a.len() as int) + (sep + w.take(1)));
        } else {
            assert(f[i] == w[k - 1]);
            assert(is_ascii_lower(w[k - 1]));
            assert(camel_piece(f, i) =~= seq![w[k - 1]]);
            assert(w.take(k) =~= w.take(k - 1).push(w[k - 1]));
            let sep = if a.len() > 0 {
                seq!['_']
            } else {
                Seq::<char>::empty()
            };
            assert(camel_prefix(f, i + 1) =~= camel_prefix(f, a.len() as int) + (sep + w.take(k)));
        }
    }
}

/// The camel rewrite of a PascalCase name gives its snake-case spelling.
proof fn lemma_camel_of_pascal(ws: Seq<Seq<char>>)
    requires
        forall|i: int| 0 <= i < ws.len() ==> snake_word(#[trigger] ws[i]),
    ensures
        camel_prefix(pascal_of(ws), pascal_of(ws).len() as int) == join(ws, "_"@),
        forall|j: int| 0 <= j < pascal_of(ws).len() ==> #[trigger] pascal_of(ws)[j] != '_',
    decreases ws.len(),
{
    reveal_strlit("_");
    lemma_pascal_shape(ws);
    assert forall|j: int| 0 <= j < pascal_of(ws).len() implies #[trigger] pascal_of(ws)[j] != '_' by {
        assert(is_ascii_lower(pascal_of(ws)[j]) || is_ascii_upper(pascal_of(ws)[j]));
    }
    if ws.len() == 0 {
        assert(camel_prefix(pascal_of(ws), 0) =~= join(ws, "_"@));
    } else {
        let wsp = ws.drop_last();
        assert forall|i: int| 0 <= i < wsp.len() implies snake_word(#[trigger] wsp[i]) by {
            assert(snake_word(ws[i]));
        }
        lemma_camel_of_pascal(wsp);
        lemma_pascal_shape(wsp);
        let a = pascal_of(wsp);
        let w = ws.last();
        assert(snake_word(ws[ws.len() - 1]));
        lemma_camel_word(a, w, w.len() as int);
        lemma_camel_prefix_stable(a, capitalized(w), a.len() as int);
        assert(w.take(w.len() as int) =~= w);
        assert(pascal_of(ws) == a + capitalized(w));
        assert(capitalized(w).len() == w.len());
        if wsp.len() == 0 {
            assert(a.len() == 0);
            assert(join(wsp, "_"@) =~= Seq::<char>::empty());
            assert(camel_prefix(a, 0) =~= Seq::<char>::empty());
            assert(join(ws, "_"@) == w);
            assert(Seq::<char>::empty() + (Seq::<char>::empty() + w) =~= w);
        } else {
            assert(join(ws, "_"@) == join(wsp, "_"@) + "_"@ + w);
            assert("_"@ =~= seq!['_']);
            assert(join(wsp, "_"@) + (seq!['_'] + w) =~= join(wsp, "_"@) + "_"@ + w);
        }
    }
}

proof fn lemma_join_shape(ws: Seq<Seq<char>>)
    requires
        ws.len() > 0,
        forall|i: int| 0 <= i < ws.len() ==> snake_word(#[trigger] ws[i]),
    ensures
        join(ws, "_"@).len() > 0,
        is_ascii_lower(join(ws, "_"@).last()),
        forall|j: int|
            0 <= j < join(ws, "_"@).len() ==> (is_ascii_lower(#[trigger] join(ws, "_"@)[j])
                || join(ws, "_"@)[j] == '_'),
        ws.len() > 1 ==> join(ws, "_"@).contains('_'),
    decreases ws.len(),
{
    reveal_strlit("_");
    let w = ws.last();
    assert(snake_word(ws[ws.len() - 1]));
    assert(is_ascii_lower(w[w.len() - 1]));
    if ws.len() > 1 {
        let wsp = ws.drop_last();
        assert forall|i: int| 0 <= i < wsp.len() implies snake_word(#[trigger] wsp[i]) by {
            assert(snake_word(ws[i]));
        }
        lemma_join_shape(wsp);
        let a = join(wsp, "_"@);
        let s = a + "_"@ + w;
        assert(join(ws, "_"@) == s);
        assert(s[a.len() as int] == '_');
        assert forall|j: int| 0 <= j < s.len() implies (is_ascii_lower(#[trigger] s[j]) || s[j] == '_') by {
            if j < a.len() {
                assert(s[j] == a[j]);
            } else if j > a.len() {
                assert(s[j] == w[j - a.len() - 1]);
            }
        }
    }
}

/// The role of a server function does not depend on how its name is
/// spelled in the `/sfn/` path: snake case or PascalCase, with or without
/// a trailing number (the registration hash), with or without trailing
/// path segments.
pub proof fn law_role_ignores_spelling(ws: Seq<Seq<char>>, digits: Seq<char>, trailing: Seq<char>)
    requires
        ws.len() > 0,
        forall|i: int| 0 <= i < ws.len() ==> snake_word(#[trigger] ws[i]),
        all_digits(digits),
        trailing.len() > 0 && trailing[0] == '/',
    ensures
        sfn_function("/sfn/"@ + join(ws, "_"@)) == Some(join(ws, "_"@)),
        sfn_function("/sfn/"@ + pascal_of(ws)) == Some(join(ws, "_"@)),
        sfn_function("/sfn/"@ + join(ws, "_"@) + digits) == Some(join(ws, "_"@)),
        sfn_function("/sfn/"@ + join(ws, "_"@) + trailing) == Some(join(ws, "_"@)),
        sfn_role("/sfn/"@ + pascal_of(ws)) == sfn_role("/sfn/"@ + join(ws, "_"@)),
        sfn_role("/sfn/"@ + join(ws, "_"@) + digits) == sfn_role("/sfn/"@ + join(ws, "_"@)),
        sfn_role("/sfn/"@ + join(ws, "_"@) + trailing) == sfn_role("/sfn/"@ + join(ws, "_"@)),
{
    let s = join(ws, "_"@);
    let p = pascal_of(ws);
    lemma_join_shape(ws);
    lemma_pascal_shape(ws);
    lemma_camel_of_pascal(ws);
    // Both spellings are plain names.
    assert forall|i: int| 0 <= i < s.len() implies #[trigger] s[i] != '/' by {
        assert(is_ascii_lower(s[i]) || s[i] == '_');
    }
    assert forall|i: int| 0 <= i < p.len() implies #[trigger] p[i] != '/' by {
        assert(is_ascii_lower(p[i]) || is_ascii_upper(p[i]));
    }
    assert(plain_name(s));
    assert(plain_name(p));
    // Normalizing either spelling gives the snake-case name.
    if ws.len() > 1 {
        assert(lower_seq(s) =~= s) by {
            assert forall|i: int| 0 <= i < s.len() implies #[trigger] lower_seq(s)[i] == s[i] by {
                assert(is_ascii_lower(s[i]) || s[i] == '_');
            }
        }
    } else {
        assert(!s.contains('_')) by {
            if s.contains('_') {
                let k = choose|k: int| 0 <= k < s.len() && s[k] == '_';
                assert(s == ws[0]);
                assert(is_ascii_lower(ws[0][k]));
            }
        }
        assert forall|i: int| 0 <= i < s.len() implies !is_ascii_upper(#[trigger] s[i]) && s[i] != '-' by {
            assert(is_ascii_lower(s[i]) || s[i] == '_');
        }
        lemma_camel_identity(s, s.len() as int);
        assert(s.take(s.len() as int) =~= s);
    }
    assert(normalized_name(s) == s);
    assert(!p.contains('_'));
    assert(normalized_name(p) == s);
    let e = Seq::<char>::empty();
    assert(all_digits(e));
    lemma_sfn_of_plain_name(s, e);
    lemma_sfn_of_plain_name(p, e);
    lemma_sfn_of_plain_name(s, digits);
    lemma_sfn_of_plain_name(s, trailing);
    assert("/sfn/"@ + s + e =~= "/sfn/"@ + s);
    assert("/sfn/"@ + p + e =~= "/sfn/"@ + p);
}

} // verus!
