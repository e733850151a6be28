//! The decisions inside the web UI's server functions: search and paging
//! over a system's ROMs, the addresses shown on the info page, the Wi-Fi and
//! NFS settings, ROM details and the answers of restart and reboot.
//!
//! The server functions themselves read the storage, the config file and
//! the output of system commands; they hand what they read to these
//! functions and return what comes back.
use vstd::prelude::*;

use crate::text::{
    before_char, char_views, chars_eq, contains_sub, ends_with, from_chars, has_prefix, has_sub,
    has_suffix, segments, split_on, split_words, starts_with, sub_chars, take_until, to_chars,
    to_lowercase, unicode_lowercase, words,
};
use crate::types::RomEntry;

verus! {

/// ROMs per page of the games list.
pub const PAGE_SIZE: usize = 100;

pub open spec fn opt_text(o: Option<String>) -> Option<Seq<char>> {
    match o {
        Some(s) => Some(s@),
        None => None,
    }
}

pub open spec fn or_else(a: Option<Seq<char>>, b: Option<Seq<char>>) -> Option<Seq<char>> {
    match a {
        Some(x) => Some(x),
        None => b,
    }
}

// ---------------------------------------------------------------------------
// Network addresses (`ip -4 -o addr show`).

/// A line of `ip -4 -o addr show` (`2: eth0    inet 192.168.1.100/24 ...`)
/// names an interface starting with `prefix` in its second word and has at
/// least four words.
pub open spec fn line_matches(line: Seq<char>, prefix: Seq<char>) -> bool {
    words(line).len() >= 4 && starts_with(words(line)[1], prefix)
}

/// The address of such a line: its fourth word up to the `/`.
pub open spec fn line_address(line: Seq<char>) -> Seq<char> {
    take_until(words(line)[3], '/')
}

pub open spec fn first_address(lines: Seq<Seq<char>>, prefix: Seq<char>) -> Option<Seq<char>>
    decreases lines.len(),
{
    if lines.len() == 0 {
        None
    } else if line_matches(lines[0], prefix) {
        Some(line_address(lines[0]))
    } else {
        first_address(lines.drop_first(), prefix)
    }
}

/// The address of the first interface whose name starts with `prefix`, in
/// the output of `ip -4 -o addr show`. (Lines are split at `\n`; a trailing
/// `\r` or a final empty line adds no word, so it changes nothing.)
pub open spec fn interface_address(output: Seq<char>, prefix: Seq<char>) -> Option<Seq<char>> {
    first_address(segments(output, '\n'), prefix)
}

/// The address of the first interface whose name starts with `prefix`.
pub fn ip_for_interface(output: &str, prefix: &str) -> (r: Option<String>)
    ensures
        opt_text(r) == interface_address(output@, prefix@),
{
    let chars = to_chars(output);
    let lines = split_on(&chars, '\n');
    let ghost all = char_views(lines@);
    assert(all.skip(0) =~= all);
    let mut i: usize = 0;
    while i < lines.len()
        invariant
            i <= lines.len(),
            all == char_views(lines@),
            all == segments(output@, '\n'),
            first_address(all, prefix@) == first_address(all.skip(i as int), prefix@),
        decreases lines.len() - i,
    {
        let ghost rest = all.skip(i as int);
        assert(rest[0] == lines@[i as int]@);
        assert(rest.drop_first() =~= all.skip(i + 1));
        let w = split_words(&lines[i]);
        if w.len() >= 4 && has_prefix(&w[1], prefix) {
            assert(char_views(w@)[1] == w@[1]@);
            assert(char_views(w@)[3] == w@[3]@);
            let a = before_char(&w[3], '/');
            return Some(from_chars(&a));
        }
        proof {
            if words(lines@[i as int]@).len() >= 4 {
                assert(char_views(w@)[1] == w@[1]@);
            }
        }
        i += 1;
    }
    assert(all.skip(lines.len() as int) =~= Seq::<Seq<char>>::empty());
    None
}

/// The Ethernet address (an `eth*` interface, else an `enp*` one) and the
/// Wi-Fi address (a `wlan*` interface, else a `wlp*` one).
pub fn network_ips(output: &str) -> (r: (Option<String>, Option<String>))
    ensures
        opt_text(r.0) == or_else(
            interface_address(output@, "eth"@),
            interface_address(output@, "enp"@),
        ),
        opt_text(r.1) == or_else(
            interface_address(output@, "wlan"@),
            interface_address(output@, "wlp"@),
        ),
{
    let eth = match ip_for_interface(output, "eth") {
        Some(a) => Some(a),
        None => ip_for_interface(output, "enp"),
    };
    let wifi = match ip_for_interface(output, "wlan") {
        Some(a) => Some(a),
        None => ip_for_interface(output, "wlp"),
    };
    (eth, wifi)
}

// ---------------------------------------------------------------------------
// Search and paging.


/// What the search looks at in a ROM: its file name and display name.
pub struct RomSearchKey {
    pub rom_filename: String,
    pub display_name: Option<String>,
}

/// A ROM matches a search when the search is empty or when, ignoring case,
/// its file name or its display name contains the search text.
pub open spec fn key_matches(k: RomSearchKey, search: Seq<char>) -> bool {
    search.len() == 0 || contains_sub(unicode_lowercase(k.rom_filename@), unicode_lowercase(search))
        || (k.display_name matches Some(d) && contains_sub(
        unicode_lowercase(d@),
        unicode_lowercase(search),
    ))
}

/// The positions of the matching ROMs, in order.
pub open spec fn matching(keys: Seq<RomSearchKey>, search: Seq<char>) -> Seq<int>
    decreases keys.len(),
{
    if keys.len() == 0 {
        Seq::empty()
    } else {
        let m = matching(keys.drop_last(), search);
        if key_matches(keys.last(), search) {
            m.push(keys.len() - 1)
        } else {
            m
        }
    }
}

pub open spec fn index_views(v: Seq<usize>) -> Seq<int> {
    v.map_values(|i: usize| i as int)
}

pub open spec fn min_int(a: int, b: int) -> int {
    if a < b {
        a
    } else {
        b
    }
}

/// One page of a search.
pub struct RomPageSelection {
    /// Positions of the ROMs on the page, in order.
    pub indices: Vec<usize>,
    /// How many ROMs match the search.
    pub total: usize,
    /// More matches follow the page.
    pub has_more: bool,
}

proof fn lemma_matching_bounds(keys: Seq<RomSearchKey>, search: Seq<char>)
    ensures
        matching(keys, search).len() <= keys.len(),
        forall|j: int|
            0 <= j < matching(keys, search).len() ==> 0 <= #[trigger] matching(keys, search)[j]
                < keys.len(),
    decreases keys.len(),
{
    if keys.len() > 0 {
        lemma_matching_bounds(keys.drop_last(), search);
    }
}

/// Searches a system's ROMs (case-insensitively, in file and display names)
/// and takes the page of at most `limit` matches that starts `offset`
/// matches in.
pub fn select_rom_page(keys: &Vec<RomSearchKey>, offset: usize, limit: usize, search: &str) -> (r:
    RomPageSelection)
    ensures
        r.total == matching(keys@, search@).len(),
        index_views(r.indices@) == page_of(matching(keys@, search@), offset as int, limit as int),
        r.has_more == (offset + r.indices@.len() < r.total),
{
    let q = if search.is_empty() {
        String::new()
    } else {
        to_lowercase(search)
    };
    let mut found: Vec<usize> = Vec::new();
    let mut i: usize = 0;
    while i < keys.len()
        invariant
            i <= keys.len(),
            search@.len() > 0 ==> q@ == unicode_lowercase(search@),
            index_views(found@) == matching(keys@.take(i as int), search@),
            found@.len() <= i,
        decreases keys.len() - i,
    {
        let ghost prefix = keys@.take(i + 1);
        assert(prefix.drop_last() =~= keys@.take(i as int));
        assert(prefix.last() == keys@[i as int]);
        proof {
            lemma_matching_bounds(keys@.take(i as int), search@);
        }
        let k = &keys[i];
        let hit = if search.is_empty() {
            true
        } else {
            let name = to_chars(to_lowercase(k.rom_filename.as_str()).as_str());
            if has_sub(&name, q.as_str()) {
                true
            } else {
                match &k.display_name {
                    Some(d) => {
                        let dn = to_chars(to_lowercase(d.as_str()).as_str());
                        has_sub(&dn, q.as_str())
                    },
                    None => false,
                }
            }
        };
        if hit {
            let ghost before = found@;
            found.push(i);
            assert(index_views(found@) =~= index_views(before).push(i as int));
        }
        i += 1;
    }
    assert(keys@.take(keys.len() as int) =~= keys@);
    let total = found.len();
    let start = if offset < total {
        offset
    } else {
        total
    };
    let end = if limit < total - start {
        start + limit
    } else {
        total
    };
    let mut indices: Vec<usize> = Vec::new();
    let mut j = start;
    while j < end
        invariant
            start <= j <= end <= total == found@.len(),
            index_views(indices@) == index_views(found@).subrange(start as int, j as int),
        decreases end - j,
    {
        let ghost before = indices@;
        indices.push(found[j]);
        assert(index_views(indices@) =~= index_views(before).push(found@[j as int] as int));
        assert(index_views(found@).subrange(start as int, j + 1) =~= index_views(found@).subrange(
            start as int,
            j as int,
        ).push(index_views(found@)[j as int]));
        j += 1;
    }
    let has_more = start + indices.len() < total;
    RomPageSelection { indices, total, has_more }
}

/// Which ROMs a search finds, and in what order: the position of a ROM is
/// among the matches exactly when the search text is empty, or when its
/// file name contains the search text ignoring case, or when it has a
/// display name that contains it ignoring case. A display name never hides
/// a file-name match. The matches are in ascending order of position, each
/// once.
pub proof fn law_search_finds_file_and_display_names(keys: Seq<RomSearchKey>, search: Seq<char>, i: int)
    ensures
        matching(keys, search).contains(i) <==> (0 <= i < keys.len() && (search.len() == 0
            || contains_sub(unicode_lowercase(keys[i].rom_filename@), unicode_lowercase(search))
            || (keys[i].display_name is Some && contains_sub(
            unicode_lowercase(keys[i].display_name->0@),
            unicode_lowercase(search),
        )))),
        forall|a: int, b: int|
            0 <= a < b < matching(keys, search).len() ==> #[trigger] matching(keys, search)[a]
                < #[trigger] matching(keys, search)[b],
    decreases keys.len(),
{
    lemma_matching_bounds(keys, search);
    if keys.len() > 0 {
        let p = keys.drop_last();
        let n = keys.len() - 1;
        law_search_finds_file_and_display_names(p, search, i);
        lemma_matching_bounds(p, search);
        let mp = matching(p, search);
        let m = matching(keys, search);
        assert(keys[n] == keys.last());
        if 0 <= i < n {
            assert(p[i] == keys[i]);
        }
        if key_matches(keys.last(), search) {
            assert(m == mp.push(n));
            if mp.contains(i) {
                let k = choose|k: int| 0 <= k < mp.len() && mp[k] == i;
                assert(m[k] == i);
            }
            if m.contains(i) && i != n {
                let k = choose|k: int| 0 <= k < m.len() && m[k] == i;
                assert(k < mp.len());
                assert(mp[k] == i);
            }
            if i == n {
                assert(m[mp.len() as int] == n);
            }
            assert forall|a: int, b: int|
                0 <= a < b < m.len() implies #[trigger] m[a] < #[trigger] m[b] by {
                if b == mp.len() {
                    assert(m[a] == mp[a]);
                    assert(mp[a] < keys.len() - 1);
                } else {
                    assert(m[a] == mp[a]);
                    assert(m[b] == mp[b]);
                    law_search_finds_file_and_display_names(p, search, mp[a]);
                }
            }
        } else {
            assert(m == mp);
            if i == n && mp.contains(i) {
                let k = choose|k: int| 0 <= k < mp.len() && mp[k] == i;
                assert(mp[k] < p.len());
            }
        }
    }
}

/// The page of the matches `m` that starts `offset` in and holds at most
/// `limit` of them.
pub open spec fn page_of(m: Seq<int>, offset: int, limit: int) -> Seq<int> {
    m.subrange(min_int(offset, m.len() as int), min_int(offset + limit, m.len() as int))
}

/// A page holds the matches from position `offset` on, in order: `limit` of
/// them when that many remain, all that remain otherwise, and none when the
/// offset is past the last match.
pub proof fn law_page_holds_the_matches_from_offset(m: Seq<int>, offset: nat, limit: nat)
    ensures
        page_of(m, offset as int, limit as int).len() == (if offset >= m.len() {
            0
        } else if offset + limit <= m.len() {
            limit as int
        } else {
            m.len() - offset
        }),
        forall|j: int|
            0 <= j < page_of(m, offset as int, limit as int).len() ==> #[trigger] page_of(
                m,
                offset as int,
                limit as int,
            )[j] == m[offset + j],
{
}

/// Loading more: the page that follows a page (at `offset + limit`) joins
/// it without a gap or an overlap; and once a page reports nothing more,
/// every later page is empty.
pub proof fn law_pages_are_contiguous(m: Seq<int>, offset: nat, limit: nat, next_limit: nat)
    ensures
        page_of(m, offset as int, limit as int) + page_of(m, (offset + limit) as int, next_limit as int)
            == page_of(m, offset as int, (limit + next_limit) as int),
        !(offset + page_of(m, offset as int, limit as int).len() < m.len()) ==> page_of(
            m,
            (offset + limit) as int,
            next_limit as int,
        ).len() == 0,
{
    assert(page_of(m, offset as int, limit as int) + page_of(m, (offset + limit) as int, next_limit as int)
        =~= page_of(m, offset as int, (limit + next_limit) as int));
}

// ---------------------------------------------------------------------------
// ROM details.

/// The first ROM with the given file name; the error names the file.
pub fn find_rom(roms: &Vec<RomEntry>, filename: &str) -> (r: Result<usize, String>)
    ensures
        match r {
            Ok(k) => k < roms@.len() && roms@[k as int].filename@ == filename@ && forall|j: int|
                0 <= j < k ==> #[trigger] roms@[j].filename@ != filename@,
            Err(m) => m@ == "ROM not found: "@ + filename@ && forall|j: int|
                0 <= j < roms@.len() ==> #[trigger] roms@[j].filename@ != filename@,
        },
{
    let target = to_chars(filename);
    let mut i: usize = 0;
    while i < roms.len()
        invariant
            i <= roms.len(),
            target@ == filename@,
            forall|j: int| 0 <= j < i ==> #[trigger] roms@[j].filename@ != filename@,
        decreases roms.len() - i,
    {
        let name = to_chars(roms[i].filename.as_str());
        if crate::text::same_chars(&name, &target) {
            return Ok(i);
        }
        i += 1;
    }
    let mut m = String::from_str("ROM not found: ");
    m.append(filename);
    Err(m)
}

/// The name the arcade database is searched by: the file name without a
/// trailing `.zip`.
pub open spec fn arcade_name(filename: Seq<char>) -> Seq<char> {
    if ends_with(filename, ".zip"@) {
        filename.subrange(0, filename.len() - 4)
    } else {
        filename
    }
}

/// The file name without a trailing `.zip`.
pub fn arcade_lookup_name(filename: &str) -> (r: String)
    ensures
        r@ == arcade_name(filename@),
{
    proof {
        reveal_strlit(".zip");
    }
    let c = to_chars(filename);
    if has_suffix(&c, ".zip") {
        let stem = sub_chars(&c, 0, c.len() - 4);
        from_chars(&stem)
    } else {
        String::from_str(filename)
    }
}

/// Screen orientation of an arcade game.
#[derive(Clone, Copy, Debug, PartialEq, Eq, Structural)]
pub enum Rotation {
    Horizontal,
    Vertical,
    Unknown,
}

/// The label shown for an orientation.
pub fn rotation_label(r: Rotation) -> (s: &'static str)
    ensures
        s@ == (match r {
            Rotation::Horizontal => "Horizontal"@,
            Rotation::Vertical => "Vertical"@,
            Rotation::Unknown => "Unknown"@,
        }),
{
    match r {
        Rotation::Horizontal => "Horizontal",
        Rotation::Vertical => "Vertical",
        Rotation::Unknown => "Unknown",
    }
}

// ---------------------------------------------------------------------------
// Wi-Fi and NFS settings.

pub open spec fn text_or(v: Option<&str>, default: Seq<char>) -> Seq<char> {
    match v {
        Some(s) => s@,
        None => default,
    }
}

/// The Wi-Fi settings shown to the client. The password itself is never
/// sent, only whether one is set.
#[derive(Debug)]
pub struct WifiConfig {
    pub ssid: String,
    pub country: String,
    pub mode: String,
    pub hidden: bool,
    pub has_password: bool,
}

/// The placeholder the UI shows for a stored password.
pub open spec fn password_mask() -> Seq<char> {
    "********"@
}

fn text_or_default(v: Option<&str>, default: &str) -> (r: String)
    ensures
        r@ == text_or(v, default@),
{
    match v {
        Some(s) => String::from_str(s),
        None => String::from_str(default),
    }
}


pub open spec fn str_opt(o: Option<&str>) -> Option<Seq<char>> {
    match o {
        Some(s) => Some(s@),
        None => None,
    }
}

pub open spec fn seq_or(o: Option<Seq<char>>, default: Seq<char>) -> Seq<char> {
    match o {
        Some(s) => s,
        None => default,
    }
}

/// A stored password counts as set when it is non-empty and not the mask.
pub open spec fn password_set(p: Option<Seq<char>>) -> bool {
    p matches Some(v) && v.len() > 0 && v != password_mask()
}

/// What the client sees of the Wi-Fi settings, from the config values
/// `wifi_name`, `wifi_country`, `wifi_mode`, `wifi_hidden` and `wifi_pwd`:
/// the name, country and mode (`transition` by default), whether the network
/// is hidden, and whether a password is set (never the password itself).
pub open spec fn wifi_view(
    name: Option<Seq<char>>,
    country: Option<Seq<char>>,
    mode: Option<Seq<char>>,
    hidden: Option<Seq<char>>,
    password: Option<Seq<char>>,
) -> (Seq<char>, Seq<char>, Seq<char>, bool, bool) {
    (
        seq_or(name, Seq::empty()),
        seq_or(country, Seq::empty()),
        seq_or(mode, "transition"@),
        seq_or(hidden, "false"@) == "true"@,
        password_set(password),
    )
}

/// The Wi-Fi settings from the config values `wifi_name`, `wifi_country`,
/// `wifi_mode` (default `transition`), `wifi_hidden` (hidden when `true`)
/// and `wifi_pwd` (set when non-empty and not the mask).
pub fn wifi_config_view(
    name: Option<&str>,
    country: Option<&str>,
    mode: Option<&str>,
    hidden: Option<&str>,
    password: Option<&str>,
) -> (r: WifiConfig)
    ensures
        (r.ssid@, r.country@, r.mode@, r.hidden, r.has_password) == wifi_view(
            str_opt(name),
            str_opt(country),
            str_opt(mode),
            str_opt(hidden),
            str_opt(password),
        ),
{
    proof {
        reveal_strlit("");
        reveal_strlit("false");
        reveal_strlit("true");
        assert("false"@ != "true"@) by {
            assert("false"@.len() != "true"@.len());
        }
    }
    let hidden_flag = match hidden {
        Some(h) => {
            let c = to_chars(h);
            chars_eq(&c, "true")
        },
        None => false,
    };
    let has_password = match password {
        Some(p) => {
            let c = to_chars(p);
            c.len() > 0 && !chars_eq(&c, "********")
        },
        None => false,
    };
    WifiConfig {
        ssid: text_or_default(name, ""),
        country: text_or_default(country, ""),
        mode: text_or_default(mode, "transition"),
        hidden: hidden_flag,
        has_password,
    }
}

pub open spec fn pair_views(v: Seq<(String, String)>) -> Seq<(Seq<char>, Seq<char>)> {
    v.map_values(|p: (String, String)| (p.0@, p.1@))
}

/// The config writes of a Wi-Fi save, in order: the name, the password only
/// when one was typed, the country, the mode and the hidden flag.
pub open spec fn wifi_updates(
    ssid: Seq<char>,
    password: Seq<char>,
    country: Seq<char>,
    mode: Seq<char>,
    hidden: bool,
) -> Seq<(Seq<char>, Seq<char>)> {
    let head = seq![("wifi_name"@, ssid)];
    let with_pwd = if password.len() > 0 {
        head.push(("wifi_pwd"@, password))
    } else {
        head
    };
    with_pwd.push(("wifi_country"@, country)).push(("wifi_mode"@, mode)).push(
        ("wifi_hidden"@, if hidden {
            "true"@
        } else {
            "false"@
        }),
    )
}

fn setting(key: &str, value: &str) -> (r: (String, String))
    ensures
        r.0@ == key@,
        r.1@ == value@,
{
    (String::from_str(key), String::from_str(value))
}

/// The config writes of a Wi-Fi save (see [`wifi_updates`]).
pub fn wifi_config_updates(ssid: &str, password: &str, country: &str, mode: &str, hidden: bool) -> (r:
    Vec<(String, String)>)
    ensures
        pair_views(r@) == wifi_updates(ssid@, password@, country@, mode@, hidden),
{
    let mut out: Vec<(String, String)> = Vec::new();
    out.push(setting("wifi_name", ssid));
    if !password.is_empty() {
        out.push(setting("wifi_pwd", password));
    }
    out.push(setting("wifi_country", country));
    out.push(setting("wifi_mode", mode));
    out.push(setting("wifi_hidden", if hidden { "true" } else { "false" }));
    assert(pair_views(out@) =~= wifi_updates(ssid@, password@, country@, mode@, hidden));
    out
}

/// The NFS share settings.
#[derive(Debug)]
pub struct NfsConfig {
    pub server: String,
    pub share: String,
    pub version: String,
}

/// The NFS settings from the config values `nfs_server`, `nfs_share` and
/// `nfs_version` (default `4`).
pub fn nfs_config_view(server: Option<&str>, share: Option<&str>, version: Option<&str>) -> (r:
    NfsConfig)
    ensures
        r.server@ == text_or(server, Seq::empty()),
        r.share@ == text_or(share, Seq::empty()),
        r.version@ == text_or(version, "4"@),
{
    proof {
        reveal_strlit("");
    }
    NfsConfig {
        server: text_or_default(server, ""),
        share: text_or_default(share, ""),
        version: text_or_default(version, "4"),
    }
}

/// The config writes of an NFS save: server, share and version, in order.
pub fn nfs_config_updates(server: &str, share: &str, version: &str) -> (r: Vec<(String, String)>)
    ensures
        pair_views(r@) == seq![
            ("nfs_server"@, server@),
            ("nfs_share"@, share@),
            ("nfs_version"@, version@),
        ],
{
    let mut out: Vec<(String, String)> = Vec::new();
    out.push(setting("nfs_server", server));
    out.push(setting("nfs_share", share));
    out.push(setting("nfs_version", version));
    assert(pair_views(out@) =~= seq![
        ("nfs_server"@, server@),
        ("nfs_share"@, share@),
        ("nfs_version"@, version@),
    ]);
    out
}

// ---------------------------------------------------------------------------
// The config round trip.

/// A config file's values by key.
pub open spec fn value_of(m: Map<Seq<char>, Seq<char>>, k: Seq<char>) -> Option<Seq<char>> {
    if m.dom().contains(k) {
        Some(m[k])
    } else {
        None
    }
}

/// The config after a sequence of writes, in order.
pub open spec fn apply_settings(m: Map<Seq<char>, Seq<char>>, ups: Seq<(Seq<char>, Seq<char>)>) -> Map<
    Seq<char>,
    Seq<char>,
>
    decreases ups.len(),
{
    if ups.len() == 0 {
        m
    } else {
        apply_settings(m.insert(ups[0].0, ups[0].1), ups.drop_first())
    }
}

/// The Wi-Fi settings read from a config.
pub open spec fn wifi_view_of(m: Map<Seq<char>, Seq<char>>) -> (Seq<char>, Seq<char>, Seq<char>, bool, bool) {
    wifi_view(
        value_of(m, "wifi_name"@),
        value_of(m, "wifi_country"@),
        value_of(m, "wifi_mode"@),
        value_of(m, "wifi_hidden"@),
        value_of(m, "wifi_pwd"@),
    )
}

/// Saving the Wi-Fi settings and reading them back gives what was saved:
/// the name, country, mode and hidden flag, and whether a password is set,
/// which is the typed password or, when none was typed, the stored one. The
/// password itself is never part of what is read back.
pub proof fn law_wifi_settings_round_trip(
    m: Map<Seq<char>, Seq<char>>,
    ssid: Seq<char>,
    password: Seq<char>,
    country: Seq<char>,
    mode: Seq<char>,
    hidden: bool,
)
    ensures
        wifi_view_of(apply_settings(m, wifi_updates(ssid, password, country, mode, hidden))) == (
            ssid,
            country,
            mode,
            hidden,
            password_set(
                if password.len() > 0 {
                    Some(password)
                } else {
                    value_of(m, "wifi_pwd"@)
                },
            ),
        ),
{
    reveal_strlit("wifi_name");
    reveal_strlit("wifi_pwd");
    reveal_strlit("wifi_country");
    reveal_strlit("wifi_mode");
    reveal_strlit("wifi_hidden");
    reveal_strlit("true");
    reveal_strlit("false");
    assert("wifi_name"@[5] != "wifi_mode"@[5]);
    assert("wifi_name"@.len() == 9 && "wifi_mode"@.len() == 9 && "wifi_pwd"@.len() == 8);
    assert("wifi_country"@.len() == 12 && "wifi_hidden"@.len() == 11);
    assert("true"@.len() != "false"@.len());
    reveal_with_fuel(apply_settings, 6);
    let ups = wifi_updates(ssid, password, country, mode, hidden);
    let hv = if hidden {
        "true"@
    } else {
        "false"@
    };
    let m1 = m.insert("wifi_name"@, ssid);
    let m2 = if password.len() > 0 {
        m1.insert("wifi_pwd"@, password)
    } else {
        m1
    };
    let m3 = m2.insert("wifi_country"@, country).insert("wifi_mode"@, mode).insert(
        "wifi_hidden"@,
        hv,
    );
    if password.len() > 0 {
        assert(ups.drop_first() =~= seq![
            ("wifi_pwd"@, password),
            ("wifi_country"@, country),
            ("wifi_mode"@, mode),
            ("wifi_hidden"@, hv),
        ]);
        assert(ups.drop_first().drop_first() =~= seq![
            ("wifi_country"@, country),
            ("wifi_mode"@, mode),
            ("wifi_hidden"@, hv),
        ]);
        assert(ups.drop_first().drop_first().drop_first() =~= seq![
            ("wifi_mode"@, mode),
            ("wifi_hidden"@, hv),
        ]);
        assert(ups.drop_first().drop_first().drop_first().drop_first() =~= seq![
            ("wifi_hidden"@, hv),
        ]);
        assert(ups.drop_first().drop_first().drop_first().drop_first().drop_first()
            =~= Seq::<(Seq<char>, Seq<char>)>::empty());
    } else {
        assert(ups.drop_first() =~= seq![
            ("wifi_country"@, country),
            ("wifi_mode"@, mode),
            ("wifi_hidden"@, hv),
        ]);
        assert(ups.drop_first().drop_first() =~= seq![
            ("wifi_mode"@, mode),
            ("wifi_hidden"@, hv),
        ]);
        assert(ups.drop_first().drop_first().drop_first() =~= seq![("wifi_hidden"@, hv)]);
        assert(ups.drop_first().drop_first().drop_first().drop_first() =~= Seq::<
            (Seq<char>, Seq<char>),
        >::empty());
    }
    assert(apply_settings(m, ups) == m3);
    assert(value_of(m3, "wifi_name"@) == Some(ssid));
    assert(value_of(m3, "wifi_country"@) == Some(country));
    assert(value_of(m3, "wifi_mode"@) == Some(mode));
    assert(value_of(m3, "wifi_hidden"@) == Some(hv));
}

// ---------------------------------------------------------------------------
// Restart and reboot.

/// The two system commands the UI can run.
#[derive(Clone, Copy, Debug, PartialEq, Eq, Structural)]
pub enum SystemCommand {
    /// `systemctl restart replay`.
    RestartUi,
    /// `sync` then `reboot`.
    Reboot,
}

/// The answer when the server does not run on ReplayOS: the command is skipped.
pub fn skipped_message(cmd: SystemCommand) -> (r: &'static str)
    ensures
        r@ == (match cmd {
            SystemCommand::RestartUi => "Restart skipped (not running on ReplayOS)"@,
            SystemCommand::Reboot => "Reboot skipped (not running on ReplayOS)"@,
        }),
{
    match cmd {
        SystemCommand::RestartUi => "Restart skipped (not running on ReplayOS)",
        SystemCommand::Reboot => "Reboot skipped (not running on ReplayOS)",
    }
}

/// The answer to a command that was run: `run` is `Err` with the reason when
/// it could not be started, else whether it succeeded and its standard error.
pub open spec fn command_answer(cmd: SystemCommand, run: Result<(bool, Seq<char>), Seq<char>>) -> Result<
    Seq<char>,
    Seq<char>,
> {
    match cmd {
        SystemCommand::RestartUi => match run {
            Err(e) => Err("Failed to restart: "@ + e),
            Ok((true, _)) => Ok("ReplayOS restarted"@),
            Ok((false, stderr)) => Err("Restart failed: "@ + stderr),
        },
        SystemCommand::Reboot => match run {
            Err(e) => Err("Failed to reboot: "@ + e),
            Ok((true, _)) => Ok("Rebooting..."@),
            Ok((false, stderr)) => Err("Reboot failed: "@ + stderr),
        },
    }
}

pub open spec fn run_view(run: Result<(bool, String), String>) -> Result<(bool, Seq<char>), Seq<char>> {
    match run {
        Ok((ok, s)) => Ok((ok, s@)),
        Err(e) => Err(e@),
    }
}

pub open spec fn answer_view(r: Result<String, String>) -> Result<Seq<char>, Seq<char>> {
    match r {
        Ok(s) => Ok(s@),
        Err(e) => Err(e@),
    }
}

fn prefixed(head: &str, tail: &str) -> (r: String)
    ensures
        r@ == head@ + tail@,
{
    let mut s = String::from_str(head);
    s.append(tail);
    s
}

/// The answer to a command that was run (see [`command_answer`]).
pub fn command_outcome(cmd: SystemCommand, run: Result<(bool, String), String>) -> (r: Result<
    String,
    String,
>)
    ensures
        answer_view(r) == command_answer(cmd, run_view(run)),
{
    match cmd {
        SystemCommand::RestartUi => match run {
            Err(e) => Err(prefixed("Failed to restart: ", e.as_str())),
            Ok((true, _)) => Ok(String::from_str("ReplayOS restarted")),
            Ok((false, stderr)) => Err(prefixed("Restart failed: ", stderr.as_str())),
        },
        SystemCommand::Reboot => match run {
            Err(e) => Err(prefixed("Failed to reboot: ", e.as_str())),
            Ok((true, _)) => Ok(String::from_str("Rebooting...")),
            Ok((false, stderr)) => Err(prefixed("Reboot failed: ", stderr.as_str())),
        },
    }
}

} // verus!
