//! The helper shell script that swaps in a downloaded release, restarts
//! the service, checks its health and rolls back on failure.
use vstd::prelude::*;

use crate::background::BackgroundManager;

verus! {

pub const SCRIPT_0: &'static str = r#"#!/bin/bash

# Auto-generated by replay-control "#;

pub const SCRIPT_1: &'static str = r#"
# Performs file swap, restart, health check, and rollback on failure.

validate_version() {
    local v="$1"
    if ! echo "$v" | grep -qE '^[0-9a-zA-Z._-]+$'; then
        echo "Invalid version string: $v"
        exit 1
    fi
}

validate_version ""#;

pub const SCRIPT_2: &'static str = r#""

# Source environment for PORT variable
if [ -f /etc/default/replay-control ]; then
    . /etc/default/replay-control
fi
PORT="${PORT:-8080}"

BINARY_SRC=""#;

pub const SCRIPT_3: &'static str = r#""
SITE_SRC=""#;

pub const SCRIPT_4: &'static str = r#""
CATALOG_SRC=""#;

pub const SCRIPT_5: &'static str = r#""
BINARY_DST="/usr/local/bin/replay-control-app"
SITE_DST="/usr/local/share/replay/site"
CATALOG_DST="/usr/local/bin/catalog.sqlite"

# Asset helpers — applied to each (src, dst) pair.
# An empty SRC means "skip this asset" (e.g. catalog on releases < v0.4.0-beta.3).
backup()  { local dst="$1"; [ -e "$dst" ] && cp -a "$dst" "${dst}.bak" 2>/dev/null || true; }
# swap returns non-zero when src is empty so callers' `&& chmod` is skipped.
swap()    { local src="$1" dst="$2"; [ -n "$src" ] || return 1; rm -rf "$dst"; mv "$src" "$dst"; }
unbak()   { rm -rf "$1.bak"; }
restore() { local dst="$1"; [ -e "${dst}.bak" ] || return 0; rm -rf "$dst"; mv "${dst}.bak" "$dst"; }

# Wait for the HTTP response to reach the client
sleep 2

# Back up current files
backup "$BINARY_DST"
backup "$SITE_DST"
backup "$CATALOG_DST"

# Swap files
swap "$BINARY_SRC" "$BINARY_DST" && chmod +x "$BINARY_DST"
swap "$SITE_SRC"   "$SITE_DST"
swap "$CATALOG_SRC" "$CATALOG_DST" && chmod 644 "$CATALOG_DST"

# Restart service
systemctl restart replay-control

# Health check: poll every 2s, up to 30 attempts (60s total)
ATTEMPT=0
MAX_ATTEMPTS=30
while [ "$ATTEMPT" -lt "$MAX_ATTEMPTS" ]; do
    sleep 2
    ATTEMPT=$((ATTEMPT + 1))
    if curl -sf --max-time 10 "http://localhost:${PORT}/api/version" > /dev/null 2>&1; then
        # Success: remove backups
        unbak "$BINARY_DST"
        unbak "$SITE_DST"
        unbak "$CATALOG_DST"
        rm -rf ""#;

pub const SCRIPT_6: &'static str = r#""
        rm -f "$0"
        exit 0
    fi
done

# Failure: restore backups
restore "$BINARY_DST"
restore "$SITE_DST"
restore "$CATALOG_DST"
systemctl restart replay-control
rm -rf ""#;

pub const SCRIPT_7: &'static str = r#""
rm -f "$0"
exit 1
"#;

/// The script text: the fixed template with the version (twice, in the
/// header and in the version check), the three source paths (the catalog's
/// empty when the release ships none) and the update directory (twice, in
/// the success and failure clean-ups) filled in.
pub open spec fn update_script_text(
    binary: Seq<char>,
    site: Seq<char>,
    catalog: Seq<char>,
    version: Seq<char>,
    update_dir: Seq<char>,
) -> Seq<char> {
    SCRIPT_0@ + version + SCRIPT_1@ + version + SCRIPT_2@ + binary + SCRIPT_3@ + site + SCRIPT_4@ + catalog + SCRIPT_5@ + update_dir + SCRIPT_6@ + update_dir + SCRIPT_7@
}

pub open spec fn catalog_text(catalog_path: Option<&str>) -> Seq<char> {
    match catalog_path {
        Some(p) => p@,
        None => Seq::empty(),
    }
}

impl BackgroundManager {
    /// Generates the helper script. `catalog_path` is `None` for releases that
    /// ship no catalog; the script then leaves the installed catalog in place.
    pub fn generate_update_script(
        binary_path: &str,
        site_path: &str,
        catalog_path: Option<&str>,
        version: &str,
        update_dir: &str,
    ) -> (r: String)
        ensures
            r@ == update_script_text(binary_path@, site_path@, catalog_text(catalog_path), version@, update_dir@),
    {
        let catalog = match catalog_path {
            Some(p) => p,
            None => "",
        };
        proof {
            reveal_strlit("");
        }
        let mut s = String::from_str(SCRIPT_0);
        s.append(version);
        s.append(SCRIPT_1);
        s.append(version);
        s.append(SCRIPT_2);
        s.append(binary_path);
        s.append(SCRIPT_3);
        s.append(site_path);
        s.append(SCRIPT_4);
        s.append(catalog);
        s.append(SCRIPT_5);
        s.append(update_dir);
        s.append(SCRIPT_6);
        s.append(update_dir);
        s.append(SCRIPT_7);
        s
    }
}

} // verus!
