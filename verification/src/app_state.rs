//! Where the server finds `replay.cfg` and its storage: the config path in
//! use, the storage kind a config names, and when a re-detection counts as
//! a change.
use vstd::prelude::*;

use crate::rom_cache::{roms_map, RomCache};
use crate::text::{chars_eq, ends_with, has_suffix, to_chars};
use crate::types::RomEntry;

verus! {

/// The config file of a ReplayOS SD card.
pub const DEFAULT_CONFIG_PATH: &'static str = "/media/sd/config/replay.cfg";

/// The config file below a storage root.
pub const STORAGE_CONFIG_RELATIVE: &'static str = "config/replay.cfg";

/// Seconds between the periodic storage re-detections.
pub const STORAGE_CHECK_INTERVAL_SECS: u64 = 60;

/// Seconds the config watcher waits for further events before it acts.
pub const CONFIG_DEBOUNCE_SECS: u64 = 2;

/// `Path::join` of a relative path onto a base: a `/` between them unless
/// the base is empty or already ends with one.
pub open spec fn path_join(base: Seq<char>, rel: Seq<char>) -> Seq<char> {
    if base.len() == 0 || ends_with(base, "/"@) {
        base + rel
    } else {
        base + "/"@ + rel
    }
}

/// The config file the server reads: the one given on the command line,
/// else the one below a storage root given on the command line, else the
/// SD card's.
pub open spec fn config_path_for(config_path: Option<Seq<char>>, storage_override: Option<Seq<char>>) -> Seq<
    char,
> {
    match config_path {
        Some(p) => p,
        None => match storage_override {
            Some(root) => path_join(root, STORAGE_CONFIG_RELATIVE@),
            None => DEFAULT_CONFIG_PATH@,
        },
    }
}

pub open spec fn opt_view(o: Option<&str>) -> Option<Seq<char>> {
    match o {
        Some(s) => Some(s@),
        None => None,
    }
}

/// The config file the server reads (see [`config_path_for`]).
pub fn config_file_path(config_path: Option<&str>, storage_override: Option<&str>) -> (r: String)
    ensures
        r@ == config_path_for(opt_view(config_path), opt_view(storage_override)),
{
    match config_path {
        Some(p) => String::from_str(p),
        None => match storage_override {
            Some(root) => {
                let c = to_chars(root);
                let mut s = String::from_str(root);
                if !(c.len() == 0 || has_suffix(&c, "/")) {
                    s.append("/");
                }
                s.append(STORAGE_CONFIG_RELATIVE);
                s
            },
            None => String::from_str(DEFAULT_CONFIG_PATH),
        },
    }
}

/// Where the ROM storage lives.
#[derive(Clone, Copy, Debug, PartialEq, Eq, Structural)]
pub enum StorageKind {
    Sd,
    Usb,
    Nfs,
}

/// The storage kind a config's `storage_mode` names: `usb`, `nfs`, and the
/// SD card for anything else.
pub fn storage_kind_for_mode(mode: &str) -> (r: StorageKind)
    ensures
        r == (if mode@ == "usb"@ {
            StorageKind::Usb
        } else if mode@ == "nfs"@ {
            StorageKind::Nfs
        } else {
            StorageKind::Sd
        }),
{
    let c = to_chars(mode);
    if chars_eq(&c, "usb") {
        StorageKind::Usb
    } else if chars_eq(&c, "nfs") {
        StorageKind::Nfs
    } else {
        StorageKind::Sd
    }
}

/// A re-detected storage replaces the current one when its root or its kind
/// differs; with a storage root given on the command line there is no
/// re-detection at all.
pub fn storage_changed(
    overridden: bool,
    current_root: &str,
    current_kind: StorageKind,
    new_root: &str,
    new_kind: StorageKind,
) -> (r: bool)
    ensures
        r == (!overridden && (current_root@ != new_root@ || current_kind != new_kind)),
{
    if overridden {
        return false;
    }
    let a = to_chars(current_root);
    !chars_eq(&a, new_root) || current_kind != new_kind
}

/// The storage the server uses, with the config it was detected from.
pub struct StorageSetting<C> {
    pub root: String,
    pub kind: StorageKind,
    pub config: C,
}

/// A detected storage differs from the current one: another root or kind.
pub open spec fn storage_differs<C>(current: StorageSetting<C>, detected: StorageSetting<C>) -> bool {
    current.root@ != detected.root@ || current.kind != detected.kind
}

/// A re-detection of the storage. `detected` is `None` when the storage
/// root is fixed on the command line (nothing is re-detected), else the
/// outcome of re-reading the config and detecting the storage. The storage
/// and its config are replaced, and the scan cache emptied, exactly when the
/// detected storage differs; the answer says whether it did. On an error,
/// or with a fixed root, nothing changes.
pub fn refresh_storage<C, E>(
    current: &mut StorageSetting<C>,
    cache: &mut RomCache,
    detected: Option<Result<StorageSetting<C>, E>>,
) -> (r: Result<bool, E>)
    ensures
        match detected {
            None => r == Ok::<bool, E>(false) && *final(current) == *old(current) && *final(cache)
                == *old(cache),
            Some(Err(e)) => r == Err::<bool, E>(e) && *final(current) == *old(current)
                && *final(cache) == *old(cache),
            Some(Ok(n)) => {
                let changed = storage_differs(*old(current), n);
                &&& r == Ok::<bool, E>(changed)
                &&& changed ==> *final(current) == n && final(cache).systems is None
                    && roms_map(final(cache).roms@) == Map::<Seq<char>, (u64, Seq<RomEntry>)>::empty()
                &&& !changed ==> *final(current) == *old(current) && *final(cache) == *old(cache)
            },
        },
{
    match detected {
        None => Ok(false),
        Some(Err(e)) => Err(e),
        Some(Ok(n)) => {
            let same_root = current.root.eq(&n.root);
            let changed = !same_root || current.kind != n.kind;
            if changed {
                *current = n;
                cache.invalidate();
            }
            Ok(changed)
        },
    }
}

} // verus!
