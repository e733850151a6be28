//! Decisions of the plain REST endpoints: the library metadata export
//! (`/api/export/library.csv`) and the favorites endpoints.
use vstd::prelude::*;

verus! {

// ---------------------------------------------------------------------------
// Library export.

/// The system an export is restricted to: the `system` query parameter when
/// it is present and non-empty (the "All systems" option submits it empty).
pub fn requested_export_system(param: Option<&str>) -> (r: Option<String>)
    ensures
        match r {
            Some(s) => param matches Some(p) && p@.len() > 0 && s@ == p@,
            None => param is None || (param matches Some(p) && p@.len() == 0),
        },
{
    match param {
        Some(p) => if p.is_empty() {
            None
        } else {
            Some(String::from_str(p))
        },
        None => None,
    }
}

/// The download's file name: `library-metadata-<system>-<stamp>.csv`, or
/// `library-metadata-all-<stamp>.csv` for the whole library.
pub fn export_filename(requested: Option<&str>, stamp: &str) -> (r: String)
    ensures
        r@ == "library-metadata-"@ + (match requested {
            Some(s) => s@,
            None => "all"@,
        }) + "-"@ + stamp@ + ".csv"@,
{
    let mut s = String::from_str("library-metadata-");
    match requested {
        Some(system) => s.append(system),
        None => s.append("all"),
    }
    s.append("-");
    s.append(stamp);
    s.append(".csv");
    s
}

/// The `Content-Disposition` header of the download.
pub fn attachment_header(filename: &str) -> (r: String)
    ensures
        r@ == "attachment; filename=\""@ + filename@ + "\""@,
{
    let mut s = String::from_str("attachment; filename=\"");
    s.append(filename);
    s.append("\"");
    s
}

/// Why a read of the export could not be used. Either way the export fails
/// (with status 500) rather than report missing data as empty.
#[derive(Debug)]
pub enum ReadFailure<E> {
    /// The query failed.
    Query(E),
    /// No database connection could be had.
    PoolUnavailable,
}

/// The value of a read through a connection pool: `None` is a pool
/// failure, `Some(Err)` a query failure.
pub fn require_read<T, E>(result: Option<Result<T, E>>) -> (r: Result<T, ReadFailure<E>>)
    ensures
        match result {
            Some(Ok(v)) => r == Ok::<T, ReadFailure<E>>(v),
            Some(Err(e)) => r == Err::<T, ReadFailure<E>>(ReadFailure::Query(e)),
            None => r == Err::<T, ReadFailure<E>>(ReadFailure::PoolUnavailable),
        },
{
    match result {
        Some(Ok(v)) => Ok(v),
        Some(Err(e)) => Err(ReadFailure::Query(e)),
        None => Err(ReadFailure::PoolUnavailable),
    }
}

// ---------------------------------------------------------------------------
// Favorites.

/// Where a favorite is removed from.
#[derive(Debug, PartialEq, Eq)]
pub enum FavoriteRemoval {
    /// Only from this subfolder of the favorites directory.
    InSubfolder(String),
    /// From every location: after a reorganization the same `.fav` may
    /// exist in several subfolders.
    Everywhere,
}

/// The removal a request asks for: from the named subfolder when one is
/// given and non-empty, else from everywhere.
pub fn favorite_removal(subfolder: Option<&str>) -> (r: FavoriteRemoval)
    ensures
        match r {
            FavoriteRemoval::InSubfolder(s) => subfolder matches Some(p) && p@.len() > 0 && s@
                == p@,
            FavoriteRemoval::Everywhere => subfolder is None || (subfolder matches Some(p)
                && p@.len() == 0),
        },
{
    match subfolder {
        Some(s) => if s.is_empty() {
            FavoriteRemoval::Everywhere
        } else {
            FavoriteRemoval::InSubfolder(String::from_str(s))
        },
        None => FavoriteRemoval::Everywhere,
    }
}

} // verus!
