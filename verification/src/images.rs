//! The box-art paths of a system's image index: the paths the metadata
//! database matched to ROM files, with the user's own choices laid over them.
use vstd::prelude::*;

use crate::text::{same_chars, to_chars};

verus! {

/// The box-art image shown for one ROM file (a path under the system's
/// media directory, such as `boxart/Name.png`).
pub struct BoxArtPath {
    pub rom_filename: String,
    pub path: String,
}

/// The paths by ROM file name. Entries count in order, as a run of map
/// inserts: a later entry for the same ROM replaces an earlier one.
pub open spec fn box_art_map(d: Seq<BoxArtPath>) -> Map<Seq<char>, Seq<char>>
    decreases d.len(),
{
    if d.len() == 0 {
        Map::empty()
    } else {
        box_art_map(d.drop_last()).insert(d.last().rom_filename@, d.last().path@)
    }
}

/// No ROM file has two entries.
pub open spec fn unique_roms(d: Seq<BoxArtPath>) -> bool {
    forall|i: int, j: int|
        0 <= i < d.len() && 0 <= j < d.len() && i != j ==> #[trigger] d[i].rom_filename@
            != #[trigger] d[j].rom_filename@
}

proof fn lemma_box_art_entries(d: Seq<BoxArtPath>)
    requires
        unique_roms(d),
    ensures
        forall|s: Seq<char>| #[trigger]
            box_art_map(d).contains_key(s) <==> exists|k: int|
                0 <= k < d.len() && #[trigger] d[k].rom_filename@ == s,
        forall|k: int|
            0 <= k < d.len() ==> #[trigger] box_art_map(d)[d[k].rom_filename@] == d[k].path@,
    decreases d.len(),
{
    if d.len() > 0 {
        let p = d.drop_last();
        assert(unique_roms(p)) by {
            assert forall|i: int, j: int|
                0 <= i < p.len() && 0 <= j < p.len() && i != j implies #[trigger] p[i].rom_filename@
                    != #[trigger] p[j].rom_filename@ by {
                assert(p[i] == d[i]);
                assert(p[j] == d[j]);
            }
        }
        lemma_box_art_entries(p);
        let n = d.len() - 1;
        assert(box_art_map(d) == box_art_map(p).insert(d[n].rom_filename@, d[n].path@));
        assert forall|s: Seq<char>| #[trigger]
            box_art_map(d).contains_key(s) <==> exists|k: int|
                0 <= k < d.len() && #[trigger] d[k].rom_filename@ == s by {
            if box_art_map(d).contains_key(s) {
                if s == d[n].rom_filename@ {
                    assert(d[n].rom_filename@ == s);
                } else {
                    assert(box_art_map(p).contains_key(s));
                    let k = choose|k: int| 0 <= k < p.len() && #[trigger] p[k].rom_filename@ == s;
                    assert(d[k] == p[k]);
                }
            }
            if exists|k: int| 0 <= k < d.len() && #[trigger] d[k].rom_filename@ == s {
                let k = choose|k: int| 0 <= k < d.len() && #[trigger] d[k].rom_filename@ == s;
                if k < n {
                    assert(p[k] == d[k]);
                }
            }
        }
        assert forall|k: int| 0 <= k < d.len() implies #[trigger] box_art_map(d)[d[k].rom_filename@]
            == d[k].path@ by {
            if k < n {
                assert(p[k] == d[k]);
                assert(d[k].rom_filename@ != d[n].rom_filename@);
            }
        }
    }
}

fn find_rom(d: &Vec<BoxArtPath>, rom: &str) -> (r: Option<usize>)
    ensures
        match r {
            Some(k) => k < d@.len() && d@[k as int].rom_filename@ == rom@,
            None => forall|j: int| 0 <= j < d@.len() ==> #[trigger] d@[j].rom_filename@ != rom@,
        },
{
    let target = to_chars(rom);
    let mut k: usize = 0;
    while k < d.len()
        invariant
            k <= d.len(),
            target@ == rom@,
            forall|j: int| 0 <= j < k ==> #[trigger] d@[j].rom_filename@ != rom@,
        decreases d.len() - k,
    {
        let s = to_chars(d[k].rom_filename.as_str());
        if same_chars(&s, &target) {
            return Some(k);
        }
        k += 1;
    }
    None
}

/// Sets the path of one ROM, replacing any path it had.
fn insert_box_art(paths: &mut Vec<BoxArtPath>, entry: BoxArtPath)
    requires
        unique_roms(old(paths)@),
    ensures
        unique_roms(final(paths)@),
        box_art_map(final(paths)@) == box_art_map(old(paths)@).insert(entry.rom_filename@, entry.path@),
{
    let ghost before = paths@;
    let ghost rv = entry.rom_filename@;
    let ghost pv = entry.path@;
    match find_rom(paths, entry.rom_filename.as_str()) {
        Some(k) => {
            paths.set(k, entry);
            proof {
                let after = paths@;
                assert(after == before.update(k as int, after[k as int]));
                assert(unique_roms(after)) by {
                    assert forall|i: int, j: int|
                        0 <= i < after.len() && 0 <= j < after.len() && i != j
                            implies #[trigger] after[i].rom_filename@ != #[trigger] after[j].rom_filename@ by {
                        assert(before[i].rom_filename@ != before[j].rom_filename@);
                    }
                }
                lemma_box_art_entries(before);
                lemma_box_art_entries(after);
                let expected = box_art_map(before).insert(rv, pv);
                assert forall|x: Seq<char>| #[trigger] box_art_map(after).contains_key(x)
                    <==> expected.contains_key(x) by {
                    if expected.contains_key(x) && x != rv {
                        let j = choose|j: int| 0 <= j < before.len() && #[trigger] before[j].rom_filename@ == x;
                        assert(after[j] == before[j]);
                    }
                    if box_art_map(after).contains_key(x) {
                        let j = choose|j: int| 0 <= j < after.len() && #[trigger] after[j].rom_filename@ == x;
                        if j != k {
                            assert(after[j] == before[j]);
                        }
                    }
                }
                assert forall|x: Seq<char>| #[trigger] box_art_map(after).contains_key(x) implies box_art_map(after)[x]
                    == expected[x] by {
                    let j = choose|j: int| 0 <= j < after.len() && #[trigger] after[j].rom_filename@ == x;
                    if j != k {
                        assert(after[j] == before[j]);
                    }
                }
                assert(box_art_map(after) =~= expected);
            }
        },
        None => {
            paths.push(entry);
            proof {
                let n = before.len() as int;
                let after = paths@;
                assert(after.drop_last() =~= before);
                assert(unique_roms(after)) by {
                    assert forall|i: int, j: int|
                        0 <= i < after.len() && 0 <= j < after.len() && i != j
                            implies #[trigger] after[i].rom_filename@ != #[trigger] after[j].rom_filename@ by {
                        if i == n {
                            assert(after[j] == before[j]);
                        } else if j == n {
                            assert(after[i] == before[i]);
                        } else {
                            assert(after[i] == before[i]);
                            assert(after[j] == before[j]);
                        }
                    }
                }
            }
        },
    }
}

fn copy_box_art(e: &BoxArtPath) -> (r: BoxArtPath)
    ensures
        r.rom_filename@ == e.rom_filename@,
        r.path@ == e.path@,
{
    BoxArtPath { rom_filename: e.rom_filename.clone(), path: e.path.clone() }
}

/// The box-art paths of an image index: the paths the metadata database
/// matched, with the user's overrides laid over them. An override wins for
/// its ROM; every other ROM keeps its matched path. Each ROM appears once.
pub fn apply_box_art_overrides(db_paths: &Vec<BoxArtPath>, overrides: &Vec<BoxArtPath>) -> (r: Vec<
    BoxArtPath,
>)
    ensures
        unique_roms(r@),
        box_art_map(r@) == box_art_map(db_paths@).union_prefer_right(box_art_map(overrides@)),
{
    let mut out: Vec<BoxArtPath> = Vec::new();
    let mut i: usize = 0;
    while i < db_paths.len()
        invariant
            i <= db_paths.len(),
            unique_roms(out@),
            box_art_map(out@) == box_art_map(db_paths@.take(i as int)),
        decreases db_paths.len() - i,
    {
        let e = copy_box_art(&db_paths[i]);
        insert_box_art(&mut out, e);
        assert(db_paths@.take(i + 1).drop_last() =~= db_paths@.take(i as int));
        i += 1;
    }
    assert(db_paths@.take(i as int) =~= db_paths@);
    let mut j: usize = 0;
    while j < overrides.len()
        invariant
            j <= overrides.len(),
            unique_roms(out@),
            box_art_map(out@) == box_art_map(db_paths@).union_prefer_right(
                box_art_map(overrides@.take(j as int)),
            ),
        decreases overrides.len() - j,
    {
        let e = copy_box_art(&overrides[j]);
        insert_box_art(&mut out, e);
        let ghost prefix = overrides@.take(j as int);
        assert(overrides@.take(j + 1).drop_last() =~= prefix);
        assert(box_art_map(out@) =~= box_art_map(db_paths@).union_prefer_right(
            box_art_map(overrides@.take(j + 1)),
        ));
        j += 1;
    }
    assert(overrides@.take(j as int) =~= overrides@);
    out
}

/// User overrides have the highest priority: a ROM with an override shows
/// the override's path, whatever the database matched; a ROM without one
/// keeps its matched path; no ROM appears that neither list names.
pub proof fn law_override_wins(db: Seq<BoxArtPath>, overrides: Seq<BoxArtPath>, rom: Seq<char>)
    ensures
        ({
            let m = box_art_map(db).union_prefer_right(box_art_map(overrides));
            &&& box_art_map(overrides).contains_key(rom) ==> m.contains_key(rom) && m[rom]
                == box_art_map(overrides)[rom]
            &&& (!box_art_map(overrides).contains_key(rom) && box_art_map(db).contains_key(rom))
                ==> m.contains_key(rom) && m[rom] == box_art_map(db)[rom]
            &&& m.contains_key(rom) ==> (box_art_map(db).contains_key(rom) || box_art_map(
                overrides,
            ).contains_key(rom))
        }),
{
}

} // verus!
