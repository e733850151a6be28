//! The game lists served to the libretro core (`/api/core/recents`,
//! `/api/core/favorites`): each game with its display name and the box art
//! found for it in the metadata database.
use vstd::prelude::*;

verus! {

/// A game as the recents and favorites lists name it.
#[derive(Debug)]
pub struct GameRef {
    pub system: String,
    pub system_display: String,
    pub rom_filename: String,
    pub display_name: Option<String>,
}

/// What the metadata database knows of a game's box art, keyed by system
/// and ROM file name (each key once, as the database's lookup returns them).
#[derive(Debug)]
pub struct BoxArtEntry {
    pub system: String,
    pub rom_filename: String,
    pub box_art_url: Option<String>,
}

/// One entry of the lists served to the core.
#[derive(Debug)]
pub struct CoreGameEntry {
    pub system: String,
    pub system_display: String,
    pub rom_filename: String,
    pub display_name: String,
    pub box_art_url: Option<String>,
}

pub open spec fn opt_text(o: Option<String>) -> Option<Seq<char>> {
    match o {
        Some(s) => Some(s@),
        None => None,
    }
}

/// The box art URL recorded for a game, if any.
pub open spec fn art_lookup(art: Seq<BoxArtEntry>, system: Seq<char>, rom: Seq<char>) -> Option<
    Seq<char>,
>
    decreases art.len(),
{
    if art.len() == 0 {
        None
    } else if art[0].system@ == system && art[0].rom_filename@ == rom {
        opt_text(art[0].box_art_url)
    } else {
        art_lookup(art.drop_first(), system, rom)
    }
}

/// The entry served for a game: its display name, or its file name when it
/// has none, and the box art found for it.
pub open spec fn serves(e: CoreGameEntry, g: GameRef, art: Seq<BoxArtEntry>) -> bool {
    &&& e.system@ == g.system@
    &&& e.system_display@ == g.system_display@
    &&& e.rom_filename@ == g.rom_filename@
    &&& e.display_name@ == (match g.display_name {
        Some(d) => d@,
        None => g.rom_filename@,
    })
    &&& opt_text(e.box_art_url) == art_lookup(art, g.system@, g.rom_filename@)
}

/// The keys to look the games' box art up by, in order.
pub fn game_keys(games: &Vec<GameRef>) -> (r: Vec<(String, String)>)
    ensures
        r@.len() == games@.len(),
        forall|i: int|
            0 <= i < games@.len() ==> (#[trigger] r@[i]).0@ == games@[i].system@ && r@[i].1@
                == games@[i].rom_filename@,
{
    let mut out: Vec<(String, String)> = Vec::new();
    let mut i: usize = 0;
    while i < games.len()
        invariant
            i <= games.len(),
            out@.len() == i,
            forall|k: int|
                0 <= k < i ==> (#[trigger] out@[k]).0@ == games@[k].system@ && out@[k].1@
                    == games@[k].rom_filename@,
        decreases games.len() - i,
    {
        let s = games[i].system.clone();
        let f = games[i].rom_filename.clone();
        out.push((s, f));
        i += 1;
    }
    out
}

fn find_art(art: &Vec<BoxArtEntry>, system: &String, rom: &String) -> (r: Option<String>)
    ensures
        opt_text(r) == art_lookup(art@, system@, rom@),
{
    assert(art@.skip(0) =~= art@);
    let mut i: usize = 0;
    while i < art.len()
        invariant
            i <= art.len(),
            art_lookup(art@, system@, rom@) == art_lookup(art@.skip(i as int), system@, rom@),
        decreases art.len() - i,
    {
        assert(art@.skip(i as int)[0] == art@[i as int]);
        assert(art@.skip(i as int).drop_first() =~= art@.skip(i + 1));
        let e = &art[i];
        if string_eq(&e.system, system) && string_eq(&e.rom_filename, rom) {
            return match &e.box_art_url {
                Some(u) => Some(u.clone()),
                None => None,
            };
        }
        i += 1;
    }
    assert(art@.skip(art.len() as int) =~= Seq::<BoxArtEntry>::empty());
    None
}

fn string_eq(a: &String, b: &String) -> (r: bool)
    ensures
        r == (a@ == b@),
{
    a.eq(b)
}

/// The entries served for the games, in order (see [`serves`]).
pub fn core_game_entries(games: &Vec<GameRef>, art: &Vec<BoxArtEntry>) -> (r: Vec<CoreGameEntry>)
    ensures
        r@.len() == games@.len(),
        forall|i: int| 0 <= i < games@.len() ==> serves(#[trigger] r@[i], games@[i], art@),
{
    let mut out: Vec<CoreGameEntry> = Vec::new();
    let mut i: usize = 0;
    while i < games.len()
        invariant
            i <= games.len(),
            out@.len() == i,
            forall|k: int| 0 <= k < i ==> serves(#[trigger] out@[k], games@[k], art@),
        decreases games.len() - i,
    {
        let g = &games[i];
        let display_name = match &g.display_name {
            Some(d) => d.clone(),
            None => g.rom_filename.clone(),
        };
        let entry = CoreGameEntry {
            system: g.system.clone(),
            system_display: g.system_display.clone(),
            rom_filename: g.rom_filename.clone(),
            display_name,
            box_art_url: find_art(art, &g.system, &g.rom_filename),
        };
        out.push(entry);
        i += 1;
    }
    out
}

} // verus!
