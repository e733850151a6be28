//! Filesystem-watcher decisions: which events matter, which systems they
//! touch, and what to rescan after a debounce window.
use vstd::prelude::*;

use crate::text::{chars_eq, has_prefix, same_chars, starts_with, to_chars};

verus! {

/// The kind of a filesystem event (`notify::EventKind` without its details).
#[derive(Clone, Copy, Debug, PartialEq, Eq, Structural)]
pub enum WatchEventKind {
    Any,
    Access,
    Create,
    Modify,
    Remove,
    Other,
}

/// Events that can change the ROM library: creations, modifications and removals.
pub fn is_rom_event(kind: WatchEventKind) -> (r: bool)
    ensures
        r == (kind == WatchEventKind::Create || kind == WatchEventKind::Modify || kind
            == WatchEventKind::Remove),
{
    match kind {
        WatchEventKind::Create | WatchEventKind::Modify | WatchEventKind::Remove => true,
        _ => false,
    }
}

pub open spec fn opt_names(v: Seq<Option<String>>) -> Seq<Option<Seq<char>>> {
    v.map_values(|o: Option<String>| match o {
        Some(s) => Some(s@),
        None => None,
    })
}

/// An event concerns the config file when it creates or modifies it: one of
/// its paths has the config file's name.
pub fn is_config_event(
    kind: WatchEventKind,
    file_names: &Vec<Option<String>>,
    config_filename: &str,
) -> (r: bool)
    ensures
        r == ((kind == WatchEventKind::Create || kind == WatchEventKind::Modify) && exists|i: int|
            0 <= i < file_names@.len() && #[trigger] opt_names(file_names@)[i] == Some(
                config_filename@,
            )),
{
    if !(kind == WatchEventKind::Create || kind == WatchEventKind::Modify) {
        return false;
    }
    let target = to_chars(config_filename);
    let mut i: usize = 0;
    while i < file_names.len()
        invariant
            i <= file_names.len(),
            target@ == config_filename@,
            kind == WatchEventKind::Create || kind == WatchEventKind::Modify,
            forall|k: int| 0 <= k < i ==> #[trigger] opt_names(file_names@)[k] != Some(
                config_filename@,
            ),
        decreases file_names.len() - i,
    {
        if let Some(n) = &file_names[i] {
            let nv = to_chars(n.as_str());
            if same_chars(&nv, &target) {
                assert(opt_names(file_names@)[i as int] == Some(config_filename@));
                return true;
            }
        }
        i += 1;
    }
    false
}

pub open spec fn views(v: Seq<String>) -> Seq<Seq<char>> {
    v.map_values(|s: String| s@)
}

/// An event path as its components below the `roms/` directory; `None` when
/// the path is not under it.
pub open spec fn rel_view(o: Option<Vec<String>>) -> Option<Seq<Seq<char>>> {
    match o {
        Some(v) => Some(views(v@)),
        None => None,
    }
}

/// The system folder a path below `roms/` belongs to: its first component,
/// unless that is an internal directory (starting with `_`).
pub open spec fn rel_system(rel: Seq<Seq<char>>) -> Option<Seq<char>> {
    if rel.len() > 0 && !starts_with(rel[0], "_"@) {
        Some(rel[0])
    } else {
        None
    }
}

/// The path is `roms/` itself or a direct child of it that is a system folder.
pub open spec fn touches_roms_dir(rel: Option<Seq<Seq<char>>>) -> bool {
    match rel {
        Some(r) => r.len() == 0 || (r.len() == 1 && rel_system(r) is Some),
        None => false,
    }
}

pub open spec fn touches_favorites(rel: Option<Seq<Seq<char>>>) -> bool {
    match rel {
        Some(r) => r.len() > 0 && r[0] == "_favorites"@,
        None => false,
    }
}

pub open spec fn touches_recents(rel: Option<Seq<Seq<char>>>) -> bool {
    match rel {
        Some(r) => r.len() > 0 && r[0] == "_recent"@,
        None => false,
    }
}

pub open spec fn names_system(rel: Option<Seq<Seq<char>>>, x: Seq<char>) -> bool {
    match rel {
        Some(r) => rel_system(r) == Some(x),
        None => false,
    }
}

/// What the events of one debounce window changed.
pub struct RomEventSummary {
    /// System folders touched, each once.
    pub affected_systems: Vec<String>,
    /// `roms/` itself changed, or a system folder appeared or vanished.
    pub roms_dir_changed: bool,
    pub favorites_changed: bool,
    pub recents_changed: bool,
}

impl RomEventSummary {
    pub open spec fn wf(&self) -> bool {
        views(self.affected_systems@).no_duplicates()
    }

    /// Nothing seen yet.
    pub fn new() -> (r: Self)
        ensures
            r.wf(),
            r.affected_systems@.len() == 0,
            !r.roms_dir_changed,
            !r.favorites_changed,
            !r.recents_changed,
    {
        let r = RomEventSummary {
            affected_systems: Vec::new(),
            roms_dir_changed: false,
            favorites_changed: false,
            recents_changed: false,
        };
        assert(views(r.affected_systems@) =~= Seq::<Seq<char>>::empty());
        r
    }

    fn has_system(&self, name: &String) -> (r: bool)
        ensures
            r == views(self.affected_systems@).contains(name@),
    {
        let mut i: usize = 0;
        while i < self.affected_systems.len()
            invariant
                i <= self.affected_systems.len(),
                forall|k: int| 0 <= k < i ==> self.affected_systems@[k]@ != name@,
            decreases self.affected_systems.len() - i,
        {
            let a = to_chars(self.affected_systems[i].as_str());
            let b = to_chars(name.as_str());
            if same_chars(&a, &b) {
                assert(views(self.affected_systems@)[i as int] == name@);
                return true;
            }
            i += 1;
        }
        proof {
            if views(self.affected_systems@).contains(name@) {
                let k = choose|k: int|
                    0 <= k < views(self.affected_systems@).len() && #[trigger] views(
                        self.affected_systems@,
                    )[k] == name@;
                assert(self.affected_systems@[k]@ == name@);
            }
        }
        false
    }

    /// Folds one event path into the summary.
    fn fold_path(&mut self, rel: &Option<Vec<String>>)
        requires
            old(self).wf(),
        ensures
            final(self).wf(),
            final(self).roms_dir_changed == (old(self).roms_dir_changed || touches_roms_dir(
                rel_view(*rel),
            )),
            final(self).favorites_changed == (old(self).favorites_changed || touches_favorites(
                rel_view(*rel),
            )),
            final(self).recents_changed == (old(self).recents_changed || touches_recents(
                rel_view(*rel),
            )),
            forall|x: Seq<char>| #[trigger]
                views(final(self).affected_systems@).contains(x) <==> (views(
                    old(self).affected_systems@,
                ).contains(x) || names_system(rel_view(*rel), x)),
    {
        proof {
            reveal_strlit("_favorites");
            reveal_strlit("_recent");
            reveal_strlit("_");
        }
        let ghost before = views(self.affected_systems@);
        match rel {
            None => {},
            Some(comps) => {
                let ghost cv = views(comps@);
                if comps.len() == 0 {
                    self.roms_dir_changed = true;
                } else {
                    assert(cv[0] == comps@[0]@);
                    let first = to_chars(comps[0].as_str());
                    if chars_eq(&first, "_favorites") {
                        assert("_favorites"@.subrange(0, 1) =~= "_"@);
                        assert(starts_with(cv[0], "_"@));
                        self.favorites_changed = true;
                    } else if chars_eq(&first, "_recent") {
                        assert("_recent"@.subrange(0, 1) =~= "_"@);
                        assert(starts_with(cv[0], "_"@));
                        self.recents_changed = true;
                    } else if has_prefix(&first, "_") {
                    } else {
                        if comps.len() == 1 {
                            self.roms_dir_changed = true;
                        }
                        let name = &comps[0];
                        if !self.has_system(name) {
                            self.affected_systems.push(name.clone());
                            proof {
                                let now = views(self.affected_systems@);
                                assert(now =~= before.push(name@));
                                assert(now.no_duplicates()) by {
                                    assert forall|p: int, q: int|
                                        0 <= p < now.len() && 0 <= q < now.len() && p != q
                                        implies now[p] != now[q] by {
                                        if p == before.len() {
                                            assert(now[q] == before[q]);
                                            assert(before[q] != name@);
                                        } else if q == before.len() {
                                            assert(now[p] == before[p]);
                                            assert(before[p] != name@);
                                        } else {
                                            assert(now[p] == before[p]);
                                            assert(now[q] == before[q]);
                                        }
                                    }
                                }
                                lemma_push_contains(before, name@);
                            }
                        }
                    }
                }
            },
        }
    }

    /// Folds the paths of one event into the summary.
    pub fn collect_rom_event_systems(&mut self, paths: &Vec<Option<Vec<String>>>)
        requires
            old(self).wf(),
        ensures
            final(self).wf(),
            final(self).roms_dir_changed == (old(self).roms_dir_changed || exists|i: int|
                0 <= i < paths@.len() && touches_roms_dir(rel_view(#[trigger] paths@[i]))),
            final(self).favorites_changed == (old(self).favorites_changed || exists|i: int|
                0 <= i < paths@.len() && touches_favorites(rel_view(#[trigger] paths@[i]))),
            final(self).recents_changed == (old(self).recents_changed || exists|i: int|
                0 <= i < paths@.len() && touches_recents(rel_view(#[trigger] paths@[i]))),
            forall|x: Seq<char>| #[trigger]
                views(final(self).affected_systems@).contains(x) <==> (views(
                    old(self).affected_systems@,
                ).contains(x) || exists|i: int|
                    0 <= i < paths@.len() && names_system(rel_view(#[trigger] paths@[i]), x)),
    {
        let ghost start = views(self.affected_systems@);
        let ghost d0 = self.roms_dir_changed;
        let ghost f0 = self.favorites_changed;
        let ghost r0 = self.recents_changed;
        let mut i: usize = 0;
        while i < paths.len()
            invariant
                i <= paths.len(),
                self.wf(),
                self.roms_dir_changed == (d0 || exists|k: int|
                    0 <= k < i && touches_roms_dir(rel_view(#[trigger] paths@[k]))),
                self.favorites_changed == (f0 || exists|k: int|
                    0 <= k < i && touches_favorites(rel_view(#[trigger] paths@[k]))),
                self.recents_changed == (r0 || exists|k: int|
                    0 <= k < i && touches_recents(rel_view(#[trigger] paths@[k]))),
                forall|x: Seq<char>| #[trigger]
                    views(self.affected_systems@).contains(x) <==> (start.contains(x) || exists|k: int|
                        0 <= k < i && names_system(rel_view(#[trigger] paths@[k]), x)),
            decreases paths.len() - i,
        {
            let ghost before = views(self.affected_systems@);
            let ghost rv = rel_view(paths@[i as int]);
            self.fold_path(&paths[i]);
            proof {
                if touches_roms_dir(rv) {
                    assert(touches_roms_dir(rel_view(paths@[i as int])));
                }
                if touches_favorites(rv) {
                    assert(touches_favorites(rel_view(paths@[i as int])));
                }
                if touches_recents(rv) {
                    assert(touches_recents(rel_view(paths@[i as int])));
                }
                assert forall|x: Seq<char>| #[trigger]
                    views(self.affected_systems@).contains(x) <==> (start.contains(x) || exists|k: int|
                        0 <= k < i + 1 && names_system(rel_view(#[trigger] paths@[k]), x)) by {
                    if names_system(rv, x) {
                        assert(names_system(rel_view(paths@[i as int]), x));
                    }
                }
            }
            i += 1;
        }
    }
}

proof fn lemma_push_contains(s: Seq<Seq<char>>, e: Seq<char>)
    ensures
        forall|x: Seq<char>| #[trigger] s.push(e).contains(x) <==> (s.contains(x) || x == e),
{
    assert forall|x: Seq<char>| #[trigger] s.push(e).contains(x) <==> (s.contains(x) || x == e) by {
        if s.push(e).contains(x) {
            let k = choose|k: int| 0 <= k < s.push(e).len() && #[trigger] s.push(e)[k] == x;
            if k < s.len() {
                assert(s[k] == x);
            }
        }
        if s.contains(x) {
            let k = choose|k: int| 0 <= k < s.len() && #[trigger] s[k] == x;
            assert(s.push(e)[k] == x);
        }
        if x == e {
            assert(s.push(e)[s.len() as int] == x);
        }
    }
}

/// The visible systems that are not already among the affected ones, in order.
pub open spec fn extra_systems(visible: Seq<Seq<char>>, affected: Seq<Seq<char>>) -> Seq<
    Seq<char>,
>
    decreases visible.len(),
{
    if visible.len() == 0 {
        Seq::empty()
    } else {
        let prev = extra_systems(visible.drop_last(), affected);
        if affected.contains(visible.last()) {
            prev
        } else {
            prev.push(visible.last())
        }
    }
}

/// What the watcher does after a debounce window.
pub struct RescanPlan {
    pub invalidate_favorites: bool,
    pub invalidate_recents: bool,
    /// Systems to rescan, in order.
    pub to_scan: Vec<String>,
    /// Drop the in-memory library caches (before and after the scans).
    pub invalidate_library: bool,
}

/// The plan for one debounce window: favorites and recents caches are
/// dropped whenever their directories changed; the rescan is skipped while
/// another activity runs; otherwise the affected systems are rescanned, and
/// every other visible system too when `roms/` itself changed.
pub fn plan_rom_rescan(summary: &RomEventSummary, idle: bool, visible_systems: &Vec<String>) -> (r:
    RescanPlan)
    ensures
        r.invalidate_favorites == summary.favorites_changed,
        r.invalidate_recents == summary.recents_changed,
        !idle ==> r.to_scan@.len() == 0,
        idle && !summary.roms_dir_changed ==> views(r.to_scan@) == views(
            summary.affected_systems@,
        ),
        idle && summary.roms_dir_changed ==> views(r.to_scan@) == views(
            summary.affected_systems@,
        ) + extra_systems(views(visible_systems@), views(summary.affected_systems@)),
        r.invalidate_library == (r.to_scan@.len() > 0),
{
    let mut to_scan: Vec<String> = Vec::new();
    if idle {
        let mut i: usize = 0;
        while i < summary.affected_systems.len()
            invariant
                i <= summary.affected_systems.len(),
                views(to_scan@) == views(summary.affected_systems@).take(i as int),
            decreases summary.affected_systems.len() - i,
        {
            let ghost prev = to_scan@;
            let item = summary.affected_systems[i].clone();
            to_scan.push(item);
            assert(to_scan@ == prev.push(summary.affected_systems@[i as int]));
            assert(views(to_scan@) =~= views(prev).push(summary.affected_systems@[i as int]@));
            assert(views(summary.affected_systems@).take(i + 1) =~= views(
                summary.affected_systems@,
            ).take(i as int).push(summary.affected_systems@[i as int]@));
            i += 1;
        }
        assert(views(summary.affected_systems@).take(summary.affected_systems.len() as int)
            =~= views(summary.affected_systems@));
        if summary.roms_dir_changed {
            let ghost base = views(to_scan@);
            let mut j: usize = 0;
            while j < visible_systems.len()
                invariant
                    j <= visible_systems.len(),
                    base == views(summary.affected_systems@),
                    views(to_scan@) == base + extra_systems(
                        views(visible_systems@).take(j as int),
                        base,
                    ),
                decreases visible_systems.len() - j,
            {
                let v = &visible_systems[j];
                let ghost vt = views(visible_systems@).take(j + 1);
                assert(vt.drop_last() =~= views(visible_systems@).take(j as int));
                assert(vt.last() == v@);
                let ghost prev = to_scan@;
                if !summary.has_system(v) {
                    let item = v.clone();
                    to_scan.push(item);
                    assert(to_scan@ == prev.push(visible_systems@[j as int]));
                    assert(views(to_scan@) =~= views(prev).push(v@));
                    assert(views(to_scan@) =~= base + extra_systems(vt, base));
                }
                j += 1;
            }
            assert(views(visible_systems@).take(visible_systems.len() as int) =~= views(
                visible_systems@,
            ));
        }
    }
    let invalidate_library = to_scan.len() > 0;
    RescanPlan {
        invalidate_favorites: summary.favorites_changed,
        invalidate_recents: summary.recents_changed,
        to_scan,
        invalidate_library,
    }
}

/// The ROM watcher's loop goes on only while the watcher generation is the
/// one it started with; a restarted watcher (new storage) supersedes it.
pub fn watcher_continues(current_generation: u64, started_generation: u64) -> (r: bool)
    ensures
        r == (current_generation == started_generation),
{
    current_generation == started_generation
}

/// Internal directories (those starting with `_`) are never counted as
/// affected systems.
pub proof fn law_internal_dirs_are_not_systems(rel: Option<Seq<Seq<char>>>, x: Seq<char>)
    requires
        names_system(rel, x),
    ensures
        !starts_with(x, "_"@),
{
}

} // verus!
