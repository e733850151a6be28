//! Game titles: the key titles are matched against the Wikidata series
//! data by, which bracket-flagged ROMs count as clones, and the suffixes that
//! tell apart ROMs whose display names collide.
use vstd::prelude::*;

use crate::text::{
    char_views, concat_chars, decimal, ends_with, from_chars, has_char, has_suffix, join,
    join_chars, split_words, to_chars, to_lowercase, trim_chars, trim_ws, u64_text, unicode_lowercase,
    words,
};

verus! {

// ---------------------------------------------------------------------------
// Wikidata match key.

/// Whether a character is alphabetic or numeric in Unicode's sense, as
/// `char::is_alphanumeric` decides it.
pub uninterp spec fn unicode_alphanumeric(c: char) -> bool;

/// `char::is_alphanumeric` from std. Claims only that the answer is the
/// Unicode `Alphabetic`/`Numeric` property of the character, which the std
/// documentation names as its definition; the tables are not restated.
#[verifier::external_body]
fn char_is_alphanumeric(c: char) -> (r: bool)
    ensures
        r == unicode_alphanumeric(c),
{
    c.is_alphanumeric()
}

/// The letters, digits and spaces of a title, in order.
pub open spec fn title_chars(s: Seq<char>) -> Seq<char>
    decreases s.len(),
{
    if s.len() == 0 {
        Seq::empty()
    } else {
        let prev = title_chars(s.drop_last());
        let c = s.last();
        if unicode_alphanumeric(c) || c == ' ' {
            prev.push(c)
        } else {
            prev
        }
    }
}

/// The key a title is matched by: trimmed, reduced to its letters, digits
/// and spaces, lower-cased, with its words joined by single spaces.
pub open spec fn wikidata_key(title: Seq<char>) -> Seq<char> {
    join(words(unicode_lowercase(title_chars(trim_ws(title)))), " "@)
}

/// The key a title is matched by (see [`wikidata_key`]).
pub fn normalize_for_wikidata_match(title: &str) -> (r: String)
    ensures
        r@ == wikidata_key(title@),
{
    let t = trim_chars(&to_chars(title));
    let mut kept: Vec<char> = Vec::new();
    let mut i: usize = 0;
    while i < t.len()
        invariant
            i <= t.len(),
            kept@ == title_chars(t@.take(i as int)),
        decreases t.len() - i,
    {
        let ghost prefix = t@.take(i + 1);
        assert(prefix.drop_last() =~= t@.take(i as int));
        assert(prefix.last() == t@[i as int]);
        let c = t[i];
        if char_is_alphanumeric(c) || c == ' ' {
            kept.push(c);
        }
        i += 1;
    }
    assert(t@.take(t.len() as int) =~= t@);
    let lowered = to_chars(to_lowercase(from_chars(&kept).as_str()).as_str());
    let parts = split_words(&lowered);
    let joined = join_chars(&parts, " ");
    from_chars(&joined)
}

proof fn lemma_title_chars_filter(s: Seq<char>, pred: spec_fn(char) -> bool)
    requires
        forall|c: char| #[trigger] pred(c) == (unicode_alphanumeric(c) || c == ' '),
    ensures
        title_chars(s) == s.filter(pred),
    decreases s.len(),
{
    reveal(Seq::filter);
    if s.len() > 0 {
        lemma_title_chars_filter(s.drop_last(), pred);
        assert(pred(s.last()) == (unicode_alphanumeric(s.last()) || s.last() == ' '));
    }
}

/// The match key is built from the letters, digits and spaces of the
/// trimmed title alone (`keep` picks them out): every other character (an
/// apostrophe, a colon, an ampersand, any punctuation) is dropped before the
/// text is lower-cased and its words are joined by single spaces, and no
/// letter, digit or space of the trimmed title is lost on the way.
pub proof fn law_wikidata_key_drops_punctuation(title: Seq<char>, keep: spec_fn(char) -> bool)
    requires
        forall|c: char| #[trigger] keep(c) == (unicode_alphanumeric(c) || c == ' '),
    ensures
        wikidata_key(title) == join(words(unicode_lowercase(trim_ws(title).filter(keep))), " "@),
        forall|i: int|
            0 <= i < trim_ws(title).filter(keep).len() ==> unicode_alphanumeric(
                #[trigger] trim_ws(title).filter(keep)[i],
            ) || trim_ws(title).filter(keep)[i] == ' ',
        forall|i: int|
            0 <= i < trim_ws(title).len() && (unicode_alphanumeric(#[trigger] trim_ws(title)[i])
                || trim_ws(title)[i] == ' ') ==> trim_ws(title).filter(keep).contains(
                trim_ws(title)[i],
            ),
{
    let t = trim_ws(title);
    lemma_title_chars_filter(t, keep);
    assert forall|i: int| 0 <= i < t.filter(keep).len() implies unicode_alphanumeric(
        #[trigger] t.filter(keep)[i],
    ) || t.filter(keep)[i] == ' ' by {
        t.lemma_filter_pred(keep, i);
    }
    assert forall|i: int|
        0 <= i < t.len() && (unicode_alphanumeric(#[trigger] t[i]) || t[i] == ' ') implies t.filter(
        keep,
    ).contains(t[i]) by {
        t.lemma_filter_contains(keep, i);
    }
}

// ---------------------------------------------------------------------------
// Display-name disambiguation.

/// What the TOSEC naming convention says of a ROM's file name.
#[derive(Debug)]
pub struct TosecInfo {
    pub publisher: Option<String>,
    /// The full date as written in the name.
    pub date: Option<String>,
    pub year: Option<u16>,
}

/// A ROM whose display name may need a distinguishing suffix, with what its
/// file name says (TOSEC fields and bracketed descriptors such as
/// `[joystick]`).
#[derive(Debug)]
pub struct NamedRom {
    pub rom_filename: String,
    pub display_name: Option<String>,
    pub is_clone: bool,
    /// The normalized developer, empty when unknown.
    pub developer: String,
    pub tosec: TosecInfo,
    pub descriptors: Vec<String>,
}

pub open spec fn opt_text(o: Option<String>) -> Option<Seq<char>> {
    match o {
        Some(s) => Some(s@),
        None => None,
    }
}

pub open spec fn texts(v: Seq<String>) -> Seq<Seq<char>> {
    v.map_values(|s: String| s@)
}

/// The name a ROM shows: its display name, or its file name without one.
pub open spec fn shown(e: NamedRom) -> Seq<char> {
    match e.display_name {
        Some(d) => d@,
        None => e.rom_filename@,
    }
}

/// `es[j]` is in the group of `es[i]`: a non-clone showing the same name.
pub open spec fn in_group(es: Seq<NamedRom>, i: int, j: int) -> bool {
    !es[j].is_clone && shown(es[j]) == shown(es[i])
}

/// Another non-clone shows the same name.
pub open spec fn collides(es: Seq<NamedRom>, i: int) -> bool {
    exists|j: int| 0 <= j < es.len() && j != i && #[trigger] in_group(es, i, j)
}

/// The group's members do not all have the same publisher.
pub open spec fn publishers_differ(es: Seq<NamedRom>, i: int) -> bool {
    exists|j: int|
        0 <= j < es.len() && #[trigger] in_group(es, i, j) && opt_text(es[j].tosec.publisher)
            != opt_text(es[i].tosec.publisher)
}

/// The group's members do not all have the same date.
pub open spec fn dates_differ(es: Seq<NamedRom>, i: int) -> bool {
    exists|j: int|
        0 <= j < es.len() && #[trigger] in_group(es, i, j) && opt_text(es[j].tosec.date)
            != opt_text(es[i].tosec.date)
}

/// Two members of the group share a year: the year alone would not tell
/// them apart.
pub open spec fn year_shared(es: Seq<NamedRom>, i: int) -> bool {
    exists|j: int, k: int|
        0 <= j < es.len() && 0 <= k < es.len() && j != k && #[trigger] in_group(es, i, j)
            && #[trigger] in_group(es, i, k) && es[j].tosec.year == es[k].tosec.year
}

/// The publisher part: the developer when known, else the TOSEC publisher.
pub open spec fn publisher_part(es: Seq<NamedRom>, i: int) -> Seq<Seq<char>> {
    if publishers_differ(es, i) && es[i].tosec.publisher is Some {
        if es[i].developer@.len() > 0 {
            seq![es[i].developer@]
        } else {
            seq![es[i].tosec.publisher->0@]
        }
    } else {
        Seq::empty()
    }
}

/// The date part: the full date when a year is shared in the group, else
/// the year.
pub open spec fn date_part(es: Seq<NamedRom>, i: int) -> Seq<Seq<char>> {
    if dates_differ(es, i) && es[i].tosec.date is Some {
        if year_shared(es, i) {
            seq![es[i].tosec.date->0@]
        } else if es[i].tosec.year is Some {
            seq![decimal(es[i].tosec.year->0 as nat)]
        } else {
            Seq::empty()
        }
    } else {
        Seq::empty()
    }
}

/// The parts of a ROM's suffix, in order of priority.
pub open spec fn suffix_parts(es: Seq<NamedRom>, i: int) -> Seq<Seq<char>> {
    publisher_part(es, i) + date_part(es, i) + texts(es[i].descriptors@)
}

/// A name with a suffix: inside its last parentheses when it ends with a
/// parenthesized part (`Game (USA)` becomes `Game (USA, 2017)`), else in
/// new parentheses.
pub open spec fn with_suffix(name: Seq<char>, suffix: Seq<char>) -> Seq<char> {
    if name.contains('(') && ends_with(name, ")"@) {
        name.drop_last() + ", "@ + suffix + ")"@
    } else {
        name + " ("@ + suffix + ")"@
    }
}

/// The display name a ROM ends up with: a non-clone that collides and has
/// something to tell it apart gets the suffix; every other ROM keeps its
/// display name.
pub open spec fn disambiguated(es: Seq<NamedRom>, i: int) -> Option<Seq<char>> {
    if !es[i].is_clone && collides(es, i) && suffix_parts(es, i).len() > 0 {
        Some(with_suffix(shown(es[i]), join(suffix_parts(es, i), ", "@)))
    } else {
        opt_text(es[i].display_name)
    }
}

fn opt_string_eq(a: &Option<String>, b: &Option<String>) -> (r: bool)
    ensures
        r == (opt_text(*a) == opt_text(*b)),
{
    match (a, b) {
        (Some(x), Some(y)) => x.eq(y),
        (None, None) => true,
        _ => false,
    }
}

fn shown_chars(e: &NamedRom) -> (r: Vec<char>)
    ensures
        r@ == shown(*e),
{
    match &e.display_name {
        Some(d) => to_chars(d.as_str()),
        None => to_chars(e.rom_filename.as_str()),
    }
}

/// What the scan of a ROM's group found.
struct GroupFacts {
    collides: bool,
    publishers_differ: bool,
    dates_differ: bool,
    year_shared: bool,
}

/// Scans the group of `es[i]` (`names` holds the shown names).
#[verifier::rlimit(40)]
fn group_facts(es: &Vec<NamedRom>, names: &Vec<Vec<char>>, i: usize) -> (r: GroupFacts)
    requires
        i < es@.len(),
        names@.len() == es@.len(),
        forall|k: int| 0 <= k < es@.len() ==> (#[trigger] names@[k])@ == shown(es@[k]),
    ensures
        r.collides == collides(es@, i as int),
        r.publishers_differ == publishers_differ(es@, i as int),
        r.dates_differ == dates_differ(es@, i as int),
        r.year_shared == year_shared(es@, i as int),
{
    let ghost s = es@;
    let ghost ii = i as int;
    let mut dup = false;
    let mut dpub = false;
    let mut ddate = false;
    let mut members: Vec<usize> = Vec::new();
    let mut j: usize = 0;
    while j < es.len()
        invariant
            j <= es.len(),
            s == es@,
            ii == i,
            i < es@.len(),
            names@.len() == es@.len(),
            forall|k: int| 0 <= k < es@.len() ==> (#[trigger] names@[k])@ == shown(es@[k]),
            dup == exists|k: int| 0 <= k < j && k != ii && #[trigger] in_group(s, ii, k),
            dpub == exists|k: int|
                0 <= k < j && #[trigger] in_group(s, ii, k) && opt_text(s[k].tosec.publisher)
                    != opt_text(s[ii].tosec.publisher),
            ddate == exists|k: int|
                0 <= k < j && #[trigger] in_group(s, ii, k) && opt_text(s[k].tosec.date)
                    != opt_text(s[ii].tosec.date),
            forall|t: int|
                0 <= t < members@.len() ==> (#[trigger] members@[t]) < j && in_group(
                    s,
                    ii,
                    members@[t] as int,
                ),
            forall|t1: int, t2: int|
                0 <= t1 < t2 < members@.len() ==> #[trigger] members@[t1] < #[trigger] members@[t2],
            forall|k: int|
                0 <= k < j && #[trigger] in_group(s, ii, k) ==> exists|t: int|
                    0 <= t < members@.len() && members@[t] == k,
        decreases es.len() - j,
    {
        let e = &es[j];
        let same = !e.is_clone && crate::text::same_chars(&names[j], &names[i]);
        assert(same == in_group(s, ii, j as int));
        if same {
            if j != i {
                dup = true;
            }
            if !opt_string_eq(&e.tosec.publisher, &es[i].tosec.publisher) {
                dpub = true;
            }
            if !opt_string_eq(&e.tosec.date, &es[i].tosec.date) {
                ddate = true;
            }
            let ghost before = members@;
            members.push(j);
            proof {
                assert forall|k: int|
                    0 <= k < j + 1 && #[trigger] in_group(s, ii, k) implies exists|t: int|
                        0 <= t < members@.len() && members@[t] == k by {
                    if k < j {
                        let t = choose|t: int| 0 <= t < before.len() && before[t] == k;
                        assert(members@[t] == k);
                    } else {
                        assert(members@[before.len() as int] == k);
                    }
                }
            }
        }
        j += 1;
    }
    // Two members that share a year.
    let mut shared = false;
    let mut a: usize = 0;
    while a < members.len()
        invariant
            a <= members.len(),
            i < es@.len(),
            s == es@,
            forall|t: int| 0 <= t < members@.len() ==> (#[trigger] members@[t]) < es@.len(),
            shared == exists|a1: int, b1: int|
                0 <= a1 < a && 0 <= b1 < members@.len() && a1 != b1 && s[
                    #[trigger] members@[a1] as int].tosec.year == s[#[trigger] members@[b1] as int].tosec.year,
        decreases members.len() - a,
    {
        let mut b: usize = 0;
        let mut inner = false;
        while b < members.len()
            invariant
                b <= members.len(),
                a < members.len(),
                s == es@,
                forall|t: int| 0 <= t < members@.len() ==> (#[trigger] members@[t]) < es@.len(),
                inner == exists|b1: int|
                    0 <= b1 < b && a as int != b1 && s[members@[a as int] as int].tosec.year == s[
                        #[trigger] members@[b1] as int].tosec.year,
            decreases members.len() - b,
        {
            if b != a && es[members[a]].tosec.year == es[members[b]].tosec.year {
                inner = true;
            }
            b += 1;
        }
        if inner {
            shared = true;
        }
        proof {
            assert forall|a1: int, b1: int|
                0 <= a1 < a + 1 && 0 <= b1 < members@.len() && a1 != b1 && s[
                    #[trigger] members@[a1] as int].tosec.year == s[#[trigger] members@[b1] as int].tosec.year
                implies shared by {
                if a1 == a {
                    assert(inner);
                }
            }
            if shared && !inner {
                let (a1, b1) = choose|a1: int, b1: int|
                    0 <= a1 < a && 0 <= b1 < members@.len() && a1 != b1 && s[
                        #[trigger] members@[a1] as int].tosec.year == s[#[trigger] members@[b1] as int].tosec.year;
                assert(0 <= a1 < a + 1);
            }
            if inner {
                let b1 = choose|b1: int|
                    0 <= b1 < members@.len() && a as int != b1 && s[members@[a as int] as int].tosec.year
                        == s[#[trigger] members@[b1] as int].tosec.year;
                assert(s[members@[a as int] as int].tosec.year == s[members@[b1] as int].tosec.year);
            }
        }
        a += 1;
    }
    proof {
        // The members are exactly the group, each once.
        if shared {
            let (a1, b1) = choose|a1: int, b1: int|
                0 <= a1 < members@.len() && 0 <= b1 < members@.len() && a1 != b1 && s[
                    #[trigger] members@[a1] as int].tosec.year == s[#[trigger] members@[b1] as int].tosec.year;
            let jj = members@[a1] as int;
            let kk = members@[b1] as int;
            assert(in_group(s, ii, jj));
            assert(in_group(s, ii, kk));
            if a1 < b1 {
                assert(members@[a1] < members@[b1]);
            } else {
                assert(members@[b1] < members@[a1]);
            }
            assert(year_shared(s, ii));
        }
        if year_shared(s, ii) {
            let (jj, kk) = choose|jj: int, kk: int|
                0 <= jj < s.len() && 0 <= kk < s.len() && jj != kk && #[trigger] in_group(s, ii, jj)
                    && #[trigger] in_group(s, ii, kk) && s[jj].tosec.year == s[kk].tosec.year;
            let a1 = choose|t: int| 0 <= t < members@.len() && members@[t] == jj;
            let b1 = choose|t: int| 0 <= t < members@.len() && members@[t] == kk;
            assert(s[members@[a1] as int].tosec.year == s[members@[b1] as int].tosec.year);
            assert(shared);
        }
    }
    GroupFacts { collides: dup, publishers_differ: dpub, dates_differ: ddate, year_shared: shared }
}

/// The suffix parts of `es[i]`, given its group's facts.
fn suffix_parts_of(es: &Vec<NamedRom>, i: usize, f: &GroupFacts) -> (r: Vec<Vec<char>>)
    requires
        i < es@.len(),
        f.publishers_differ == publishers_differ(es@, i as int),
        f.dates_differ == dates_differ(es@, i as int),
        f.year_shared == year_shared(es@, i as int),
    ensures
        char_views(r@) == suffix_parts(es@, i as int),
{
    let e = &es[i];
    let mut parts: Vec<Vec<char>> = Vec::new();
    if f.publishers_differ {
        if let Some(p) = &e.tosec.publisher {
            if !e.developer.as_str().is_empty() {
                parts.push(to_chars(e.developer.as_str()));
            } else {
                parts.push(to_chars(p.as_str()));
            }
        }
    }
    let ghost after_pub = char_views(parts@);
    assert(after_pub =~= publisher_part(es@, i as int));
    if f.dates_differ {
        if let Some(d) = &e.tosec.date {
            if f.year_shared {
                parts.push(to_chars(d.as_str()));
            } else if let Some(y) = e.tosec.year {
                parts.push(to_chars(u64_text(y as u64).as_str()));
            }
        }
    }
    let ghost after_date = char_views(parts@);
    assert(after_date =~= publisher_part(es@, i as int) + date_part(es@, i as int));
    let mut k: usize = 0;
    while k < e.descriptors.len()
        invariant
            k <= e.descriptors@.len(),
            e == es@[i as int],
            char_views(parts@) == after_date + texts(e.descriptors@).take(k as int),
        decreases e.descriptors.len() - k,
    {
        let ghost before = char_views(parts@);
        parts.push(to_chars(e.descriptors[k].as_str()));
        assert(char_views(parts@) =~= before.push(e.descriptors@[k as int]@));
        assert(texts(e.descriptors@).take(k + 1) =~= texts(e.descriptors@).take(k as int).push(
            e.descriptors@[k as int]@,
        ));
        k += 1;
    }
    assert(texts(e.descriptors@).take(e.descriptors.len() as int) =~= texts(e.descriptors@));
    parts
}

/// The name with the suffix added (see [`with_suffix`]).
fn add_suffix(name: &Vec<char>, suffix: &Vec<char>) -> (r: Vec<char>)
    ensures
        r@ == with_suffix(name@, suffix@),
{
    proof {
        reveal_strlit(")");
    }
    if has_char(name, '(') && has_suffix(name, ")") {
        let head = crate::text::sub_chars(name, 0, name.len() - 1);
        assert(head@ =~= name@.drop_last());
        let a = concat_chars(&head, &to_chars(", "));
        let b = concat_chars(&a, suffix);
        concat_chars(&b, &to_chars(")"))
    } else {
        let a = concat_chars(name, &to_chars(" ("));
        let b = concat_chars(&a, suffix);
        concat_chars(&b, &to_chars(")"))
    }
}

/// Gives every non-clone ROM whose display name collides with another's a
/// suffix that tells it apart: by priority, the publisher (when the
/// group's publishers differ), the year or, when a year is shared, the full
/// date (when the dates differ), then the bracketed descriptors. Clones,
/// and ROMs with nothing to tell them apart, keep their display names.
pub fn disambiguate_display_names(entries: &mut Vec<NamedRom>)
    ensures
        final(entries)@.len() == old(entries)@.len(),
        forall|i: int|
            0 <= i < old(entries)@.len() ==> opt_text((#[trigger] final(entries)@[i]).display_name)
                == disambiguated(old(entries)@, i) && final(entries)@[i] == (NamedRom {
                display_name: final(entries)@[i].display_name,
                ..old(entries)@[i]
            }),
{
    let ghost s = entries@;
    let mut names: Vec<Vec<char>> = Vec::new();
    let mut k: usize = 0;
    while k < entries.len()
        invariant
            k <= entries@.len(),
            names@.len() == k,
            forall|t: int| 0 <= t < k ==> (#[trigger] names@[t])@ == shown(entries@[t]),
        decreases entries.len() - k,
    {
        names.push(shown_chars(&entries[k]));
        k += 1;
    }
    let mut renamed: Vec<Option<String>> = Vec::new();
    let mut i: usize = 0;
    while i < entries.len()
        invariant
            i <= entries@.len(),
            entries@ == s,
            names@.len() == s.len(),
            forall|t: int| 0 <= t < s.len() ==> (#[trigger] names@[t])@ == shown(s[t]),
            renamed@.len() == i,
            forall|t: int| 0 <= t < i ==> opt_text(#[trigger] renamed@[t]) == disambiguated(s, t),
        decreases entries.len() - i,
    {
        let mut next: Option<String> = None;
        if !entries[i].is_clone {
            let f = group_facts(entries, &names, i);
            if f.collides {
                let parts = suffix_parts_of(entries, i, &f);
                if parts.len() > 0 {
                    let suffix = join_chars(&parts, ", ");
                    let name = add_suffix(&names[i], &suffix);
                    next = Some(from_chars(&name));
                }
            }
        }
        let value = match next {
            Some(n) => Some(n),
            None => match &entries[i].display_name {
                Some(d) => Some(d.clone()),
                None => None,
            },
        };
        renamed.push(value);
        i += 1;
    }
    let mut t: usize = 0;
    while t < entries.len()
        invariant
            t <= entries@.len(),
            entries@.len() == s.len(),
            renamed@.len() == s.len(),
            forall|u: int| 0 <= u < s.len() ==> opt_text(#[trigger] renamed@[u]) == disambiguated(s, u),
            forall|u: int|
                0 <= u < t ==> opt_text((#[trigger] entries@[u]).display_name) == disambiguated(s, u)
                    && entries@[u] == (NamedRom { display_name: entries@[u].display_name, ..s[u] }),
            forall|u: int| t <= u < s.len() ==> #[trigger] entries@[u] == s[u],
        decreases entries.len() - t,
    {
        let value = match &renamed[t] {
            Some(n) => Some(n.clone()),
            None => None,
        };
        entries[t].display_name = value;
        t += 1;
    }
}

/// Clones, and non-clones whose shown name no other non-clone shares, keep
/// their display names.
pub proof fn law_unique_names_are_kept(es: Seq<NamedRom>, i: int)
    requires
        0 <= i < es.len(),
        es[i].is_clone || !collides(es, i),
    ensures
        disambiguated(es, i) == opt_text(es[i].display_name),
{
}

proof fn lemma_with_suffix_injective(name: Seq<char>, a: Seq<char>, b: Seq<char>)
    requires
        with_suffix(name, a) == with_suffix(name, b),
    ensures
        a == b,
{
    let head = if name.contains('(') && ends_with(name, ")"@) {
        name.drop_last() + ", "@
    } else {
        name + " ("@
    };
    assert(with_suffix(name, a) =~= head + a + ")"@);
    assert(with_suffix(name, b) =~= head + b + ")"@);
    assert(a.len() == b.len());
    assert forall|k: int| 0 <= k < a.len() implies a[k] == b[k] by {
        assert((head + a + ")"@)[head.len() + k] == a[k]);
        assert((head + b + ")"@)[head.len() + k] == b[k]);
    }
    assert(a =~= b);
}

/// Two non-clone ROMs that show the same name end up with different names
/// whenever their suffix texts differ.
pub proof fn law_distinct_suffixes_give_distinct_names(es: Seq<NamedRom>, i: int, j: int)
    requires
        0 <= i < es.len(),
        0 <= j < es.len(),
        i != j,
        !es[i].is_clone,
        in_group(es, i, j),
        join(suffix_parts(es, i), ", "@) != join(suffix_parts(es, j), ", "@),
    ensures
        disambiguated(es, i) != disambiguated(es, j),
{
    reveal_strlit(", ");
    reveal_strlit(")");
    reveal_strlit(" (");
    assert(collides(es, i));
    assert(in_group(es, j, i));
    assert(collides(es, j));
    let n = shown(es[i]);
    let si = join(suffix_parts(es, i), ", "@);
    let sj = join(suffix_parts(es, j), ", "@);
    if suffix_parts(es, i).len() > 0 && suffix_parts(es, j).len() > 0 {
        if disambiguated(es, i) == disambiguated(es, j) {
            lemma_with_suffix_injective(n, si, sj);
        }
    } else if suffix_parts(es, i).len() > 0 {
        assert(with_suffix(n, si).len() > n.len());
    } else if suffix_parts(es, j).len() > 0 {
        assert(with_suffix(n, sj).len() > n.len());
    }
}

// ---------------------------------------------------------------------------
// Clone inference.

/// What clone inference reads of a ROM: its base title, whether its file
/// name carries a TOSEC bracket flag (`[a]`, `[t]`, `[cr]`, ...), and whether
/// it is already known as a clone.
#[derive(Debug)]
pub struct TosecEntry {
    pub base_title: String,
    pub bracket_flagged: bool,
    pub is_clone: bool,
}

/// Some ROM without a bracket flag has this base title.
pub open spec fn has_clean_sibling(es: Seq<TosecEntry>, title: Seq<char>) -> bool {
    exists|j: int| 0 <= j < es.len() && !es[j].bracket_flagged && #[trigger] es[j].base_title@ == title
}

/// Outside arcade systems, a bracket-flagged ROM is a clone when a clean
/// ROM with the same base title exists; known clones stay clones.
pub open spec fn inferred_clone(es: Seq<TosecEntry>, i: int, is_arcade: bool) -> bool {
    es[i].is_clone || (!is_arcade && es[i].bracket_flagged && has_clean_sibling(es, es[i].base_title@))
}

/// Marks bracket-flagged ROMs that have a clean sibling as clones.
pub fn infer_tosec_clones(entries: &mut Vec<TosecEntry>, is_arcade: bool)
    ensures
        final(entries)@.len() == old(entries)@.len(),
        forall|i: int|
            0 <= i < old(entries)@.len() ==> (#[trigger] final(entries)@[i]).is_clone
                == inferred_clone(old(entries)@, i, is_arcade) && final(entries)@[i].base_title
                == old(entries)@[i].base_title && final(entries)@[i].bracket_flagged == old(
                entries,
            )@[i].bracket_flagged,
{
    let ghost s = entries@;
    if is_arcade {
        return;
    }
    let mut clean: Vec<Vec<char>> = Vec::new();
    let mut k: usize = 0;
    while k < entries.len()
        invariant
            k <= entries@.len(),
            entries@ == s,
            forall|t: int| 0 <= t < clean@.len() ==> has_clean_sibling(s, #[trigger] clean@[t]@),
            forall|j: int|
                0 <= j < k && !s[j].bracket_flagged ==> exists|t: int|
                    0 <= t < clean@.len() && #[trigger] clean@[t]@ == s[j].base_title@,
        decreases entries.len() - k,
    {
        if !entries[k].bracket_flagged {
            let ghost before = clean@;
            clean.push(to_chars(entries[k].base_title.as_str()));
            proof {
                assert(clean@[before.len() as int]@ == s[k as int].base_title@);
                assert forall|j: int|
                    0 <= j < k + 1 && !s[j].bracket_flagged implies exists|t: int|
                        0 <= t < clean@.len() && #[trigger] clean@[t]@ == s[j].base_title@ by {
                    if j < k {
                        let t = choose|t: int| 0 <= t < before.len() && before[t]@ == s[j].base_title@;
                        assert(clean@[t] == before[t]);
                    }
                }
            }
        }
        k += 1;
    }
    let mut i: usize = 0;
    while i < entries.len()
        invariant
            i <= entries@.len(),
            entries@.len() == s.len(),
            !is_arcade,
            forall|t: int| 0 <= t < clean@.len() ==> has_clean_sibling(s, #[trigger] clean@[t]@),
            forall|j: int|
                0 <= j < s.len() && !s[j].bracket_flagged ==> exists|t: int|
                    0 <= t < clean@.len() && #[trigger] clean@[t]@ == s[j].base_title@,
            forall|u: int|
                0 <= u < i ==> (#[trigger] entries@[u]).is_clone == inferred_clone(s, u, is_arcade)
                    && entries@[u].base_title == s[u].base_title && entries@[u].bracket_flagged
                    == s[u].bracket_flagged,
            forall|u: int| i <= u < s.len() ==> #[trigger] entries@[u] == s[u],
        decreases entries.len() - i,
    {
        if !entries[i].is_clone && entries[i].bracket_flagged {
            let title = to_chars(entries[i].base_title.as_str());
            let mut found = false;
            let mut t: usize = 0;
            while t < clean.len()
                invariant
                    t <= clean@.len(),
                    found == exists|x: int| 0 <= x < t && #[trigger] clean@[x]@ == title@,
                decreases clean.len() - t,
            {
                if crate::text::same_chars(&clean[t], &title) {
                    found = true;
                }
                t += 1;
            }
            proof {
                if has_clean_sibling(s, title@) {
                    let j = choose|j: int|
                        0 <= j < s.len() && !s[j].bracket_flagged && #[trigger] s[j].base_title@ == title@;
                    let x = choose|x: int| 0 <= x < clean@.len() && #[trigger] clean@[x]@ == s[j].base_title@;
                    assert(clean@[x]@ == title@);
                }
                if found {
                    let x = choose|x: int| 0 <= x < clean@.len() && #[trigger] clean@[x]@ == title@;
                    assert(has_clean_sibling(s, clean@[x]@));
                }
            }
            if found {
                entries[i].is_clone = true;
            }
        }
        i += 1;
    }
}

} // verus!
