//! Character-level helpers shared by the request classifiers and the
//! string-building parts of the library.
//!
//! Strings are handled as `Vec<char>` inside the library; their meaning is
//! stated over `Seq<char>`.
use vstd::prelude::*;

verus! {

/// `p` is a prefix of `s`.
pub open spec fn starts_with(s: Seq<char>, p: Seq<char>) -> bool {
    p.len() <= s.len() && s.subrange(0, p.len() as int) == p
}

/// `p` is a suffix of `s`.
pub open spec fn ends_with(s: Seq<char>, p: Seq<char>) -> bool {
    p.len() <= s.len() && s.subrange(s.len() - p.len(), s.len() as int) == p
}

/// `n` occurs in `s` as a contiguous block.
pub open spec fn contains_sub(s: Seq<char>, n: Seq<char>) -> bool {
    exists|i: int| 0 <= i <= s.len() - n.len() && #[trigger] s.subrange(i, i + n.len()) == n
}

/// `s` without its leading characters that satisfy `p`.
pub open spec fn trim_start_by(s: Seq<char>, p: spec_fn(char) -> bool) -> Seq<char>
    decreases s.len(),
{
    if s.len() > 0 && p(s[0]) {
        trim_start_by(s.drop_first(), p)
    } else {
        s
    }
}

/// `s` without its trailing characters that satisfy `p`.
pub open spec fn trim_end_by(s: Seq<char>, p: spec_fn(char) -> bool) -> Seq<char>
    decreases s.len(),
{
    if s.len() > 0 && p(s.last()) {
        trim_end_by(s.drop_last(), p)
    } else {
        s
    }
}

/// The characters of `s` before the first `c` (all of `s` when there is none).
pub open spec fn take_until(s: Seq<char>, c: char) -> Seq<char>
    decreases s.len(),
{
    if s.len() == 0 {
        s
    } else if s[0] == c {
        Seq::empty()
    } else {
        seq![s[0]] + take_until(s.drop_first(), c)
    }
}

/// The pieces of `s` separated by `c`, as `str::split` yields them: there is
/// always at least one piece, and empty pieces are kept.
pub open spec fn segments(s: Seq<char>, c: char) -> Seq<Seq<char>>
    decreases s.len(),
{
    if s.len() == 0 {
        seq![Seq::empty()]
    } else {
        let prev = segments(s.drop_last(), c);
        if s.last() == c {
            prev.push(Seq::empty())
        } else {
            prev.update(prev.len() - 1, prev.last().push(s.last()))
        }
    }
}

/// Views of a list of character vectors.
pub open spec fn char_views(v: Seq<Vec<char>>) -> Seq<Seq<char>> {
    v.map_values(|x: Vec<char>| x@)
}

/// Left-to-right scan behind [`words`]: the words closed so far, and the
/// word being read.
pub open spec fn word_scan(s: Seq<char>) -> (Seq<Seq<char>>, Seq<char>)
    decreases s.len(),
{
    if s.len() == 0 {
        (Seq::empty(), Seq::empty())
    } else {
        let (done, cur) = word_scan(s.drop_last());
        if unicode_white_space(s.last()) {
            if cur.len() > 0 {
                (done.push(cur), Seq::empty())
            } else {
                (done, Seq::empty())
            }
        } else {
            (done, cur.push(s.last()))
        }
    }
}

/// The words of `s` as `str::split_whitespace` yields them: the maximal
/// runs of characters without the `White_Space` property, in order.
pub open spec fn words(s: Seq<char>) -> Seq<Seq<char>> {
    let (done, cur) = word_scan(s);
    if cur.len() > 0 {
        done.push(cur)
    } else {
        done
    }
}

/// The pieces joined with `sep` between them (`[&str]::join`).
pub open spec fn join(parts: Seq<Seq<char>>, sep: Seq<char>) -> Seq<char>
    decreases parts.len(),
{
    if parts.len() == 0 {
        Seq::empty()
    } else if parts.len() == 1 {
        parts[0]
    } else {
        join(parts.drop_last(), sep) + sep + parts.last()
    }
}

pub open spec fn is_ascii_upper(c: char) -> bool {
    'A' <= c && c <= 'Z'
}

pub open spec fn is_ascii_lower(c: char) -> bool {
    'a' <= c && c <= 'z'
}

pub open spec fn is_ascii_digit(c: char) -> bool {
    '0' <= c && c <= '9'
}

/// `char::to_ascii_lowercase`.
pub open spec fn lower_char(c: char) -> char {
    if is_ascii_upper(c) {
        ((c as u32) + 32) as char
    } else {
        c
    }
}

/// `str::to_ascii_lowercase`.
pub open spec fn lower_seq(s: Seq<char>) -> Seq<char> {
    s.map_values(|c: char| lower_char(c))
}

/// Whether a character has the Unicode `White_Space` property (PropList):
/// U+0009–U+000D, U+0020, U+0085, U+00A0, U+1680, U+2000–U+200A, U+2028,
/// U+2029, U+202F, U+205F and U+3000.
pub open spec fn unicode_white_space(c: char) -> bool {
    ('\u{9}' <= c && c <= '\u{d}') || c == ' ' || c == '\u{85}' || c == '\u{a0}' || c
        == '\u{1680}' || ('\u{2000}' <= c && c <= '\u{200a}') || c == '\u{2028}' || c
        == '\u{2029}' || c == '\u{202f}' || c == '\u{205f}' || c == '\u{3000}'
}

pub open spec fn white_space_pred() -> spec_fn(char) -> bool {
    |c: char| unicode_white_space(c)
}

/// `str::trim`: leading and trailing `White_Space` characters removed.
pub open spec fn trim_ws(s: Seq<char>) -> Seq<char> {
    trim_end_by(trim_start_by(s, white_space_pred()), white_space_pred())
}

/// Whether a character is white space, as `char::is_whitespace` decides it:
/// the `White_Space` code points listed in [`unicode_white_space`].
pub(crate) fn char_is_whitespace(c: char) -> (r: bool)
    ensures
        r == unicode_white_space(c),
{
    let u = c as u32;
    (0x9 <= u && u <= 0xd) || u == 0x20 || u == 0x85 || u == 0xa0 || u == 0x1680 || (0x2000 <= u
        && u <= 0x200a) || u == 0x2028 || u == 0x2029 || u == 0x202f || u == 0x205f || u == 0x3000
}

// ---------------------------------------------------------------------------
// Lemmas characterising the recursive definitions by indices.

pub proof fn lemma_trim_start_index(s: Seq<char>, p: spec_fn(char) -> bool, i: int)
    requires
        0 <= i <= s.len(),
        forall|j: int| 0 <= j < i ==> p(#[trigger] s[j]),
        i == s.len() || !p(s[i]),
    ensures
        trim_start_by(s, p) == s.subrange(i, s.len() as int),
    decreases i,
{
    if i == 0 {
        assert(s.subrange(0, s.len() as int) =~= s);
    } else {
        let t = s.drop_first();
        assert forall|j: int| 0 <= j < i - 1 implies p(#[trigger] t[j]) by {
            assert(t[j] == s[j + 1]);
        }
        lemma_trim_start_index(t, p, i - 1);
        assert(t.subrange(i - 1, t.len() as int) =~= s.subrange(i, s.len() as int));
    }
}

pub proof fn lemma_trim_end_index(s: Seq<char>, p: spec_fn(char) -> bool, k: int)
    requires
        0 <= k <= s.len(),
        forall|j: int| k <= j < s.len() ==> p(#[trigger] s[j]),
        k == 0 || !p(s[k - 1]),
    ensures
        trim_end_by(s, p) == s.subrange(0, k),
    decreases s.len() - k,
{
    if k == s.len() {
        assert(s.subrange(0, k) =~= s);
    } else {
        let t = s.drop_last();
        assert forall|j: int| k <= j < t.len() implies p(#[trigger] t[j]) by {
            assert(t[j] == s[j]);
        }
        assert(p(s[s.len() - 1]));
        lemma_trim_end_index(t, p, k);
        assert(t.subrange(0, k) =~= s.subrange(0, k));
    }
}

pub proof fn lemma_take_until_index(s: Seq<char>, c: char, i: int)
    requires
        0 <= i <= s.len(),
        forall|j: int| 0 <= j < i ==> #[trigger] s[j] != c,
        i == s.len() || s[i] == c,
    ensures
        take_until(s, c) == s.subrange(0, i),
    decreases i,
{
    if i == 0 {
        if s.len() == 0 {
            assert(s.subrange(0, 0) =~= s);
        } else {
            assert(s.subrange(0, 0) =~= Seq::<char>::empty());
        }
    } else {
        let t = s.drop_first();
        assert forall|j: int| 0 <= j < i - 1 implies #[trigger] t[j] != c by {
            assert(t[j] == s[j + 1]);
        }
        assert(s[0] != c);
        lemma_take_until_index(t, c, i - 1);
        assert(seq![s[0]] + t.subrange(0, i - 1) =~= s.subrange(0, i));
    }
}

pub proof fn lemma_take_until_len(s: Seq<char>, c: char)
    ensures
        take_until(s, c).len() <= s.len(),
        take_until(s, c).len() < s.len() <==> s.contains(c),
        take_until(s, c) == s.subrange(0, take_until(s, c).len() as int),
        !take_until(s, c).contains(c),
        take_until(s, c).len() < s.len() ==> s[take_until(s, c).len() as int] == c,
    decreases s.len(),
{
    if s.len() == 0 {
        assert(s.subrange(0, 0) =~= s);
    } else if s[0] == c {
        assert(s.contains(c)) by { assert(s[0] == c); }
        assert(s.subrange(0, 0) =~= Seq::<char>::empty());
    } else {
        let t = s.drop_first();
        lemma_take_until_len(t, c);
        let r = take_until(s, c);
        assert(r == seq![s[0]] + take_until(t, c));
        assert(r =~= s.subrange(0, r.len() as int));
        if s.contains(c) {
            let j = choose|j: int| 0 <= j < s.len() && s[j] == c;
            assert(j > 0);
            assert(t[j - 1] == c);
            assert(t.contains(c));
        }
        if t.contains(c) {
            let j = choose|j: int| 0 <= j < t.len() && t[j] == c;
            assert(s[j + 1] == c);
        }
        if r.contains(c) {
            let j = choose|j: int| 0 <= j < r.len() && r[j] == c;
            assert(j > 0);
            assert(take_until(t, c)[j - 1] == c);
        }
    }
}

// ---------------------------------------------------------------------------
// Executable helpers.

/// The characters of a string slice, in order.
pub fn to_chars(s: &str) -> (r: Vec<char>)
    ensures
        r@ == s@,
{
    let mut out: Vec<char> = Vec::new();
    for c in it: s.chars()
        invariant
            out@ == it.seq().take(it.index() as int),
            it.seq() == s@,
    {
        out.push(c);
    }
    out
}

/// The Unicode lower-case mapping of a string, as `str::to_lowercase` does it.
pub uninterp spec fn unicode_lowercase(s: Seq<char>) -> Seq<char>;

/// `str::to_lowercase` from std. Its result is named, not restated: the
/// Unicode case tables are std's business.
#[verifier::external_body]
pub(crate) fn to_lowercase(s: &str) -> (r: String)
    ensures
        r@ == unicode_lowercase(s@),
{
    s.to_lowercase()
}

/// `String::push` from std: appends one character.
#[verifier::external_body]
fn push_char(s: &mut String, c: char)
    ensures
        final(s)@ == old(s)@.push(c),
{
    s.push(c);
}

/// The string made of the given characters, in order.
pub fn from_chars(v: &Vec<char>) -> (r: String)
    ensures
        r@ == v@,
{
    let mut out = String::new();
    let mut i: usize = 0;
    while i < v.len()
        invariant
            i <= v.len(),
            out@ == v@.take(i as int),
        decreases v.len() - i,
    {
        push_char(&mut out, v[i]);
        assert(v@.take(i + 1) == v@.take(i as int).push(v@[i as int]));
        i += 1;
    }
    assert(v@.take(v.len() as int) == v@);
    out
}

/// The characters `v[from..to]`.
pub fn sub_chars(v: &Vec<char>, from: usize, to: usize) -> (r: Vec<char>)
    requires
        from <= to <= v.len(),
    ensures
        r@ == v@.subrange(from as int, to as int),
{
    let mut out: Vec<char> = Vec::new();
    let mut i = from;
    while i < to
        invariant
            from <= i <= to <= v.len(),
            out@ == v@.subrange(from as int, i as int),
        decreases to - i,
    {
        out.push(v[i]);
        assert(v@.subrange(from as int, i + 1) == v@.subrange(from as int, i as int).push(v@[i as int]));
        i += 1;
    }
    out
}

/// `a` followed by `b`.
pub fn concat_chars(a: &Vec<char>, b: &Vec<char>) -> (r: Vec<char>)
    ensures
        r@ == a@ + b@,
{
    let mut out = a.clone();
    let mut i: usize = 0;
    while i < b.len()
        invariant
            i <= b.len(),
            out@ == a@ + b@.take(i as int),
        decreases b.len() - i,
    {
        out.push(b[i]);
        assert(a@ + b@.take(i + 1) == (a@ + b@.take(i as int)).push(b@[i as int]));
        i += 1;
    }
    assert(b@.take(b.len() as int) == b@);
    out
}

/// Equality of two character vectors.
pub fn same_chars(a: &Vec<char>, b: &Vec<char>) -> (r: bool)
    ensures
        r == (a@ == b@),
{
    if a.len() != b.len() {
        return false;
    }
    let mut i: usize = 0;
    while i < a.len()
        invariant
            i <= a.len(),
            a.len() == b.len(),
            forall|j: int| 0 <= j < i ==> a@[j] == b@[j],
        decreases a.len() - i,
    {
        if a[i] != b[i] {
            return false;
        }
        i += 1;
    }
    assert(a@ =~= b@);
    true
}

/// Equality of a character vector with a string slice.
pub fn chars_eq(a: &Vec<char>, b: &str) -> (r: bool)
    ensures
        r == (a@ == b@),
{
    let bv = to_chars(b);
    same_chars(a, &bv)
}

/// Whether `p` is a prefix of `a`.
pub fn has_prefix(a: &Vec<char>, p: &str) -> (r: bool)
    ensures
        r == starts_with(a@, p@),
{
    let pv = to_chars(p);
    if pv.len() > a.len() {
        return false;
    }
    let mut i: usize = 0;
    while i < pv.len()
        invariant
            i <= pv.len() <= a.len(),
            pv@ == p@,
            forall|j: int| 0 <= j < i ==> a@[j] == pv@[j],
        decreases pv.len() - i,
    {
        if a[i] != pv[i] {
            assert(a@.subrange(0, pv@.len() as int)[i as int] != pv@[i as int]);
            return false;
        }
        i += 1;
    }
    assert(a@.subrange(0, pv@.len() as int) =~= pv@);
    true
}

/// Whether `a` ends with `p`.
pub fn has_suffix(a: &Vec<char>, p: &str) -> (r: bool)
    ensures
        r == ends_with(a@, p@),
{
    let pv = to_chars(p);
    if pv.len() > a.len() {
        return false;
    }
    let off = a.len() - pv.len();
    let mut i: usize = 0;
    while i < pv.len()
        invariant
            i <= pv.len() <= a.len(),
            off == a.len() - pv.len(),
            pv@ == p@,
            forall|j: int| 0 <= j < i ==> a@[off + j] == pv@[j],
        decreases pv.len() - i,
    {
        if a[off + i] != pv[i] {
            assert(a@.subrange(off as int, a@.len() as int)[i as int] != pv@[i as int]);
            return false;
        }
        i += 1;
    }
    assert(a@.subrange(off as int, a@.len() as int) =~= pv@);
    true
}

/// Whether `n` occurs in `a` as a contiguous block.
pub fn has_sub(a: &Vec<char>, n: &str) -> (r: bool)
    ensures
        r == contains_sub(a@, n@),
{
    let nv = to_chars(n);
    if nv.len() > a.len() {
        assert forall|i: int| 0 <= i <= a@.len() - n@.len() implies #[trigger] a@.subrange(i, i + n@.len()) != n@ by {}
        return false;
    }
    let last = a.len() - nv.len();
    let mut i: usize = 0;
    while i <= last
        invariant
            nv@ == n@,
            last == a.len() - nv.len(),
            nv.len() <= a.len(),
            forall|k: int| 0 <= k < i ==> #[trigger] a@.subrange(k, k + n@.len()) != n@,
        decreases last + 1 - i,
    {
        let mut j: usize = 0;
        let mut ok = true;
        while j < nv.len()
            invariant
                nv@ == n@,
                last == a.len() - nv.len(),
                i <= last,
                j <= nv.len(),
                ok == (forall|m: int| 0 <= m < j ==> a@[i + m] == nv@[m]),
            decreases nv.len() - j,
        {
            if a[i + j] != nv[j] {
                ok = false;
            }
            j += 1;
        }
        if ok {
            assert(a@.subrange(i as int, i + n@.len()) =~= n@);
            return true;
        } else {
            proof {
                let m = choose|m: int| 0 <= m < nv.len() && a@[i + m] != nv@[m];
                assert(a@.subrange(i as int, i + n@.len())[m] != n@[m]);
            }
        }
        i += 1;
    }
    false
}

/// Whether the character `c` occurs in `a`.
pub fn has_char(a: &Vec<char>, c: char) -> (r: bool)
    ensures
        r == a@.contains(c),
{
    let mut i: usize = 0;
    while i < a.len()
        invariant
            i <= a.len(),
            forall|j: int| 0 <= j < i ==> a@[j] != c,
        decreases a.len() - i,
    {
        if a[i] == c {
            assert(a@[i as int] == c);
            return true;
        }
        i += 1;
    }
    false
}

/// `char::to_ascii_lowercase`.
pub fn lower(c: char) -> (r: char)
    ensures
        r == lower_char(c),
{
    if 'A' <= c && c <= 'Z' {
        let r = ((c as u8) + 32) as char;
        assert(r == ((c as u32) + 32) as char);
        r
    } else {
        c
    }
}

/// `str::to_ascii_lowercase`.
pub fn lower_all(a: &Vec<char>) -> (r: Vec<char>)
    ensures
        r@ == lower_seq(a@),
{
    let mut out: Vec<char> = Vec::new();
    let mut i: usize = 0;
    while i < a.len()
        invariant
            i <= a.len(),
            out@ == lower_seq(a@.take(i as int)),
        decreases a.len() - i,
    {
        let c = lower(a[i]);
        out.push(c);
        assert(lower_seq(a@.take(i + 1)) =~= lower_seq(a@.take(i as int)).push(lower_char(a@[i as int])));
        i += 1;
    }
    assert(a@.take(a.len() as int) =~= a@);
    out
}

/// `str::trim`.
pub fn trim_chars(a: &Vec<char>) -> (r: Vec<char>)
    ensures
        r@ == trim_ws(a@),
{
    let ghost p = white_space_pred();
    let mut i: usize = 0;
    while i < a.len() && char_is_whitespace(a[i])
        invariant
            i <= a.len(),
            forall|j: int| 0 <= j < i ==> p(#[trigger] a@[j]),
            p == white_space_pred(),
        decreases a.len() - i,
    {
        i += 1;
    }
    proof {
        lemma_trim_start_index(a@, p, i as int);
    }
    let t = sub_chars(a, i, a.len());
    let mut k: usize = t.len();
    while k > 0 && char_is_whitespace(t[k - 1])
        invariant
            k <= t.len(),
            forall|j: int| k <= j < t.len() ==> p(#[trigger] t@[j]),
            p == white_space_pred(),
        decreases k,
    {
        k -= 1;
    }
    proof {
        lemma_trim_end_index(t@, p, k as int);
    }
    sub_chars(&t, 0, k)
}

/// `str::trim_end_matches(c)` for a single character.
pub fn trim_end_char(a: &Vec<char>, c: char) -> (r: Vec<char>)
    ensures
        r@ == trim_end_by(a@, |x: char| x == c),
{
    let ghost p = |x: char| x == c;
    let mut k: usize = a.len();
    while k > 0 && a[k - 1] == c
        invariant
            k <= a.len(),
            forall|j: int| k <= j < a.len() ==> p(#[trigger] a@[j]),
            forall|x: char| #[trigger] p(x) == (x == c),
        decreases k,
    {
        k -= 1;
    }
    proof {
        lemma_trim_end_index(a@, p, k as int);
    }
    sub_chars(a, 0, k)
}

/// `str::trim_matches(c)` for a single character.
pub fn trim_char(a: &Vec<char>, c: char) -> (r: Vec<char>)
    ensures
        r@ == trim_end_by(trim_start_by(a@, |x: char| x == c), |x: char| x == c),
{
    let ghost p = |x: char| x == c;
    let mut i: usize = 0;
    while i < a.len() && a[i] == c
        invariant
            i <= a.len(),
            forall|j: int| 0 <= j < i ==> p(#[trigger] a@[j]),
            forall|x: char| #[trigger] p(x) == (x == c),
        decreases a.len() - i,
    {
        i += 1;
    }
    proof {
        lemma_trim_start_index(a@, p, i as int);
    }
    let t = sub_chars(a, i, a.len());
    trim_end_char(&t, c)
}

/// The characters before the first `c` (`split(c).next()`).
pub fn before_char(a: &Vec<char>, c: char) -> (r: Vec<char>)
    ensures
        r@ == take_until(a@, c),
{
    let mut i: usize = 0;
    while i < a.len() && a[i] != c
        invariant
            i <= a.len(),
            forall|j: int| 0 <= j < i ==> #[trigger] a@[j] != c,
        decreases a.len() - i,
    {
        i += 1;
    }
    proof {
        lemma_take_until_index(a@, c, i as int);
    }
    sub_chars(a, 0, i)
}


/// The pieces of `a` separated by `c` (`str::split`).
pub fn split_on(a: &Vec<char>, c: char) -> (r: Vec<Vec<char>>)
    ensures
        char_views(r@) == segments(a@, c),
{
    let mut done: Vec<Vec<char>> = Vec::new();
    let mut cur: Vec<char> = Vec::new();
    let mut i: usize = 0;
    while i < a.len()
        invariant
            i <= a.len(),
            char_views(done@).push(cur@) == segments(a@.take(i as int), c),
        decreases a.len() - i,
    {
        let ghost before = a@.take(i as int);
        assert(a@.take(i + 1).drop_last() == before);
        assert(a@.take(i + 1).last() == a@[i as int]);
        if a[i] == c {
            let ghost d0 = done@;
            let piece = cur;
            done.push(piece);
            cur = Vec::new();
            assert(char_views(done@) =~= char_views(d0).push(piece@));
        } else {
            let ghost c0 = cur@;
            cur.push(a[i]);
            let ghost prev = segments(before, c);
            assert(prev =~= char_views(done@).push(c0));
            assert(char_views(done@).push(cur@) =~= prev.update(prev.len() - 1, prev.last().push(
                a@[i as int],
            )));
        }
        i += 1;
    }
    assert(a@.take(a.len() as int) =~= a@);
    let ghost d1 = done@;
    done.push(cur);
    assert(char_views(done@) =~= char_views(d1).push(done@.last()@));
    done
}

/// The whitespace-separated words of `a` (`str::split_whitespace`).
pub fn split_words(a: &Vec<char>) -> (r: Vec<Vec<char>>)
    ensures
        char_views(r@) == words(a@),
{
    let mut done: Vec<Vec<char>> = Vec::new();
    let mut cur: Vec<char> = Vec::new();
    let mut i: usize = 0;
    while i < a.len()
        invariant
            i <= a.len(),
            (char_views(done@), cur@) == word_scan(a@.take(i as int)),
        decreases a.len() - i,
    {
        let ghost before = a@.take(i as int);
        assert(a@.take(i + 1).drop_last() == before);
        assert(a@.take(i + 1).last() == a@[i as int]);
        if char_is_whitespace(a[i]) {
            if cur.len() > 0 {
                let ghost d0 = done@;
                let piece = cur;
                done.push(piece);
                assert(char_views(done@) =~= char_views(d0).push(piece@));
            }
            cur = Vec::new();
        } else {
            cur.push(a[i]);
        }
        i += 1;
    }
    assert(a@.take(a.len() as int) =~= a@);
    if cur.len() > 0 {
        let ghost d1 = done@;
        let piece = cur;
        done.push(piece);
        assert(char_views(done@) =~= char_views(d1).push(piece@));
    }
    done
}

/// The pieces joined with `sep` between them.
pub fn join_chars(parts: &Vec<Vec<char>>, sep: &str) -> (r: Vec<char>)
    ensures
        r@ == join(char_views(parts@), sep@),
{
    if parts.len() == 0 {
        return Vec::new();
    }
    let sv = to_chars(sep);
    let mut out = parts[0].clone();
    let mut k: usize = 1;
    assert(char_views(parts@).take(1) =~= seq![parts@[0]@]);
    while k < parts.len()
        invariant
            1 <= k <= parts.len(),
            sv@ == sep@,
            out@ == join(char_views(parts@).take(k as int), sep@),
        decreases parts.len() - k,
    {
        let ghost t = char_views(parts@).take(k + 1);
        assert(t.drop_last() =~= char_views(parts@).take(k as int));
        assert(t.last() == parts@[k as int]@);
        let with_sep = concat_chars(&out, &sv);
        out = concat_chars(&with_sep, &parts[k]);
        k += 1;
    }
    assert(char_views(parts@).take(parts.len() as int) =~= char_views(parts@));
    out
}

/// The decimal digit for a value below 10.
pub open spec fn digit_char(d: nat) -> char {
    (48 + d) as char
}

/// The decimal representation of a number, without leading zeros.
pub open spec fn decimal(n: nat) -> Seq<char>
    decreases n,
{
    if n < 10 {
        seq![digit_char(n)]
    } else {
        decimal(n / 10).push(digit_char(n % 10))
    }
}

/// Appends the decimal representation of `n`.
fn push_decimal(out: &mut Vec<char>, n: u64)
    ensures
        final(out)@ == old(out)@ + decimal(n as nat),
    decreases n,
{
    if n >= 10 {
        push_decimal(out, n / 10);
    }
    let d = (n % 10) as u8;
    let c = (48u8 + d) as char;
    assert(c == digit_char((n % 10) as nat));
    out.push(c);
}

/// The decimal representation of a number (`u64::to_string`).
pub(crate) fn u64_text(n: u64) -> (r: String)
    ensures
        r@ == decimal(n as nat),
{
    let mut v: Vec<char> = Vec::new();
    push_decimal(&mut v, n);
    assert(v@ =~= decimal(n as nat));
    from_chars(&v)
}

/// The decimal representation of a number (`usize::to_string`).
pub(crate) fn usize_text(n: usize) -> (r: String)
    ensures
        r@ == decimal(n as nat),
{
    u64_text(n as u64)
}

} // verus!
