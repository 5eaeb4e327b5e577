//! Featured-artist extraction from a track title.
//!
//! Titles carry featured artists in a parenthesized or bracketed tail such
//! as `"Song (feat. A, B & C)"`. The grammar, over characters: at the first
//! position where an opener `(` or `[` is followed by one of the markers
//! `feat.`, `Feat.`, `ft.`, `with`, `w/`, `&`, `and`, `,` (first listed
//! match wins), then one whitespace character, and a closer `)` or `]`
//! appears later with no line break before it, the names run from after
//! that whitespace up to the last such closer before the line break. The
//! names are split on `,` and `&`, trimmed of whitespace, and empty pieces
//! are dropped; the track's primary artist is always the first element of
//! the result.

use vstd::prelude::*;

verus! {

/// Opens a featured-artists tail.
pub open spec fn is_opener(c: char) -> bool {
    c == '(' || c == '['
}

/// Closes a featured-artists tail.
pub open spec fn is_closer(c: char) -> bool {
    c == ')' || c == ']'
}

/// Whitespace: the Unicode White_Space set, as both the whitespace class in
/// the tail grammar and ordinary string trimming understand it.
pub open spec fn is_space_char(c: char) -> bool {
    c == ' ' || c == '\t' || c == '\n' || c == '\r' || c == '\u{b}' || c == '\u{c}'
        || c == '\u{85}' || c == '\u{a0}' || c == '\u{1680}' || c == '\u{2000}'
        || c == '\u{2001}' || c == '\u{2002}' || c == '\u{2003}' || c == '\u{2004}'
        || c == '\u{2005}' || c == '\u{2006}' || c == '\u{2007}' || c == '\u{2008}'
        || c == '\u{2009}' || c == '\u{200a}' || c == '\u{2028}' || c == '\u{2029}'
        || c == '\u{202f}' || c == '\u{205f}' || c == '\u{3000}'
}

/// Separates two names inside the tail.
pub open spec fn is_separator(c: char) -> bool {
    c == ',' || c == '&'
}

/// How many feature markers there are.
pub open spec fn marker_count() -> int {
    8
}

/// The feature markers, in the order they are tried.
pub open spec fn marker_seq(k: int) -> Seq<char> {
    if k == 0 {
        seq!['f', 'e', 'a', 't', '.']
    } else if k == 1 {
        seq!['F', 'e', 'a', 't', '.']
    } else if k == 2 {
        seq!['f', 't', '.']
    } else if k == 3 {
        seq!['w', 'i', 't', 'h']
    } else if k == 4 {
        seq!['w', '/']
    } else if k == 5 {
        seq!['&']
    } else if k == 6 {
        seq!['a', 'n', 'd']
    } else {
        seq![',']
    }
}

/// Whether the pattern occurs in `s` at position `i`.
pub open spec fn matches_at(s: Seq<char>, i: int, pattern: Seq<char>) -> bool {
    0 <= i && i + pattern.len() <= s.len() && s.subrange(i, i + pattern.len()) == pattern
}

/// The first marker (by list order) matching at position `i`, searching from
/// marker `k` on.
pub open spec fn first_marker_from(s: Seq<char>, i: int, k: int) -> Option<int>
    decreases marker_count() - k,
{
    if k < 0 || k >= marker_count() {
        None
    } else if matches_at(s, i, marker_seq(k)) {
        Some(k)
    } else {
        first_marker_from(s, i, k + 1)
    }
}

/// The marker found at position `i`, if any.
pub open spec fn marker_at(s: Seq<char>, i: int) -> Option<int> {
    first_marker_from(s, i, 0)
}

/// The first line break at or after position `i`.
pub open spec fn first_newline_from(s: Seq<char>, i: int) -> Option<int>
    decreases s.len() - i,
{
    if i < 0 || i >= s.len() {
        None
    } else if s[i] == '\n' {
        Some(i)
    } else {
        first_newline_from(s, i + 1)
    }
}

/// How far the captured names may extend: to the first line break after
/// their start, or to the end of the title — a name never spans a line
/// break.
pub open spec fn names_limit(s: Seq<char>, ns: int) -> int {
    match first_newline_from(s, ns) {
        Some(f) => f,
        None => s.len() as int,
    }
}

/// Whether a featured-artists tail starts at position `i`: opener, marker,
/// one whitespace character, and at least one name character before some
/// closer further right on the same line.
pub open spec fn tail_match_at(s: Seq<char>, i: int) -> bool {
    &&& 0 <= i < s.len()
    &&& is_opener(s[i])
    &&& match marker_at(s, i + 1) {
        Some(k) => {
            let sp = i + 1 + marker_seq(k).len();
            &&& sp < s.len()
            &&& is_space_char(s[sp])
            &&& exists|j: int|
                sp + 1 < j < names_limit(s, sp + 1) && is_closer(#[trigger] s[j])
        },
        None => false,
    }
}

/// The first position at or after `i` where a tail match starts.
pub open spec fn first_match_from(s: Seq<char>, i: int) -> Option<int>
    decreases s.len() - i,
{
    if i < 0 || i >= s.len() {
        None
    } else if tail_match_at(s, i) {
        Some(i)
    } else {
        first_match_from(s, i + 1)
    }
}

/// The rightmost closer at a position in `(ns, j]`, if any.
pub open spec fn last_closer(s: Seq<char>, ns: int, j: int) -> Option<int>
    decreases j - ns,
{
    if j <= ns || j >= s.len() || j < 0 {
        None
    } else if is_closer(s[j]) {
        Some(j)
    } else {
        last_closer(s, ns, j - 1)
    }
}

/// The captured names: the characters between the first tail match's
/// whitespace and the last closer after it on the same line; empty when the
/// title carries no featured-artists tail.
pub open spec fn captured_names(title: Seq<char>) -> Seq<char> {
    match first_match_from(title, 0) {
        None => Seq::empty(),
        Some(i) => match marker_at(title, i + 1) {
            Some(k) => {
                let ns = i + 2 + marker_seq(k).len();
                match last_closer(title, ns, names_limit(title, ns) - 1) {
                    Some(j) => title.subrange(ns, j),
                    None => Seq::empty(),
                }
            },
            None => Seq::empty(),
        },
    }
}

/// The first separator at or after position `i`.
pub open spec fn first_sep_from(s: Seq<char>, i: int) -> Option<int>
    decreases s.len() - i,
{
    if i < 0 || i >= s.len() {
        None
    } else if is_separator(s[i]) {
        Some(i)
    } else {
        first_sep_from(s, i + 1)
    }
}

/// A found separator lies at or after where the search began, inside `s`.
pub proof fn lemma_first_sep_bounds(s: Seq<char>, i: int, p: int)
    requires
        first_sep_from(s, i) == Some(p),
    ensures
        i <= p < s.len(),
        is_separator(s[p]),
    decreases s.len() - i,
{
    if !(i < 0 || i >= s.len()) && !is_separator(s[i]) {
        lemma_first_sep_bounds(s, i + 1, p);
    }
}

/// The pieces between separators, in order (separators themselves dropped).
pub open spec fn split_pieces(s: Seq<char>) -> Seq<Seq<char>>
    decreases s.len(),
    via split_pieces_decreases
{
    match first_sep_from(s, 0) {
        None => seq![s],
        Some(p) => seq![s.subrange(0, p)] + split_pieces(s.subrange(p + 1, s.len() as int)),
    }
}

#[via_fn]
proof fn split_pieces_decreases(s: Seq<char>) {
    match first_sep_from(s, 0) {
        Some(p) => lemma_first_sep_bounds(s, 0, p),
        None => {},
    }
}

/// The sequence without its leading whitespace.
pub open spec fn trim_front(s: Seq<char>) -> Seq<char>
    decreases s.len(),
{
    if s.len() > 0 && is_space_char(s.first()) {
        trim_front(s.drop_first())
    } else {
        s
    }
}

/// The sequence without its trailing whitespace.
pub open spec fn trim_back(s: Seq<char>) -> Seq<char>
    decreases s.len(),
{
    if s.len() > 0 && is_space_char(s.last()) {
        trim_back(s.drop_last())
    } else {
        s
    }
}

/// The sequence without leading and trailing whitespace.
pub open spec fn trimmed(s: Seq<char>) -> Seq<char> {
    trim_back(trim_front(s))
}

/// The pieces trimmed, with empty ones dropped.
pub open spec fn cleaned(pieces: Seq<Seq<char>>) -> Seq<Seq<char>>
    decreases pieces.len(),
{
    if pieces.len() == 0 {
        Seq::empty()
    } else {
        let t = trimmed(pieces.first());
        let rest = cleaned(pieces.drop_first());
        if t.len() == 0 {
            rest
        } else {
            seq![t] + rest
        }
    }
}

/// Everyone credited on a track: the primary artist first, then each
/// featured artist parsed out of the title.
pub open spec fn all_artists(artist: Seq<char>, title: Seq<char>) -> Seq<Seq<char>> {
    seq![artist] + cleaned(split_pieces(captured_names(title)))
}

/// The views of a sequence of strings.
pub open spec fn string_views(v: Seq<String>) -> Seq<Seq<char>> {
    v.map_values(|s: String| s@)
}

/// Whitespace test (the Unicode White_Space set).
fn char_is_space(d: char) -> (b: bool)
    ensures
        b == is_space_char(d),
{
    d == ' ' || d == '\t' || d == '\n' || d == '\r' || d == '\u{b}' || d == '\u{c}'
        || d == '\u{85}' || d == '\u{a0}' || d == '\u{1680}' || d == '\u{2000}'
        || d == '\u{2001}' || d == '\u{2002}' || d == '\u{2003}' || d == '\u{2004}'
        || d == '\u{2005}' || d == '\u{2006}' || d == '\u{2007}' || d == '\u{2008}'
        || d == '\u{2009}' || d == '\u{200a}' || d == '\u{2028}' || d == '\u{2029}'
        || d == '\u{202f}' || d == '\u{205f}' || d == '\u{3000}'
}

/// Separator test.
fn char_is_separator(d: char) -> (b: bool)
    ensures
        b == is_separator(d),
{
    d == ',' || d == '&'
}

/// The characters of a string slice, one per element.
fn to_char_vec(s: &str) -> (v: Vec<char>)
    ensures
        v@ == s@,
{
    let n = s.unicode_len();
    let mut v: Vec<char> = Vec::new();
    let mut i: usize = 0;
    while i < n
        invariant
            n == s@.len(),
            i <= n,
            v@ == s@.take(i as int),
        decreases n - i,
    {
        v.push(s.get_char(i));
        proof {
            assert(s@.take(i + 1) =~= s@.take(i as int).push(s@[i as int]));
        }
        i = i + 1;
    }
    proof {
        assert(s@.take(n as int) =~= s@);
    }
    v
}

/// The characters of one feature marker.
fn marker_chars(k: usize) -> (v: Vec<char>)
    requires
        k < marker_count(),
    ensures
        v@ == marker_seq(k as int),
{
    let mut v: Vec<char> = Vec::new();
    if k == 0 {
        v.push('f');
        v.push('e');
        v.push('a');
        v.push('t');
        v.push('.');
    } else if k == 1 {
        v.push('F');
        v.push('e');
        v.push('a');
        v.push('t');
        v.push('.');
    } else if k == 2 {
        v.push('f');
        v.push('t');
        v.push('.');
    } else if k == 3 {
        v.push('w');
        v.push('i');
        v.push('t');
        v.push('h');
    } else if k == 4 {
        v.push('w');
        v.push('/');
    } else if k == 5 {
        v.push('&');
    } else if k == 6 {
        v.push('a');
        v.push('n');
        v.push('d');
    } else {
        v.push(',');
    }
    proof {
        assert(v@ =~= marker_seq(k as int));
    }
    v
}

/// Whether the pattern occurs in `chars` at position `i`.
fn seq_matches_at(chars: &Vec<char>, i: usize, pattern: &Vec<char>) -> (b: bool)
    requires
        i <= chars@.len(),
    ensures
        b == matches_at(chars@, i as int, pattern@),
{
    let n = chars.len();
    let m = pattern.len();
    if m > n - i {
        return false;
    }
    let mut p: usize = 0;
    while p < m
        invariant
            n == chars@.len(),
            m == pattern@.len(),
            i + m <= n,
            p <= m,
            forall|q: int| 0 <= q < p ==> chars@[i + q] == #[trigger] pattern@[q],
        decreases m - p,
    {
        if chars[i + p] != pattern[p] {
            proof {
                assert(chars@.subrange(i as int, i + pattern@.len())[p as int] == chars@[i + p]);
            }
            return false;
        }
        p = p + 1;
    }
    proof {
        assert(chars@.subrange(i as int, i + pattern@.len()) =~= pattern@);
    }
    true
}

/// The first marker (by list order) matching at position `i`.
fn marker_at_exec(chars: &Vec<char>, i: usize) -> (r: Option<usize>)
    requires
        i <= chars@.len(),
    ensures
        match r {
            Some(k) => k < marker_count() && marker_at(chars@, i as int) == Some(k as int),
            None => marker_at(chars@, i as int) is None,
        },
{
    let mut k: usize = 0;
    while k < 8
        invariant
            i <= chars@.len(),
            k <= 8,
            first_marker_from(chars@, i as int, 0) == first_marker_from(chars@, i as int, k as int),
        decreases 8 - k,
    {
        let pattern = marker_chars(k);
        if seq_matches_at(chars, i, &pattern) {
            return Some(k);
        }
        k = k + 1;
    }
    None
}

/// How far the names starting at `ns` may extend: up to the first line
/// break, or the end of the title.
fn names_limit_exec(chars: &Vec<char>, ns: usize) -> (limit: usize)
    requires
        ns <= chars@.len(),
    ensures
        ns <= limit <= chars@.len(),
        limit == names_limit(chars@, ns as int),
{
    let mut limit = ns;
    while limit < chars.len() && chars[limit] != '\n'
        invariant
            ns <= limit <= chars@.len(),
            first_newline_from(chars@, ns as int) == first_newline_from(chars@, limit as int),
        decreases chars@.len() - limit,
    {
        limit = limit + 1;
    }
    limit
}

/// Whether a featured-artists tail starts at position `i`.
fn is_tail_match_at(chars: &Vec<char>, i: usize) -> (b: bool)
    requires
        i < chars@.len(),
    ensures
        b == tail_match_at(chars@, i as int),
{
    let n = chars.len();
    let c = chars[i];
    if !(c == '(' || c == '[') {
        return false;
    }
    let k = match marker_at_exec(chars, i + 1) {
        Some(k) => k,
        None => {
            return false;
        },
    };
    let pattern = marker_chars(k);
    if pattern.len() >= n - (i + 1) {
        return false;
    }
    let sp = i + 1 + pattern.len();
    if !char_is_space(chars[sp]) {
        return false;
    }
    let limit = names_limit_exec(chars, sp + 1);
    if limit - (sp + 1) < 2 {
        return false;
    }
    let mut j = sp + 2;
    while j < limit
        invariant
            i < chars@.len(),
            sp + 2 <= j <= limit <= chars@.len(),
            sp == i + 1 + marker_seq(k as int).len(),
            sp < chars@.len(),
            limit == names_limit(chars@, sp + 1),
            is_opener(chars@[i as int]),
            marker_at(chars@, i as int + 1) == Some(k as int),
            is_space_char(chars@[sp as int]),
            k < marker_count(),
            forall|q: int| sp + 1 < q < j ==> !is_closer(#[trigger] chars@[q]),
        decreases limit - j,
    {
        let d = chars[j];
        if d == ')' || d == ']' {
            proof {
                assert(sp + 1 < j < names_limit(chars@, sp + 1) && is_closer(chars@[j as int]));
            }
            return true;
        }
        j = j + 1;
    }
    false
}

/// A found first match starts a tail.
proof fn lemma_first_match_is_match(s: Seq<char>, from: int, i: int)
    requires
        first_match_from(s, from) == Some(i),
    ensures
        from <= i < s.len(),
        tail_match_at(s, i),
    decreases s.len() - from,
{
    if !(from < 0 || from >= s.len()) && !tail_match_at(s, from) {
        lemma_first_match_is_match(s, from + 1, i);
    }
}

/// The position of the first featured-artists tail in the title, if any.
fn find_first_match(chars: &Vec<char>) -> (r: Option<usize>)
    ensures
        match r {
            Some(i) => i < chars@.len() && first_match_from(chars@, 0) == Some(i as int),
            None => first_match_from(chars@, 0) is None,
        },
{
    let mut i: usize = 0;
    while i < chars.len()
        invariant
            i <= chars@.len(),
            first_match_from(chars@, 0) == first_match_from(chars@, i as int),
        decreases chars@.len() - i,
    {
        if is_tail_match_at(chars, i) {
            return Some(i);
        }
        i = i + 1;
    }
    None
}

/// The rightmost closer strictly after `ns` and strictly before `upto`, if
/// any.
fn find_last_closer(chars: &Vec<char>, ns: usize, upto: usize) -> (r: Option<usize>)
    requires
        upto <= chars@.len(),
    ensures
        match r {
            Some(j) => last_closer(chars@, ns as int, upto - 1) == Some(j as int) && ns < j
                < upto,
            None => last_closer(chars@, ns as int, upto - 1) is None,
        },
{
    if upto == 0 {
        return None;
    }
    let mut j = upto - 1;
    while j > ns
        invariant
            j < upto <= chars@.len(),
            last_closer(chars@, ns as int, upto - 1) == last_closer(chars@, ns as int, j as int),
        decreases j,
    {
        let d = chars[j];
        if d == ')' || d == ']' {
            return Some(j);
        }
        j = j - 1;
    }
    None
}

/// Leading whitespace of `s.subrange(from, to)` is exactly `a - from` long.
proof fn lemma_trim_front_skip(s: Seq<char>, k: int)
    requires
        0 <= k <= s.len(),
        forall|q: int| 0 <= q < k ==> is_space_char(#[trigger] s[q]),
        k == s.len() || !is_space_char(s[k]),
    ensures
        trim_front(s) == s.skip(k),
    decreases k,
{
    if k == 0 {
        assert(s.skip(0) =~= s);
    } else {
        assert(s.drop_first() =~= s.skip(1));
        lemma_trim_front_skip(s.skip(1), k - 1);
        assert(s.skip(1).skip(k - 1) =~= s.skip(k));
    }
}

/// Trailing whitespace from position `b` on leaves exactly `s.take(b)`.
proof fn lemma_trim_back_take(s: Seq<char>, b: int)
    requires
        0 <= b <= s.len(),
        forall|q: int| b <= q < s.len() ==> is_space_char(#[trigger] s[q]),
        b == 0 || !is_space_char(s[b - 1]),
    ensures
        trim_back(s) == s.take(b),
    decreases s.len(),
{
    if b == s.len() {
        assert(s.take(b) =~= s);
    } else {
        assert(s.drop_last() =~= s.take(s.len() - 1));
        lemma_trim_back_take(s.take(s.len() - 1), b);
        assert(s.take(s.len() - 1).take(b) =~= s.take(b));
    }
}

/// Trims the piece `chars[start..end)` and appends it to `out` unless it is
/// all whitespace.
fn push_cleaned_piece(
    title: &str,
    chars: &Vec<char>,
    start: usize,
    end: usize,
    out: &mut Vec<String>,
)
    requires
        chars@ == title@,
        start <= end <= chars@.len(),
    ensures
        string_views(final(out)@) == string_views(old(out)@) + cleaned(
            seq![chars@.subrange(start as int, end as int)],
        ),
{
    let ghost piece = chars@.subrange(start as int, end as int);
    let mut a = start;
    while a < end && char_is_space(chars[a])
        invariant
            start <= a <= end <= chars@.len(),
            forall|q: int| start <= q < a ==> is_space_char(#[trigger] chars@[q]),
        decreases end - a,
    {
        a = a + 1;
    }
    let mut b = end;
    while b > a && char_is_space(chars[b - 1])
        invariant
            start <= a <= b <= end <= chars@.len(),
            forall|q: int| b <= q < end ==> is_space_char(#[trigger] chars@[q]),
        decreases b,
    {
        b = b - 1;
    }
    proof {
        lemma_trim_front_skip(piece, a - start);
        assert(piece.skip(a - start) =~= chars@.subrange(a as int, end as int));
        lemma_trim_back_take(chars@.subrange(a as int, end as int), b - a);
        assert(chars@.subrange(a as int, end as int).take(b - a) =~= chars@.subrange(
            a as int,
            b as int,
        ));
        assert(trimmed(piece) == chars@.subrange(a as int, b as int));
        assert(seq![piece].first() == piece);
        assert(seq![piece].drop_first() =~= Seq::<Seq<char>>::empty());
    }
    if a < b {
        let name = title.substring_char(a, b).to_owned();
        proof {
            assert(name@ == trimmed(piece));
        }
        out.push(name);
        proof {
            assert(cleaned(seq![piece].drop_first()) =~= Seq::<Seq<char>>::empty());
            assert(cleaned(seq![piece]) =~= seq![trimmed(piece)]);
            assert(string_views(out@) =~= string_views(old(out)@) + cleaned(seq![piece]));
        }
    } else {
        proof {
            assert(chars@.subrange(a as int, b as int).len() == 0);
            assert(cleaned(seq![piece].drop_first()) =~= Seq::<Seq<char>>::empty());
            assert(cleaned(seq![piece]) =~= Seq::<Seq<char>>::empty());
            assert(string_views(out@) =~= string_views(old(out)@) + cleaned(seq![piece]));
        }
    }
}

/// Splits `chars[start..end)` on separators, trims each piece, and appends
/// the non-empty ones to `out`, in order.
fn collect_pieces(title: &str, chars: &Vec<char>, start: usize, end: usize, out: &mut Vec<String>)
    requires
        chars@ == title@,
        start <= end <= chars@.len(),
    ensures
        string_views(final(out)@) == string_views(old(out)@) + cleaned(
            split_pieces(chars@.subrange(start as int, end as int)),
        ),
    decreases end - start,
{
    let ghost region = chars@.subrange(start as int, end as int);
    let mut idx = start;
    while idx < end && !char_is_separator(chars[idx])
        invariant
            start <= idx <= end <= chars@.len(),
            first_sep_from(region, 0) == first_sep_from(region, idx - start),
            region == chars@.subrange(start as int, end as int),
        decreases end - idx,
    {
        proof {
            assert(region[idx - start] == chars@[idx as int]);
        }
        idx = idx + 1;
    }
    if idx < end {
        proof {
            assert(region[idx - start] == chars@[idx as int]);
            assert(first_sep_from(region, 0) == Some(idx - start));
        }
        push_cleaned_piece(title, chars, start, idx, out);
        collect_pieces(title, chars, idx + 1, end, out);
        proof {
            let p = idx - start;
            assert(region.subrange(0, p) =~= chars@.subrange(start as int, idx as int));
            assert(region.subrange(p + 1, region.len() as int) =~= chars@.subrange(
                idx + 1,
                end as int,
            ));
            let pieces = split_pieces(region);
            assert(pieces == seq![region.subrange(0, p)] + split_pieces(
                region.subrange(p + 1, region.len() as int),
            ));
            assert(pieces.first() == region.subrange(0, p));
            assert(pieces.drop_first() =~= split_pieces(
                region.subrange(p + 1, region.len() as int),
            ));
            assert(cleaned(pieces) == cleaned(seq![region.subrange(0, p)]) + cleaned(
                pieces.drop_first(),
            )) by {
                assert(seq![region.subrange(0, p)].first() == region.subrange(0, p));
                assert(seq![region.subrange(0, p)].drop_first()
                    =~= Seq::<Seq<char>>::empty());
                assert(cleaned(seq![region.subrange(0, p)].drop_first())
                    =~= Seq::<Seq<char>>::empty());
                if trimmed(region.subrange(0, p)).len() == 0 {
                    assert(cleaned(seq![region.subrange(0, p)]) =~= Seq::<Seq<char>>::empty());
                    assert(cleaned(pieces) =~= cleaned(pieces.drop_first()));
                } else {
                    assert(cleaned(pieces) =~= seq![trimmed(region.subrange(0, p))] + cleaned(
                        pieces.drop_first(),
                    ));
                    assert(cleaned(seq![region.subrange(0, p)]) =~= seq![trimmed(
                        region.subrange(0, p),
                    )]);
                }
            }
            assert(string_views(out@) =~= string_views(old(out)@) + cleaned(split_pieces(region)));
        }
    } else {
        proof {
            assert(first_sep_from(region, 0) is None);
            assert(split_pieces(region) == seq![region]);
        }
        push_cleaned_piece(title, chars, start, end, out);
        proof {
            assert(string_views(out@) =~= string_views(old(out)@) + cleaned(split_pieces(region)));
        }
    }
}

/// Everyone credited on a track: the primary artist, then each featured
/// artist parsed out of the title's parenthesized or bracketed tail.
pub fn get_all_artists(artist: &str, title: &str) -> (r: Vec<String>)
    ensures
        string_views(r@) == all_artists(artist@, title@),
{
    let chars = to_char_vec(title);
    let mut result: Vec<String> = Vec::new();
    result.push(artist.to_owned());
    proof {
        assert(string_views(result@) =~= seq![artist@]);
    }
    let i = match find_first_match(&chars) {
        Some(i) => i,
        None => {
            proof {
                assert(captured_names(title@) == Seq::<char>::empty());
                let names = captured_names(title@);
                assert(first_sep_from(names, 0) is None);
                assert(split_pieces(names) == seq![names]);
                assert(seq![names].first() == names);
                assert(seq![names].drop_first() =~= Seq::<Seq<char>>::empty());
                assert(trimmed(names).len() == 0);
                assert(cleaned(seq![names].drop_first()) =~= Seq::<Seq<char>>::empty());
                assert(cleaned(split_pieces(names)) =~= Seq::<Seq<char>>::empty());
                assert(string_views(result@) =~= all_artists(artist@, title@));
            }
            return result;
        },
    };
    proof {
        lemma_first_match_is_match(chars@, 0, i as int);
    }
    let k = match marker_at_exec(&chars, i + 1) {
        Some(k) => k,
        None => {
            proof {
                assert(false);
            }
            return result;
        },
    };
    let pattern = marker_chars(k);
    let ns = i + 2 + pattern.len();
    proof {
        assert(ns <= chars@.len());
    }
    let limit = names_limit_exec(&chars, ns);
    let j = match find_last_closer(&chars, ns, limit) {
        Some(j) => j,
        None => {
            proof {
                let sp = i + 1 + marker_seq(k as int).len();
                let witness = choose|q: int|
                    sp + 1 < q < names_limit(chars@, sp + 1) && is_closer(#[trigger] chars@[q]);
                lemma_last_closer_finds(chars@, ns as int, limit - 1, witness);
                assert(false);
            }
            return result;
        },
    };
    proof {
        assert(captured_names(title@) == chars@.subrange(ns as int, j as int));
    }
    collect_pieces(title, &chars, ns, j, &mut result);
    proof {
        assert(string_views(result@) =~= all_artists(artist@, title@));
    }
    result
}

/// If some closer sits in `(ns, j]`, the rightmost-closer search finds one.
proof fn lemma_last_closer_finds(s: Seq<char>, ns: int, j: int, witness: int)
    requires
        0 <= ns < witness <= j < s.len(),
        is_closer(s[witness]),
    ensures
        last_closer(s, ns, j) is Some,
    decreases j - ns,
{
    if is_closer(s[j]) {
        assert(last_closer(s, ns, j) == Some(j));
    } else {
        lemma_last_closer_finds(s, ns, j - 1, witness);
        assert(last_closer(s, ns, j) == last_closer(s, ns, j - 1));
    }
}

} // verus!

