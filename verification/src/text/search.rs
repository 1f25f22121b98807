//! Searching text for texts and characters.

use super::chars::{str_eq, to_chars};
use vstd::prelude::*;

verus! {

/// Whether `p` occurs in `s` at position `i`.
pub open spec fn occurs_at(s: Seq<char>, p: Seq<char>, i: int) -> bool {
    0 <= i && i + p.len() <= s.len() && s.subrange(i, i + p.len()) == p
}

/// Whether `s` begins with `p`.
pub open spec fn starts_with(s: Seq<char>, p: Seq<char>) -> bool {
    occurs_at(s, p, 0)
}

/// Whether `s` ends with `p`.
pub open spec fn ends_with(s: Seq<char>, p: Seq<char>) -> bool {
    occurs_at(s, p, s.len() - p.len())
}

/// Whether `p` occurs somewhere in `s`.
pub open spec fn contains(s: Seq<char>, p: Seq<char>) -> bool {
    exists|i: int| occurs_at(s, p, i)
}

/// Whether `p` occurs in `v` at position `i`.
pub fn matches_at(v: &Vec<char>, p: &Vec<char>, i: usize) -> (r: bool)
    ensures
        r == occurs_at(v@, p@, i as int),
{
    if i > v.len() || p.len() > v.len() - i {
        return false;
    }
    let mut k: usize = 0;
    while k < p.len()
        invariant
            k <= p.len(),
            i + p.len() <= v.len(),
            forall|j: int| 0 <= j < k ==> v@[i + j] == p@[j],
        decreases p.len() - k,
    {
        if v[i + k] != p[k] {
            assert(v@.subrange(i as int, i + p.len())[k as int] != p@[k as int]);
            return false;
        }
        k += 1;
    }
    assert(v@.subrange(i as int, i + p.len()) =~= p@);
    true
}

/// Whether `v` begins with `p`.
pub fn chars_start_with(v: &Vec<char>, p: &Vec<char>) -> (r: bool)
    ensures
        r == starts_with(v@, p@),
{
    matches_at(v, p, 0)
}

/// Whether `v` ends with `p`.
pub fn chars_end_with(v: &Vec<char>, p: &Vec<char>) -> (r: bool)
    ensures
        r == ends_with(v@, p@),
{
    if p.len() > v.len() {
        return false;
    }
    matches_at(v, p, v.len() - p.len())
}

/// Whether `p` occurs somewhere in `v`.
pub fn chars_contain(v: &Vec<char>, p: &Vec<char>) -> (r: bool)
    ensures
        r == contains(v@, p@),
{
    if p.len() > v.len() {
        return false;
    }
    let last: usize = v.len() - p.len();
    let mut i: usize = 0;
    while i < last
        invariant
            last == v.len() - p.len(),
            i <= last,
            forall|j: int| 0 <= j < i ==> !occurs_at(v@, p@, j),
        decreases last - i,
    {
        if matches_at(v, p, i) {
            return true;
        }
        i += 1;
    }
    matches_at(v, p, last)
}

/// Whether `s` begins with `p`.
pub fn str_starts_with(s: &str, p: &str) -> (r: bool)
    ensures
        r == starts_with(s@, p@),
{
    chars_start_with(&to_chars(s), &to_chars(p))
}

/// Whether `s` ends with `p`.
pub fn str_ends_with(s: &str, p: &str) -> (r: bool)
    ensures
        r == ends_with(s@, p@),
{
    chars_end_with(&to_chars(s), &to_chars(p))
}

/// Whether `p` occurs somewhere in `s`.
pub fn str_contains(s: &str, p: &str) -> (r: bool)
    ensures
        r == contains(s@, p@),
{
    chars_contain(&to_chars(s), &to_chars(p))
}

/// The position of the first `c` in `s`, or the length of `s` if there is none.
pub open spec fn find_char(s: Seq<char>, c: char) -> int
    decreases s.len(),
{
    if s.len() == 0 || s[0] == c {
        0
    } else {
        1 + find_char(s.subrange(1, s.len() as int), c)
    }
}

/// The position just after the last `c` in `s`, or 0 if there is none.
pub open spec fn after_last_char(s: Seq<char>, c: char) -> int
    decreases s.len(),
{
    if s.len() == 0 || s.last() == c {
        s.len() as int
    } else {
        after_last_char(s.drop_last(), c)
    }
}

/// The part of `s` before the first `c`; all of `s` if there is none.
pub open spec fn before_first(s: Seq<char>, c: char) -> Seq<char> {
    s.subrange(0, find_char(s, c))
}

/// The part of `s` after the first `c`; empty if there is none.
pub open spec fn after_first(s: Seq<char>, c: char) -> Seq<char> {
    if find_char(s, c) < s.len() {
        s.subrange(find_char(s, c) + 1, s.len() as int)
    } else {
        Seq::empty()
    }
}

/// The part of `s` after the last `c`; all of `s` if there is none.
pub open spec fn after_last(s: Seq<char>, c: char) -> Seq<char> {
    s.subrange(after_last_char(s, c), s.len() as int)
}

/// The first `c` of `s` is where [`find_char`] says, and `s` holds none
/// exactly if that is its end.
pub proof fn lemma_find_char(s: Seq<char>, c: char)
    ensures
        0 <= find_char(s, c) <= s.len(),
        find_char(s, c) < s.len() ==> s[find_char(s, c)] == c,
        forall|j: int| 0 <= j < find_char(s, c) ==> s[j] != c,
        find_char(s, c) == s.len() <==> !s.contains(c),
    decreases s.len(),
{
    if s.len() == 0 || s[0] == c {
    } else {
        let t = s.subrange(1, s.len() as int);
        lemma_find_char(t, c);
        assert forall|j: int| 0 <= j < find_char(s, c) implies s[j] != c by {
            if j > 0 {
                assert(t[j - 1] == s[j]);
            }
        }
        if find_char(s, c) < s.len() {
            assert(t[find_char(t, c)] == s[find_char(s, c)]);
        }
    }
}

/// The position of the first `c` in `v[from..]`, counted from the start of `v`.
pub fn position_of(v: &Vec<char>, from: usize, c: char) -> (i: usize)
    requires
        from <= v.len(),
    ensures
        from <= i <= v.len(),
        i == from + find_char(v@.subrange(from as int, v@.len() as int), c),
{
    let mut i: usize = from;
    while i < v.len() && v[i] != c
        invariant
            from <= i <= v.len(),
            find_char(v@.subrange(from as int, v@.len() as int), c) == (i - from) + find_char(
                v@.subrange(i as int, v@.len() as int),
                c,
            ),
        decreases v.len() - i,
    {
        assert(v@.subrange(i as int, v@.len() as int).subrange(1, v@.len() - i) == v@.subrange(
            i + 1,
            v@.len() as int,
        ));
        i += 1;
    }
    i
}

/// The position just after the last `c` in `v`.
pub fn position_after_last(v: &Vec<char>, c: char) -> (i: usize)
    ensures
        i <= v.len(),
        i == after_last_char(v@, c),
{
    let mut i: usize = v.len();
    assert(v@.subrange(0, v@.len() as int) == v@);
    while i > 0 && v[i - 1] != c
        invariant
            i <= v.len(),
            after_last_char(v@, c) == after_last_char(v@.subrange(0, i as int), c),
        decreases i,
    {
        assert(v@.subrange(0, i as int).drop_last() == v@.subrange(0, i - 1));
        i -= 1;
    }
    i
}

/// The texts of the string slices of `words`.
pub open spec fn str_views(words: Seq<&'static str>) -> Seq<Seq<char>> {
    words.map_values(|w: &'static str| w@)
}

/// Whether one of `words` occurs in `s`.
pub open spec fn contains_any(s: Seq<char>, words: Seq<Seq<char>>) -> bool {
    exists|k: int| 0 <= k < words.len() && contains(s, #[trigger] words[k])
}

/// Whether `s` is one of `words`.
pub open spec fn is_any(s: Seq<char>, words: Seq<Seq<char>>) -> bool {
    exists|k: int| 0 <= k < words.len() && s == #[trigger] words[k]
}

/// The index of the first of `words`, from index `k` on, that `s` is.
pub open spec fn index_from(s: Seq<char>, words: Seq<Seq<char>>, k: int) -> Option<int>
    decreases words.len() - k,
{
    if k < 0 || k >= words.len() {
        None
    } else if s == words[k] {
        Some(k)
    } else {
        index_from(s, words, k + 1)
    }
}

/// The index of the first of `words` that `s` is.
pub fn find_word(s: &str, words: &Vec<&'static str>) -> (r: Option<usize>)
    ensures
        match r {
            Some(k) => index_from(s@, str_views(words@), 0) == Some(k as int) && k < words.len(),
            None => index_from(s@, str_views(words@), 0) is None,
        },
        r is Some <==> is_any(s@, str_views(words@)),
{
    let ghost ws = str_views(words@);
    let mut k: usize = 0;
    while k < words.len()
        invariant
            k <= words.len(),
            ws == str_views(words@),
            index_from(s@, ws, 0) == index_from(s@, ws, k as int),
            forall|j: int| 0 <= j < k ==> s@ != #[trigger] ws[j],
        decreases words.len() - k,
    {
        assert(ws[k as int] == words@[k as int]@);
        if str_eq(s, words[k]) {
            return Some(k);
        }
        k += 1;
    }
    None
}

/// Whether one of `words` occurs in `s`.
pub fn str_contains_any(s: &str, words: &Vec<&'static str>) -> (r: bool)
    ensures
        r == contains_any(s@, str_views(words@)),
{
    let v = to_chars(s);
    let ghost ws = str_views(words@);
    let mut k: usize = 0;
    while k < words.len()
        invariant
            k <= words.len(),
            v@ == s@,
            ws == str_views(words@),
            forall|j: int| 0 <= j < k ==> !contains(s@, #[trigger] ws[j]),
        decreases words.len() - k,
    {
        assert(ws[k as int] == words@[k as int]@);
        if chars_contain(&v, &to_chars(words[k])) {
            return true;
        }
        k += 1;
    }
    false
}

/// Whether `s` is one of `words`.
pub fn str_is_any(s: &str, words: &Vec<&'static str>) -> (r: bool)
    ensures
        r == is_any(s@, str_views(words@)),
{
    let ghost ws = str_views(words@);
    let mut k: usize = 0;
    while k < words.len()
        invariant
            k <= words.len(),
            ws == str_views(words@),
            forall|j: int| 0 <= j < k ==> s@ != #[trigger] ws[j],
        decreases words.len() - k,
    {
        assert(ws[k as int] == words@[k as int]@);
        if str_eq(s, words[k]) {
            return true;
        }
        k += 1;
    }
    false
}

} // verus!
