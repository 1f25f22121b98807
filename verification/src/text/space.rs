//! White space: trimming, words and lines.

use super::chars::{copy_range, from_chars, to_chars};
use super::search::{find_char, lemma_find_char, position_of};
use vstd::prelude::*;

verus! {

/// White space, as Unicode's `White_Space` property defines it.
pub open spec fn is_space(c: char) -> bool {
    let n = c as u32;
    ||| 0x09 <= n <= 0x0D
    ||| n == 0x20
    ||| n == 0x85
    ||| n == 0xA0
    ||| n == 0x1680
    ||| 0x2000 <= n <= 0x200A
    ||| n == 0x2028
    ||| n == 0x2029
    ||| n == 0x202F
    ||| n == 0x205F
    ||| n == 0x3000
}

/// Whether `c` is white space.
pub fn is_whitespace(c: char) -> (r: bool)
    ensures
        r == is_space(c),
{
    let n: u32 = c as u32;
    (0x09 <= n && n <= 0x0D) || n == 0x20 || n == 0x85 || n == 0xA0 || n == 0x1680 || (0x2000 <= n
        && n <= 0x200A) || n == 0x2028 || n == 0x2029 || n == 0x202F || n == 0x205F || n == 0x3000
}

/// `s` without its leading white space.
pub open spec fn trim_start(s: Seq<char>) -> Seq<char>
    decreases s.len(),
{
    if s.len() > 0 && is_space(s[0]) {
        trim_start(s.subrange(1, s.len() as int))
    } else {
        s
    }
}

/// `s` without its trailing white space.
pub open spec fn trim_end(s: Seq<char>) -> Seq<char>
    decreases s.len(),
{
    if s.len() > 0 && is_space(s.last()) {
        trim_end(s.drop_last())
    } else {
        s
    }
}

/// `s` without leading and trailing white space.
pub open spec fn trim(s: Seq<char>) -> Seq<char> {
    trim_end(trim_start(s))
}

/// The bounds `(a, b)` of the trimmed part of `v[from..to]`.
pub fn trim_bounds(v: &Vec<char>, from: usize, to: usize) -> (r: (usize, usize))
    requires
        from <= to <= v.len(),
    ensures
        from <= r.0 <= r.1 <= to,
        v@.subrange(r.0 as int, r.1 as int) == trim(v@.subrange(from as int, to as int)),
{
    let mut a: usize = from;
    while a < to && is_whitespace(v[a])
        invariant
            from <= a <= to <= v.len(),
            trim_start(v@.subrange(from as int, to as int)) == trim_start(
                v@.subrange(a as int, to as int),
            ),
        decreases to - a,
    {
        assert(v@.subrange(a as int, to as int).subrange(1, to - a) == v@.subrange(
            a + 1,
            to as int,
        ));
        a += 1;
    }
    let mut b: usize = to;
    while a < b && is_whitespace(v[b - 1])
        invariant
            a <= b <= to <= v.len(),
            trim_end(v@.subrange(a as int, to as int)) == trim_end(v@.subrange(a as int, b as int)),
        decreases b - a,
    {
        assert(v@.subrange(a as int, b as int).drop_last() == v@.subrange(a as int, b - 1));
        b -= 1;
    }
    (a, b)
}

/// `s` with white space trimmed from both ends.
pub fn trimmed(s: &str) -> (r: String)
    ensures
        r@ == trim(s@),
{
    let v = to_chars(s);
    assert(v@.subrange(0, v@.len() as int) == v@);
    let (a, b) = trim_bounds(&v, 0, v.len());
    from_chars(&v, a, b)
}

/// Trimming at the start leaves the end of the text, which does not begin with
/// white space.
pub proof fn lemma_trim_start(s: Seq<char>)
    ensures
        exists|a: int|
            0 <= a <= s.len() && #[trigger] s.subrange(a, s.len() as int) == trim_start(s),
        trim_start(s).len() > 0 ==> !is_space(trim_start(s)[0]),
    decreases s.len(),
{
    if s.len() > 0 && is_space(s[0]) {
        let t = s.subrange(1, s.len() as int);
        lemma_trim_start(t);
        let a = choose|a: int|
            0 <= a <= t.len() && #[trigger] t.subrange(a, t.len() as int) == trim_start(t);
        assert(s.subrange(a + 1, s.len() as int) == t.subrange(a, t.len() as int));
    } else {
        assert(s.subrange(0, s.len() as int) == s);
    }
}

/// Trimming at the end leaves the start of the text, which does not end in
/// white space.
pub proof fn lemma_trim_end(s: Seq<char>)
    ensures
        exists|b: int| 0 <= b <= s.len() && #[trigger] s.subrange(0, b) == trim_end(s),
        trim_end(s).len() > 0 ==> !is_space(trim_end(s).last()),
    decreases s.len(),
{
    if s.len() > 0 && is_space(s.last()) {
        let t = s.drop_last();
        lemma_trim_end(t);
        let b = choose|b: int| 0 <= b <= t.len() && #[trigger] t.subrange(0, b) == trim_end(t);
        assert(s.subrange(0, b) == t.subrange(0, b));
    } else {
        assert(s.subrange(0, s.len() as int) == s);
    }
}

/// A trimmed text is a part of the text, neither begins nor ends with white
/// space, and trimming it again changes nothing.
pub proof fn lemma_trim(s: Seq<char>)
    ensures
        exists|a: int, b: int| 0 <= a <= b <= s.len() && #[trigger] s.subrange(a, b) == trim(s),
        trim(s).len() > 0 ==> !is_space(trim(s)[0]) && !is_space(trim(s).last()),
        trim(trim(s)) == trim(s),
        forall|c: char| trim(s).contains(c) ==> s.contains(c),
{
    let u = trim_start(s);
    lemma_trim_start(s);
    lemma_trim_end(u);
    let a = choose|a: int| 0 <= a <= s.len() && #[trigger] s.subrange(a, s.len() as int) == u;
    let b = choose|b: int| 0 <= b <= u.len() && #[trigger] u.subrange(0, b) == trim_end(u);
    let t = trim(s);
    assert(s.subrange(a, a + b) == u.subrange(0, b));
    if t.len() > 0 {
        assert(t[0] == u[0]);
    }
    assert(trim_start(t) == t);
    assert(trim_end(t) == t);
    assert forall|c: char| t.contains(c) implies s.contains(c) by {
        let i = choose|i: int| 0 <= i < t.len() && t[i] == c;
        assert(s[a + i] == c);
    }
}

/// The number of characters of `s` before its first white space.
pub open spec fn token_len(s: Seq<char>) -> int
    decreases s.len(),
{
    if s.len() == 0 || is_space(s[0]) {
        0
    } else {
        1 + token_len(s.subrange(1, s.len() as int))
    }
}

/// The first white-space-delimited word of `s`; empty if `s` holds none.
pub open spec fn first_token(s: Seq<char>) -> Seq<char> {
    let t = trim_start(s);
    t.subrange(0, token_len(t))
}

/// The bounds of the first word of `v`.
pub fn first_token_bounds(v: &Vec<char>) -> (r: (usize, usize))
    ensures
        r.0 <= r.1 <= v.len(),
        v@.subrange(r.0 as int, r.1 as int) == first_token(v@),
{
    let mut a: usize = 0;
    assert(v@.subrange(0, v@.len() as int) == v@);
    while a < v.len() && is_whitespace(v[a])
        invariant
            a <= v.len(),
            trim_start(v@) == trim_start(v@.subrange(a as int, v@.len() as int)),
        decreases v.len() - a,
    {
        assert(v@.subrange(a as int, v@.len() as int).subrange(1, v@.len() - a) == v@.subrange(
            a + 1,
            v@.len() as int,
        ));
        a += 1;
    }
    let ghost t = v@.subrange(a as int, v@.len() as int);
    assert(trim_start(v@) == t);
    let mut b: usize = a;
    while b < v.len() && !is_whitespace(v[b])
        invariant
            a <= b <= v.len(),
            t == v@.subrange(a as int, v@.len() as int),
            token_len(t) == (b - a) + token_len(v@.subrange(b as int, v@.len() as int)),
        decreases v.len() - b,
    {
        assert(v@.subrange(b as int, v@.len() as int).subrange(1, v@.len() - b) == v@.subrange(
            b + 1,
            v@.len() as int,
        ));
        b += 1;
    }
    assert(t.subrange(0, b - a) == v@.subrange(a as int, b as int));
    (a, b)
}

/// The first white-space-delimited word of `s`.
pub fn first_word(s: &str) -> (r: String)
    ensures
        r@ == first_token(s@),
{
    let v = to_chars(s);
    let (a, b) = first_token_bounds(&v);
    from_chars(&v, a, b)
}

/// The lines of `s`: the pieces between its line feeds. A final line feed ends
/// the last line; it does not start an empty one.
pub open spec fn split_lines(s: Seq<char>) -> Seq<Seq<char>>
    decreases s.len(),
{
    if s.len() == 0 {
        Seq::empty()
    } else {
        let n = find_char(s, '\n');
        if 0 <= n < s.len() {
            seq![s.subrange(0, n)] + split_lines(s.subrange(n + 1, s.len() as int))
        } else {
            seq![s]
        }
    }
}

/// The lines of `s`, each trimmed of white space at both ends.
pub open spec fn trimmed_lines(s: Seq<char>) -> Seq<Seq<char>> {
    split_lines(s).map_values(|l: Seq<char>| trim(l))
}

/// The texts that the vectors of `ls` hold.
pub open spec fn line_views(ls: Seq<Vec<char>>) -> Seq<Seq<char>> {
    ls.map_values(|l: Vec<char>| l@)
}

/// The lines of `s`, each trimmed of white space at both ends.
pub fn lines_trimmed(s: &str) -> (lines: Vec<Vec<char>>)
    ensures
        line_views(lines@) == trimmed_lines(s@),
{
    let v = to_chars(s);
    let mut lines: Vec<Vec<char>> = Vec::new();
    let mut start: usize = 0;
    assert(v@.subrange(0, v@.len() as int) == v@);
    while start < v.len()
        invariant
            start <= v.len(),
            trimmed_lines(v@) == line_views(lines@) + trimmed_lines(
                v@.subrange(start as int, v@.len() as int),
            ),
        decreases v.len() - start,
    {
        let ghost rest = v@.subrange(start as int, v@.len() as int);
        let end = position_of(&v, start, '\n');
        proof {
            lemma_find_char(rest, '\n');
        }
        let (a, b) = trim_bounds(&v, start, end);
        let line = copy_range(&v, a, b);
        let ghost before = lines@;
        lines.push(line);
        let next: usize = if end < v.len() {
            end + 1
        } else {
            end
        };
        proof {
            let n = find_char(rest, '\n');
            assert(rest.subrange(0, n) == v@.subrange(start as int, end as int));
            let tail = v@.subrange(next as int, v@.len() as int);
            if n < rest.len() {
                assert(rest.subrange(n + 1, rest.len() as int) == tail);
                assert(split_lines(rest) == seq![rest.subrange(0, n)] + split_lines(tail));
            } else {
                assert(rest.subrange(0, n) == rest);
                assert(tail.len() == 0);
                assert(split_lines(rest) == seq![rest] + split_lines(tail));
            }
            assert(trimmed_lines(rest) =~= seq![line@] + trimmed_lines(tail));
            assert(line_views(lines@) =~= line_views(before) + seq![line@]);
        }
        start = next;
    }
    lines
}

/// No line of a text holds a line feed.
pub proof fn lemma_lines_hold_no_line_feed(s: Seq<char>, i: int)
    requires
        0 <= i < split_lines(s).len(),
    ensures
        !split_lines(s)[i].contains('\n'),
    decreases s.len(),
{
    if s.len() > 0 {
        let n = find_char(s, '\n');
        lemma_find_char(s, '\n');
        if n < s.len() {
            if i == 0 {
                let line = s.subrange(0, n);
                if line.contains('\n') {
                    let j = choose|j: int| 0 <= j < line.len() && line[j] == '\n';
                    assert(s[j] == '\n');
                }
            } else {
                lemma_lines_hold_no_line_feed(s.subrange(n + 1, s.len() as int), i - 1);
            }
        }
    }
}

/// A text that is not empty and holds no line feed is one line.
pub proof fn lemma_one_line(s: Seq<char>)
    requires
        s.len() > 0,
        !s.contains('\n'),
    ensures
        split_lines(s) == seq![s],
{
    lemma_find_char(s, '\n');
}

} // verus!
