//! Ignore files: one pattern to a line.

use crate::text::{from_chars, line_views, lines_trimmed, trimmed_lines};
use vstd::prelude::*;

verus! {

/// Whether a trimmed line of an ignore file is a pattern: it is neither blank
/// nor a comment.
pub open spec fn is_pattern(line: Seq<char>) -> bool {
    line.len() > 0 && line[0] != '#'
}

/// The test that [`patterns`] filters by.
pub open spec fn pattern_test() -> spec_fn(Seq<char>) -> bool {
    |line: Seq<char>| is_pattern(line)
}

/// The patterns of an ignore file: its lines, trimmed, but for blank lines and
/// comments.
pub open spec fn patterns(content: Seq<char>) -> Seq<Seq<char>> {
    trimmed_lines(content).filter(pattern_test())
}

/// The patterns of the ignore file with the text `content`.
pub fn parse_patterns(content: &str) -> (found: Vec<String>)
    ensures
        found.deep_view() == patterns(content@),
{
    let lines = lines_trimmed(content);
    let ghost all = line_views(lines@);
    let mut found: Vec<String> = Vec::new();
    let mut i: usize = 0;
    proof {
        reveal(Seq::filter);
        assert(all.take(0) =~= Seq::empty());
        assert(found.deep_view() =~= Seq::empty());
    }
    while i < lines.len()
        invariant
            i <= lines.len(),
            all == line_views(lines@),
            found.deep_view() == all.take(i as int).filter(pattern_test()),
        decreases lines.len() - i,
    {
        let line = &lines[i];
        let ghost before = found.deep_view();
        proof {
            reveal(Seq::filter);
            assert(all.take(i + 1).drop_last() == all.take(i as int));
            assert(all.take(i + 1).last() == line@);
        }
        if line.len() > 0 && line[0] != '#' {
            let pattern = from_chars(line, 0, line.len());
            assert(line@.subrange(0, line@.len() as int) == line@);
            found.push(pattern);
            assert(found.deep_view() =~= before.push(line@));
        }
        i += 1;
    }
    assert(all.take(i as int) =~= all);
    found
}

} // verus!
