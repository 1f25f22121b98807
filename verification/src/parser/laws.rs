//! What holds of every build script that is parsed.

use super::dockerfile::{
    directive, is_continued, is_skipped, join_continuations, keyword_from, keyword_matches,
    keywords, lemma_join_continuations, parse, parse_from, strip_marker, InstructionView,
};
use crate::text::{
    lemma_lines_hold_no_line_feed, lemma_one_line, lemma_trim, split_lines, starts_with, trim,
    trimmed_lines,
};
use vstd::prelude::*;

verus! {

/// Whether a trimmed line is a directive line: neither blank nor a comment,
/// and a keyword with arguments.
pub open spec fn is_directive_line(line: Seq<char>) -> bool {
    !is_skipped(line) && directive(line) is Some
}

/// Whether line `i` of `lines` continues a directive that began on an earlier
/// line: the line before it ends in the continuation marker, and is a directive
/// line or continues a directive itself.
pub open spec fn continues_directive(lines: Seq<Seq<char>>, i: int) -> bool
    decreases i,
{
    &&& 0 < i < lines.len()
    &&& is_continued(lines[i - 1])
    &&& (is_directive_line(lines[i - 1]) || continues_directive(lines, i - 1))
}

/// Whether a logical directive line begins on line `i` of `lines`: the line is
/// a directive line, and continues no directive.
pub open spec fn begins_directive(lines: Seq<Seq<char>>, i: int) -> bool {
    0 <= i < lines.len() && is_directive_line(lines[i]) && !continues_directive(lines, i)
}

/// The number of logical directive lines that begin in `lines[i..]`.
pub open spec fn count_directives(lines: Seq<Seq<char>>, i: int) -> nat
    decreases lines.len() - i,
{
    if i < 0 || i >= lines.len() {
        0
    } else {
        (if begins_directive(lines, i) {
            1nat
        } else {
            0nat
        }) + count_directives(lines, i + 1)
    }
}

/// The lines that are joined to a directive each follow a line that ends in the
/// continuation marker, and the last of them ends in none, unless it is the
/// last line of all. Where no line is joined, arguments and raw text stay as
/// they are; where one is, the raw text holds a line feed.
proof fn lemma_joined_lines(lines: Seq<Seq<char>>, i: int, args: Seq<char>, raw: Seq<char>)
    requires
        0 <= i < lines.len(),
    ensures
        ({
            let last = join_continuations(lines, i, args, raw).2;
            &&& i <= last < lines.len()
            &&& forall|k: int| i <= k < last ==> is_continued(#[trigger] lines[k])
            &&& last + 1 < lines.len() ==> !is_continued(lines[last])
            &&& last == i ==> join_continuations(lines, i, args, raw) == (
                if is_continued(lines[i]) {
                    strip_marker(args)
                } else {
                    args
                },
                raw,
                i,
            )
            &&& last > i ==> join_continuations(lines, i, args, raw).1.contains('\n')
            &&& raw.contains('\n') ==> join_continuations(lines, i, args, raw).1.contains('\n')
        }),
    decreases lines.len() - i,
{
    if i + 1 < lines.len() && is_continued(lines[i]) {
        let next_args = strip_marker(args) + seq![' '] + lines[i + 1];
        let next_raw = raw + seq!['\n'] + lines[i + 1];
        lemma_joined_lines(lines, i + 1, next_args, next_raw);
        assert(next_raw[raw.len() as int] == '\n');
    }
}

/// The lines after a directive line, up to the last that is joined to it,
/// continue a directive.
proof fn lemma_joined_lines_continue(lines: Seq<Seq<char>>, i: int, last: int, k: int)
    requires
        0 <= i < k <= last < lines.len(),
        is_directive_line(lines[i]),
        forall|j: int| i <= j < last ==> is_continued(#[trigger] lines[j]),
    ensures
        continues_directive(lines, k),
    decreases k - i,
{
    assert(is_continued(lines[k - 1]));
    if k - 1 > i {
        lemma_joined_lines_continue(lines, i, last, k - 1);
    }
}

/// No logical directive line begins on a line that continues a directive.
proof fn lemma_count_skips_continuations(lines: Seq<Seq<char>>, from: int, to: int)
    requires
        0 <= from <= to <= lines.len(),
        forall|k: int| from <= k < to ==> continues_directive(lines, k),
    ensures
        count_directives(lines, from) == count_directives(lines, to),
    decreases to - from,
{
    if from < to {
        lemma_count_skips_continuations(lines, from + 1, to);
    }
}

/// From a line that continues no directive on, there are as many instructions
/// as logical directive lines.
proof fn lemma_count_from(lines: Seq<Seq<char>>, i: int)
    requires
        0 <= i <= lines.len(),
        !continues_directive(lines, i),
    ensures
        parse_from(lines, i).len() == count_directives(lines, i),
    decreases lines.len() - i,
{
    if i < lines.len() {
        if is_directive_line(lines[i]) {
            let d = directive(lines[i])->Some_0;
            let last = join_continuations(lines, i, d.1, lines[i]).2;
            lemma_joined_lines(lines, i, d.1, lines[i]);
            assert forall|k: int| i + 1 <= k < last + 1 implies continues_directive(lines, k) by {
                lemma_joined_lines_continue(lines, i, last, k);
            }
            lemma_count_skips_continuations(lines, i + 1, last + 1);
            lemma_count_from(lines, last + 1);
        } else {
            lemma_count_from(lines, i + 1);
        }
    }
}

/// A build script gives as many instructions as it has logical directive
/// lines: lines that are neither blank nor comments, begin with a keyword, and
/// are not joined to a directive before them.
pub proof fn lemma_instruction_count(content: Seq<char>)
    ensures
        parse(content).len() == count_directives(trimmed_lines(content), 0),
{
    lemma_count_from(trimmed_lines(content), 0);
}

/// Every instruction of `lines[i..]` comes of a directive line `j`: its name is
/// that of the directive, its arguments and raw text are those of the line and
/// of what is joined to it.
proof fn lemma_instruction_origin(lines: Seq<Seq<char>>, i: int, k: int) -> (j: int)
    requires
        0 <= i,
        0 <= k < parse_from(lines, i).len(),
    ensures
        i <= j < lines.len(),
        is_directive_line(lines[j]),
        ({
            let d = directive(lines[j])->Some_0;
            let joined = join_continuations(lines, j, d.1, lines[j]);
            parse_from(lines, i)[k] == InstructionView {
                name: d.0,
                arguments: trim(joined.0),
                line_number: (j + 1) as nat,
                raw_line: joined.1,
            }
        }),
    decreases lines.len() - i,
{
    if is_directive_line(lines[i]) {
        let d = directive(lines[i])->Some_0;
        let joined = join_continuations(lines, i, d.1, lines[i]);
        lemma_join_continuations(lines, i, d.1, lines[i]);
        if k == 0 {
            i
        } else {
            lemma_instruction_origin(lines, joined.2 + 1, k - 1)
        }
    } else {
        lemma_instruction_origin(lines, i + 1, k)
    }
}

/// The instructions of `lines[i..]` stand in the order of their lines.
proof fn lemma_lines_increase_from(lines: Seq<Seq<char>>, i: int, a: int, b: int)
    requires
        0 <= i,
        0 <= a < b < parse_from(lines, i).len(),
    ensures
        parse_from(lines, i)[a].line_number < parse_from(lines, i)[b].line_number,
    decreases lines.len() - i,
{
    if is_directive_line(lines[i]) {
        let d = directive(lines[i])->Some_0;
        let last = join_continuations(lines, i, d.1, lines[i]).2;
        lemma_join_continuations(lines, i, d.1, lines[i]);
        if a == 0 {
            let j = lemma_instruction_origin(lines, last + 1, b - 1);
        } else {
            lemma_lines_increase_from(lines, last + 1, a - 1, b - 1);
        }
    } else {
        lemma_lines_increase_from(lines, i + 1, a, b);
    }
}

/// What holds of every instruction that is parsed: its name is one of the
/// keywords; its arguments are trimmed; its line is one of the script; and its
/// raw text begins with the trimmed text of that line.
pub proof fn lemma_parsed_instruction(content: Seq<char>, k: int)
    requires
        0 <= k < parse(content).len(),
    ensures
        exists|j: int|
            0 <= j < keywords().len() && parse(content)[k].name == #[trigger] keywords()[j],
        trim(parse(content)[k].arguments) == parse(content)[k].arguments,
        1 <= parse(content)[k].line_number <= trimmed_lines(content).len(),
        starts_with(
            parse(content)[k].raw_line,
            trimmed_lines(content)[parse(content)[k].line_number - 1],
        ),
{
    let lines = trimmed_lines(content);
    let j = lemma_instruction_origin(lines, 0, k);
    let line = lines[j];
    let d = directive(line)->Some_0;
    let joined = join_continuations(lines, j, d.1, line);
    lemma_trim(joined.0);
    assert(line.subrange(0, line.len() as int) == line);
    lemma_raw_line_begins(lines, j, d.1, line, line);
    lemma_keyword_from(line, 0);
    let w = keyword_from(line, 0)->Some_0;
    assert(d.0 == keywords()[w]);
}

/// The keyword that a line begins with is one of the keywords, and the line
/// begins with it.
proof fn lemma_keyword_from(line: Seq<char>, k: int)
    requires
        0 <= k,
        keyword_from(line, k) is Some,
    ensures
        k <= keyword_from(line, k)->Some_0 < keywords().len(),
        keyword_matches(line, keywords()[keyword_from(line, k)->Some_0]),
    decreases keywords().len() - k,
{
    if k < keywords().len() && !keyword_matches(line, keywords()[k]) {
        lemma_keyword_from(line, k + 1);
    }
}

/// The raw text of a directive begins with the raw text that it had before
/// lines were joined to it.
proof fn lemma_raw_line_begins(
    lines: Seq<Seq<char>>,
    i: int,
    args: Seq<char>,
    raw: Seq<char>,
    first: Seq<char>,
)
    requires
        0 <= i < lines.len(),
        starts_with(raw, first),
    ensures
        starts_with(join_continuations(lines, i, args, raw).1, first),
    decreases lines.len() - i,
{
    if i + 1 < lines.len() && is_continued(lines[i]) {
        let next_raw = raw + seq!['\n'] + lines[i + 1];
        assert(next_raw.subrange(0, first.len() as int) =~= raw.subrange(0, first.len() as int));
        lemma_raw_line_begins(
            lines,
            i + 1,
            strip_marker(args) + seq![' '] + lines[i + 1],
            next_raw,
            first,
        );
    } else {
    }
}

/// The instructions of a build script stand in the order of their lines.
pub proof fn lemma_line_numbers_increase(content: Seq<char>, a: int, b: int)
    requires
        0 <= a < b < parse(content).len(),
    ensures
        parse(content)[a].line_number < parse(content)[b].line_number,
{
    lemma_lines_increase_from(trimmed_lines(content), 0, a, b);
}

/// Parsing an instruction's raw text gives the instruction back, as the first
/// line: this holds of every instruction that was written on a single line.
pub proof fn lemma_reparse_single_line(content: Seq<char>, k: int)
    requires
        0 <= k < parse(content).len(),
        !parse(content)[k].raw_line.contains('\n'),
    ensures
        parse(parse(content)[k].raw_line) == seq![
            InstructionView { line_number: 1, ..parse(content)[k] },
        ],
{
    let lines = trimmed_lines(content);
    let instruction = parse(content)[k];
    let j = lemma_instruction_origin(lines, 0, k);
    let line = lines[j];
    let d = directive(line)->Some_0;
    lemma_joined_lines(lines, j, d.1, line);
    assert(instruction.raw_line == line);
    lemma_trim(split_lines(content)[j]);
    assert(trim(line) == line);
    lemma_lines_hold_no_line_feed(content, j);
    assert(!line.contains('\n'));
    lemma_one_line(line);
    let again = trimmed_lines(line);
    assert(again =~= seq![line]);
    assert(again[0] == line);
    assert(join_continuations(again, 0, d.1, line).0 == join_continuations(lines, j, d.1, line).0);
    assert(join_continuations(again, 0, d.1, line).1 == line);
    assert(join_continuations(again, 0, d.1, line).2 == 0);
    assert(parse_from(again, 1) =~= Seq::<InstructionView>::empty());
    assert(parse_from(again, 0) =~= seq![InstructionView { line_number: 1, ..instruction }]);
}

} // verus!
