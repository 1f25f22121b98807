//! The directive parser: build-script text to an ordered sequence of
//! instructions, with continuation lines joined.

use crate::text::{
    append_chars, copy_range, eq_ignore_ascii_case, from_chars, is_space, is_whitespace,
    line_views, lines_trimmed, str_eq_ignore_ascii_case, to_chars, trim, trim_bounds, trim_end,
    trim_start, trimmed_lines,
};
use vstd::prelude::*;

verus! {

/// One directive of a build script.
#[derive(Debug, Clone, PartialEq)]
pub struct Instruction {
    /// The directive keyword, in capitals.
    pub name: String,
    /// The arguments, continuations joined by single spaces, trimmed.
    pub arguments: String,
    /// The 1-based number of the physical line on which the directive starts.
    pub line_number: usize,
    /// The text of the directive, its physical lines joined by line feeds.
    pub raw_line: String,
}

/// The mathematical value of an [`Instruction`].
pub struct InstructionView {
    pub name: Seq<char>,
    pub arguments: Seq<char>,
    pub line_number: nat,
    pub raw_line: Seq<char>,
}

impl View for Instruction {
    type V = InstructionView;

    open spec fn view(&self) -> InstructionView {
        InstructionView {
            name: self.name@,
            arguments: self.arguments@,
            line_number: self.line_number as nat,
            raw_line: self.raw_line@,
        }
    }
}

impl DeepView for Instruction {
    type V = InstructionView;

    open spec fn deep_view(&self) -> InstructionView {
        self@
    }
}

/// The result of parsing a build script.
#[derive(Debug)]
pub struct DockerfileParser {
    /// The directives, in the order of the text.
    pub instructions: Vec<Instruction>,
    /// The text that was parsed.
    pub raw_content: String,
}

/// Whether an instruction has the directive name `name`, the case of ASCII
/// letters aside.
pub open spec fn is_named(instruction: InstructionView, name: Seq<char>) -> bool {
    eq_ignore_ascii_case(instruction.name, name)
}

/// The test that [`named`] filters by.
pub open spec fn name_test(name: Seq<char>) -> spec_fn(InstructionView) -> bool {
    |instruction: InstructionView| is_named(instruction, name)
}

/// The instructions of `instructions` that have the directive name `name`, in
/// their order.
pub open spec fn named(instructions: Seq<InstructionView>, name: Seq<char>) -> Seq<
    InstructionView,
> {
    instructions.filter(name_test(name))
}

/// Whether one of `instructions` has the directive name `name`.
pub open spec fn has_named(instructions: Seq<InstructionView>, name: Seq<char>) -> bool {
    exists|i: int| 0 <= i < instructions.len() && is_named(#[trigger] instructions[i], name)
}

/// The directive keywords, in capitals.
pub open spec fn keywords() -> Seq<Seq<char>> {
    seq![
        "FROM"@,
        "RUN"@,
        "CMD"@,
        "LABEL"@,
        "EXPOSE"@,
        "ENV"@,
        "ADD"@,
        "COPY"@,
        "ENTRYPOINT"@,
        "VOLUME"@,
        "USER"@,
        "WORKDIR"@,
        "ARG"@,
        "ONBUILD"@,
        "STOPSIGNAL"@,
        "HEALTHCHECK"@,
        "SHELL"@,
        "MAINTAINER"@,
    ]
}

/// Whether the character `c` of a line stands for the capital letter `k` of a
/// keyword, case aside. Case is folded as Unicode's simple case folding does:
/// besides the small letter, the long s (U+017F) stands for `S` and the Kelvin
/// sign (U+212A) for `K`.
pub open spec fn letter_matches(c: char, k: char) -> bool {
    let n = c as u32;
    let m = k as u32;
    n == m || n == m + 0x20 || (m == 0x53 && n == 0x17F) || (m == 0x4B && n == 0x212A)
}

/// Whether `line` begins with the keyword `kw`, case aside, followed by white
/// space.
pub open spec fn keyword_matches(line: Seq<char>, kw: Seq<char>) -> bool {
    &&& kw.len() < line.len()
    &&& forall|i: int| 0 <= i < kw.len() ==> letter_matches(#[trigger] line[i], kw[i])
    &&& is_space(line[kw.len() as int])
}

/// The index of the first keyword, from index `k` on, that `line` begins with.
pub open spec fn keyword_from(line: Seq<char>, k: int) -> Option<int>
    decreases keywords().len() - k,
{
    if k < 0 || k >= keywords().len() {
        None
    } else if keyword_matches(line, keywords()[k]) {
        Some(k)
    } else {
        keyword_from(line, k + 1)
    }
}

/// The name and the argument text of `line`, if it is a directive: it begins
/// with a keyword, then white space, then the arguments. The name is the
/// keyword in capitals, however the line writes it.
pub open spec fn directive(line: Seq<char>) -> Option<(Seq<char>, Seq<char>)> {
    match keyword_from(line, 0) {
        Some(k) => {
            let kw = keywords()[k];
            let rest = line.subrange(kw.len() as int, line.len() as int);
            Some((kw, trim_start(rest)))
        },
        None => None,
    }
}

/// Whether a trimmed line is blank or a comment.
pub open spec fn is_skipped(line: Seq<char>) -> bool {
    line.len() == 0 || line[0] == '#'
}

/// Whether a trimmed line ends in the continuation marker.
pub open spec fn is_continued(line: Seq<char>) -> bool {
    line.len() > 0 && line.last() == '\\'
}

/// `args` without the continuation marker at its end and the white space
/// before it.
pub open spec fn strip_marker(args: Seq<char>) -> Seq<char> {
    if is_continued(args) {
        trim_end(args.drop_last())
    } else {
        args
    }
}

/// Joins to a directive, whose arguments and raw text up to line `i` are `args`
/// and `raw`, the lines that continue it: as long as the last line ends in the
/// continuation marker, the marker and the white space before it are taken off
/// the arguments, and the next line, if there is one, is joined to them by a
/// single space and to the raw text by a line feed. Joining ends at a line without a marker, or where the script
/// ends. Gives the joined arguments, the joined raw text and the index of the
/// directive's last line.
pub open spec fn join_continuations(
    lines: Seq<Seq<char>>,
    i: int,
    args: Seq<char>,
    raw: Seq<char>,
) -> (Seq<char>, Seq<char>, int)
    decreases lines.len() - i,
{
    if 0 <= i && i + 1 < lines.len() && is_continued(lines[i]) {
        join_continuations(
            lines,
            i + 1,
            strip_marker(args) + seq![' '] + lines[i + 1],
            raw + seq!['\n'] + lines[i + 1],
        )
    } else if 0 <= i < lines.len() && is_continued(lines[i]) {
        (strip_marker(args), raw, i)
    } else {
        (args, raw, i)
    }
}

/// The instructions of the trimmed lines `lines[i..]`. A line that is blank, a
/// comment or no directive is passed over. A directive takes the lines that
/// continue it along, whatever they hold, and the next instruction is looked
/// for after them.
pub open spec fn parse_from(lines: Seq<Seq<char>>, i: int) -> Seq<InstructionView>
    decreases lines.len() - i,
{
    if i < 0 || i >= lines.len() {
        Seq::empty()
    } else if is_skipped(lines[i]) {
        parse_from(lines, i + 1)
    } else {
        match directive(lines[i]) {
            Some((name, args)) => {
                let joined = join_continuations(lines, i, args, lines[i]);
                proof {
                    lemma_join_continuations(lines, i, args, lines[i]);
                }
                seq![
                    InstructionView {
                        name: name,
                        arguments: trim(joined.0),
                        line_number: (i + 1) as nat,
                        raw_line: joined.1,
                    },
                ] + parse_from(lines, joined.2 + 1)
            },
            None => parse_from(lines, i + 1),
        }
    }
}

/// The instructions of a build script.
pub open spec fn parse(content: Seq<char>) -> Seq<InstructionView> {
    parse_from(trimmed_lines(content), 0)
}

/// The last line of a directive is a line of the script, and not before the
/// directive's first.
pub proof fn lemma_join_continuations(
    lines: Seq<Seq<char>>,
    i: int,
    args: Seq<char>,
    raw: Seq<char>,
)
    requires
        0 <= i < lines.len(),
    ensures
        i <= join_continuations(lines, i, args, raw).2 < lines.len(),
    decreases lines.len() - i,
{
    if i + 1 < lines.len() && is_continued(lines[i]) {
        lemma_join_continuations(
            lines,
            i + 1,
            strip_marker(args) + seq![' '] + lines[i + 1],
            raw + seq!['\n'] + lines[i + 1],
        );
    }
}

/// The keywords as character vectors, in the order of [`keywords`].
fn keyword_table() -> (table: Vec<Vec<char>>)
    ensures
        line_views(table@) == keywords(),
{
    let names: Vec<&'static str> = vec![
        "FROM",
        "RUN",
        "CMD",
        "LABEL",
        "EXPOSE",
        "ENV",
        "ADD",
        "COPY",
        "ENTRYPOINT",
        "VOLUME",
        "USER",
        "WORKDIR",
        "ARG",
        "ONBUILD",
        "STOPSIGNAL",
        "HEALTHCHECK",
        "SHELL",
        "MAINTAINER",
    ];
    let mut table: Vec<Vec<char>> = Vec::new();
    let mut k: usize = 0;
    while k < names.len()
        invariant
            k <= names.len(),
            names@.len() == 18,
            forall|j: int| 0 <= j < 18 ==> (#[trigger] names@[j])@ == keywords()[j],
            table@.len() == k,
            forall|j: int| 0 <= j < k ==> (#[trigger] table@[j])@ == keywords()[j],
        decreases names.len() - k,
    {
        table.push(to_chars(names[k]));
        k += 1;
    }
    assert(line_views(table@) =~= keywords());
    table
}

/// Whether `c` stands for the keyword letter `k`.
fn letter_matches_exec(c: char, k: char) -> (r: bool)
    ensures
        r == letter_matches(c, k),
{
    let n: u32 = c as u32;
    let m: u32 = k as u32;
    n == m || (m <= 0x10FFFF && n == m + 0x20) || (m == 0x53 && n == 0x17F) || (m == 0x4B && n
        == 0x212A)
}

/// Whether `line` begins with the keyword `kw` and white space.
fn keyword_matches_exec(line: &Vec<char>, kw: &Vec<char>) -> (r: bool)
    ensures
        r == keyword_matches(line@, kw@),
{
    if kw.len() >= line.len() {
        return false;
    }
    let mut i: usize = 0;
    while i < kw.len()
        invariant
            i <= kw.len() < line.len(),
            forall|j: int| 0 <= j < i ==> letter_matches(#[trigger] line@[j], kw@[j]),
        decreases kw.len() - i,
    {
        if !letter_matches_exec(line[i], kw[i]) {
            return false;
        }
        i += 1;
    }
    is_whitespace(line[kw.len()])
}

/// The directive on `line`, if it is one: its name and its argument text.
fn match_directive(line: &Vec<char>, table: &Vec<Vec<char>>) -> (r: Option<(String, Vec<char>)>)
    requires
        line_views(table@) == keywords(),
    ensures
        match r {
            Some((name, args)) => directive(line@) == Some((name@, args@)),
            None => directive(line@) is None,
        },
{
    let mut k: usize = 0;
    assert(table@.len() == keywords().len());
    while k < table.len()
        invariant
            k <= table.len(),
            line_views(table@) == keywords(),
            keyword_from(line@, 0) == keyword_from(line@, k as int),
        decreases table.len() - k,
    {
        let kw = &table[k];
        assert(kw@ == line_views(table@)[k as int]);
        if keyword_matches_exec(line, kw) {
            let name = from_chars(kw, 0, kw.len());
            assert(kw@.subrange(0, kw@.len() as int) == kw@);
            let ghost rest = line@.subrange(kw@.len() as int, line@.len() as int);
            let mut a: usize = kw.len();
            while a < line.len() && is_whitespace(line[a])
                invariant
                    kw.len() <= a <= line.len(),
                    rest == line@.subrange(kw@.len() as int, line@.len() as int),
                    trim_start(rest) == trim_start(line@.subrange(a as int, line@.len() as int)),
                decreases line.len() - a,
            {
                assert(line@.subrange(a as int, line@.len() as int).subrange(1, line@.len() - a)
                    == line@.subrange(a + 1, line@.len() as int));
                a += 1;
            }
            let args = copy_range(line, a, line.len());
            return Some((name, args));
        }
        k += 1;
    }
    None
}

impl DockerfileParser {
    /// Parses the text of a build script. Lines that are blank, comments or no
    /// directive are passed over; parsing never fails.
    pub fn parse_content(content: &str) -> (parser: Self)
        ensures
            parser.instructions.deep_view() == parse(content@),
            parser.raw_content@ == content@,
    {
        let lines = lines_trimmed(content);
        let table = keyword_table();
        let ghost ls = line_views(lines@);
        let mut instructions: Vec<Instruction> = Vec::new();
        let mut i: usize = 0;
        assert(instructions.deep_view() =~= Seq::<InstructionView>::empty());
        while i < lines.len()
            invariant
                i <= lines.len(),
                ls == line_views(lines@),
                line_views(table@) == keywords(),
                parse_from(ls, 0) == instructions.deep_view() + parse_from(ls, i as int),
            decreases lines.len() - i,
        {
            let line = &lines[i];
            assert(line@ == ls[i as int]);
            let mut next: usize = i + 1;
            if line.len() > 0 && line[0] != '#' {
                match match_directive(line, &table) {
                    Some((name, args)) => {
                        let mut arguments = args;
                        let mut raw = copy_range(line, 0, line.len());
                        assert(raw@ == line@);
                        let mut j: usize = i;
                        let ghost start_args = arguments@;
                        proof {
                            lemma_join_continuations(ls, i as int, start_args, line@);
                        }
                        while j + 1 < lines.len() && ends_with_marker(&lines[j])
                            invariant
                                i <= j < lines.len(),
                                ls == line_views(lines@),
                                join_continuations(ls, i as int, start_args, ls[i as int])
                                    == join_continuations(ls, j as int, arguments@, raw@),
                            decreases lines.len() - j,
                        {
                            assert(lines@[j as int]@ == ls[j as int]);
                            let ghost old_args = arguments@;
                            let ghost old_raw = raw@;
                            j += 1;
                            let cont = &lines[j];
                            assert(cont@ == ls[j as int]);
                            take_marker_off(&mut arguments);
                            arguments.push(' ');
                            append_chars(&mut arguments, cont);
                            raw.push('\n');
                            append_chars(&mut raw, cont);
                            assert(arguments@ =~= strip_marker(old_args) + seq![' '] + cont@);
                            assert(raw@ =~= old_raw + seq!['\n'] + cont@);
                        }
                        assert(lines@[j as int]@ == ls[j as int]);
                        if ends_with_marker(&lines[j]) {
                            take_marker_off(&mut arguments);
                        }
                        let (a, b) = trim_bounds(&arguments, 0, arguments.len());
                        assert(arguments@.subrange(0, arguments@.len() as int) == arguments@);
                        let instruction = Instruction {
                            name,
                            arguments: from_chars(&arguments, a, b),
                            line_number: i + 1,
                            raw_line: from_chars(&raw, 0, raw.len()),
                        };
                        assert(raw@.subrange(0, raw@.len() as int) == raw@);
                        let ghost before = instructions.deep_view();
                        instructions.push(instruction);
                        assert(instructions.deep_view() =~= before.push(instruction@));
                        next = j + 1;
                    },
                    None => {},
                }
            }
            i = next;
        }
        DockerfileParser { instructions, raw_content: content.to_owned() }
    }

    /// The instructions with the directive name `name`, the case of ASCII letters
    /// aside, in the order of the text.
    pub fn get_instructions(&self, name: &str) -> (found: Vec<&Instruction>)
        ensures
            found.deep_view() == named(self.instructions.deep_view(), name@),
    {
        let mut found: Vec<&Instruction> = Vec::new();
        let ghost all = self.instructions.deep_view();
        let mut i: usize = 0;
        proof {
            reveal(Seq::filter);
            assert(all.take(0) =~= Seq::empty());
            assert(found.deep_view() =~= Seq::empty());
        }
        while i < self.instructions.len()
            invariant
                i <= self.instructions.len(),
                all == self.instructions.deep_view(),
                found.deep_view() == named(all.take(i as int), name@),
            decreases self.instructions.len() - i,
        {
            let instruction = &self.instructions[i];
            let ghost before = found.deep_view();
            proof {
                reveal(Seq::filter);
                assert(all.take(i + 1).drop_last() == all.take(i as int));
                assert(all.take(i + 1).last() == instruction@);
            }
            if str_eq_ignore_ascii_case(instruction.name.as_str(), name) {
                found.push(instruction);
                assert(found.deep_view() =~= before.push(instruction@));
            }
            i += 1;
        }
        assert(all.take(i as int) =~= all);
        found
    }

    /// Whether there is an instruction with the directive name `name`, the case
    /// of ASCII letters aside.
    pub fn has_instruction(&self, name: &str) -> (found: bool)
        ensures
            found == has_named(self.instructions.deep_view(), name@),
    {
        let mut i: usize = 0;
        while i < self.instructions.len()
            invariant
                i <= self.instructions.len(),
                forall|j: int|
                    0 <= j < i ==> !is_named(#[trigger] self.instructions.deep_view()[j], name@),
            decreases self.instructions.len() - i,
        {
            if str_eq_ignore_ascii_case(self.instructions[i].name.as_str(), name) {
                assert(is_named(self.instructions.deep_view()[i as int], name@));
                return true;
            }
            i += 1;
        }
        false
    }
}

/// Takes the continuation marker at the end of `args`, and the white space
/// before it, off.
fn take_marker_off(args: &mut Vec<char>)
    ensures
        final(args)@ == strip_marker(old(args)@),
{
    if ends_with_marker(args) {
        args.pop();
        while args.len() > 0 && is_whitespace(args[args.len() - 1])
            invariant
                trim_end(args@) == trim_end(old(args)@.drop_last()),
            decreases args.len(),
        {
            args.pop();
        }
    }
}

/// Whether `line` ends in the continuation marker.
fn ends_with_marker(line: &Vec<char>) -> (r: bool)
    ensures
        r == is_continued(line@),
{
    line.len() > 0 && line[line.len() - 1] == '\\'
}

} // verus!
