//! The report as it is shown on a terminal.

use super::span::{
    append_spans, no_span, plain, plain_text, push_plain, push_repeated, push_span,
    push_str_span, repeated, styled, text_of, Span, SpanView, Style,
};
use super::OutputFormatter;
use crate::analyzer::report::{with_severity, Report, ReportView};
use crate::rules::rule::{ImpactView, Issue, IssueView};
use crate::rules::severity::Severity;
use crate::scoring::{Score, Scores};
use crate::text::{decimal, decimal_string};
use vstd::prelude::*;
use vstd::string::StringExecFns;

verus! {

/// The layout of reports for a terminal.
#[derive(Debug, Clone, Copy, PartialEq, Eq, Structural)]
pub struct TerminalOutput {
    /// Whether each issue is shown with what mending it gains.
    pub verbose: bool,
    /// Whether the estimated impact is shown.
    pub show_impact: bool,
}

/// The style of a score's bar: green from 8 on, yellow from 5 on, red below.
pub open spec fn bar_style(score: u8) -> Style {
    if score >= 8 {
        Style::Green
    } else if score >= 5 {
        Style::Yellow
    } else {
        Style::Red
    }
}

/// A score as a bar of ten cells, as many of them filled as the score says,
/// and in figures.
pub open spec fn score_bar(score: u8) -> Seq<SpanView> {
    seq![
        styled(
            repeated('█', score as nat) + repeated('░', (10 - score) as nat),
            bar_style(score),
        ),
        plain(" "@ + decimal(score as nat) + "/10"@),
    ]
}

/// The style of the badge of an issue of the severity `severity`.
pub open spec fn badge_style(severity: Severity) -> Style {
    match severity {
        Severity::Critical => Style::Red,
        Severity::Warning => Style::Yellow,
        Severity::Suggestion => Style::Blue,
    }
}

/// A line of an issue's impact: `label`, then the text of `part`, if there is
/// one.
pub open spec fn impact_line(label: Seq<char>, part: Option<Seq<char>>) -> Seq<SpanView> {
    match part {
        Some(t) => seq![plain("    "@), styled(label, Style::Dimmed), plain(" "@ + t + "\n"@)],
        None => Seq::empty(),
    }
}

/// The lines of an issue's impact.
pub open spec fn impact_lines(impact: Option<ImpactView>) -> Seq<SpanView> {
    match impact {
        Some(i) => impact_line("Build:"@, i.build_time_improvement) + impact_line(
            "Size:"@,
            i.image_size_reduction,
        ) + impact_line("Security:"@, i.security_improvement),
        None => Seq::empty(),
    }
}

/// The line of an issue that tells how to mend it.
pub open spec fn fix_line(fix: Option<Seq<char>>) -> Seq<SpanView> {
    match fix {
        Some(f) => seq![plain("    "@), styled("Fix:"@, Style::Green), plain(" "@ + f + "\n"@)],
        None => Seq::empty(),
    }
}

/// Where an issue is, as it is shown after the issue's name.
pub open spec fn line_info(line_number: Option<nat>) -> Seq<char> {
    match line_number {
        Some(n) => ":"@ + decimal(n),
        None => Seq::empty(),
    }
}

/// One issue: its badge, name and line, its message, how to mend it, and, where
/// both are asked for, what mending gains.
pub open spec fn issue_spans(issue: IssueView, verbose: bool, show_impact: bool) -> Seq<SpanView> {
    seq![
        plain("  "@),
        styled("["@ + issue.rule_id + "]"@, badge_style(issue.severity)),
        plain(" "@),
        styled(issue.rule_name, Style::Bold),
        plain(" "@),
        styled(line_info(issue.line_number), Style::Dimmed),
        plain("\n    "@ + issue.message + "\n"@),
    ] + fix_line(issue.fix_suggestion) + (if verbose && show_impact {
        impact_lines(issue.impact)
    } else {
        Seq::empty()
    }) + seq![plain("\n"@)]
}

/// The issues of `issues`, one after the other.
pub open spec fn issue_list(issues: Seq<IssueView>, verbose: bool, show_impact: bool) -> Seq<
    SpanView,
>
    decreases issues.len(),
{
    if issues.len() == 0 {
        Seq::empty()
    } else {
        issue_list(issues.drop_last(), verbose, show_impact) + issue_spans(
            issues.last(),
            verbose,
            show_impact,
        )
    }
}

/// The heading over the issues of the severity `severity`.
pub open spec fn section_heading(severity: Severity) -> SpanView {
    match severity {
        Severity::Critical => styled("✗ Critical Issues"@, Style::RedBold),
        Severity::Warning => styled("⚠ Warnings"@, Style::YellowBold),
        Severity::Suggestion => styled("ℹ Suggestions"@, Style::BlueBold),
    }
}

/// The issues of the severity `severity` under their heading; nothing where
/// there are none.
pub open spec fn section(
    issues: Seq<IssueView>,
    severity: Severity,
    verbose: bool,
    show_impact: bool,
) -> Seq<SpanView> {
    let members = with_severity(issues, severity);
    if members.len() == 0 {
        Seq::empty()
    } else {
        seq![section_heading(severity), plain("\n"@)] + issue_list(members, verbose, show_impact)
            + seq![plain("\n"@)]
    }
}

/// The head of a report: its title, the file, and the scores as bars.
pub open spec fn head(file_path: Seq<char>, scores: Scores) -> Seq<SpanView> {
    seq![
        plain("\n"@),
        styled("Docker Review Report"@, Style::BoldUnderline),
        plain("\nFile: "@),
        styled(file_path, Style::Cyan),
        plain("\n\n"@),
        styled("📊 Scores"@, Style::Bold),
        plain("\n  Security:       "@),
    ] + score_bar(scores.security.current) + seq![plain("\n  Performance:    "@)] + score_bar(
        scores.performance.current,
    ) + seq![plain("\n  Maintainability:"@)] + score_bar(scores.maintainability.current) + seq![
        plain("\n  Overall:        "@),
    ] + score_bar(scores.overall.current) + seq![plain("\n\n"@)]
}

/// The summary of the issues: how many there are of each severity.
pub open spec fn summary(issues: Seq<IssueView>) -> Seq<SpanView> {
    seq![
        styled("📋 Issues Summary"@, Style::Bold),
        plain("\n  "@),
        styled(decimal(with_severity(issues, Severity::Critical).len()), Style::RedBold),
        plain(" Critical, "@),
        styled(decimal(with_severity(issues, Severity::Warning).len()), Style::YellowBold),
        plain(" Warnings, "@),
        styled(decimal(with_severity(issues, Severity::Suggestion).len()), Style::BlueBold),
        plain(" Suggestions\n\n"@),
    ]
}

/// One line of the estimated impact: a score, and what it could be.
pub open spec fn improvement(label: Seq<char>, score: Score, end: Seq<char>) -> SpanView {
    plain(label + decimal(score.current as nat) + " → "@ + decimal(score.potential as nat) + end)
}

/// The estimated impact of mending every issue.
pub open spec fn estimated_impact(scores: Scores) -> Seq<SpanView> {
    seq![
        styled("📈 Estimated Impact"@, Style::Bold),
        plain("\n  Fixing all issues could improve:\n"@),
        improvement("  • Security score:       "@, scores.security, "\n"@),
        improvement("  • Performance score:    "@, scores.performance, "\n"@),
        improvement("  • Maintainability score:"@, scores.maintainability, "\n\n"@),
    ]
}

impl TerminalOutput {
    /// The layout of `report`: its head; then, where there is no issue, a word
    /// of praise, and else the summary, the issues by severity, and, where it
    /// is asked for, the estimated impact.
    pub open spec fn layout(self, report: ReportView) -> Seq<SpanView> {
        if report.issues.len() == 0 {
            head(report.file_path, report.scores) + seq![
                styled("✅ No issues found! Great job!"@, Style::GreenBold),
                plain("\n"@),
            ]
        } else {
            head(report.file_path, report.scores) + summary(report.issues) + section(
                report.issues,
                Severity::Critical,
                self.verbose,
                self.show_impact,
            ) + section(report.issues, Severity::Warning, self.verbose, self.show_impact)
                + section(report.issues, Severity::Suggestion, self.verbose, self.show_impact) + (
            if self.show_impact {
                estimated_impact(report.scores)
            } else {
                Seq::empty()
            })
        }
    }

    pub fn new(verbose: bool, show_impact: bool) -> (output: Self)
        ensures
            output.verbose == verbose,
            output.show_impact == show_impact,
    {
        TerminalOutput { verbose, show_impact }
    }

    /// Lays `report` out in styled spans.
    pub fn spans(&self, report: &Report) -> (spans: Vec<Span>)
        requires
            report.scores.in_range(),
        ensures
            spans.deep_view() == self.layout(report@),
    {
        let mut spans = head_spans(report.file_path.as_str(), &report.scores);
        if report.issues.len() == 0 {
            push_str_span(&mut spans, "✅ No issues found! Great job!", Style::GreenBold);
            push_plain(&mut spans, "\n");
            assert(spans.deep_view() =~= self.layout(report@));
            return spans;
        }
        let ghost h = spans.deep_view();
        append_spans(&mut spans, summary_spans(&report.issues));
        append_spans(
            &mut spans,
            section_spans(&report.issues, Severity::Critical, self.verbose, self.show_impact),
        );
        append_spans(
            &mut spans,
            section_spans(&report.issues, Severity::Warning, self.verbose, self.show_impact),
        );
        append_spans(
            &mut spans,
            section_spans(&report.issues, Severity::Suggestion, self.verbose, self.show_impact),
        );
        if self.show_impact {
            append_spans(&mut spans, estimated_impact_spans(&report.scores));
        } else {
            append_spans(&mut spans, no_span());
        }
        spans
    }
}

impl OutputFormatter for TerminalOutput {
    open spec fn accepts(&self, report: &Report) -> bool {
        report.scores.in_range()
    }

    open spec fn text(&self, report: &Report) -> Seq<char> {
        text_of(self.layout(report@))
    }

    /// The report as plain text: its layout, styles aside.
    fn format(&self, report: &Report) -> (out: String) {
        plain_text(&self.spans(report))
    }
}

/// A score as a bar and in figures.
pub fn format_score_bar(score: u8) -> (spans: Vec<Span>)
    requires
        score <= 10,
    ensures
        spans.deep_view() == score_bar(score),
{
    let filled: usize = score as usize;
    let empty: usize = 10 - filled;
    let mut bar = String::new();
    push_repeated(&mut bar, '█', filled);
    push_repeated(&mut bar, '░', empty);
    assert(bar@ =~= repeated('█', score as nat) + repeated('░', (10 - score) as nat));
    let style = if score >= 8 {
        Style::Green
    } else if score >= 5 {
        Style::Yellow
    } else {
        Style::Red
    };
    let mut figures = " ".to_owned();
    figures.append(decimal_string(filled).as_str());
    figures.append("/10");
    let mut spans: Vec<Span> = Vec::new();
    push_span(&mut spans, bar, style);
    push_span(&mut spans, figures, Style::Plain);
    assert(spans.deep_view() =~= score_bar(score));
    spans
}

/// The head of a report.
fn head_spans(file_path: &str, scores: &Scores) -> (spans: Vec<Span>)
    requires
        scores.in_range(),
    ensures
        spans.deep_view() == head(file_path@, *scores),
{
    let mut first: Vec<Span> = Vec::new();
    push_plain(&mut first, "\n");
    push_str_span(&mut first, "Docker Review Report", Style::BoldUnderline);
    push_plain(&mut first, "\nFile: ");
    push_str_span(&mut first, file_path, Style::Cyan);
    push_plain(&mut first, "\n\n");
    push_str_span(&mut first, "📊 Scores", Style::Bold);
    push_plain(&mut first, "\n  Security:       ");
    assert(first.deep_view() =~= seq![
        plain("\n"@),
        styled("Docker Review Report"@, Style::BoldUnderline),
        plain("\nFile: "@),
        styled(file_path@, Style::Cyan),
        plain("\n\n"@),
        styled("📊 Scores"@, Style::Bold),
        plain("\n  Security:       "@),
    ]);
    let mut spans = first;
    append_spans(&mut spans, format_score_bar(scores.security.current));
    push_plain(&mut spans, "\n  Performance:    ");
    append_spans(&mut spans, format_score_bar(scores.performance.current));
    push_plain(&mut spans, "\n  Maintainability:");
    append_spans(&mut spans, format_score_bar(scores.maintainability.current));
    push_plain(&mut spans, "\n  Overall:        ");
    append_spans(&mut spans, format_score_bar(scores.overall.current));
    push_plain(&mut spans, "\n\n");
    spans
}

/// The number of the issues of `issues` that have the severity `severity`.
pub fn count_with_severity(issues: &Vec<Issue>, severity: Severity) -> (n: usize)
    ensures
        n == with_severity(issues.deep_view(), severity).len(),
{
    let ghost all = issues.deep_view();
    let mut n: usize = 0;
    let mut i: usize = 0;
    proof {
        reveal(Seq::filter);
        assert(all.take(0) =~= Seq::empty());
    }
    while i < issues.len()
        invariant
            i <= issues.len(),
            all == issues.deep_view(),
            n <= i,
            n == with_severity(all.take(i as int), severity).len(),
        decreases issues.len() - i,
    {
        proof {
            reveal(Seq::filter);
            assert(all.take(i + 1).drop_last() == all.take(i as int));
            assert(all.take(i + 1).last() == issues@[i as int]@);
        }
        if issues[i].severity == severity {
            n += 1;
        }
        i += 1;
    }
    assert(all.take(i as int) =~= all);
    n
}

/// The summary of the issues.
fn summary_spans(issues: &Vec<Issue>) -> (spans: Vec<Span>)
    ensures
        spans.deep_view() == summary(issues.deep_view()),
{
    let mut spans: Vec<Span> = Vec::new();
    push_str_span(&mut spans, "📋 Issues Summary", Style::Bold);
    push_plain(&mut spans, "\n  ");
    push_span(
        &mut spans,
        decimal_string(count_with_severity(issues, Severity::Critical)),
        Style::RedBold,
    );
    push_plain(&mut spans, " Critical, ");
    push_span(
        &mut spans,
        decimal_string(count_with_severity(issues, Severity::Warning)),
        Style::YellowBold,
    );
    push_plain(&mut spans, " Warnings, ");
    push_span(
        &mut spans,
        decimal_string(count_with_severity(issues, Severity::Suggestion)),
        Style::BlueBold,
    );
    push_plain(&mut spans, " Suggestions\n\n");
    assert(spans.deep_view() =~= summary(issues.deep_view()));
    spans
}

/// A line of an issue's impact.
fn impact_line_spans(label: &str, part: &Option<String>) -> (spans: Vec<Span>)
    ensures
        spans.deep_view() == impact_line(label@, part.deep_view()),
{
    match part {
        Some(t) => {
            let mut spans: Vec<Span> = Vec::new();
            push_plain(&mut spans, "    ");
            push_str_span(&mut spans, label, Style::Dimmed);
            let mut rest = " ".to_owned();
            rest.append(t.as_str());
            rest.append("\n");
            push_span(&mut spans, rest, Style::Plain);
            assert(spans.deep_view() =~= impact_line(label@, part.deep_view()));
            spans
        },
        None => no_span(),
    }
}

/// One issue.
pub fn format_issue(issue: &Issue, verbose: bool, show_impact: bool) -> (spans: Vec<Span>)
    ensures
        spans.deep_view() == issue_spans(issue@, verbose, show_impact),
{
    let mut first: Vec<Span> = Vec::new();
    push_plain(&mut first, "  ");
    let mut badge = "[".to_owned();
    badge.append(issue.rule_id.as_str());
    badge.append("]");
    let style = match issue.severity {
        Severity::Critical => Style::Red,
        Severity::Warning => Style::Yellow,
        Severity::Suggestion => Style::Blue,
    };
    push_span(&mut first, badge, style);
    push_plain(&mut first, " ");
    push_str_span(&mut first, issue.rule_name.as_str(), Style::Bold);
    push_plain(&mut first, " ");
    let info = match issue.line_number {
        Some(n) => {
            let mut info = ":".to_owned();
            info.append(decimal_string(n).as_str());
            info
        },
        None => String::new(),
    };
    push_span(&mut first, info, Style::Dimmed);
    let mut message = "\n    ".to_owned();
    message.append(issue.message.as_str());
    message.append("\n");
    push_span(&mut first, message, Style::Plain);
    assert(first.deep_view() =~= seq![
        plain("  "@),
        styled("["@ + issue@.rule_id + "]"@, badge_style(issue@.severity)),
        plain(" "@),
        styled(issue@.rule_name, Style::Bold),
        plain(" "@),
        styled(line_info(issue@.line_number), Style::Dimmed),
        plain("\n    "@ + issue@.message + "\n"@),
    ]);
    let mut spans = first;
    match &issue.fix_suggestion {
        Some(f) => {
            let mut fix: Vec<Span> = Vec::new();
            push_plain(&mut fix, "    ");
            push_str_span(&mut fix, "Fix:", Style::Green);
            let mut rest = " ".to_owned();
            rest.append(f.as_str());
            rest.append("\n");
            push_span(&mut fix, rest, Style::Plain);
            assert(fix.deep_view() =~= fix_line(issue@.fix_suggestion));
            append_spans(&mut spans, fix);
        },
        None => {
            append_spans(&mut spans, no_span());
        },
    }
    if verbose && show_impact {
        match &issue.impact {
            Some(impact) => {
                let mut lines = impact_line_spans("Build:", &impact.build_time_improvement);
                let ghost empty = Seq::<SpanView>::empty();
                append_spans(
                    &mut lines,
                    impact_line_spans("Size:", &impact.image_size_reduction),
                );
                append_spans(
                    &mut lines,
                    impact_line_spans("Security:", &impact.security_improvement),
                );
                append_spans(&mut spans, lines);
            },
            None => {
                append_spans(&mut spans, no_span());
            },
        }
    } else {
        append_spans(&mut spans, no_span());
    }
    let mut end: Vec<Span> = Vec::new();
    push_plain(&mut end, "\n");
    assert(end.deep_view() =~= seq![plain("\n"@)]);
    append_spans(&mut spans, end);
    spans
}

/// The issues of the severity `severity` under their heading.
fn section_spans(
    issues: &Vec<Issue>,
    severity: Severity,
    verbose: bool,
    show_impact: bool,
) -> (spans: Vec<Span>)
    ensures
        spans.deep_view() == section(issues.deep_view(), severity, verbose, show_impact),
{
    if count_with_severity(issues, severity) == 0 {
        return no_span();
    }
    let ghost all = issues.deep_view();
    let mut listed: Vec<Span> = Vec::new();
    let mut i: usize = 0;
    proof {
        reveal(Seq::filter);
        assert(all.take(0) =~= Seq::empty());
        assert(listed.deep_view() =~= Seq::empty());
    }
    while i < issues.len()
        invariant
            i <= issues.len(),
            all == issues.deep_view(),
            listed.deep_view() == issue_list(
                with_severity(all.take(i as int), severity),
                verbose,
                show_impact,
            ),
        decreases issues.len() - i,
    {
        let ghost before = with_severity(all.take(i as int), severity);
        proof {
            reveal(Seq::filter);
            assert(all.take(i + 1).drop_last() == all.take(i as int));
            assert(all.take(i + 1).last() == issues@[i as int]@);
        }
        if issues[i].severity == severity {
            assert(before.push(issues@[i as int]@).drop_last() == before);
            append_spans(&mut listed, format_issue(&issues[i], verbose, show_impact));
        }
        i += 1;
    }
    assert(all.take(i as int) =~= all);
    let mut spans: Vec<Span> = Vec::new();
    let heading = match severity {
        Severity::Critical => Span { text: "✗ Critical Issues".to_owned(), style: Style::RedBold },
        Severity::Warning => Span { text: "⚠ Warnings".to_owned(), style: Style::YellowBold },
        Severity::Suggestion => Span { text: "ℹ Suggestions".to_owned(), style: Style::BlueBold },
    };
    spans.push(heading);
    push_plain(&mut spans, "\n");
    assert(spans.deep_view() =~= seq![section_heading(severity), plain("\n"@)]);
    append_spans(&mut spans, listed);
    let mut end: Vec<Span> = Vec::new();
    push_plain(&mut end, "\n");
    assert(end.deep_view() =~= seq![plain("\n"@)]);
    append_spans(&mut spans, end);
    spans
}

/// One line of the estimated impact.
fn improvement_text(label: &str, score: &Score, end: &str) -> (out: String)
    ensures
        out@ == improvement(label@, *score, end@).text,
{
    let mut out = label.to_owned();
    out.append(decimal_string(score.current as usize).as_str());
    out.append(" → ");
    out.append(decimal_string(score.potential as usize).as_str());
    out.append(end);
    out
}

/// The estimated impact of mending every issue.
fn estimated_impact_spans(scores: &Scores) -> (spans: Vec<Span>)
    ensures
        spans.deep_view() == estimated_impact(*scores),
{
    let mut spans: Vec<Span> = Vec::new();
    push_str_span(&mut spans, "📈 Estimated Impact", Style::Bold);
    push_plain(&mut spans, "\n  Fixing all issues could improve:\n");
    push_span(
        &mut spans,
        improvement_text("  • Security score:       ", &scores.security, "\n"),
        Style::Plain,
    );
    push_span(
        &mut spans,
        improvement_text("  • Performance score:    ", &scores.performance, "\n"),
        Style::Plain,
    );
    push_span(
        &mut spans,
        improvement_text("  • Maintainability score:", &scores.maintainability, "\n\n"),
        Style::Plain,
    );
    assert(spans.deep_view() =~= estimated_impact(*scores));
    spans
}

} // verus!
