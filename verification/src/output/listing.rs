//! The list of all rules, as it is shown on a terminal.

use super::span::{
    append_spans, plain, push_plain, push_span, push_str_span, styled, Span, SpanView, Style,
};
use crate::rules::registry::{
    compose_rules, dockerfile_rules, get_compose_rules, get_dockerfile_rules,
};
use crate::rules::rule::{Rule, RuleInfo};
use crate::rules::severity::Severity;
use vstd::prelude::*;
use vstd::string::StringExecFns;

verus! {

/// The style in which a severity is shown.
pub open spec fn severity_style(severity: Severity) -> Style {
    match severity {
        Severity::Critical => Style::Red,
        Severity::Warning => Style::Yellow,
        Severity::Suggestion => Style::Blue,
    }
}

/// One rule in the list: its code, severity and name, and under them its
/// description.
pub open spec fn rule_entry(info: RuleInfo) -> Seq<SpanView> {
    seq![
        plain("  "@),
        styled(info.id, Style::Bold),
        plain(" "@),
        styled("["@ + info.severity.spec_display() + "]"@, severity_style(info.severity)),
        plain(" - "@ + info.name + "\n      "@),
        styled(info.description, Style::Dimmed),
        plain("\n\n"@),
    ]
}

/// The rules described by `infos` in the list, one after the other.
pub open spec fn rule_entries(infos: Seq<RuleInfo>) -> Seq<SpanView>
    decreases infos.len(),
{
    if infos.len() == 0 {
        Seq::empty()
    } else {
        rule_entries(infos.drop_last()) + rule_entry(infos.last())
    }
}

/// What the rules of `rules` tell about themselves.
pub open spec fn infos_of<R: Rule>(rules: Seq<R>) -> Seq<RuleInfo> {
    rules.map_values(|rule: R| rule.info())
}

/// The list of all rules: those on build scripts, then those on descriptors,
/// each kind under its heading.
pub open spec fn rule_list() -> Seq<SpanView> {
    seq![styled("Dockerfile Rules:"@, Style::BoldUnderline), plain("\n\n"@)] + rule_entries(
        infos_of(dockerfile_rules()),
    ) + seq![styled("Docker Compose Rules:"@, Style::BoldUnderline), plain("\n\n"@)]
        + rule_entries(infos_of(compose_rules()))
}

/// One rule in the list.
fn entry_spans<R: Rule>(rule: &R) -> (spans: Vec<Span>)
    ensures
        spans.deep_view() == rule_entry(rule.info()),
{
    let mut spans: Vec<Span> = Vec::new();
    push_plain(&mut spans, "  ");
    push_str_span(&mut spans, rule.id(), Style::Bold);
    push_plain(&mut spans, " ");
    let severity = rule.severity();
    let mut badge = "[".to_owned();
    badge.append(severity.display().as_str());
    badge.append("]");
    let style = match severity {
        Severity::Critical => Style::Red,
        Severity::Warning => Style::Yellow,
        Severity::Suggestion => Style::Blue,
    };
    push_span(&mut spans, badge, style);
    let mut name = " - ".to_owned();
    name.append(rule.name());
    name.append("\n      ");
    push_span(&mut spans, name, Style::Plain);
    push_str_span(&mut spans, rule.description(), Style::Dimmed);
    push_plain(&mut spans, "\n\n");
    assert(spans.deep_view() =~= rule_entry(rule.info()));
    spans
}

/// The rules of `rules` in the list, one after the other.
fn entries_spans<R: Rule>(rules: &Vec<R>) -> (spans: Vec<Span>)
    ensures
        spans.deep_view() == rule_entries(infos_of(rules@)),
{
    let ghost infos = infos_of(rules@);
    let mut spans: Vec<Span> = Vec::new();
    let mut i: usize = 0;
    assert(infos.take(0) =~= Seq::empty());
    assert(spans.deep_view() =~= Seq::empty());
    while i < rules.len()
        invariant
            i <= rules.len(),
            infos == infos_of(rules@),
            spans.deep_view() == rule_entries(infos.take(i as int)),
        decreases rules.len() - i,
    {
        assert(infos.take(i + 1).drop_last() == infos.take(i as int));
        assert(infos.take(i + 1).last() == rules@[i as int].info());
        append_spans(&mut spans, entry_spans(&rules[i]));
        i += 1;
    }
    assert(infos.take(i as int) =~= infos);
    spans
}

/// The list of all rules.
pub fn rule_listing() -> (spans: Vec<Span>)
    ensures
        spans.deep_view() == rule_list(),
{
    let mut spans: Vec<Span> = Vec::new();
    push_str_span(&mut spans, "Dockerfile Rules:", Style::BoldUnderline);
    push_plain(&mut spans, "\n\n");
    assert(spans.deep_view() =~= seq![
        styled("Dockerfile Rules:"@, Style::BoldUnderline),
        plain("\n\n"@),
    ]);
    append_spans(&mut spans, entries_spans(&get_dockerfile_rules()));
    let mut second: Vec<Span> = Vec::new();
    push_str_span(&mut second, "Docker Compose Rules:", Style::BoldUnderline);
    push_plain(&mut second, "\n\n");
    assert(second.deep_view() =~= seq![
        styled("Docker Compose Rules:"@, Style::BoldUnderline),
        plain("\n\n"@),
    ]);
    append_spans(&mut spans, second);
    append_spans(&mut spans, entries_spans(&get_compose_rules()));
    spans
}

} // verus!
