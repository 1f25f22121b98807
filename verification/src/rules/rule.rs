//! Issues, and what every rule tells about itself.

use super::severity::Severity;
use vstd::prelude::*;
use vstd::string::StringExecFns;

verus! {

/// What fixing an issue is estimated to gain.
#[derive(Debug, Clone)]
pub struct ImpactEstimate {
    pub build_time_improvement: Option<String>,
    pub image_size_reduction: Option<String>,
    pub security_improvement: Option<String>,
    pub reliability_improvement: Option<String>,
}

/// The mathematical value of an [`ImpactEstimate`].
pub struct ImpactView {
    pub build_time_improvement: Option<Seq<char>>,
    pub image_size_reduction: Option<Seq<char>>,
    pub security_improvement: Option<Seq<char>>,
    pub reliability_improvement: Option<Seq<char>>,
}

/// The text that an optional string holds.
pub open spec fn text_of(s: Option<String>) -> Option<Seq<char>> {
    match s {
        Some(t) => Some(t@),
        None => None,
    }
}

impl View for ImpactEstimate {
    type V = ImpactView;

    open spec fn view(&self) -> ImpactView {
        ImpactView {
            build_time_improvement: text_of(self.build_time_improvement),
            image_size_reduction: text_of(self.image_size_reduction),
            security_improvement: text_of(self.security_improvement),
            reliability_improvement: text_of(self.reliability_improvement),
        }
    }
}

/// One finding of one rule.
#[derive(Debug, Clone)]
pub struct Issue {
    pub rule_id: String,
    pub rule_name: String,
    pub severity: Severity,
    /// The line that the issue is anchored at, if it has one.
    pub line_number: Option<usize>,
    pub message: String,
    pub fix_suggestion: Option<String>,
    pub impact: Option<ImpactEstimate>,
}

/// The line of an issue, as a mathematical value.
pub open spec fn line_of(line: Option<usize>) -> Option<nat> {
    match line {
        Some(n) => Some(n as nat),
        None => None,
    }
}

/// The mathematical value of an [`Issue`].
pub struct IssueView {
    pub rule_id: Seq<char>,
    pub rule_name: Seq<char>,
    pub severity: Severity,
    pub line_number: Option<nat>,
    pub message: Seq<char>,
    pub fix_suggestion: Option<Seq<char>>,
    pub impact: Option<ImpactView>,
}

impl View for Issue {
    type V = IssueView;

    open spec fn view(&self) -> IssueView {
        IssueView {
            rule_id: self.rule_id@,
            rule_name: self.rule_name@,
            severity: self.severity,
            line_number: line_of(self.line_number),
            message: self.message@,
            fix_suggestion: text_of(self.fix_suggestion),
            impact: match self.impact {
                Some(i) => Some(i@),
                None => None,
            },
        }
    }
}

impl DeepView for Issue {
    type V = IssueView;

    open spec fn deep_view(&self) -> IssueView {
        self@
    }
}

/// What a rule tells about itself.
pub struct RuleInfo {
    /// The rule's short code, which never changes.
    pub id: Seq<char>,
    pub name: Seq<char>,
    pub severity: Severity,
    pub description: Seq<char>,
    pub rationale: Seq<char>,
    pub fix_suggestion: Option<Seq<char>>,
    pub impact: Option<ImpactView>,
}

/// The issue that the rule described by `info` raises at `line_number` with
/// `message`.
pub open spec fn issue_of(
    info: RuleInfo,
    line_number: Option<nat>,
    message: Seq<char>,
) -> IssueView {
    IssueView {
        rule_id: info.id,
        rule_name: info.name,
        severity: info.severity,
        line_number: line_number,
        message: message,
        fix_suggestion: info.fix_suggestion,
        impact: info.impact,
    }
}

/// One line of an explanation: `label`, then the text of `part`, if there is one.
pub open spec fn impact_line(label: Seq<char>, part: Option<Seq<char>>) -> Seq<char> {
    match part {
        Some(t) => label + t + "\n"@,
        None => Seq::empty(),
    }
}

/// The part of an explanation that tells of the impact.
pub open spec fn impact_explanation(impact: Option<ImpactView>) -> Seq<char> {
    match impact {
        Some(i) => "\nImpact:\n"@ + impact_line("  Build time: "@, i.build_time_improvement)
            + impact_line("  Image size: "@, i.image_size_reduction) + impact_line(
            "  Security: "@,
            i.security_improvement,
        ) + impact_line("  Reliability: "@, i.reliability_improvement),
        None => Seq::empty(),
    }
}

/// The part of an explanation that tells how to mend.
pub open spec fn fix_explanation(fix: Option<Seq<char>>) -> Seq<char> {
    match fix {
        Some(f) => "\nSuggested Fix:\n  "@ + f + "\n"@,
        None => Seq::empty(),
    }
}

/// The part of an explanation that every rule has.
pub open spec fn head_explanation(info: RuleInfo) -> Seq<char> {
    "Rule: "@ + info.name + " ("@ + info.id + ")\n"@ + "Severity: "@ + info.severity.spec_display()
        + "\n\n"@ + "Description:\n  "@ + info.description + "\n\n"@ + "Rationale:\n  "@
        + info.rationale + "\n"@
}

/// The explanation of the rule described by `info`.
pub open spec fn explanation(info: RuleInfo) -> Seq<char> {
    head_explanation(info) + fix_explanation(info.fix_suggestion) + impact_explanation(info.impact)
}

/// Appends to `out` the line of an explanation for one part of an impact.
fn push_impact_line(out: &mut String, label: &str, part: &Option<String>)
    ensures
        final(out)@ == old(out)@ + impact_line(label@, text_of(*part)),
{
    match part {
        Some(t) => {
            out.append(label);
            out.append(t.as_str());
            out.append("\n");
            assert(out@ =~= old(out)@ + (label@ + t@ + "\n"@));
        },
        None => {
            assert(out@ =~= old(out)@ + Seq::<char>::empty());
        },
    }
}

/// The part of an explanation that tells of the impact.
fn explain_impact(impact: &Option<ImpactEstimate>) -> (out: String)
    ensures
        out@ == impact_explanation(
            match *impact {
                Some(i) => Some(i@),
                None => None,
            },
        ),
{
    match impact {
        Some(i) => {
            let mut out = "\nImpact:\n".to_owned();
            push_impact_line(&mut out, "  Build time: ", &i.build_time_improvement);
            push_impact_line(&mut out, "  Image size: ", &i.image_size_reduction);
            push_impact_line(&mut out, "  Security: ", &i.security_improvement);
            push_impact_line(&mut out, "  Reliability: ", &i.reliability_improvement);
            out
        },
        None => String::new(),
    }
}

/// The part of an explanation that tells how to mend.
fn explain_fix(fix: Option<&'static str>) -> (out: String)
    ensures
        out@ == fix_explanation(
            match fix {
                Some(f) => Some(f@),
                None => None,
            },
        ),
{
    match fix {
        Some(f) => {
            let mut out = "\nSuggested Fix:\n  ".to_owned();
            out.append(f);
            out.append("\n");
            out
        },
        None => String::new(),
    }
}

/// A rule: what it is called, how severe its findings are, and why it exists.
/// Rules hold no state.
pub trait Rule {
    /// What the rule tells about itself.
    spec fn info(&self) -> RuleInfo;

    /// Whether the rule can run: the regular expressions that it searches with
    /// compile.
    spec fn ready(&self) -> bool;

    /// The rule's short code.
    fn id(&self) -> (r: &'static str)
        ensures
            r@ == self.info().id,
    ;

    /// The rule's name.
    fn name(&self) -> (r: &'static str)
        ensures
            r@ == self.info().name,
    ;

    /// The severity of the rule's findings.
    fn severity(&self) -> (r: Severity)
        ensures
            r == self.info().severity,
    ;

    /// What the rule looks for, in a sentence.
    fn description(&self) -> (r: &'static str)
        ensures
            r@ == self.info().description,
    ;

    /// Why the rule exists.
    fn rationale(&self) -> (r: &'static str)
        ensures
            r@ == self.info().rationale,
    ;

    /// How to mend what the rule finds, if the rule says.
    fn fix_suggestion(&self) -> (r: Option<&'static str>)
        ensures
            match r {
                Some(s) => self.info().fix_suggestion == Some(s@),
                None => self.info().fix_suggestion is None,
            },
    ;

    /// What mending is estimated to gain, if the rule says.
    fn impact(&self) -> (r: Option<ImpactEstimate>)
        ensures
            match r {
                Some(i) => self.info().impact == Some(i@),
                None => self.info().impact is None,
            },
    ;

    /// The rule explained at length.
    fn explain(&self) -> (r: String)
        ensures
            r@ == explanation(self.info()),
    {
        let mut out = "Rule: ".to_owned();
        out.append(self.name());
        out.append(" (");
        out.append(self.id());
        out.append(")\n");
        out.append("Severity: ");
        out.append(self.severity().display().as_str());
        out.append("\n\n");
        out.append("Description:\n  ");
        out.append(self.description());
        out.append("\n\n");
        out.append("Rationale:\n  ");
        out.append(self.rationale());
        out.append("\n");
        out.append(explain_fix(self.fix_suggestion()).as_str());
        out.append(explain_impact(&self.impact()).as_str());
        out
    }
}

/// The issue that `rule` raises at `line_number` with `message`.
pub fn raise<R: Rule>(rule: &R, line_number: Option<usize>, message: String) -> (issue: Issue)
    ensures
        issue@ == issue_of(rule.info(), line_of(line_number), message@),
{
    let fix_suggestion = match rule.fix_suggestion() {
        Some(s) => Some(s.to_owned()),
        None => None,
    };
    Issue {
        rule_id: rule.id().to_owned(),
        rule_name: rule.name().to_owned(),
        severity: rule.severity(),
        line_number,
        message,
        fix_suggestion,
        impact: rule.impact(),
    }
}

/// Moves the issues of `more` to the end of `issues`.
pub fn append_issues(issues: &mut Vec<Issue>, more: Vec<Issue>)
    ensures
        final(issues).deep_view() == old(issues).deep_view() + more.deep_view(),
{
    let mut more = more;
    let ghost moved = more.deep_view();
    issues.append(&mut more);
    assert(issues.deep_view() =~= old(issues).deep_view() + moved);
}

/// The issue of `rule` at `line_number` with `message`, alone in a list.
pub fn one_issue<R: Rule>(rule: &R, line_number: Option<usize>, message: String) -> (issues: Vec<
    Issue,
>)
    ensures
        issues.deep_view() == seq![issue_of(rule.info(), line_of(line_number), message@)],
{
    let issue = raise(rule, line_number, message);
    let mut issues: Vec<Issue> = Vec::new();
    issues.push(issue);
    assert(issues.deep_view() =~= seq![issue@]);
    issues
}

/// No issue.
pub fn no_issue() -> (issues: Vec<Issue>)
    ensures
        issues.deep_view() == Seq::<IssueView>::empty(),
{
    let issues: Vec<Issue> = Vec::new();
    assert(issues.deep_view() =~= Seq::<IssueView>::empty());
    issues
}

} // verus!
