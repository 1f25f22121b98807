//! Scores from 0 to 10, one for each concern and one overall, derived from the
//! issues of a report.

use crate::rules::rule::{Issue, IssueView};
use crate::rules::severity::Severity;
use crate::text::{decimal, decimal_string, is_any, push_decimal, str_is_any, str_views};
use vstd::prelude::*;
use vstd::string::StringExecFns;

verus! {

/// A score, and the score that mending every issue would give.
#[derive(Debug, Clone, Copy, PartialEq, Eq, Structural)]
pub struct Score {
    pub current: u8,
    pub potential: u8,
}

/// The scores of a report.
#[derive(Debug, Clone, Copy, PartialEq, Eq, Structural)]
pub struct Scores {
    pub performance: Score,
    pub security: Score,
    pub maintainability: Score,
    pub overall: Score,
}

/// The score without any issue, which is also the highest.
pub const CEILING: u8 = 10;

impl Scores {
    /// Whether every score is one of 0 to 10.
    pub open spec fn in_range(self) -> bool {
        &&& self.performance.current <= CEILING
        &&& self.security.current <= CEILING
        &&& self.maintainability.current <= CEILING
        &&& self.overall.current <= CEILING
    }
}

impl Scores {
    /// Whether every score is one of 0 to 10.
    pub fn is_in_range(&self) -> (ok: bool)
        ensures
            ok == self.in_range(),
    {
        self.performance.current <= CEILING && self.security.current <= CEILING
            && self.maintainability.current <= CEILING && self.overall.current <= CEILING
    }
}

impl Score {
    /// The score in words: what it is, and what it could be.
    pub open spec fn spec_display(self) -> Seq<char> {
        decimal(self.current as nat) + "/10 → "@ + decimal(self.potential as nat) + "/10"@
    }

    /// The score in words: what it is, and what it could be.
    pub fn display(&self) -> (r: String)
        ensures
            r@ == self.spec_display(),
    {
        let mut r = decimal_string(self.current as usize);
        r.append("/10 → ");
        push_decimal(&mut r, self.potential as usize);
        r.append("/10");
        r
    }
}

/// The codes of the rules that count towards the security score.
pub open spec fn security_rules() -> Seq<Seq<char>> {
    seq!["DF001"@, "DF002"@, "DF006"@, "DF010"@, "DC002"@, "DC004"@, "DC005"@]
}

/// The codes of the rules that count towards the performance score.
pub open spec fn performance_rules() -> Seq<Seq<char>> {
    seq!["DF003"@, "DF004"@, "DF007"@, "DF008"@, "DF009"@]
}

/// The codes of the rules that count towards the maintainability score.
pub open spec fn maintainability_rules() -> Seq<Seq<char>> {
    seq!["DF005"@, "DC001"@, "DC003"@]
}

/// What one issue of the given severity takes off a score.
pub open spec fn deduction(severity: Severity) -> nat {
    match severity {
        Severity::Critical => 3,
        Severity::Warning => 2,
        Severity::Suggestion => 1,
    }
}

/// What the issues of the rules `rule_ids` among `issues` take off a score,
/// together.
pub open spec fn total_deduction(issues: Seq<IssueView>, rule_ids: Seq<Seq<char>>) -> nat
    decreases issues.len(),
{
    if issues.len() == 0 {
        0
    } else {
        total_deduction(issues.drop_last(), rule_ids) + (if is_any(
            issues.last().rule_id,
            rule_ids,
        ) {
            deduction(issues.last().severity)
        } else {
            0
        })
    }
}

/// The score of the concern that the rules `rule_ids` stand for: 10, less what
/// their issues take off, and never below 0.
pub open spec fn category_score(issues: Seq<IssueView>, rule_ids: Seq<Seq<char>>) -> nat {
    if total_deduction(issues, rule_ids) >= 10 {
        0
    } else {
        (10 - total_deduction(issues, rule_ids)) as nat
    }
}

/// The overall score: the scores of the three concerns, weighted 4, 3 and 3,
/// averaged and rounded down.
pub open spec fn overall_score(security: nat, performance: nat, maintainability: nat) -> nat {
    (security * 4 + performance * 3 + maintainability * 3) / 10
}

/// The scores of a report with the issues `issues`.
pub open spec fn scores_of(issues: Seq<IssueView>) -> Scores {
    let security = category_score(issues, security_rules());
    let performance = category_score(issues, performance_rules());
    let maintainability = category_score(issues, maintainability_rules());
    Scores {
        performance: Score { current: performance as u8, potential: CEILING },
        security: Score { current: security as u8, potential: CEILING },
        maintainability: Score { current: maintainability as u8, potential: CEILING },
        overall: Score {
            current: overall_score(security, performance, maintainability) as u8,
            potential: CEILING,
        },
    }
}

/// The score of the concern that the rules `rule_ids` stand for.
pub fn calculate_category_score(issues: &[Issue], rule_ids: &Vec<&'static str>) -> (score: u8)
    ensures
        score == category_score(issues.deep_view(), str_views(rule_ids@)),
        score <= 10,
{
    let ghost all = issues.deep_view();
    let ghost ids = str_views(rule_ids@);
    let mut score: u8 = 10;
    let mut i: usize = 0;
    assert(all.take(0) =~= Seq::empty());
    while i < issues.len()
        invariant
            i <= issues.len(),
            all == issues.deep_view(),
            ids == str_views(rule_ids@),
            score <= 10,
            score == category_score(all.take(i as int), ids),
        decreases issues.len() - i,
    {
        let issue = &issues[i];
        assert(all.take(i + 1).drop_last() == all.take(i as int));
        assert(all.take(i + 1).last() == issue@);
        if str_is_any(issue.rule_id.as_str(), rule_ids) {
            let off: u8 = match issue.severity {
                Severity::Critical => 3,
                Severity::Warning => 2,
                Severity::Suggestion => 1,
            };
            score = if score >= off {
                score - off
            } else {
                0
            };
        }
        i += 1;
    }
    assert(all.take(i as int) =~= all);
    score
}

fn security_rule_list() -> (list: Vec<&'static str>)
    ensures
        str_views(list@) == security_rules(),
{
    let list = vec!["DF001", "DF002", "DF006", "DF010", "DC002", "DC004", "DC005"];
    assert(str_views(list@) =~= security_rules());
    list
}

fn performance_rule_list() -> (list: Vec<&'static str>)
    ensures
        str_views(list@) == performance_rules(),
{
    let list = vec!["DF003", "DF004", "DF007", "DF008", "DF009"];
    assert(str_views(list@) =~= performance_rules());
    list
}

fn maintainability_rule_list() -> (list: Vec<&'static str>)
    ensures
        str_views(list@) == maintainability_rules(),
{
    let list = vec!["DF005", "DC001", "DC003"];
    assert(str_views(list@) =~= maintainability_rules());
    list
}

/// The scores of a report with the issues `issues`.
pub fn calculate_scores(issues: &[Issue]) -> (scores: Scores)
    ensures
        scores == scores_of(issues.deep_view()),
        scores.in_range(),
{
    let security = calculate_category_score(issues, &security_rule_list());
    let performance = calculate_category_score(issues, &performance_rule_list());
    let maintainability = calculate_category_score(issues, &maintainability_rule_list());
    let overall = (security * 4 + performance * 3 + maintainability * 3) / 10;
    Scores {
        performance: Score { current: performance, potential: CEILING },
        security: Score { current: security, potential: CEILING },
        maintainability: Score { current: maintainability, potential: CEILING },
        overall: Score { current: overall, potential: CEILING },
    }
}

} // verus!
