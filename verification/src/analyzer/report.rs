//! The report on one file: its issues, most severe first, and its scores.

use crate::rules::rule::{Issue, IssueView};
use crate::rules::severity::Severity;
use crate::scoring::{scores_of, total_deduction, Scores};
use vstd::prelude::*;

verus! {

/// The report on one file.
#[derive(Debug, Clone)]
pub struct Report {
    pub file_path: String,
    /// The issues, most severe first.
    pub issues: Vec<Issue>,
    pub scores: Scores,
}

/// The mathematical value of a [`Report`].
pub struct ReportView {
    pub file_path: Seq<char>,
    pub issues: Seq<IssueView>,
    pub scores: Scores,
}

impl View for Report {
    type V = ReportView;

    open spec fn view(&self) -> ReportView {
        ReportView {
            file_path: self.file_path@,
            issues: self.issues.deep_view(),
            scores: self.scores,
        }
    }
}

/// The test that [`with_severity`] filters by.
pub open spec fn severity_test(severity: Severity) -> spec_fn(IssueView) -> bool {
    |issue: IssueView| issue.severity == severity
}

/// The issues of `issues` that have the severity `severity`, in their order.
pub open spec fn with_severity(issues: Seq<IssueView>, severity: Severity) -> Seq<IssueView> {
    issues.filter(severity_test(severity))
}

/// The issues of `issues`, most severe first; issues of one severity keep
/// their order.
pub open spec fn by_severity(issues: Seq<IssueView>) -> Seq<IssueView> {
    with_severity(issues, Severity::Critical) + with_severity(issues, Severity::Warning)
        + with_severity(issues, Severity::Suggestion)
}

/// The test that [`at_least`] filters by.
pub open spec fn at_least_test(min: Severity) -> spec_fn(IssueView) -> bool {
    |issue: IssueView| issue.severity.spec_rank() >= min.spec_rank()
}

/// The issues of `issues` that are at least as severe as `min`, in their
/// order.
pub open spec fn at_least(issues: Seq<IssueView>, min: Severity) -> Seq<IssueView> {
    issues.filter(at_least_test(min))
}

/// The values of the issues of `issues`.
pub open spec fn issue_views(issues: Seq<Issue>) -> Seq<IssueView> {
    issues.map_values(|i: Issue| i@)
}

/// Sorts issues by severity, most severe first. The sort is stable: issues of
/// one severity keep their order.
pub fn sort_by_severity(issues: Vec<Issue>) -> (sorted: Vec<Issue>)
    ensures
        sorted.deep_view() == by_severity(issues.deep_view()),
{
    let mut critical: Vec<Issue> = Vec::new();
    let mut warning: Vec<Issue> = Vec::new();
    let mut suggestion: Vec<Issue> = Vec::new();
    let ghost all = issue_views(issues@);
    proof {
        reveal(Seq::filter);
        assert(all =~= issues.deep_view());
        assert(all.take(0) =~= Seq::empty());
        assert(critical.deep_view() =~= Seq::empty());
        assert(warning.deep_view() =~= Seq::empty());
        assert(suggestion.deep_view() =~= Seq::empty());
    }
    for issue in it: issues
        invariant
            all == issue_views(it.seq()),
            critical.deep_view() == with_severity(all.take(it.index() as int), Severity::Critical),
            warning.deep_view() == with_severity(all.take(it.index() as int), Severity::Warning),
            suggestion.deep_view() == with_severity(
                all.take(it.index() as int),
                Severity::Suggestion,
            ),
    {
        let ghost k = it.index() as int;
        let ghost c = critical.deep_view();
        let ghost w = warning.deep_view();
        let ghost s = suggestion.deep_view();
        proof {
            reveal(Seq::filter);
            assert(all.take(k + 1).drop_last() == all.take(k));
            assert(all.take(k + 1).last() == issue@);
        }
        match issue.severity {
            Severity::Critical => {
                critical.push(issue);
                assert(critical.deep_view() =~= c.push(issue@));
            },
            Severity::Warning => {
                warning.push(issue);
                assert(warning.deep_view() =~= w.push(issue@));
            },
            Severity::Suggestion => {
                suggestion.push(issue);
                assert(suggestion.deep_view() =~= s.push(issue@));
            },
        }
    }
    assert(all.take(all.len() as int) =~= all);
    let ghost c = critical.deep_view();
    let ghost w = warning.deep_view();
    let ghost s = suggestion.deep_view();
    critical.append(&mut warning);
    critical.append(&mut suggestion);
    assert(critical.deep_view() =~= c + w + s);
    critical
}

/// The issues of `issues` that are at least as severe as `min`, in their
/// order.
pub fn retain_at_least(issues: Vec<Issue>, min: Severity) -> (kept: Vec<Issue>)
    ensures
        kept.deep_view() == at_least(issues.deep_view(), min),
{
    let mut kept: Vec<Issue> = Vec::new();
    let ghost all = issue_views(issues@);
    proof {
        reveal(Seq::filter);
        assert(all =~= issues.deep_view());
        assert(all.take(0) =~= Seq::empty());
        assert(kept.deep_view() =~= Seq::empty());
    }
    for issue in it: issues
        invariant
            all == issue_views(it.seq()),
            kept.deep_view() == at_least(all.take(it.index() as int), min),
    {
        let ghost k = it.index() as int;
        let ghost before = kept.deep_view();
        proof {
            reveal(Seq::filter);
            assert(all.take(k + 1).drop_last() == all.take(k));
            assert(all.take(k + 1).last() == issue@);
        }
        if issue.severity.at_least(min) {
            kept.push(issue);
            assert(kept.deep_view() =~= before.push(issue@));
        }
    }
    assert(all.take(all.len() as int) =~= all);
    kept
}

/// Whether one of `issues` is at least as severe as `min`.
pub fn any_at_least(issues: &Vec<Issue>, min: Severity) -> (found: bool)
    ensures
        found == exists|i: int|
            0 <= i < issues.len() && (#[trigger] issues.deep_view()[i]).severity.spec_rank()
                >= min.spec_rank(),
{
    let mut i: usize = 0;
    while i < issues.len()
        invariant
            i <= issues.len(),
            forall|j: int|
                0 <= j < i ==> (#[trigger] issues.deep_view()[j]).severity.spec_rank()
                    < min.spec_rank(),
        decreases issues.len() - i,
    {
        if issues[i].severity.at_least(min) {
            assert(issues.deep_view()[i as int].severity.spec_rank() >= min.spec_rank());
            return true;
        }
        i += 1;
    }
    false
}

impl Report {
    /// The report with only the issues that are at least as severe as `min`;
    /// all of it where `min` is `None`. The scores stay those of all issues.
    pub fn filtered(self, min: Option<Severity>) -> (report: Report)
        ensures
            report.file_path@ == self.file_path@,
            report.scores == self.scores,
            report.issues.deep_view() == match min {
                Some(m) => at_least(self.issues.deep_view(), m),
                None => self.issues.deep_view(),
            },
    {
        match min {
            Some(m) => Report {
                file_path: self.file_path,
                issues: retain_at_least(self.issues, m),
                scores: self.scores,
            },
            None => self,
        }
    }

    /// Whether an issue of the report is at least as severe as `min`.
    pub fn fails_on(&self, min: Severity) -> (fails: bool)
        ensures
            fails == exists|i: int|
                0 <= i < self.issues.len() && (
                #[trigger] self.issues.deep_view()[i]).severity.spec_rank() >= min.spec_rank(),
    {
        any_at_least(&self.issues, min)
    }
}

/// The order of the severities is total, and no two severities have one place
/// in it.
pub proof fn lemma_severity_order_total(a: Severity, b: Severity)
    ensures
        a.spec_rank() <= b.spec_rank() || b.spec_rank() <= a.spec_rank(),
        a.spec_rank() == b.spec_rank() <==> a == b,
{
}

/// Filtering by a severity keeps nothing of issues that all have another, and
/// all of issues that all have it.
proof fn lemma_refilter(issues: Seq<IssueView>, had: Severity, wanted: Severity)
    ensures
        with_severity(with_severity(issues, had), wanted) == if had == wanted {
            with_severity(issues, had)
        } else {
            Seq::empty()
        },
    decreases issues.len(),
{
    reveal(Seq::filter);
    if issues.len() > 0 {
        lemma_refilter(issues.drop_last(), had, wanted);
        let rest = with_severity(issues.drop_last(), had);
        if issues.last().severity == had {
            assert(with_severity(issues, had) == rest.push(issues.last()));
            assert(rest.push(issues.last()).drop_last() == rest);
        }
    }
}

/// Every issue has exactly one severity.
proof fn lemma_severities_partition(issues: Seq<IssueView>)
    ensures
        with_severity(issues, Severity::Critical).len() + with_severity(
            issues,
            Severity::Warning,
        ).len() + with_severity(issues, Severity::Suggestion).len() == issues.len(),
        with_severity(issues, Severity::Critical).to_multiset().add(
            with_severity(issues, Severity::Warning).to_multiset(),
        ).add(with_severity(issues, Severity::Suggestion).to_multiset()) == issues.to_multiset(),
    decreases issues.len(),
{
    reveal(Seq::filter);
    broadcast use vstd::seq_lib::group_to_multiset_ensures;

    if issues.len() > 0 {
        let rest = issues.drop_last();
        lemma_severities_partition(rest);
        assert(issues == rest.push(issues.last()));
        let c = with_severity(rest, Severity::Critical).to_multiset();
        let w = with_severity(rest, Severity::Warning).to_multiset();
        let s = with_severity(rest, Severity::Suggestion).to_multiset();
        assert(rest.push(issues.last()).to_multiset() =~= rest.to_multiset().insert(issues.last()));
        match issues.last().severity {
            Severity::Critical => {
                assert(c.insert(issues.last()).add(w).add(s) =~= c.add(w).add(s).insert(
                    issues.last(),
                ));
            },
            Severity::Warning => {
                assert(c.add(w.insert(issues.last())).add(s) =~= c.add(w).add(s).insert(
                    issues.last(),
                ));
            },
            Severity::Suggestion => {
                assert(c.add(w).add(s.insert(issues.last())) =~= c.add(w).add(s).insert(
                    issues.last(),
                ));
            },
        }
    } else {
        assert(issues.to_multiset() =~= vstd::multiset::Multiset::empty());
    }
}

/// Sorting by severity is a stable sort. The sorted issues are the given ones,
/// each as often as given; no issue stands before a more severe one; and the
/// issues of each severity stand in the order in which they were given.
pub proof fn lemma_sort_is_stable(issues: Seq<IssueView>)
    ensures
        by_severity(issues).len() == issues.len(),
        by_severity(issues).to_multiset() == issues.to_multiset(),
        forall|i: int, j: int|
            0 <= i < j < by_severity(issues).len() ==> by_severity(issues)[i].severity.spec_rank()
                >= by_severity(issues)[j].severity.spec_rank(),
        forall|severity: Severity| #[trigger]
            with_severity(by_severity(issues), severity) == with_severity(issues, severity),
{
    let c = with_severity(issues, Severity::Critical);
    let w = with_severity(issues, Severity::Warning);
    let s = with_severity(issues, Severity::Suggestion);
    let sorted = by_severity(issues);
    lemma_severities_partition(issues);
    vstd::seq_lib::lemma_multiset_commutative(c, w);
    vstd::seq_lib::lemma_multiset_commutative(c + w, s);
    assert forall|k: int| 0 <= k < sorted.len() implies (#[trigger] sorted[k]).severity == (if k
        < c.len() {
        Severity::Critical
    } else if k < c.len() + w.len() {
        Severity::Warning
    } else {
        Severity::Suggestion
    }) by {
        if k < c.len() {
            issues.lemma_filter_pred(severity_test(Severity::Critical), k);
        } else if k < c.len() + w.len() {
            issues.lemma_filter_pred(severity_test(Severity::Warning), k - c.len());
        } else {
            issues.lemma_filter_pred(severity_test(Severity::Suggestion), k - c.len() - w.len());
        }
    }
    assert forall|severity: Severity| #[trigger]
        with_severity(sorted, severity) == with_severity(issues, severity) by {
        Seq::filter_distributes_over_add(c + w, s, severity_test(severity));
        Seq::filter_distributes_over_add(c, w, severity_test(severity));
        lemma_refilter(issues, Severity::Critical, severity);
        lemma_refilter(issues, Severity::Warning, severity);
        lemma_refilter(issues, Severity::Suggestion, severity);
        match severity {
            Severity::Critical => {
                assert(c + Seq::<IssueView>::empty() + Seq::<IssueView>::empty() =~= c);
            },
            Severity::Warning => {
                assert(Seq::<IssueView>::empty() + w + Seq::<IssueView>::empty() =~= w);
            },
            Severity::Suggestion => {
                assert(Seq::<IssueView>::empty() + Seq::<IssueView>::empty() + s =~= s);
            },
        }
    }
}

/// What issues take off a score, they take off together: the deduction of a
/// list is the sum of the deductions of its parts.
proof fn lemma_deduction_adds(a: Seq<IssueView>, b: Seq<IssueView>, rule_ids: Seq<Seq<char>>)
    ensures
        total_deduction(a + b, rule_ids) == total_deduction(a, rule_ids) + total_deduction(
            b,
            rule_ids,
        ),
    decreases b.len(),
{
    if b.len() == 0 {
        assert(a + b =~= a);
    } else {
        lemma_deduction_adds(a, b.drop_last(), rule_ids);
        assert((a + b).drop_last() =~= a + b.drop_last());
        assert((a + b).last() == b.last());
    }
}

/// The issues of each severity take off a score what all issues take off.
proof fn lemma_deduction_by_severity(issues: Seq<IssueView>, rule_ids: Seq<Seq<char>>)
    ensures
        total_deduction(with_severity(issues, Severity::Critical), rule_ids) + total_deduction(
            with_severity(issues, Severity::Warning),
            rule_ids,
        ) + total_deduction(with_severity(issues, Severity::Suggestion), rule_ids)
            == total_deduction(issues, rule_ids),
    decreases issues.len(),
{
    reveal(Seq::filter);
    if issues.len() > 0 {
        let rest = issues.drop_last();
        lemma_deduction_by_severity(rest, rule_ids);
        let last = issues.last();
        let members = with_severity(rest, last.severity);
        assert(with_severity(issues, last.severity) == members.push(last));
        assert(members.push(last).drop_last() == members);
    }
}

/// Sorting changes no score: the scores of the sorted issues are those of the
/// issues as they were raised.
pub proof fn lemma_scores_ignore_order(issues: Seq<IssueView>)
    ensures
        scores_of(by_severity(issues)) == scores_of(issues),
{
    let c = with_severity(issues, Severity::Critical);
    let w = with_severity(issues, Severity::Warning);
    let s = with_severity(issues, Severity::Suggestion);
    assert forall|rule_ids: Seq<Seq<char>>| #[trigger]
        total_deduction(by_severity(issues), rule_ids) == total_deduction(issues, rule_ids) by {
        lemma_deduction_adds(c + w, s, rule_ids);
        lemma_deduction_adds(c, w, rule_ids);
        lemma_deduction_by_severity(issues, rule_ids);
    }
}

} // verus!
