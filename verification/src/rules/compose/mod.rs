//! The rules on descriptors.

pub mod hardcoded_secrets;
pub mod latest_tag;
pub mod privileged;
pub mod resource_limits;
pub mod restart_policy;

pub use hardcoded_secrets::HardcodedSecretsRule;
pub use latest_tag::ComposeLatestTagRule;
pub use privileged::PrivilegedRule;
pub use resource_limits::ResourceLimitsRule;
pub use restart_policy::RestartPolicyRule;

use super::rule::{append_issues, Issue, IssueView, Rule};
use crate::parser::compose::{ComposeFile, ComposeFileView, Service, ServiceView};
use vstd::prelude::*;

verus! {

/// A rule on descriptors. It reads the whole descriptor and raises issues.
pub trait ComposeRule: Rule {
    /// The issues that the rule raises on `compose`.
    spec fn findings(&self, compose: ComposeFileView) -> Seq<IssueView>;

    /// Runs the rule.
    fn check(&self, compose: &ComposeFile) -> (issues: Vec<Issue>)
        requires
            self.ready(),
        ensures
            issues.deep_view() == self.findings(compose.deep_view()),
    ;
}

/// A rule that judges each service by itself.
pub trait ServiceRule: Rule {
    /// The issues that the rule raises on the service `name`.
    spec fn issues_on(&self, name: Seq<char>, service: ServiceView) -> Seq<IssueView>;

    /// Judges one service.
    fn inspect(&self, name: &str, service: &Service) -> (issues: Vec<Issue>)
        requires
            self.ready(),
        ensures
            issues.deep_view() == self.issues_on(name@, service.deep_view()),
    ;
}

/// The issues that `rule` raises on each of `services`, in their order.
pub open spec fn issues_over_services<R: ServiceRule>(
    rule: R,
    services: Seq<(Seq<char>, ServiceView)>,
) -> Seq<IssueView>
    decreases services.len(),
{
    if services.len() == 0 {
        Seq::empty()
    } else {
        issues_over_services(rule, services.drop_last()) + rule.issues_on(
            services.last().0,
            services.last().1,
        )
    }
}

/// Judges each service of `compose` by `rule`.
pub fn inspect_services<R: ServiceRule>(rule: &R, compose: &ComposeFile) -> (issues: Vec<Issue>)
    requires
        rule.ready(),
    ensures
        issues.deep_view() == issues_over_services(*rule, compose.deep_view().service_list()),
{
    let mut issues: Vec<Issue> = Vec::new();
    assert(issues.deep_view() =~= Seq::empty());
    match &compose.services {
        Some(list) => {
            let ghost services = list.deep_view();
            let mut i: usize = 0;
            assert(services.take(0) =~= Seq::empty());
            while i < list.len()
                invariant
                    i <= list.len(),
                    services == list.deep_view(),
                    rule.ready(),
                    issues.deep_view() == issues_over_services(*rule, services.take(i as int)),
                decreases list.len() - i,
            {
                let entry = &list[i];
                assert(services[i as int] == entry.deep_view());
                assert(services.take(i + 1).drop_last() == services.take(i as int));
                let found = rule.inspect(entry.0.as_str(), &entry.1);
                append_issues(&mut issues, found);
                i += 1;
            }
            assert(services.take(i as int) =~= services);
            issues
        },
        None => issues,
    }
}

} // verus!
