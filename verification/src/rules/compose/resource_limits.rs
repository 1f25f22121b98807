//! Services without a limit on memory or processors.

use super::{inspect_services, issues_over_services, ComposeRule, ServiceRule};
use crate::parser::compose::{ComposeFile, ComposeFileView, Service, ServiceView};
use crate::rules::rule::{
    issue_of, no_issue, one_issue, ImpactEstimate, ImpactView, Issue, IssueView, Rule, RuleInfo,
};
use crate::rules::severity::Severity;
use vstd::string::StringExecFns;
use vstd::prelude::*;

verus! {

/// The rule's short code.
pub const ID: &'static str = "DC003";

/// The rule's name.
pub const NAME: &'static str = "No resource limits";

/// What the rule looks for.
pub const DESCRIPTION: &'static str = "Service has no memory or CPU limits defined";

/// Why the rule exists.
pub const RATIONALE: &'static str = "Without resource limits, a single container can consume all host resources, starving other containers and potentially crashing the host. Always set memory and CPU limits in production.";

/// How to mend what the rule finds.
pub const FIX_SUGGESTION: &'static str = "Add 'deploy.resources.limits' or 'mem_limit' and 'cpus' to the service";

/// What mending gains: security improvement.
pub const SECURITY_IMPACT: &'static str = "Prevents denial of service";

/// What mending gains: reliability improvement.
pub const RELIABILITY_IMPACT: &'static str = "Prevents resource exhaustion";

/// Flags a service that has no memory limit, no processor limit and no limits
/// in its deployment.
pub struct ResourceLimitsRule;

impl Rule for ResourceLimitsRule {
    open spec fn ready(&self) -> bool {
        true
    }

    open spec fn info(&self) -> RuleInfo {
        RuleInfo {
            id: ID@,
            name: NAME@,
            severity: Severity::Warning,
            description: DESCRIPTION@,
            rationale: RATIONALE@,
            fix_suggestion: Some(FIX_SUGGESTION@),
            impact: Some(
                ImpactView {
                    build_time_improvement: None,
                    image_size_reduction: None,
                    security_improvement: Some(SECURITY_IMPACT@),
                    reliability_improvement: Some(RELIABILITY_IMPACT@),
                },
            ),
        }
    }

    fn id(&self) -> &'static str {
        ID
    }

    fn name(&self) -> &'static str {
        NAME
    }

    fn severity(&self) -> Severity {
        Severity::Warning
    }

    fn description(&self) -> &'static str {
        DESCRIPTION
    }

    fn rationale(&self) -> &'static str {
        RATIONALE
    }

    fn fix_suggestion(&self) -> Option<&'static str> {
        Some(FIX_SUGGESTION)
    }

    fn impact(&self) -> Option<ImpactEstimate> {
        Some(
            ImpactEstimate {
                build_time_improvement: None,
                image_size_reduction: None,
                security_improvement: Some(SECURITY_IMPACT.to_owned()),
                reliability_improvement: Some(RELIABILITY_IMPACT.to_owned()),
            },
        )
    }
}

/// Whether a service has a limit: on memory, on processors, or in its
/// deployment.
pub open spec fn has_limits(service: ServiceView) -> bool {
    ||| service.mem_limit is Some
    ||| service.cpus is Some
    ||| (service.deploy matches Some(deploy) && deploy.resources matches Some(resources)
        && resources.limits is Some)
}

/// Whether `service` has a limit.
fn limited(service: &Service) -> (r: bool)
    ensures
        r == has_limits(service.deep_view()),
{
    if service.mem_limit.is_some() || service.cpus.is_some() {
        return true;
    }
    match &service.deploy {
        Some(deploy) => match &deploy.resources {
            Some(resources) => resources.limits.is_some(),
            None => false,
        },
        None => false,
    }
}

impl ServiceRule for ResourceLimitsRule {
    open spec fn issues_on(&self, name: Seq<char>, service: ServiceView) -> Seq<IssueView> {
        if has_limits(service) {
            Seq::empty()
        } else {
            seq![issue_of(self.info(), None, "Service '"@ + name + "' has no resource limits"@)]
        }
    }

    fn inspect(&self, name: &str, service: &Service) -> (issues: Vec<Issue>) {
        if limited(service) {
            no_issue()
        } else {
            let mut message = "Service '".to_owned();
            message.append(name);
            message.append("' has no resource limits");
            one_issue(self, None, message)
        }
    }
}

impl ComposeRule for ResourceLimitsRule {
    open spec fn findings(&self, compose: ComposeFileView) -> Seq<IssueView> {
        issues_over_services(*self, compose.service_list())
    }

    fn check(&self, compose: &ComposeFile) -> (issues: Vec<Issue>) {
        inspect_services(self, compose)
    }
}

} // verus!
