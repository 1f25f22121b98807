//! Services that stay down when they crash.

use super::{inspect_services, issues_over_services, ComposeRule, ServiceRule};
use crate::parser::compose::{ComposeFile, ComposeFileView, Service, ServiceView};
use crate::rules::rule::{
    issue_of, no_issue, one_issue, ImpactEstimate, ImpactView, Issue, IssueView, Rule, RuleInfo,
};
use crate::rules::severity::Severity;
use vstd::string::StringExecFns;
use vstd::prelude::*;

verus! {

/// The rule's short code.
pub const ID: &'static str = "DC001";

/// The rule's name.
pub const NAME: &'static str = "No restart policy";

/// What the rule looks for.
pub const DESCRIPTION: &'static str = "Service has no restart policy defined";

/// Why the rule exists.
pub const RATIONALE: &'static str = "Without a restart policy, crashed containers stay down. This leads to service outages that require manual intervention. Use 'unless-stopped' or 'always' for production services.";

/// How to mend what the rule finds.
pub const FIX_SUGGESTION: &'static str = "Add 'restart: unless-stopped' or 'restart: always' to the service";

/// What mending gains: reliability improvement.
pub const RELIABILITY_IMPACT: &'static str = "Automatic recovery from crashes";

/// Flags a service that has neither a restart setting nor a restart policy in
/// its deployment.
pub struct RestartPolicyRule;

impl Rule for RestartPolicyRule {
    open spec fn ready(&self) -> bool {
        true
    }

    open spec fn info(&self) -> RuleInfo {
        RuleInfo {
            id: ID@,
            name: NAME@,
            severity: Severity::Warning,
            description: DESCRIPTION@,
            rationale: RATIONALE@,
            fix_suggestion: Some(FIX_SUGGESTION@),
            impact: Some(
                ImpactView {
                    build_time_improvement: None,
                    image_size_reduction: None,
                    security_improvement: None,
                    reliability_improvement: Some(RELIABILITY_IMPACT@),
                },
            ),
        }
    }

    fn id(&self) -> &'static str {
        ID
    }

    fn name(&self) -> &'static str {
        NAME
    }

    fn severity(&self) -> Severity {
        Severity::Warning
    }

    fn description(&self) -> &'static str {
        DESCRIPTION
    }

    fn rationale(&self) -> &'static str {
        RATIONALE
    }

    fn fix_suggestion(&self) -> Option<&'static str> {
        Some(FIX_SUGGESTION)
    }

    fn impact(&self) -> Option<ImpactEstimate> {
        Some(
            ImpactEstimate {
                build_time_improvement: None,
                image_size_reduction: None,
                security_improvement: None,
                reliability_improvement: Some(RELIABILITY_IMPACT.to_owned()),
            },
        )
    }
}

/// Whether a service says when it restarts: by itself or in its deployment.
pub open spec fn has_restart(service: ServiceView) -> bool {
    service.restart is Some || (service.deploy matches Some(deploy) && deploy.restart_policy
        is Some)
}

/// Whether `service` says when it restarts.
fn restarts(service: &Service) -> (r: bool)
    ensures
        r == has_restart(service.deep_view()),
{
    if service.restart.is_some() {
        return true;
    }
    match &service.deploy {
        Some(deploy) => deploy.restart_policy.is_some(),
        None => false,
    }
}

impl ServiceRule for RestartPolicyRule {
    open spec fn issues_on(&self, name: Seq<char>, service: ServiceView) -> Seq<IssueView> {
        if has_restart(service) {
            Seq::empty()
        } else {
            seq![issue_of(self.info(), None, "Service '"@ + name + "' has no restart policy"@)]
        }
    }

    fn inspect(&self, name: &str, service: &Service) -> (issues: Vec<Issue>) {
        if restarts(service) {
            no_issue()
        } else {
            let mut message = "Service '".to_owned();
            message.append(name);
            message.append("' has no restart policy");
            one_issue(self, None, message)
        }
    }
}

impl ComposeRule for RestartPolicyRule {
    open spec fn findings(&self, compose: ComposeFileView) -> Seq<IssueView> {
        issues_over_services(*self, compose.service_list())
    }

    fn check(&self, compose: &ComposeFile) -> (issues: Vec<Issue>) {
        inspect_services(self, compose)
    }
}

} // verus!
