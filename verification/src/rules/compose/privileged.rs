//! Services that run in privileged mode.

use super::{inspect_services, issues_over_services, ComposeRule, ServiceRule};
use crate::parser::compose::{ComposeFile, ComposeFileView, Service, ServiceView};
use crate::rules::rule::{
    issue_of, no_issue, one_issue, ImpactEstimate, ImpactView, Issue, IssueView, Rule, RuleInfo,
};
use crate::rules::severity::Severity;
use vstd::string::StringExecFns;
use vstd::prelude::*;

verus! {

/// The rule's short code.
pub const ID: &'static str = "DC002";

/// The rule's name.
pub const NAME: &'static str = "Privileged container";

/// What the rule looks for.
pub const DESCRIPTION: &'static str = "Service runs in privileged mode";

/// Why the rule exists.
pub const RATIONALE: &'static str = "Privileged mode gives the container full access to the host system, bypassing all security isolation. A compromised privileged container can trivially escape to the host. Only use if absolutely necessary.";

/// How to mend what the rule finds.
pub const FIX_SUGGESTION: &'static str = "Remove 'privileged: true' and use specific capabilities (cap_add) if needed";

/// What mending gains: security improvement.
pub const SECURITY_IMPACT: &'static str = "Critical - prevents container escape";

/// Flags a service that is declared privileged.
pub struct PrivilegedRule;

impl Rule for PrivilegedRule {
    open spec fn ready(&self) -> bool {
        true
    }

    open spec fn info(&self) -> RuleInfo {
        RuleInfo {
            id: ID@,
            name: NAME@,
            severity: Severity::Critical,
            description: DESCRIPTION@,
            rationale: RATIONALE@,
            fix_suggestion: Some(FIX_SUGGESTION@),
            impact: Some(
                ImpactView {
                    build_time_improvement: None,
                    image_size_reduction: None,
                    security_improvement: Some(SECURITY_IMPACT@),
                    reliability_improvement: None,
                },
            ),
        }
    }

    fn id(&self) -> &'static str {
        ID
    }

    fn name(&self) -> &'static str {
        NAME
    }

    fn severity(&self) -> Severity {
        Severity::Critical
    }

    fn description(&self) -> &'static str {
        DESCRIPTION
    }

    fn rationale(&self) -> &'static str {
        RATIONALE
    }

    fn fix_suggestion(&self) -> Option<&'static str> {
        Some(FIX_SUGGESTION)
    }

    fn impact(&self) -> Option<ImpactEstimate> {
        Some(
            ImpactEstimate {
                build_time_improvement: None,
                image_size_reduction: None,
                security_improvement: Some(SECURITY_IMPACT.to_owned()),
                reliability_improvement: None,
            },
        )
    }
}

impl ServiceRule for PrivilegedRule {
    open spec fn issues_on(&self, name: Seq<char>, service: ServiceView) -> Seq<IssueView> {
        if service.privileged == Some(true) {
            seq![issue_of(self.info(), None, "Service '"@ + name + "' runs in privileged mode"@)]
        } else {
            Seq::empty()
        }
    }

    fn inspect(&self, name: &str, service: &Service) -> (issues: Vec<Issue>) {
        match service.privileged {
            Some(true) => {
                let mut message = "Service '".to_owned();
                message.append(name);
                message.append("' runs in privileged mode");
                one_issue(self, None, message)
            },
            _ => no_issue(),
        }
    }
}

impl ComposeRule for PrivilegedRule {
    open spec fn findings(&self, compose: ComposeFileView) -> Seq<IssueView> {
        issues_over_services(*self, compose.service_list())
    }

    fn check(&self, compose: &ComposeFile) -> (issues: Vec<Issue>) {
        inspect_services(self, compose)
    }
}

} // verus!
