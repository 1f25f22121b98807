//! Service images that are not pinned to a version.

use super::{inspect_services, issues_over_services, ComposeRule, ServiceRule};
use crate::parser::compose::{ComposeFile, ComposeFileView, Service, ServiceView};
use crate::rules::rule::{
    issue_of, no_issue, one_issue, ImpactEstimate, ImpactView, Issue, IssueView, Rule, RuleInfo,
};
use crate::rules::severity::Severity;
use crate::text::{ends_with, str_ends_with, str_has_char};
use vstd::prelude::*;
use vstd::string::StringExecFns;

verus! {

/// The rule's short code.
pub const ID: &'static str = "DC004";

/// The rule's name.
pub const NAME: &'static str = "Using latest tag";

/// What the rule looks for.
pub const DESCRIPTION: &'static str = "Service uses 'latest' tag or implicit tag in image reference";

/// Why the rule exists.
pub const RATIONALE: &'static str = "Using 'latest' or implicit tags causes unpredictable deployments. The same compose file may deploy different versions on different days. Pin to specific versions for reproducible deployments.";

/// How to mend what the rule finds.
pub const FIX_SUGGESTION: &'static str = "Pin to a specific version tag (e.g., image: nginx:1.25.3)";

/// What mending gains: security improvement.
pub const SECURITY_IMPACT: &'static str = "Prevents unexpected vulnerability introduction";

/// What mending gains: reliability improvement.
pub const RELIABILITY_IMPACT: &'static str = "100% reproducible deployments";

/// Flags a service whose image uses the `latest` tag, in words or by having
/// neither a tag nor a digest.
pub struct ComposeLatestTagRule;

impl Rule for ComposeLatestTagRule {
    open spec fn ready(&self) -> bool {
        true
    }

    open spec fn info(&self) -> RuleInfo {
        RuleInfo {
            id: ID@,
            name: NAME@,
            severity: Severity::Critical,
            description: DESCRIPTION@,
            rationale: RATIONALE@,
            fix_suggestion: Some(FIX_SUGGESTION@),
            impact: Some(
                ImpactView {
                    build_time_improvement: None,
                    image_size_reduction: None,
                    security_improvement: Some(SECURITY_IMPACT@),
                    reliability_improvement: Some(RELIABILITY_IMPACT@),
                },
            ),
        }
    }

    fn id(&self) -> &'static str {
        ID
    }

    fn name(&self) -> &'static str {
        NAME
    }

    fn severity(&self) -> Severity {
        Severity::Critical
    }

    fn description(&self) -> &'static str {
        DESCRIPTION
    }

    fn rationale(&self) -> &'static str {
        RATIONALE
    }

    fn fix_suggestion(&self) -> Option<&'static str> {
        Some(FIX_SUGGESTION)
    }

    fn impact(&self) -> Option<ImpactEstimate> {
        Some(
            ImpactEstimate {
                build_time_improvement: None,
                image_size_reduction: None,
                security_improvement: Some(SECURITY_IMPACT.to_owned()),
                reliability_improvement: Some(RELIABILITY_IMPACT.to_owned()),
            },
        )
    }
}

/// What is wrong with the image of the service `name`, in words, if anything
/// is.
pub open spec fn unpinned_message(name: Seq<char>, image: Seq<char>) -> Option<Seq<char>> {
    if ends_with(image, ":latest"@) {
        Some("Service '"@ + name + "' uses image with ':latest' tag: "@ + image)
    } else if !image.contains(':') && !image.contains('@') {
        Some("Service '"@ + name + "' uses image without tag (implicitly 'latest'): "@ + image)
    } else {
        None
    }
}

impl ServiceRule for ComposeLatestTagRule {
    open spec fn issues_on(&self, name: Seq<char>, service: ServiceView) -> Seq<IssueView> {
        match service.image {
            Some(image) => match unpinned_message(name, image) {
                Some(message) => seq![issue_of(self.info(), None, message)],
                None => Seq::empty(),
            },
            None => Seq::empty(),
        }
    }

    fn inspect(&self, name: &str, service: &Service) -> (issues: Vec<Issue>) {
        match &service.image {
            Some(image) => {
                if str_ends_with(image.as_str(), ":latest") {
                    let mut message = "Service '".to_owned();
                    message.append(name);
                    message.append("' uses image with ':latest' tag: ");
                    message.append(image.as_str());
                    one_issue(self, None, message)
                } else if !str_has_char(image.as_str(), ':') && !str_has_char(image.as_str(), '@') {
                    let mut message = "Service '".to_owned();
                    message.append(name);
                    message.append("' uses image without tag (implicitly 'latest'): ");
                    message.append(image.as_str());
                    one_issue(self, None, message)
                } else {
                    no_issue()
                }
            },
            None => no_issue(),
        }
    }
}

impl ComposeRule for ComposeLatestTagRule {
    open spec fn findings(&self, compose: ComposeFileView) -> Seq<IssueView> {
        issues_over_services(*self, compose.service_list())
    }

    fn check(&self, compose: &ComposeFile) -> (issues: Vec<Issue>) {
        inspect_services(self, compose)
    }
}

} // verus!
