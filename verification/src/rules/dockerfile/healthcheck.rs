//! Images without a health check.

use super::{BuildContext, DockerfileRule};
use crate::parser::dockerfile::{has_named, DockerfileParser, InstructionView};
use crate::rules::rule::{
    issue_of, no_issue, one_issue, ImpactEstimate, ImpactView, Issue, IssueView, Rule, RuleInfo,
};
use crate::rules::severity::Severity;
use vstd::prelude::*;

verus! {

/// The rule's short code.
pub const ID: &'static str = "DF005";

/// The rule's name.
pub const NAME: &'static str = "No HEALTHCHECK";

/// What the rule looks for.
pub const DESCRIPTION: &'static str = "No HEALTHCHECK instruction defined";

/// Why the rule exists.
pub const RATIONALE: &'static str = "Without a HEALTHCHECK, Docker and orchestrators cannot determine if your application is actually healthy. A container may be running but unresponsive. HEALTHCHECK enables automatic restarts and proper load balancing.";

/// How to mend what the rule finds.
pub const FIX_SUGGESTION: &'static str = "Add HEALTHCHECK instruction (e.g., HEALTHCHECK --interval=30s CMD curl -f http://localhost/ || exit 1)";

/// What mending gains: reliability improvement.
pub const RELIABILITY_IMPACT: &'static str = "Enables automatic container recovery";

/// Flags, once, a build script without a `HEALTHCHECK` directive.
pub struct HealthcheckRule;

impl Rule for HealthcheckRule {
    open spec fn ready(&self) -> bool {
        true
    }

    open spec fn info(&self) -> RuleInfo {
        RuleInfo {
            id: ID@,
            name: NAME@,
            severity: Severity::Warning,
            description: DESCRIPTION@,
            rationale: RATIONALE@,
            fix_suggestion: Some(FIX_SUGGESTION@),
            impact: Some(
                ImpactView {
                    build_time_improvement: None,
                    image_size_reduction: None,
                    security_improvement: None,
                    reliability_improvement: Some(RELIABILITY_IMPACT@),
                },
            ),
        }
    }

    fn id(&self) -> &'static str {
        ID
    }

    fn name(&self) -> &'static str {
        NAME
    }

    fn severity(&self) -> Severity {
        Severity::Warning
    }

    fn description(&self) -> &'static str {
        DESCRIPTION
    }

    fn rationale(&self) -> &'static str {
        RATIONALE
    }

    fn fix_suggestion(&self) -> Option<&'static str> {
        Some(FIX_SUGGESTION)
    }

    fn impact(&self) -> Option<ImpactEstimate> {
        Some(
            ImpactEstimate {
                build_time_improvement: None,
                image_size_reduction: None,
                security_improvement: None,
                reliability_improvement: Some(RELIABILITY_IMPACT.to_owned()),
            },
        )
    }
}

/// What is said of a build script without a health check.
pub const MESSAGE: &'static str = "No HEALTHCHECK instruction - container health cannot be monitored";

impl DockerfileRule for HealthcheckRule {
    open spec fn findings(
        &self,
        instructions: Seq<InstructionView>,
        context: Option<BuildContext>,
    ) -> Seq<IssueView> {
        if has_named(instructions, "HEALTHCHECK"@) {
            Seq::empty()
        } else {
            seq![issue_of(self.info(), None, MESSAGE@)]
        }
    }

    fn check(&self, parser: &DockerfileParser, context: Option<&BuildContext>) -> (issues: Vec<
        Issue,
    >) {
        if parser.has_instruction("HEALTHCHECK") {
            no_issue()
        } else {
            one_issue(self, None, MESSAGE.to_owned())
        }
    }
}

} // verus!
