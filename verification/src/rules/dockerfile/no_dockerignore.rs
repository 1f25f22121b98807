//! Build contexts without an ignore file.

use super::{BuildContext, DockerfileRule};
use crate::parser::dockerfile::{DockerfileParser, InstructionView};
use crate::rules::rule::{
    issue_of, no_issue, one_issue, ImpactEstimate, ImpactView, Issue, IssueView, Rule, RuleInfo,
};
use crate::rules::severity::Severity;
use vstd::prelude::*;

verus! {

/// The rule's short code.
pub const ID: &'static str = "DF003";

/// The rule's name.
pub const NAME: &'static str = "No .dockerignore";

/// What the rule looks for.
pub const DESCRIPTION: &'static str = "No .dockerignore file found in the build context";

/// Why the rule exists.
pub const RATIONALE: &'static str = "Without a .dockerignore file, Docker copies all files in the build context, including node_modules, .git, build artifacts, and other unnecessary files. This bloats the image, slows down builds, and may leak sensitive files.";

/// How to mend what the rule finds.
pub const FIX_SUGGESTION: &'static str = "Create a .dockerignore file with patterns like: .git, node_modules, *.log, .env";

/// What mending gains: build time improvement.
pub const BUILD_TIME_IMPACT: &'static str = "Can reduce build context transfer by 50-90%";

/// What mending gains: image size reduction.
pub const IMAGE_SIZE_IMPACT: &'static str = "Can reduce image size by 20-80%";

/// What mending gains: security improvement.
pub const SECURITY_IMPACT: &'static str = "Prevents accidental inclusion of secrets";

/// Flags a build context that is known to hold no `.dockerignore` file. Where
/// nothing is known of the build context, the rule is silent.
pub struct NoDockerignoreRule;

impl Rule for NoDockerignoreRule {
    open spec fn ready(&self) -> bool {
        true
    }

    open spec fn info(&self) -> RuleInfo {
        RuleInfo {
            id: ID@,
            name: NAME@,
            severity: Severity::Warning,
            description: DESCRIPTION@,
            rationale: RATIONALE@,
            fix_suggestion: Some(FIX_SUGGESTION@),
            impact: Some(
                ImpactView {
                    build_time_improvement: Some(BUILD_TIME_IMPACT@),
                    image_size_reduction: Some(IMAGE_SIZE_IMPACT@),
                    security_improvement: Some(SECURITY_IMPACT@),
                    reliability_improvement: None,
                },
            ),
        }
    }

    fn id(&self) -> &'static str {
        ID
    }

    fn name(&self) -> &'static str {
        NAME
    }

    fn severity(&self) -> Severity {
        Severity::Warning
    }

    fn description(&self) -> &'static str {
        DESCRIPTION
    }

    fn rationale(&self) -> &'static str {
        RATIONALE
    }

    fn fix_suggestion(&self) -> Option<&'static str> {
        Some(FIX_SUGGESTION)
    }

    fn impact(&self) -> Option<ImpactEstimate> {
        Some(
            ImpactEstimate {
                build_time_improvement: Some(BUILD_TIME_IMPACT.to_owned()),
                image_size_reduction: Some(IMAGE_SIZE_IMPACT.to_owned()),
                security_improvement: Some(SECURITY_IMPACT.to_owned()),
                reliability_improvement: None,
            },
        )
    }
}

/// What is said of a build context without an ignore file.
pub const MESSAGE: &'static str = "No .dockerignore file found in the build context";

impl DockerfileRule for NoDockerignoreRule {
    open spec fn findings(
        &self,
        instructions: Seq<InstructionView>,
        context: Option<BuildContext>,
    ) -> Seq<IssueView> {
        match context {
            Some(c) if !c.has_ignore_file => seq![issue_of(self.info(), None, MESSAGE@)],
            _ => Seq::empty(),
        }
    }

    fn check(&self, parser: &DockerfileParser, context: Option<&BuildContext>) -> (issues: Vec<
        Issue,
    >) {
        match context {
            Some(c) => {
                if !c.has_ignore_file {
                    one_issue(self, None, MESSAGE.to_owned())
                } else {
                    no_issue()
                }
            },
            None => no_issue(),
        }
    }
}

} // verus!
