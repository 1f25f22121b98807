//! Containers that run as root.

use super::{BuildContext, DockerfileRule};
use crate::parser::dockerfile::{named, DockerfileParser, InstructionView};
use crate::rules::rule::{
    issue_of, no_issue, one_issue, ImpactEstimate, ImpactView, Issue, IssueView, Rule, RuleInfo,
};
use crate::rules::severity::Severity;
use crate::text::{lowercase, str_eq, to_lowercase, trim, trimmed};
use vstd::prelude::*;

verus! {

/// The rule's short code.
pub const ID: &'static str = "DF002";

/// The rule's name.
pub const NAME: &'static str = "Running as root";

/// What the rule looks for.
pub const DESCRIPTION: &'static str = "Container runs as root user without specifying a non-root USER";

/// Why the rule exists.
pub const RATIONALE: &'static str = "Running containers as root is a significant security risk. If an attacker compromises the container, they have root privileges which can be used to escape to the host system or access sensitive data. Always run containers as a non-privileged user.";

/// How to mend what the rule finds.
pub const FIX_SUGGESTION: &'static str = "Add a USER instruction to switch to a non-root user (e.g., USER node, USER 1000)";

/// What mending gains: security improvement.
pub const SECURITY_IMPACT: &'static str = "Major security improvement - reduces container breakout risk";

/// Flags a build script that never switches the user, or that switches to
/// root last.
pub struct RootUserRule;

impl Rule for RootUserRule {
    open spec fn ready(&self) -> bool {
        true
    }

    open spec fn info(&self) -> RuleInfo {
        RuleInfo {
            id: ID@,
            name: NAME@,
            severity: Severity::Critical,
            description: DESCRIPTION@,
            rationale: RATIONALE@,
            fix_suggestion: Some(FIX_SUGGESTION@),
            impact: Some(
                ImpactView {
                    build_time_improvement: None,
                    image_size_reduction: None,
                    security_improvement: Some(SECURITY_IMPACT@),
                    reliability_improvement: None,
                },
            ),
        }
    }

    fn id(&self) -> &'static str {
        ID
    }

    fn name(&self) -> &'static str {
        NAME
    }

    fn severity(&self) -> Severity {
        Severity::Critical
    }

    fn description(&self) -> &'static str {
        DESCRIPTION
    }

    fn rationale(&self) -> &'static str {
        RATIONALE
    }

    fn fix_suggestion(&self) -> Option<&'static str> {
        Some(FIX_SUGGESTION)
    }

    fn impact(&self) -> Option<ImpactEstimate> {
        Some(
            ImpactEstimate {
                build_time_improvement: None,
                image_size_reduction: None,
                security_improvement: Some(SECURITY_IMPACT.to_owned()),
                reliability_improvement: None,
            },
        )
    }
}

/// What is said where no directive switches the user.
pub const NO_USER: &'static str = "No USER instruction found - container will run as root";

/// What is said where the last switch is to root.
pub const EXPLICIT_ROOT: &'static str = "Container explicitly set to run as root";

/// Whether `user`, the name of a user in lowercase, is that of root: `root` or
/// `0`.
pub open spec fn is_root_name(user: Seq<char>) -> bool {
    user == "root"@ || user == "0"@
}

/// Whether the arguments of a user-switch directive name root: trimmed and in
/// lowercase they are the name of root.
pub open spec fn names_root(args: Seq<char>) -> bool {
    is_root_name(lowercase(trim(args)))
}

/// Whether `user`, the name of a user in lowercase, is that of root.
pub fn is_root(user: &str) -> (r: bool)
    ensures
        r == is_root_name(user@),
{
    str_eq(user, "root") || str_eq(user, "0")
}

impl DockerfileRule for RootUserRule {
    open spec fn findings(
        &self,
        instructions: Seq<InstructionView>,
        context: Option<BuildContext>,
    ) -> Seq<IssueView> {
        let switches = named(instructions, "USER"@);
        if switches.len() == 0 {
            seq![issue_of(self.info(), None, NO_USER@)]
        } else if names_root(switches.last().arguments) {
            seq![issue_of(self.info(), Some(switches.last().line_number), EXPLICIT_ROOT@)]
        } else {
            Seq::empty()
        }
    }

    fn check(&self, parser: &DockerfileParser, context: Option<&BuildContext>) -> (issues: Vec<
        Issue,
    >) {
        let switches = parser.get_instructions("USER");
        assert(switches.deep_view().len() == switches.len());
        if switches.len() == 0 {
            return one_issue(self, None, NO_USER.to_owned());
        }
        let last = switches[switches.len() - 1];
        assert(last@ == switches.deep_view().last());
        let user = to_lowercase(trimmed(last.arguments.as_str()).as_str());
        if is_root(user.as_str()) {
            one_issue(self, Some(last.line_number), EXPLICIT_ROOT.to_owned())
        } else {
            no_issue()
        }
    }
}

} // verus!
