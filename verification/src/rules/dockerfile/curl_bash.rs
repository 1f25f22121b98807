//! Downloads piped into a shell.

use super::{has_name, inspect_all, issues_over, BuildContext, DockerfileRule, InstructionRule};
use crate::parser::dockerfile::{is_named, DockerfileParser, Instruction, InstructionView};
use crate::pattern::{is_match, is_regex, regex_matches};
use crate::rules::rule::{
    issue_of, no_issue, one_issue, ImpactEstimate, ImpactView, Issue, IssueView, Rule, RuleInfo,
};
use crate::rules::severity::Severity;
use vstd::prelude::*;

verus! {

/// The rule's short code.
pub const ID: &'static str = "DF010";

/// The rule's name.
pub const NAME: &'static str = "Curl pipe to shell";

/// What the rule looks for.
pub const DESCRIPTION: &'static str = "Piping curl or wget output directly to shell";

/// Why the rule exists.
pub const RATIONALE: &'static str = "Executing remote scripts via curl | bash is extremely dangerous. You cannot verify what the script does before execution, the script could be modified between when you test and when you deploy, and HTTPS doesn't prevent MITM attacks if certificate validation is disabled.";

/// How to mend what the rule finds.
pub const FIX_SUGGESTION: &'static str = "Download the script, verify its contents and checksum, then execute";

/// What mending gains: security improvement.
pub const SECURITY_IMPACT: &'static str = "Critical - prevents remote code execution vulnerabilities";

/// What mending gains: reliability improvement.
pub const RELIABILITY_IMPACT: &'static str = "Reproducible builds";

/// Flags run-directives that pipe what `curl` or `wget` fetches into a shell.
pub struct CurlBashRule;

impl Rule for CurlBashRule {
    open spec fn ready(&self) -> bool {
        is_regex(PIPE_TO_SHELL@)
    }

    open spec fn info(&self) -> RuleInfo {
        RuleInfo {
            id: ID@,
            name: NAME@,
            severity: Severity::Critical,
            description: DESCRIPTION@,
            rationale: RATIONALE@,
            fix_suggestion: Some(FIX_SUGGESTION@),
            impact: Some(
                ImpactView {
                    build_time_improvement: None,
                    image_size_reduction: None,
                    security_improvement: Some(SECURITY_IMPACT@),
                    reliability_improvement: Some(RELIABILITY_IMPACT@),
                },
            ),
        }
    }

    fn id(&self) -> &'static str {
        ID
    }

    fn name(&self) -> &'static str {
        NAME
    }

    fn severity(&self) -> Severity {
        Severity::Critical
    }

    fn description(&self) -> &'static str {
        DESCRIPTION
    }

    fn rationale(&self) -> &'static str {
        RATIONALE
    }

    fn fix_suggestion(&self) -> Option<&'static str> {
        Some(FIX_SUGGESTION)
    }

    fn impact(&self) -> Option<ImpactEstimate> {
        Some(
            ImpactEstimate {
                build_time_improvement: None,
                image_size_reduction: None,
                security_improvement: Some(SECURITY_IMPACT.to_owned()),
                reliability_improvement: Some(RELIABILITY_IMPACT.to_owned()),
            },
        )
    }
}

/// The regular expression of a fetch whose output is piped into a shell.
pub const PIPE_TO_SHELL: &'static str = r"(curl|wget)\s+[^\|]+\|\s*(sh|bash|zsh|/bin/sh|/bin/bash)";

/// What is said of a fetch piped into a shell.
pub const MESSAGE: &'static str = "Piping curl/wget to shell - remote code execution risk";

impl InstructionRule for CurlBashRule {
    open spec fn issues_on(&self, instruction: InstructionView) -> Seq<IssueView> {
        if is_named(instruction, "RUN"@) && regex_matches(PIPE_TO_SHELL@, instruction.arguments) {
            seq![issue_of(self.info(), Some(instruction.line_number), MESSAGE@)]
        } else {
            Seq::empty()
        }
    }

    fn inspect(&self, instruction: &Instruction) -> (issues: Vec<Issue>) {
        if has_name(instruction, "RUN") && is_match(PIPE_TO_SHELL, instruction.arguments.as_str()) {
            one_issue(self, Some(instruction.line_number), MESSAGE.to_owned())
        } else {
            no_issue()
        }
    }
}

impl DockerfileRule for CurlBashRule {
    open spec fn findings(
        &self,
        instructions: Seq<InstructionView>,
        context: Option<BuildContext>,
    ) -> Seq<IssueView> {
        issues_over(*self, instructions)
    }

    fn check(&self, parser: &DockerfileParser, context: Option<&BuildContext>) -> (issues: Vec<
        Issue,
    >) {
        inspect_all(self, parser)
    }
}

} // verus!
