//! Packages installed without a version.

use super::{has_name, inspect_all, issues_over, BuildContext, DockerfileRule, InstructionRule};
use crate::parser::dockerfile::{is_named, DockerfileParser, Instruction, InstructionView};
use crate::pattern::{is_match, is_regex, regex_matches};
use crate::rules::rule::{
    append_issues, issue_of, no_issue, one_issue, ImpactEstimate, ImpactView, Issue, IssueView,
    Rule, RuleInfo,
};
use crate::rules::severity::Severity;
use crate::text::{contains, lowercase, str_contains, to_lowercase};
use vstd::prelude::*;

verus! {

/// The rule's short code.
pub const ID: &'static str = "DF007";

/// The rule's name.
pub const NAME: &'static str = "No version pinning";

/// What the rule looks for.
pub const DESCRIPTION: &'static str = "Packages installed without version pinning";

/// Why the rule exists.
pub const RATIONALE: &'static str = "Installing packages without version pinning leads to unpredictable builds. The same Dockerfile may install different package versions on different days, causing subtle bugs and security issues. Pin versions for reproducibility.";

/// How to mend what the rule finds.
pub const FIX_SUGGESTION: &'static str = "Pin package versions (e.g., 'apt-get install curl=7.68.0-1ubuntu2' or 'pip install requests==2.28.0')";

/// What mending gains: security improvement.
pub const SECURITY_IMPACT: &'static str = "Prevents unexpected package changes";

/// What mending gains: reliability improvement.
pub const RELIABILITY_IMPACT: &'static str = "100% reproducible builds";

/// Flags run-directives that install packages with `apt-get` or `pip` and pin
/// no version.
pub struct VersionPinningRule;

impl Rule for VersionPinningRule {
    open spec fn ready(&self) -> bool {
        is_regex(UNPINNED_APT@) && is_regex(UNPINNED_PIP@)
    }

    open spec fn info(&self) -> RuleInfo {
        RuleInfo {
            id: ID@,
            name: NAME@,
            severity: Severity::Warning,
            description: DESCRIPTION@,
            rationale: RATIONALE@,
            fix_suggestion: Some(FIX_SUGGESTION@),
            impact: Some(
                ImpactView {
                    build_time_improvement: None,
                    image_size_reduction: None,
                    security_improvement: Some(SECURITY_IMPACT@),
                    reliability_improvement: Some(RELIABILITY_IMPACT@),
                },
            ),
        }
    }

    fn id(&self) -> &'static str {
        ID
    }

    fn name(&self) -> &'static str {
        NAME
    }

    fn severity(&self) -> Severity {
        Severity::Warning
    }

    fn description(&self) -> &'static str {
        DESCRIPTION
    }

    fn rationale(&self) -> &'static str {
        RATIONALE
    }

    fn fix_suggestion(&self) -> Option<&'static str> {
        Some(FIX_SUGGESTION)
    }

    fn impact(&self) -> Option<ImpactEstimate> {
        Some(
            ImpactEstimate {
                build_time_improvement: None,
                image_size_reduction: None,
                security_improvement: Some(SECURITY_IMPACT.to_owned()),
                reliability_improvement: Some(RELIABILITY_IMPACT.to_owned()),
            },
        )
    }
}

/// The regular expression of an `apt-get install` that names a package.
pub const UNPINNED_APT: &'static str = r"apt-get\s+install\s+(?:-[^\s]+\s+)*([a-zA-Z][a-zA-Z0-9._+-]*)(?:\s|$)";

/// The regular expression of a `pip install` that names a package.
pub const UNPINNED_PIP: &'static str = r"pip\s+install\s+(?:-[^\s]+\s+)*([a-zA-Z][a-zA-Z0-9._-]*)(?:\s|$)";

/// What is said of an `apt-get install` without a version.
pub const APT_MESSAGE: &'static str = "apt-get install without version pinning";

/// What is said of a `pip install` without a version.
pub const PIP_MESSAGE: &'static str = "pip install without version pinning";

/// Whether the command text `args`, in lowercase, installs a package with
/// `apt-get` and holds no `=`, which would pin a version. `named` tells whether
/// the search for an `apt-get install` that names a package found one.
pub open spec fn unpinned_apt(args: Seq<char>, named: bool) -> bool {
    contains(args, "apt-get install"@) && !contains(args, "="@) && named
}

/// Whether the command text `args`, in lowercase, installs a package with
/// `pip`, not from a requirements file, and holds no `==`, which would pin a
/// version. `named` tells whether the search for a `pip install` that names a
/// package found one.
pub open spec fn unpinned_pip(args: Seq<char>, named: bool) -> bool {
    contains(args, "pip install"@) && !contains(args, "-r "@) && !contains(args, "=="@) && named
}

impl VersionPinningRule {
    /// The issues on a run-directive at `line` whose command text in lowercase
    /// is `args`, where `apt_named` and `pip_named` tell what the searches for
    /// an install that names a package found: one issue for `apt-get`, then one
    /// for `pip`.
    pub open spec fn issues_on_run(
        self,
        args: Seq<char>,
        apt_named: bool,
        pip_named: bool,
        line: nat,
    ) -> Seq<IssueView> {
        (if unpinned_apt(args, apt_named) {
            seq![issue_of(self.info(), Some(line), APT_MESSAGE@)]
        } else {
            Seq::empty()
        }) + (if unpinned_pip(args, pip_named) {
            seq![issue_of(self.info(), Some(line), PIP_MESSAGE@)]
        } else {
            Seq::empty()
        })
    }

    /// Judges a run-directive at `line` whose command text in lowercase is
    /// `args`, given what the two searches found.
    pub fn judge_run(&self, args: &str, apt_named: bool, pip_named: bool, line: usize) -> (issues:
        Vec<Issue>)
        ensures
            issues.deep_view() == self.issues_on_run(args@, apt_named, pip_named, line as nat),
    {
        let mut issues = if str_contains(args, "apt-get install") && !str_contains(args, "=")
            && apt_named {
            one_issue(self, Some(line), APT_MESSAGE.to_owned())
        } else {
            no_issue()
        };
        let pip = if str_contains(args, "pip install") && !str_contains(args, "-r ")
            && !str_contains(args, "==") && pip_named {
            one_issue(self, Some(line), PIP_MESSAGE.to_owned())
        } else {
            no_issue()
        };
        append_issues(&mut issues, pip);
        issues
    }
}

impl InstructionRule for VersionPinningRule {
    open spec fn issues_on(&self, instruction: InstructionView) -> Seq<IssueView> {
        if is_named(instruction, "RUN"@) {
            let args = lowercase(instruction.arguments);
            self.issues_on_run(
                args,
                regex_matches(UNPINNED_APT@, args),
                regex_matches(UNPINNED_PIP@, args),
                instruction.line_number,
            )
        } else {
            Seq::empty()
        }
    }

    fn inspect(&self, instruction: &Instruction) -> (issues: Vec<Issue>) {
        if !has_name(instruction, "RUN") {
            return no_issue();
        }
        let args = to_lowercase(instruction.arguments.as_str());
        let apt_named = is_match(UNPINNED_APT, args.as_str());
        let pip_named = is_match(UNPINNED_PIP, args.as_str());
        self.judge_run(args.as_str(), apt_named, pip_named, instruction.line_number)
    }
}

impl DockerfileRule for VersionPinningRule {
    open spec fn findings(
        &self,
        instructions: Seq<InstructionView>,
        context: Option<BuildContext>,
    ) -> Seq<IssueView> {
        issues_over(*self, instructions)
    }

    fn check(&self, parser: &DockerfileParser, context: Option<&BuildContext>) -> (issues: Vec<
        Issue,
    >) {
        inspect_all(self, parser)
    }
}

} // verus!
