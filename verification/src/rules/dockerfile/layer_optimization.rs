//! Package installs, index updates and cleanups that are spread over layers.

use super::{inspect_all, issues_over, BuildContext, DockerfileRule, InstructionRule};
use crate::parser::dockerfile::{DockerfileParser, Instruction, InstructionView};
use crate::rules::rule::{
    append_issues, issue_of, line_of, no_issue, one_issue, ImpactEstimate, ImpactView, Issue,
    IssueView, Rule, RuleInfo,
};
use crate::rules::severity::Severity;
use crate::text::{contains, lowercase, str_contains, str_eq, to_lowercase};
use vstd::prelude::*;

verus! {

/// The rule's short code.
pub const ID: &'static str = "DF011";

/// The rule's name.
pub const NAME: &'static str = "Inefficient layer usage";

/// What the rule looks for.
pub const DESCRIPTION: &'static str = "Inefficient Dockerfile layering wastes space and slows builds";

/// Why the rule exists.
pub const RATIONALE: &'static str = "Every RUN instruction creates a layer. When apt-get clean or rm -rf runs in a separate layer from the install, space is NOT saved - files are already persisted in the previous layer. Combine related operations in a single RUN and clean up in the same layer. Use --no-install-recommends to skip unnecessary packages.";

/// How to mend what the rule finds.
pub const FIX_SUGGESTION: &'static str = "Combine apt-get update, install, and cleanup in single RUN with && and use --no-install-recommends";

/// What mending gains: build time improvement.
pub const BUILD_TIME_IMPACT: &'static str = "Fewer layers = faster builds";

/// What mending gains: image size reduction.
pub const IMAGE_SIZE_IMPACT: &'static str = "Proper cleanup can save 50-200MB";

/// What mending gains: security improvement.
pub const SECURITY_IMPACT: &'static str = "Smaller attack surface";

/// Flags a cleanup or an index update that runs apart from the install it
/// belongs to, and installs that take recommended packages along.
pub struct LayerOptimizationRule;

impl Rule for LayerOptimizationRule {
    open spec fn ready(&self) -> bool {
        true
    }

    open spec fn info(&self) -> RuleInfo {
        RuleInfo {
            id: ID@,
            name: NAME@,
            severity: Severity::Warning,
            description: DESCRIPTION@,
            rationale: RATIONALE@,
            fix_suggestion: Some(FIX_SUGGESTION@),
            impact: Some(
                ImpactView {
                    build_time_improvement: Some(BUILD_TIME_IMPACT@),
                    image_size_reduction: Some(IMAGE_SIZE_IMPACT@),
                    security_improvement: Some(SECURITY_IMPACT@),
                    reliability_improvement: None,
                },
            ),
        }
    }

    fn id(&self) -> &'static str {
        ID
    }

    fn name(&self) -> &'static str {
        NAME
    }

    fn severity(&self) -> Severity {
        Severity::Warning
    }

    fn description(&self) -> &'static str {
        DESCRIPTION
    }

    fn rationale(&self) -> &'static str {
        RATIONALE
    }

    fn fix_suggestion(&self) -> Option<&'static str> {
        Some(FIX_SUGGESTION)
    }

    fn impact(&self) -> Option<ImpactEstimate> {
        Some(
            ImpactEstimate {
                build_time_improvement: Some(BUILD_TIME_IMPACT.to_owned()),
                image_size_reduction: Some(IMAGE_SIZE_IMPACT.to_owned()),
                security_improvement: Some(SECURITY_IMPACT.to_owned()),
                reliability_improvement: None,
            },
        )
    }
}

/// What is said of a cleanup in a layer of its own.
pub const SEPARATE_CLEANUP: &'static str = "Cleanup in separate layer doesn't save space - combine with install command";

/// What is said of an index update in a layer of its own.
pub const SEPARATE_UPDATE: &'static str = "apt-get update in separate RUN - combine with apt-get install using &&";

/// What is said of installs that take recommended packages along.
pub const RECOMMENDS: &'static str = "apt-get install without --no-install-recommends may install unnecessary packages";

/// How to keep recommended packages out.
pub const RECOMMENDS_FIX: &'static str = "Add --no-install-recommends flag to apt-get install";

/// Whether the command text `args`, in lowercase, installs packages.
pub open spec fn installs(args: Seq<char>) -> bool {
    contains(args, "apt-get install"@)
}

/// Whether the command text `args`, in lowercase, cleans the package index up
/// without installing anything.
pub open spec fn cleans_apart(args: Seq<char>) -> bool {
    (contains(args, "apt-get clean"@) || contains(args, "rm -rf /var/lib/apt/lists"@))
        && !installs(args)
}

/// Whether the command text `args`, in lowercase, updates the package index
/// without installing anything.
pub open spec fn updates_apart(args: Seq<char>) -> bool {
    contains(args, "apt-get update"@) && !installs(args)
}

/// Whether `instruction` is a run-directive that installs packages.
pub open spec fn is_install(instruction: InstructionView) -> bool {
    instruction.name == "RUN"@ && installs(lowercase(instruction.arguments))
}

/// Whether the command text `args`, in lowercase, installs packages and leaves
/// the recommended ones out.
pub open spec fn is_lean(args: Seq<char>) -> bool {
    installs(args) && contains(args, "--no-install-recommends"@)
}

/// Whether `instruction` is a run-directive that installs packages and leaves
/// the recommended ones out.
pub open spec fn is_lean_install(instruction: InstructionView) -> bool {
    instruction.name == "RUN"@ && is_lean(lowercase(instruction.arguments))
}

/// Whether the command text `args`, in lowercase, installs packages.
pub fn installs_packages(args: &str) -> (r: bool)
    ensures
        r == installs(args@),
{
    str_contains(args, "apt-get install")
}

/// Whether the command text `args`, in lowercase, installs packages and leaves
/// the recommended ones out.
pub fn installs_lean(args: &str) -> (r: bool)
    ensures
        r == is_lean(args@),
{
    installs_packages(args) && str_contains(args, "--no-install-recommends")
}

/// The line of the last of `instructions` that installs packages.
pub open spec fn last_install_line(instructions: Seq<InstructionView>) -> Option<nat>
    decreases instructions.len(),
{
    if instructions.len() == 0 {
        None
    } else if is_install(instructions.last()) {
        Some(instructions.last().line_number)
    } else {
        last_install_line(instructions.drop_last())
    }
}

/// Whether one of `instructions` installs packages and leaves the recommended
/// ones out.
pub open spec fn has_lean_install(instructions: Seq<InstructionView>) -> bool
    decreases instructions.len(),
{
    instructions.len() > 0 && (is_lean_install(instructions.last()) || has_lean_install(
        instructions.drop_last(),
    ))
}

impl LayerOptimizationRule {
    /// The issues on a run-directive at `line` whose command text in lowercase
    /// is `args`: one for a cleanup apart from an install, and one for an index
    /// update apart from an install.
    pub open spec fn issues_on_run(self, args: Seq<char>, line: nat) -> Seq<IssueView> {
        (if cleans_apart(args) {
            seq![issue_of(self.info(), Some(line), SEPARATE_CLEANUP@)]
        } else {
            Seq::empty()
        }) + (if updates_apart(args) {
            seq![issue_of(self.info(), Some(line), SEPARATE_UPDATE@)]
        } else {
            Seq::empty()
        })
    }

    /// Judges a run-directive at `line` whose command text in lowercase is
    /// `args`.
    pub fn judge_run(&self, args: &str, line: usize) -> (issues: Vec<Issue>)
        ensures
            issues.deep_view() == self.issues_on_run(args@, line as nat),
    {
        let installs = installs_packages(args);
        let mut issues = if (str_contains(args, "apt-get clean") || str_contains(
            args,
            "rm -rf /var/lib/apt/lists",
        )) && !installs {
            one_issue(self, Some(line), SEPARATE_CLEANUP.to_owned())
        } else {
            no_issue()
        };
        let update = if str_contains(args, "apt-get update") && !installs {
            one_issue(self, Some(line), SEPARATE_UPDATE.to_owned())
        } else {
            no_issue()
        };
        append_issues(&mut issues, update);
        issues
    }

    /// The issue on installs that take recommended packages along. It is raised
    /// once, at the last install, where no install leaves them out.
    pub open spec fn recommends_issue(self, instructions: Seq<InstructionView>) -> Seq<IssueView> {
        if last_install_line(instructions) is Some && !has_lean_install(instructions) {
            seq![
                IssueView {
                    rule_id: ID@,
                    rule_name: NAME@,
                    severity: Severity::Suggestion,
                    line_number: last_install_line(instructions),
                    message: RECOMMENDS@,
                    fix_suggestion: Some(RECOMMENDS_FIX@),
                    impact: self.info().impact,
                },
            ]
        } else {
            Seq::empty()
        }
    }
}

impl InstructionRule for LayerOptimizationRule {
    open spec fn issues_on(&self, instruction: InstructionView) -> Seq<IssueView> {
        if instruction.name == "RUN"@ {
            self.issues_on_run(lowercase(instruction.arguments), instruction.line_number)
        } else {
            Seq::empty()
        }
    }

    fn inspect(&self, instruction: &Instruction) -> (issues: Vec<Issue>) {
        if !str_eq(instruction.name.as_str(), "RUN") {
            return no_issue();
        }
        let args = to_lowercase(instruction.arguments.as_str());
        self.judge_run(args.as_str(), instruction.line_number)
    }
}

impl DockerfileRule for LayerOptimizationRule {
    open spec fn findings(
        &self,
        instructions: Seq<InstructionView>,
        context: Option<BuildContext>,
    ) -> Seq<IssueView> {
        issues_over(*self, instructions) + self.recommends_issue(instructions)
    }

    fn check(&self, parser: &DockerfileParser, context: Option<&BuildContext>) -> (issues: Vec<
        Issue,
    >) {
        let mut issues = inspect_all(self, parser);
        let ghost instructions = parser.instructions.deep_view();
        let mut install_line: Option<usize> = None;
        let mut lean: bool = false;
        let mut i: usize = 0;
        assert(instructions.take(0) =~= Seq::empty());
        while i < parser.instructions.len()
            invariant
                i <= parser.instructions.len(),
                instructions == parser.instructions.deep_view(),
                line_of(install_line) == last_install_line(instructions.take(i as int)),
                lean == has_lean_install(instructions.take(i as int)),
            decreases parser.instructions.len() - i,
        {
            let instruction = &parser.instructions[i];
            assert(instructions.take(i + 1).drop_last() == instructions.take(i as int));
            assert(instructions.take(i + 1).last() == instruction@);
            if str_eq(instruction.name.as_str(), "RUN") {
                let args = to_lowercase(instruction.arguments.as_str());
                if installs_packages(args.as_str()) {
                    install_line = Some(instruction.line_number);
                    if installs_lean(args.as_str()) {
                        lean = true;
                    }
                }
            }
            i += 1;
        }
        assert(instructions.take(i as int) =~= instructions);
        let ghost before = issues.deep_view();
        if install_line.is_some() && !lean {
            let issue = Issue {
                rule_id: ID.to_owned(),
                rule_name: NAME.to_owned(),
                severity: Severity::Suggestion,
                line_number: install_line,
                message: RECOMMENDS.to_owned(),
                fix_suggestion: Some(RECOMMENDS_FIX.to_owned()),
                impact: self.impact(),
            };
            issues.push(issue);
            assert(issues.deep_view() =~= before + seq![issue@]);
        } else {
            assert(issues.deep_view() =~= before + Seq::<IssueView>::empty());
        }
        issues
    }
}

} // verus!
