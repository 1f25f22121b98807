//! Compiling in the image that is shipped.

use super::{BuildContext, DockerfileRule};
use crate::parser::dockerfile::{named, DockerfileParser, InstructionView};
use crate::rules::rule::{
    issue_of, no_issue, one_issue, ImpactEstimate, ImpactView, Issue, IssueView, Rule, RuleInfo,
};
use crate::rules::severity::Severity;
use crate::text::{contains_any, lowercase, str_contains_any, str_eq, str_views, to_lowercase};
use vstd::prelude::*;

verus! {

/// The rule's short code.
pub const ID: &'static str = "DF008";

/// The rule's name.
pub const NAME: &'static str = "Missing multi-stage build";

/// What the rule looks for.
pub const DESCRIPTION: &'static str = "Consider using multi-stage builds for compiled languages";

/// Why the rule exists.
pub const RATIONALE: &'static str = "For compiled languages (Go, Rust, Java, etc.), multi-stage builds dramatically reduce image size by separating build dependencies from runtime. The final image only contains the compiled binary, not compilers, build tools, or source code.";

/// How to mend what the rule finds.
pub const FIX_SUGGESTION: &'static str = "Use multi-stage build: compile in one stage, copy binary to minimal runtime image";

/// What mending gains: image size reduction.
pub const IMAGE_SIZE_IMPACT: &'static str = "Can reduce image size by 80-95%";

/// What mending gains: security improvement.
pub const SECURITY_IMPACT: &'static str = "Smaller attack surface";

/// Suggests a builder stage where a single-stage build compiles.
pub struct MultistageRule;

impl Rule for MultistageRule {
    open spec fn ready(&self) -> bool {
        true
    }

    open spec fn info(&self) -> RuleInfo {
        RuleInfo {
            id: ID@,
            name: NAME@,
            severity: Severity::Suggestion,
            description: DESCRIPTION@,
            rationale: RATIONALE@,
            fix_suggestion: Some(FIX_SUGGESTION@),
            impact: Some(
                ImpactView {
                    build_time_improvement: None,
                    image_size_reduction: Some(IMAGE_SIZE_IMPACT@),
                    security_improvement: Some(SECURITY_IMPACT@),
                    reliability_improvement: None,
                },
            ),
        }
    }

    fn id(&self) -> &'static str {
        ID
    }

    fn name(&self) -> &'static str {
        NAME
    }

    fn severity(&self) -> Severity {
        Severity::Suggestion
    }

    fn description(&self) -> &'static str {
        DESCRIPTION
    }

    fn rationale(&self) -> &'static str {
        RATIONALE
    }

    fn fix_suggestion(&self) -> Option<&'static str> {
        Some(FIX_SUGGESTION)
    }

    fn impact(&self) -> Option<ImpactEstimate> {
        Some(
            ImpactEstimate {
                build_time_improvement: None,
                image_size_reduction: Some(IMAGE_SIZE_IMPACT.to_owned()),
                security_improvement: Some(SECURITY_IMPACT.to_owned()),
                reliability_improvement: None,
            },
        )
    }
}

/// What is said of a single-stage build that compiles.
pub const MESSAGE: &'static str = "Single-stage build with compilation detected - consider multi-stage build";

/// The commands, in lowercase, that compile or build.
pub open spec fn compile_commands() -> Seq<Seq<char>> {
    seq![
        "go build"@,
        "cargo build"@,
        "mvn package"@,
        "gradle build"@,
        "npm run build"@,
        "yarn build"@,
        "make "@,
        "gcc "@,
        "g++ "@,
        "rustc "@,
        "javac "@,
    ]
}

fn compile_command_list() -> (list: Vec<&'static str>)
    ensures
        str_views(list@) == compile_commands(),
{
    let list = vec![
        "go build",
        "cargo build",
        "mvn package",
        "gradle build",
        "npm run build",
        "yarn build",
        "make ",
        "gcc ",
        "g++ ",
        "rustc ",
        "javac ",
    ];
    assert(str_views(list@) =~= compile_commands());
    list
}

/// Whether the command text `args`, in lowercase, compiles or builds.
pub open spec fn is_compile_text(args: Seq<char>) -> bool {
    contains_any(args, compile_commands())
}

/// Whether `instruction` is a run-directive that compiles or builds.
pub open spec fn is_compile_step(instruction: InstructionView) -> bool {
    instruction.name == "RUN"@ && is_compile_text(lowercase(instruction.arguments))
}

/// Whether the command text `args`, in lowercase, compiles or builds.
pub fn is_compile_command(args: &str) -> (r: bool)
    ensures
        r == is_compile_text(args@),
{
    str_contains_any(args, &compile_command_list())
}

/// Whether one of `instructions` compiles or builds.
pub open spec fn compiles(instructions: Seq<InstructionView>) -> bool {
    exists|i: int| 0 <= i < instructions.len() && is_compile_step(#[trigger] instructions[i])
}

impl DockerfileRule for MultistageRule {
    open spec fn findings(
        &self,
        instructions: Seq<InstructionView>,
        context: Option<BuildContext>,
    ) -> Seq<IssueView> {
        if named(instructions, "FROM"@).len() <= 1 && compiles(instructions) {
            seq![issue_of(self.info(), None, MESSAGE@)]
        } else {
            Seq::empty()
        }
    }

    fn check(&self, parser: &DockerfileParser, context: Option<&BuildContext>) -> (issues: Vec<
        Issue,
    >) {
        let stages = parser.get_instructions("FROM");
        assert(stages.deep_view().len() == stages.len());
        if stages.len() > 1 {
            return no_issue();
        }
        let ghost instructions = parser.instructions.deep_view();
        let mut i: usize = 0;
        while i < parser.instructions.len()
            invariant
                i <= parser.instructions.len(),
                instructions == parser.instructions.deep_view(),
                named(instructions, "FROM"@).len() <= 1,
                forall|j: int| 0 <= j < i ==> !is_compile_step(#[trigger] instructions[j]),
            decreases parser.instructions.len() - i,
        {
            let instruction = &parser.instructions[i];
            assert(instruction@ == instructions[i as int]);
            if str_eq(instruction.name.as_str(), "RUN") {
                let args = to_lowercase(instruction.arguments.as_str());
                if is_compile_command(args.as_str()) {
                    assert(is_compile_step(instructions[i as int]));
                    return one_issue(self, None, MESSAGE.to_owned());
                }
            }
            i += 1;
        }
        no_issue()
    }
}

} // verus!
