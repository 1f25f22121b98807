//! The rules on build scripts.

pub mod curl_bash;
pub mod healthcheck;
pub mod large_base_image;
pub mod latest_tag;
pub mod layer_optimization;
pub mod layer_order;
pub mod multistage;
pub mod no_dockerignore;
pub mod root_user;
pub mod secrets_in_env;
pub mod version_pinning;

pub use curl_bash::CurlBashRule;
pub use healthcheck::HealthcheckRule;
pub use large_base_image::LargeBaseImageRule;
pub use latest_tag::LatestTagRule;
pub use layer_optimization::LayerOptimizationRule;
pub use layer_order::LayerOrderRule;
pub use multistage::MultistageRule;
pub use no_dockerignore::NoDockerignoreRule;
pub use root_user::RootUserRule;
pub use secrets_in_env::SecretsInEnvRule;
pub use version_pinning::VersionPinningRule;

use super::rule::{append_issues, Issue, IssueView, Rule};
use crate::parser::dockerfile::{is_named, DockerfileParser, Instruction, InstructionView};
use crate::text::str_eq_ignore_ascii_case;
use vstd::prelude::*;

verus! {

/// What is known of the directory that a build script is built in.
#[derive(Debug, Clone, Copy, PartialEq, Eq, Structural)]
pub struct BuildContext {
    /// Whether the directory holds a `.dockerignore` file.
    pub has_ignore_file: bool,
}

/// The context that `context` refers to, if any.
pub open spec fn context_of(context: Option<&BuildContext>) -> Option<BuildContext> {
    match context {
        Some(c) => Some(*c),
        None => None,
    }
}

/// A rule on build scripts. It reads the instructions, and what is known of the
/// build context if anything is, and raises issues.
pub trait DockerfileRule: Rule {
    /// The issues that the rule raises on `instructions` in `context`.
    spec fn findings(
        &self,
        instructions: Seq<InstructionView>,
        context: Option<BuildContext>,
    ) -> Seq<IssueView>;

    /// Runs the rule.
    fn check(&self, parser: &DockerfileParser, context: Option<&BuildContext>) -> (issues: Vec<
        Issue,
    >)
        requires
            self.ready(),
        ensures
            issues.deep_view() == self.findings(
                parser.instructions.deep_view(),
                context_of(context),
            ),
    ;
}

/// A rule that judges each instruction by itself.
pub trait InstructionRule: Rule {
    /// The issues that the rule raises on `instruction`.
    spec fn issues_on(&self, instruction: InstructionView) -> Seq<IssueView>;

    /// Judges one instruction.
    fn inspect(&self, instruction: &Instruction) -> (issues: Vec<Issue>)
        requires
            self.ready(),
        ensures
            issues.deep_view() == self.issues_on(instruction@),
    ;
}

/// The issues that `rule` raises on each of `instructions`, in their order.
pub open spec fn issues_over<R: InstructionRule>(
    rule: R,
    instructions: Seq<InstructionView>,
) -> Seq<IssueView>
    decreases instructions.len(),
{
    if instructions.len() == 0 {
        Seq::empty()
    } else {
        issues_over(rule, instructions.drop_last()) + rule.issues_on(instructions.last())
    }
}

/// Judges each instruction of `parser` by `rule`.
pub fn inspect_all<R: InstructionRule>(rule: &R, parser: &DockerfileParser) -> (issues: Vec<Issue>)
    requires
        rule.ready(),
    ensures
        issues.deep_view() == issues_over(*rule, parser.instructions.deep_view()),
{
    let mut issues: Vec<Issue> = Vec::new();
    let ghost instructions = parser.instructions.deep_view();
    let mut i: usize = 0;
    assert(instructions.take(0) =~= Seq::empty());
    assert(issues.deep_view() =~= Seq::empty());
    while i < parser.instructions.len()
        invariant
            i <= parser.instructions.len(),
            instructions == parser.instructions.deep_view(),
            rule.ready(),
            issues.deep_view() == issues_over(*rule, instructions.take(i as int)),
        decreases parser.instructions.len() - i,
    {
        let instruction = &parser.instructions[i];
        assert(instruction@ == instructions[i as int]);
        assert(instructions.take(i + 1).drop_last() == instructions.take(i as int));
        let found = rule.inspect(instruction);
        append_issues(&mut issues, found);
        i += 1;
    }
    assert(instructions.take(i as int) =~= instructions);
    issues
}

/// Whether `instruction` has the directive name `name`, the case of ASCII
/// letters aside.
pub fn has_name(instruction: &Instruction, name: &str) -> (r: bool)
    ensures
        r == is_named(instruction@, name@),
{
    str_eq_ignore_ascii_case(instruction.name.as_str(), name)
}

} // verus!
