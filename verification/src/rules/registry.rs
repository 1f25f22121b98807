//! The rules that there are. The set is closed: every rule is a variant here,
//! and can be listed and found by its code.

use super::compose::{
    ComposeLatestTagRule, ComposeRule, HardcodedSecretsRule, PrivilegedRule, ResourceLimitsRule,
    RestartPolicyRule,
};
use super::dockerfile::{
    BuildContext, CurlBashRule, DockerfileRule, HealthcheckRule, LargeBaseImageRule,
    LatestTagRule, LayerOrderRule, MultistageRule, NoDockerignoreRule, RootUserRule,
    SecretsInEnvRule, VersionPinningRule,
};
use super::rule::{ImpactEstimate, Issue, IssueView, Rule, RuleInfo};
use super::severity::Severity;
use crate::parser::compose::{ComposeFile, ComposeFileView};
use crate::parser::dockerfile::{DockerfileParser, InstructionView};
use crate::text::{str_eq, to_uppercase, uppercase};
use vstd::prelude::*;

verus! {

/// A rule on build scripts.
#[derive(Debug, Clone, Copy, PartialEq, Eq, Structural)]
pub enum DockerfileRuleKind {
    LatestTag,
    RootUser,
    NoDockerignore,
    LayerOrder,
    Healthcheck,
    SecretsInEnv,
    VersionPinning,
    Multistage,
    LargeBaseImage,
    CurlBash,
}

/// A rule on descriptors.
#[derive(Debug, Clone, Copy, PartialEq, Eq, Structural)]
pub enum ComposeRuleKind {
    RestartPolicy,
    Privileged,
    ResourceLimits,
    LatestTag,
    HardcodedSecrets,
}

/// A rule of either kind.
#[derive(Debug, Clone, Copy, PartialEq, Eq, Structural)]
pub enum AnyRule {
    Dockerfile(DockerfileRuleKind),
    Compose(ComposeRuleKind),
}

impl Rule for DockerfileRuleKind {
    open spec fn ready(&self) -> bool {
        match self {
            DockerfileRuleKind::LatestTag => LatestTagRule.ready(),
            DockerfileRuleKind::RootUser => RootUserRule.ready(),
            DockerfileRuleKind::NoDockerignore => NoDockerignoreRule.ready(),
            DockerfileRuleKind::LayerOrder => LayerOrderRule.ready(),
            DockerfileRuleKind::Healthcheck => HealthcheckRule.ready(),
            DockerfileRuleKind::SecretsInEnv => SecretsInEnvRule.ready(),
            DockerfileRuleKind::VersionPinning => VersionPinningRule.ready(),
            DockerfileRuleKind::Multistage => MultistageRule.ready(),
            DockerfileRuleKind::LargeBaseImage => LargeBaseImageRule.ready(),
            DockerfileRuleKind::CurlBash => CurlBashRule.ready(),
        }
    }

    open spec fn info(&self) -> RuleInfo {
        match self {
            DockerfileRuleKind::LatestTag => LatestTagRule.info(),
            DockerfileRuleKind::RootUser => RootUserRule.info(),
            DockerfileRuleKind::NoDockerignore => NoDockerignoreRule.info(),
            DockerfileRuleKind::LayerOrder => LayerOrderRule.info(),
            DockerfileRuleKind::Healthcheck => HealthcheckRule.info(),
            DockerfileRuleKind::SecretsInEnv => SecretsInEnvRule.info(),
            DockerfileRuleKind::VersionPinning => VersionPinningRule.info(),
            DockerfileRuleKind::Multistage => MultistageRule.info(),
            DockerfileRuleKind::LargeBaseImage => LargeBaseImageRule.info(),
            DockerfileRuleKind::CurlBash => CurlBashRule.info(),
        }
    }

    fn id(&self) -> &'static str {
        match self {
            DockerfileRuleKind::LatestTag => LatestTagRule.id(),
            DockerfileRuleKind::RootUser => RootUserRule.id(),
            DockerfileRuleKind::NoDockerignore => NoDockerignoreRule.id(),
            DockerfileRuleKind::LayerOrder => LayerOrderRule.id(),
            DockerfileRuleKind::Healthcheck => HealthcheckRule.id(),
            DockerfileRuleKind::SecretsInEnv => SecretsInEnvRule.id(),
            DockerfileRuleKind::VersionPinning => VersionPinningRule.id(),
            DockerfileRuleKind::Multistage => MultistageRule.id(),
            DockerfileRuleKind::LargeBaseImage => LargeBaseImageRule.id(),
            DockerfileRuleKind::CurlBash => CurlBashRule.id(),
        }
    }

    fn name(&self) -> &'static str {
        match self {
            DockerfileRuleKind::LatestTag => LatestTagRule.name(),
            DockerfileRuleKind::RootUser => RootUserRule.name(),
            DockerfileRuleKind::NoDockerignore => NoDockerignoreRule.name(),
            DockerfileRuleKind::LayerOrder => LayerOrderRule.name(),
            DockerfileRuleKind::Healthcheck => HealthcheckRule.name(),
            DockerfileRuleKind::SecretsInEnv => SecretsInEnvRule.name(),
            DockerfileRuleKind::VersionPinning => VersionPinningRule.name(),
            DockerfileRuleKind::Multistage => MultistageRule.name(),
            DockerfileRuleKind::LargeBaseImage => LargeBaseImageRule.name(),
            DockerfileRuleKind::CurlBash => CurlBashRule.name(),
        }
    }

    fn severity(&self) -> Severity {
        match self {
            DockerfileRuleKind::LatestTag => LatestTagRule.severity(),
            DockerfileRuleKind::RootUser => RootUserRule.severity(),
            DockerfileRuleKind::NoDockerignore => NoDockerignoreRule.severity(),
            DockerfileRuleKind::LayerOrder => LayerOrderRule.severity(),
            DockerfileRuleKind::Healthcheck => HealthcheckRule.severity(),
            DockerfileRuleKind::SecretsInEnv => SecretsInEnvRule.severity(),
            DockerfileRuleKind::VersionPinning => VersionPinningRule.severity(),
            DockerfileRuleKind::Multistage => MultistageRule.severity(),
            DockerfileRuleKind::LargeBaseImage => LargeBaseImageRule.severity(),
            DockerfileRuleKind::CurlBash => CurlBashRule.severity(),
        }
    }

    fn description(&self) -> &'static str {
        match self {
            DockerfileRuleKind::LatestTag => LatestTagRule.description(),
            DockerfileRuleKind::RootUser => RootUserRule.description(),
            DockerfileRuleKind::NoDockerignore => NoDockerignoreRule.description(),
            DockerfileRuleKind::LayerOrder => LayerOrderRule.description(),
            DockerfileRuleKind::Healthcheck => HealthcheckRule.description(),
            DockerfileRuleKind::SecretsInEnv => SecretsInEnvRule.description(),
            DockerfileRuleKind::VersionPinning => VersionPinningRule.description(),
            DockerfileRuleKind::Multistage => MultistageRule.description(),
            DockerfileRuleKind::LargeBaseImage => LargeBaseImageRule.description(),
            DockerfileRuleKind::CurlBash => CurlBashRule.description(),
        }
    }

    fn rationale(&self) -> &'static str {
        match self {
            DockerfileRuleKind::LatestTag => LatestTagRule.rationale(),
            DockerfileRuleKind::RootUser => RootUserRule.rationale(),
            DockerfileRuleKind::NoDockerignore => NoDockerignoreRule.rationale(),
            DockerfileRuleKind::LayerOrder => LayerOrderRule.rationale(),
            DockerfileRuleKind::Healthcheck => HealthcheckRule.rationale(),
            DockerfileRuleKind::SecretsInEnv => SecretsInEnvRule.rationale(),
            DockerfileRuleKind::VersionPinning => VersionPinningRule.rationale(),
            DockerfileRuleKind::Multistage => MultistageRule.rationale(),
            DockerfileRuleKind::LargeBaseImage => LargeBaseImageRule.rationale(),
            DockerfileRuleKind::CurlBash => CurlBashRule.rationale(),
        }
    }

    fn fix_suggestion(&self) -> Option<&'static str> {
        match self {
            DockerfileRuleKind::LatestTag => LatestTagRule.fix_suggestion(),
            DockerfileRuleKind::RootUser => RootUserRule.fix_suggestion(),
            DockerfileRuleKind::NoDockerignore => NoDockerignoreRule.fix_suggestion(),
            DockerfileRuleKind::LayerOrder => LayerOrderRule.fix_suggestion(),
            DockerfileRuleKind::Healthcheck => HealthcheckRule.fix_suggestion(),
            DockerfileRuleKind::SecretsInEnv => SecretsInEnvRule.fix_suggestion(),
            DockerfileRuleKind::VersionPinning => VersionPinningRule.fix_suggestion(),
            DockerfileRuleKind::Multistage => MultistageRule.fix_suggestion(),
            DockerfileRuleKind::LargeBaseImage => LargeBaseImageRule.fix_suggestion(),
            DockerfileRuleKind::CurlBash => CurlBashRule.fix_suggestion(),
        }
    }

    fn impact(&self) -> Option<ImpactEstimate> {
        match self {
            DockerfileRuleKind::LatestTag => LatestTagRule.impact(),
            DockerfileRuleKind::RootUser => RootUserRule.impact(),
            DockerfileRuleKind::NoDockerignore => NoDockerignoreRule.impact(),
            DockerfileRuleKind::LayerOrder => LayerOrderRule.impact(),
            DockerfileRuleKind::Healthcheck => HealthcheckRule.impact(),
            DockerfileRuleKind::SecretsInEnv => SecretsInEnvRule.impact(),
            DockerfileRuleKind::VersionPinning => VersionPinningRule.impact(),
            DockerfileRuleKind::Multistage => MultistageRule.impact(),
            DockerfileRuleKind::LargeBaseImage => LargeBaseImageRule.impact(),
            DockerfileRuleKind::CurlBash => CurlBashRule.impact(),
        }
    }
}

impl Rule for ComposeRuleKind {
    open spec fn ready(&self) -> bool {
        match self {
            ComposeRuleKind::RestartPolicy => RestartPolicyRule.ready(),
            ComposeRuleKind::Privileged => PrivilegedRule.ready(),
            ComposeRuleKind::ResourceLimits => ResourceLimitsRule.ready(),
            ComposeRuleKind::LatestTag => ComposeLatestTagRule.ready(),
            ComposeRuleKind::HardcodedSecrets => HardcodedSecretsRule.ready(),
        }
    }

    open spec fn info(&self) -> RuleInfo {
        match self {
            ComposeRuleKind::RestartPolicy => RestartPolicyRule.info(),
            ComposeRuleKind::Privileged => PrivilegedRule.info(),
            ComposeRuleKind::ResourceLimits => ResourceLimitsRule.info(),
            ComposeRuleKind::LatestTag => ComposeLatestTagRule.info(),
            ComposeRuleKind::HardcodedSecrets => HardcodedSecretsRule.info(),
        }
    }

    fn id(&self) -> &'static str {
        match self {
            ComposeRuleKind::RestartPolicy => RestartPolicyRule.id(),
            ComposeRuleKind::Privileged => PrivilegedRule.id(),
            ComposeRuleKind::ResourceLimits => ResourceLimitsRule.id(),
            ComposeRuleKind::LatestTag => ComposeLatestTagRule.id(),
            ComposeRuleKind::HardcodedSecrets => HardcodedSecretsRule.id(),
        }
    }

    fn name(&self) -> &'static str {
        match self {
            ComposeRuleKind::RestartPolicy => RestartPolicyRule.name(),
            ComposeRuleKind::Privileged => PrivilegedRule.name(),
            ComposeRuleKind::ResourceLimits => ResourceLimitsRule.name(),
            ComposeRuleKind::LatestTag => ComposeLatestTagRule.name(),
            ComposeRuleKind::HardcodedSecrets => HardcodedSecretsRule.name(),
        }
    }

    fn severity(&self) -> Severity {
        match self {
            ComposeRuleKind::RestartPolicy => RestartPolicyRule.severity(),
            ComposeRuleKind::Privileged => PrivilegedRule.severity(),
            ComposeRuleKind::ResourceLimits => ResourceLimitsRule.severity(),
            ComposeRuleKind::LatestTag => ComposeLatestTagRule.severity(),
            ComposeRuleKind::HardcodedSecrets => HardcodedSecretsRule.severity(),
        }
    }

    fn description(&self) -> &'static str {
        match self {
            ComposeRuleKind::RestartPolicy => RestartPolicyRule.description(),
            ComposeRuleKind::Privileged => PrivilegedRule.description(),
            ComposeRuleKind::ResourceLimits => ResourceLimitsRule.description(),
            ComposeRuleKind::LatestTag => ComposeLatestTagRule.description(),
            ComposeRuleKind::HardcodedSecrets => HardcodedSecretsRule.description(),
        }
    }

    fn rationale(&self) -> &'static str {
        match self {
            ComposeRuleKind::RestartPolicy => RestartPolicyRule.rationale(),
            ComposeRuleKind::Privileged => PrivilegedRule.rationale(),
            ComposeRuleKind::ResourceLimits => ResourceLimitsRule.rationale(),
            ComposeRuleKind::LatestTag => ComposeLatestTagRule.rationale(),
            ComposeRuleKind::HardcodedSecrets => HardcodedSecretsRule.rationale(),
        }
    }

    fn fix_suggestion(&self) -> Option<&'static str> {
        match self {
            ComposeRuleKind::RestartPolicy => RestartPolicyRule.fix_suggestion(),
            ComposeRuleKind::Privileged => PrivilegedRule.fix_suggestion(),
            ComposeRuleKind::ResourceLimits => ResourceLimitsRule.fix_suggestion(),
            ComposeRuleKind::LatestTag => ComposeLatestTagRule.fix_suggestion(),
            ComposeRuleKind::HardcodedSecrets => HardcodedSecretsRule.fix_suggestion(),
        }
    }

    fn impact(&self) -> Option<ImpactEstimate> {
        match self {
            ComposeRuleKind::RestartPolicy => RestartPolicyRule.impact(),
            ComposeRuleKind::Privileged => PrivilegedRule.impact(),
            ComposeRuleKind::ResourceLimits => ResourceLimitsRule.impact(),
            ComposeRuleKind::LatestTag => ComposeLatestTagRule.impact(),
            ComposeRuleKind::HardcodedSecrets => HardcodedSecretsRule.impact(),
        }
    }
}

impl Rule for AnyRule {
    open spec fn ready(&self) -> bool {
        match self {
            AnyRule::Dockerfile(rule) => rule.ready(),
            AnyRule::Compose(rule) => rule.ready(),
        }
    }

    open spec fn info(&self) -> RuleInfo {
        match self {
            AnyRule::Dockerfile(rule) => rule.info(),
            AnyRule::Compose(rule) => rule.info(),
        }
    }

    fn id(&self) -> &'static str {
        match self {
            AnyRule::Dockerfile(rule) => rule.id(),
            AnyRule::Compose(rule) => rule.id(),
        }
    }

    fn name(&self) -> &'static str {
        match self {
            AnyRule::Dockerfile(rule) => rule.name(),
            AnyRule::Compose(rule) => rule.name(),
        }
    }

    fn severity(&self) -> Severity {
        match self {
            AnyRule::Dockerfile(rule) => rule.severity(),
            AnyRule::Compose(rule) => rule.severity(),
        }
    }

    fn description(&self) -> &'static str {
        match self {
            AnyRule::Dockerfile(rule) => rule.description(),
            AnyRule::Compose(rule) => rule.description(),
        }
    }

    fn rationale(&self) -> &'static str {
        match self {
            AnyRule::Dockerfile(rule) => rule.rationale(),
            AnyRule::Compose(rule) => rule.rationale(),
        }
    }

    fn fix_suggestion(&self) -> Option<&'static str> {
        match self {
            AnyRule::Dockerfile(rule) => rule.fix_suggestion(),
            AnyRule::Compose(rule) => rule.fix_suggestion(),
        }
    }

    fn impact(&self) -> Option<ImpactEstimate> {
        match self {
            AnyRule::Dockerfile(rule) => rule.impact(),
            AnyRule::Compose(rule) => rule.impact(),
        }
    }
}

impl DockerfileRule for DockerfileRuleKind {
    open spec fn findings(
        &self,
        instructions: Seq<InstructionView>,
        context: Option<BuildContext>,
    ) -> Seq<IssueView> {
        match self {
            DockerfileRuleKind::LatestTag => LatestTagRule.findings(instructions, context),
            DockerfileRuleKind::RootUser => RootUserRule.findings(instructions, context),
            DockerfileRuleKind::NoDockerignore => {
                NoDockerignoreRule.findings(instructions, context)
            },
            DockerfileRuleKind::LayerOrder => LayerOrderRule.findings(instructions, context),
            DockerfileRuleKind::Healthcheck => HealthcheckRule.findings(instructions, context),
            DockerfileRuleKind::SecretsInEnv => SecretsInEnvRule.findings(instructions, context),
            DockerfileRuleKind::VersionPinning => {
                VersionPinningRule.findings(instructions, context)
            },
            DockerfileRuleKind::Multistage => MultistageRule.findings(instructions, context),
            DockerfileRuleKind::LargeBaseImage => {
                LargeBaseImageRule.findings(instructions, context)
            },
            DockerfileRuleKind::CurlBash => CurlBashRule.findings(instructions, context),
        }
    }

    fn check(&self, parser: &DockerfileParser, context: Option<&BuildContext>) -> (issues: Vec<
        Issue,
    >) {
        match self {
            DockerfileRuleKind::LatestTag => LatestTagRule.check(parser, context),
            DockerfileRuleKind::RootUser => RootUserRule.check(parser, context),
            DockerfileRuleKind::NoDockerignore => NoDockerignoreRule.check(parser, context),
            DockerfileRuleKind::LayerOrder => LayerOrderRule.check(parser, context),
            DockerfileRuleKind::Healthcheck => HealthcheckRule.check(parser, context),
            DockerfileRuleKind::SecretsInEnv => SecretsInEnvRule.check(parser, context),
            DockerfileRuleKind::VersionPinning => VersionPinningRule.check(parser, context),
            DockerfileRuleKind::Multistage => MultistageRule.check(parser, context),
            DockerfileRuleKind::LargeBaseImage => LargeBaseImageRule.check(parser, context),
            DockerfileRuleKind::CurlBash => CurlBashRule.check(parser, context),
        }
    }
}

impl ComposeRule for ComposeRuleKind {
    open spec fn findings(&self, compose: ComposeFileView) -> Seq<IssueView> {
        match self {
            ComposeRuleKind::RestartPolicy => RestartPolicyRule.findings(compose),
            ComposeRuleKind::Privileged => PrivilegedRule.findings(compose),
            ComposeRuleKind::ResourceLimits => ResourceLimitsRule.findings(compose),
            ComposeRuleKind::LatestTag => ComposeLatestTagRule.findings(compose),
            ComposeRuleKind::HardcodedSecrets => HardcodedSecretsRule.findings(compose),
        }
    }

    fn check(&self, compose: &ComposeFile) -> (issues: Vec<Issue>) {
        match self {
            ComposeRuleKind::RestartPolicy => RestartPolicyRule.check(compose),
            ComposeRuleKind::Privileged => PrivilegedRule.check(compose),
            ComposeRuleKind::ResourceLimits => ResourceLimitsRule.check(compose),
            ComposeRuleKind::LatestTag => ComposeLatestTagRule.check(compose),
            ComposeRuleKind::HardcodedSecrets => HardcodedSecretsRule.check(compose),
        }
    }
}

/// The rules on build scripts, in the order in which they run.
pub open spec fn dockerfile_rules() -> Seq<DockerfileRuleKind> {
    seq![
        DockerfileRuleKind::LatestTag,
        DockerfileRuleKind::RootUser,
        DockerfileRuleKind::NoDockerignore,
        DockerfileRuleKind::LayerOrder,
        DockerfileRuleKind::Healthcheck,
        DockerfileRuleKind::SecretsInEnv,
        DockerfileRuleKind::VersionPinning,
        DockerfileRuleKind::Multistage,
        DockerfileRuleKind::LargeBaseImage,
        DockerfileRuleKind::CurlBash,
    ]
}

/// The rules on descriptors, in the order in which they run.
pub open spec fn compose_rules() -> Seq<ComposeRuleKind> {
    seq![
        ComposeRuleKind::RestartPolicy,
        ComposeRuleKind::Privileged,
        ComposeRuleKind::ResourceLimits,
        ComposeRuleKind::LatestTag,
        ComposeRuleKind::HardcodedSecrets,
    ]
}

/// All rules: those on build scripts, then those on descriptors.
pub open spec fn all_rules() -> Seq<AnyRule> {
    dockerfile_rules().map_values(|rule: DockerfileRuleKind| AnyRule::Dockerfile(rule))
        + compose_rules().map_values(|rule: ComposeRuleKind| AnyRule::Compose(rule))
}

/// The first of `rules[k..]` that has the code `id`.
pub open spec fn first_with_id(rules: Seq<AnyRule>, id: Seq<char>, k: int) -> Option<AnyRule>
    decreases rules.len() - k,
{
    if k < 0 || k >= rules.len() {
        None
    } else if rules[k].info().id == id {
        Some(rules[k])
    } else {
        first_with_id(rules, id, k + 1)
    }
}

/// The rules on build scripts, in the order in which they run.
pub fn get_dockerfile_rules() -> (rules: Vec<DockerfileRuleKind>)
    ensures
        rules@ == dockerfile_rules(),
{
    let rules = vec![
        DockerfileRuleKind::LatestTag,
        DockerfileRuleKind::RootUser,
        DockerfileRuleKind::NoDockerignore,
        DockerfileRuleKind::LayerOrder,
        DockerfileRuleKind::Healthcheck,
        DockerfileRuleKind::SecretsInEnv,
        DockerfileRuleKind::VersionPinning,
        DockerfileRuleKind::Multistage,
        DockerfileRuleKind::LargeBaseImage,
        DockerfileRuleKind::CurlBash,
    ];
    assert(rules@ =~= dockerfile_rules());
    rules
}

/// The rules on descriptors, in the order in which they run.
pub fn get_compose_rules() -> (rules: Vec<ComposeRuleKind>)
    ensures
        rules@ == compose_rules(),
{
    let rules = vec![
        ComposeRuleKind::RestartPolicy,
        ComposeRuleKind::Privileged,
        ComposeRuleKind::ResourceLimits,
        ComposeRuleKind::LatestTag,
        ComposeRuleKind::HardcodedSecrets,
    ];
    assert(rules@ =~= compose_rules());
    rules
}

/// All rules: those on build scripts, then those on descriptors.
pub fn get_all_rules() -> (rules: Vec<AnyRule>)
    ensures
        rules@ == all_rules(),
{
    let dockerfile = get_dockerfile_rules();
    let compose = get_compose_rules();
    let mut rules: Vec<AnyRule> = Vec::new();
    let mut i: usize = 0;
    while i < dockerfile.len()
        invariant
            i <= dockerfile.len(),
            rules@ == dockerfile@.take(i as int).map_values(
                |rule: DockerfileRuleKind| AnyRule::Dockerfile(rule),
            ),
        decreases dockerfile.len() - i,
    {
        rules.push(AnyRule::Dockerfile(dockerfile[i]));
        i += 1;
        assert(rules@ =~= dockerfile@.take(i as int).map_values(
            |rule: DockerfileRuleKind| AnyRule::Dockerfile(rule),
        ));
    }
    assert(dockerfile@.take(i as int) =~= dockerfile@);
    let ghost first = rules@;
    let mut j: usize = 0;
    while j < compose.len()
        invariant
            j <= compose.len(),
            rules@ == first + compose@.take(j as int).map_values(
                |rule: ComposeRuleKind| AnyRule::Compose(rule),
            ),
        decreases compose.len() - j,
    {
        rules.push(AnyRule::Compose(compose[j]));
        j += 1;
        assert(rules@ =~= first + compose@.take(j as int).map_values(
            |rule: ComposeRuleKind| AnyRule::Compose(rule),
        ));
    }
    assert(compose@.take(j as int) =~= compose@);
    rules
}

/// The rule with exactly the code `id`: the first of all rules that has it.
pub fn find_rule(id: &str) -> (rule: Option<AnyRule>)
    ensures
        rule == first_with_id(all_rules(), id@, 0),
{
    let rules = get_all_rules();
    let mut k: usize = 0;
    while k < rules.len()
        invariant
            k <= rules.len(),
            rules@ == all_rules(),
            first_with_id(all_rules(), id@, 0) == first_with_id(all_rules(), id@, k as int),
        decreases rules.len() - k,
    {
        if str_eq(rules[k].id(), id) {
            return Some(rules[k]);
        }
        k += 1;
    }
    None
}

/// The rule with the code `id`, which may be written in small letters: the
/// rule with exactly the code that `id` is in uppercase.
pub fn get_rule_by_id(id: &str) -> (rule: Option<AnyRule>)
    ensures
        rule == first_with_id(all_rules(), uppercase(id@), 0),
{
    find_rule(to_uppercase(id).as_str())
}

} // verus!
