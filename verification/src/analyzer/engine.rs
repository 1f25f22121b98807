//! The analysis of one file: parse, run every rule of the file's kind, sort
//! the issues and score them.

use super::report::{by_severity, sort_by_severity, Report, ReportView};
use crate::parser::compose::{ComposeFile, ComposeFileView};
use crate::parser::dockerfile::{parse, DockerfileParser, InstructionView};
use crate::pattern::compiles;
use crate::rules::compose::{
    hardcoded_secrets, ComposeLatestTagRule, ComposeRule, HardcodedSecretsRule, PrivilegedRule,
    ResourceLimitsRule, RestartPolicyRule,
};
use crate::rules::dockerfile::{
    context_of, curl_bash, latest_tag, secrets_in_env, version_pinning, BuildContext,
    CurlBashRule, DockerfileRule, HealthcheckRule, LargeBaseImageRule, LatestTagRule,
    LayerOrderRule, MultistageRule, NoDockerignoreRule, RootUserRule, SecretsInEnvRule,
    VersionPinningRule,
};
use crate::rules::rule::{append_issues, Issue, IssueView, Rule};
use crate::scoring::{calculate_scores, scores_of};
use vstd::prelude::*;

verus! {

/// The analyzer. It holds no state.
#[derive(Debug, Clone, Copy, PartialEq, Eq, Structural)]
pub struct Analyzer;

impl Default for Analyzer {
    /// The analyzer.
    fn default() -> (analyzer: Self)
        ensures
            analyzer == Analyzer,
    {
        Analyzer
    }
}

/// Whether the rules on build scripts can run.
pub open spec fn dockerfile_rules_ready() -> bool {
    &&& LatestTagRule.ready()
    &&& SecretsInEnvRule.ready()
    &&& VersionPinningRule.ready()
    &&& CurlBashRule.ready()
}

/// Whether the rules on descriptors can run.
pub open spec fn compose_rules_ready() -> bool {
    HardcodedSecretsRule.ready()
}

/// The issues of a build script, as the rules raise them: rule by rule in the
/// order of the registry, and for each rule in the order in which it raises them.
pub open spec fn dockerfile_issues(
    instructions: Seq<InstructionView>,
    context: Option<BuildContext>,
) -> Seq<IssueView> {
    LatestTagRule.findings(instructions, context) + RootUserRule.findings(instructions, context)
        + NoDockerignoreRule.findings(instructions, context) + LayerOrderRule.findings(
        instructions,
        context,
    ) + HealthcheckRule.findings(instructions, context) + SecretsInEnvRule.findings(
        instructions,
        context,
    ) + VersionPinningRule.findings(instructions, context) + MultistageRule.findings(
        instructions,
        context,
    ) + LargeBaseImageRule.findings(instructions, context) + CurlBashRule.findings(
        instructions,
        context,
    )
}

/// The issues of a descriptor, as the rules raise them.
pub open spec fn compose_issues(compose: ComposeFileView) -> Seq<IssueView> {
    RestartPolicyRule.findings(compose) + PrivilegedRule.findings(compose)
        + ResourceLimitsRule.findings(compose) + ComposeLatestTagRule.findings(compose)
        + HardcodedSecretsRule.findings(compose)
}

/// The report on the file at `file_path` of which the rules raised `issues`:
/// the issues sorted, most severe first, and their scores.
pub open spec fn report_of(file_path: Seq<char>, issues: Seq<IssueView>) -> ReportView {
    ReportView {
        file_path: file_path,
        issues: by_severity(issues),
        scores: scores_of(by_severity(issues)),
    }
}

impl Analyzer {
    /// The analyzer.
    pub fn new() -> (analyzer: Self)
        ensures
            analyzer == Analyzer,
    {
        Analyzer
    }

    /// Whether the rules on build scripts can run.
    pub fn dockerfile_rules_usable(&self) -> (ok: bool)
        ensures
            ok == dockerfile_rules_ready(),
    {
        compiles(latest_tag::EXPLICIT_TAG) && compiles(secrets_in_env::SECRET_ASSIGNMENT)
            && compiles(version_pinning::UNPINNED_APT) && compiles(version_pinning::UNPINNED_PIP)
            && compiles(curl_bash::PIPE_TO_SHELL)
    }

    /// Whether the rules on descriptors can run.
    pub fn compose_rules_usable(&self) -> (ok: bool)
        ensures
            ok == compose_rules_ready(),
    {
        compiles(hardcoded_secrets::SECRET_NAME)
    }

    /// Runs the rules on build scripts, each on all of `parser`.
    pub fn check_dockerfile(
        &self,
        parser: &DockerfileParser,
        context: Option<&BuildContext>,
    ) -> (issues: Vec<Issue>)
        requires
            dockerfile_rules_ready(),
        ensures
            issues.deep_view() == dockerfile_issues(
                parser.instructions.deep_view(),
                context_of(context),
            ),
    {
        let mut issues = LatestTagRule.check(parser, context);
        append_issues(&mut issues, RootUserRule.check(parser, context));
        append_issues(&mut issues, NoDockerignoreRule.check(parser, context));
        append_issues(&mut issues, LayerOrderRule.check(parser, context));
        append_issues(&mut issues, HealthcheckRule.check(parser, context));
        append_issues(&mut issues, SecretsInEnvRule.check(parser, context));
        append_issues(&mut issues, VersionPinningRule.check(parser, context));
        append_issues(&mut issues, MultistageRule.check(parser, context));
        append_issues(&mut issues, LargeBaseImageRule.check(parser, context));
        append_issues(&mut issues, CurlBashRule.check(parser, context));
        issues
    }

    /// Runs the rules on descriptors, each on all of `compose`.
    pub fn check_compose(&self, compose: &ComposeFile) -> (issues: Vec<Issue>)
        requires
            compose_rules_ready(),
        ensures
            issues.deep_view() == compose_issues(compose.deep_view()),
    {
        let mut issues = RestartPolicyRule.check(compose);
        append_issues(&mut issues, PrivilegedRule.check(compose));
        append_issues(&mut issues, ResourceLimitsRule.check(compose));
        append_issues(&mut issues, ComposeLatestTagRule.check(compose));
        append_issues(&mut issues, HardcodedSecretsRule.check(compose));
        issues
    }

    /// Assembles the report on the file at `file_path` of which the rules
    /// raised `issues`.
    pub fn assemble(&self, file_path: &str, issues: Vec<Issue>) -> (report: Report)
        ensures
            report@ == report_of(file_path@, issues.deep_view()),
            report.scores.in_range(),
    {
        let sorted = sort_by_severity(issues);
        let slice = sorted.as_slice();
        assert(slice.deep_view() =~= sorted.deep_view());
        let scores = calculate_scores(slice);
        Report { file_path: file_path.to_owned(), issues: sorted, scores }
    }

    /// Analyzes the build script at `file_path`, whose text is `content`.
    /// `context` tells what is known of the directory it is built in. There is
    /// no report where, and only where, the rules cannot run.
    pub fn analyze_dockerfile(
        &self,
        file_path: &str,
        content: &str,
        context: Option<&BuildContext>,
    ) -> (report: Option<Report>)
        ensures
            report is Some <==> dockerfile_rules_ready(),
            report matches Some(r) ==> r.scores.in_range() && r@ == report_of(
                file_path@,
                dockerfile_issues(parse(content@), context_of(context)),
            ),
    {
        if !self.dockerfile_rules_usable() {
            return None;
        }
        let parser = DockerfileParser::parse_content(content);
        let issues = self.check_dockerfile(&parser, context);
        Some(self.assemble(file_path, issues))
    }

    /// Analyzes the descriptor at `file_path`, parsed to `compose`. There is no
    /// report where, and only where, the rules cannot run.
    pub fn analyze_compose(&self, file_path: &str, compose: &ComposeFile) -> (report: Option<
        Report,
    >)
        ensures
            report is Some <==> compose_rules_ready(),
            report matches Some(r) ==> r.scores.in_range() && r@ == report_of(
                file_path@,
                compose_issues(compose.deep_view()),
            ),
    {
        if !self.compose_rules_usable() {
            return None;
        }
        let issues = self.check_compose(compose);
        Some(self.assemble(file_path, issues))
    }
}

} // verus!
