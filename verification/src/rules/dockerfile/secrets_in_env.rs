//! Secrets written into the image's environment or build arguments.

use super::{has_name, BuildContext, DockerfileRule};
use crate::parser::dockerfile::{is_named, DockerfileParser, InstructionView};
use crate::pattern::{is_match, is_regex, regex_matches};
use crate::rules::rule::{
    append_issues, issue_of, raise, ImpactEstimate, ImpactView, Issue, IssueView, Rule, RuleInfo,
};
use crate::rules::severity::Severity;
use vstd::prelude::*;

verus! {

/// The rule's short code.
pub const ID: &'static str = "DF006";

/// The rule's name.
pub const NAME: &'static str = "Secrets in ENV";

/// What the rule looks for.
pub const DESCRIPTION: &'static str = "Potential secrets or passwords hardcoded in ENV instructions";

/// Why the rule exists.
pub const RATIONALE: &'static str = "Secrets in ENV instructions are baked into the image and visible to anyone with access to the image. They appear in docker history, can be extracted, and cannot be rotated without rebuilding. Use runtime secrets instead.";

/// How to mend what the rule finds.
pub const FIX_SUGGESTION: &'static str = "Use runtime environment variables, Docker secrets, or a secrets manager instead";

/// What mending gains: security improvement.
pub const SECURITY_IMPACT: &'static str = "Critical - prevents credential exposure";

/// Flags `ENV` and `ARG` directives that set something with the name of a
/// secret.
pub struct SecretsInEnvRule;

impl Rule for SecretsInEnvRule {
    open spec fn ready(&self) -> bool {
        is_regex(SECRET_ASSIGNMENT@)
    }

    open spec fn info(&self) -> RuleInfo {
        RuleInfo {
            id: ID@,
            name: NAME@,
            severity: Severity::Critical,
            description: DESCRIPTION@,
            rationale: RATIONALE@,
            fix_suggestion: Some(FIX_SUGGESTION@),
            impact: Some(
                ImpactView {
                    build_time_improvement: None,
                    image_size_reduction: None,
                    security_improvement: Some(SECURITY_IMPACT@),
                    reliability_improvement: None,
                },
            ),
        }
    }

    fn id(&self) -> &'static str {
        ID
    }

    fn name(&self) -> &'static str {
        NAME
    }

    fn severity(&self) -> Severity {
        Severity::Critical
    }

    fn description(&self) -> &'static str {
        DESCRIPTION
    }

    fn rationale(&self) -> &'static str {
        RATIONALE
    }

    fn fix_suggestion(&self) -> Option<&'static str> {
        Some(FIX_SUGGESTION)
    }

    fn impact(&self) -> Option<ImpactEstimate> {
        Some(
            ImpactEstimate {
                build_time_improvement: None,
                image_size_reduction: None,
                security_improvement: Some(SECURITY_IMPACT.to_owned()),
                reliability_improvement: None,
            },
        )
    }
}

/// The regular expression of an assignment to something with the name of a
/// secret, case aside.
pub const SECRET_ASSIGNMENT: &'static str = r"(?i)(password|passwd|secret|api_key|apikey|auth_token|access_token|private_key|credentials?)\s*=";

/// What is said of a secret in an `ENV` directive.
pub const ENV_MESSAGE: &'static str = "Potential secret detected in ENV instruction";

/// What is said of a secret in an `ARG` directive.
pub const ARG_MESSAGE: &'static str = "Potential secret detected in ARG instruction (visible in image history)";

impl SecretsInEnvRule {
    /// The issues on the directives named `directive` among `instructions`, each
    /// with `message`.
    pub open spec fn secrets_in(
        self,
        instructions: Seq<InstructionView>,
        directive: Seq<char>,
        message: Seq<char>,
    ) -> Seq<IssueView>
        decreases instructions.len(),
    {
        if instructions.len() == 0 {
            Seq::empty()
        } else {
            let last = instructions.last();
            self.secrets_in(instructions.drop_last(), directive, message) + (if is_named(
                last,
                directive,
            ) && regex_matches(SECRET_ASSIGNMENT@, last.arguments) {
                seq![issue_of(self.info(), Some(last.line_number), message)]
            } else {
                Seq::empty()
            })
        }
    }

    /// Searches the directives named `directive` for secrets.
    fn search(&self, parser: &DockerfileParser, directive: &str, message: &str) -> (issues: Vec<
        Issue,
    >)
        requires
            is_regex(SECRET_ASSIGNMENT@),
        ensures
            issues.deep_view() == self.secrets_in(
                parser.instructions.deep_view(),
                directive@,
                message@,
            ),
    {
        let mut issues: Vec<Issue> = Vec::new();
        let ghost instructions = parser.instructions.deep_view();
        let mut i: usize = 0;
        assert(instructions.take(0) =~= Seq::empty());
        assert(issues.deep_view() =~= Seq::empty());
        while i < parser.instructions.len()
            invariant
                i <= parser.instructions.len(),
                instructions == parser.instructions.deep_view(),
                is_regex(SECRET_ASSIGNMENT@),
                issues.deep_view() == self.secrets_in(
                    instructions.take(i as int),
                    directive@,
                    message@,
                ),
            decreases parser.instructions.len() - i,
        {
            let instruction = &parser.instructions[i];
            assert(instructions.take(i + 1).drop_last() == instructions.take(i as int));
            assert(instructions.take(i + 1).last() == instruction@);
            let ghost before = issues.deep_view();
            if has_name(instruction, directive) && is_match(
                SECRET_ASSIGNMENT,
                instruction.arguments.as_str(),
            ) {
                let issue = raise(self, Some(instruction.line_number), message.to_owned());
                issues.push(issue);
                assert(issues.deep_view() =~= before + seq![issue@]);
            } else {
                assert(issues.deep_view() =~= before + Seq::<IssueView>::empty());
            }
            i += 1;
        }
        assert(instructions.take(i as int) =~= instructions);
        issues
    }
}

impl DockerfileRule for SecretsInEnvRule {
    open spec fn findings(
        &self,
        instructions: Seq<InstructionView>,
        context: Option<BuildContext>,
    ) -> Seq<IssueView> {
        self.secrets_in(instructions, "ENV"@, ENV_MESSAGE@) + self.secrets_in(
            instructions,
            "ARG"@,
            ARG_MESSAGE@,
        )
    }

    fn check(&self, parser: &DockerfileParser, context: Option<&BuildContext>) -> (issues: Vec<
        Issue,
    >) {
        let mut issues = self.search(parser, "ENV", ENV_MESSAGE);
        let in_args = self.search(parser, "ARG", ARG_MESSAGE);
        append_issues(&mut issues, in_args);
        issues
    }
}

} // verus!
