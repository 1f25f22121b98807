//! Base images that are not pinned to a version.

use super::{has_name, inspect_all, issues_over, BuildContext, DockerfileRule, InstructionRule};
use crate::parser::dockerfile::{is_named, DockerfileParser, Instruction, InstructionView};
use crate::pattern::{is_match, is_regex, regex_matches};
use crate::rules::rule::{
    issue_of, no_issue, one_issue, ImpactEstimate, ImpactView, Issue, IssueView, Rule, RuleInfo,
};
use crate::rules::severity::Severity;
use crate::text::{
    ends_with, first_token, first_word, is_any, str_ends_with, str_eq, str_has_char, str_is_any,
    str_views,
};
use vstd::string::StringExecFns;
use vstd::prelude::*;

verus! {

/// The rule's short code.
pub const ID: &'static str = "DF001";

/// The rule's name.
pub const NAME: &'static str = "Using latest tag";

/// What the rule looks for.
pub const DESCRIPTION: &'static str = "Avoid using the 'latest' tag or omitting tags in FROM instructions";

/// Why the rule exists.
pub const RATIONALE: &'static str = "Using 'latest' or implicit tags causes unpredictable builds. The same Dockerfile may build differently on different days as the base image changes. This breaks reproducibility, makes debugging harder, and can introduce security vulnerabilities without warning.";

/// How to mend what the rule finds.
pub const FIX_SUGGESTION: &'static str = "Pin to a specific version tag (e.g., FROM node:18.17.0-alpine)";

/// What mending gains: security improvement.
pub const SECURITY_IMPACT: &'static str = "Prevents unexpected vulnerability introduction";

/// What mending gains: reliability improvement.
pub const RELIABILITY_IMPACT: &'static str = "100% build reproducibility";

/// Flags base images that use the `latest` tag, in words or by having no tag.
pub struct LatestTagRule;

impl Rule for LatestTagRule {
    open spec fn ready(&self) -> bool {
        is_regex(EXPLICIT_TAG@)
    }

    open spec fn info(&self) -> RuleInfo {
        RuleInfo {
            id: ID@,
            name: NAME@,
            severity: Severity::Critical,
            description: DESCRIPTION@,
            rationale: RATIONALE@,
            fix_suggestion: Some(FIX_SUGGESTION@),
            impact: Some(
                ImpactView {
                    build_time_improvement: None,
                    image_size_reduction: None,
                    security_improvement: Some(SECURITY_IMPACT@),
                    reliability_improvement: Some(RELIABILITY_IMPACT@),
                },
            ),
        }
    }

    fn id(&self) -> &'static str {
        ID
    }

    fn name(&self) -> &'static str {
        NAME
    }

    fn severity(&self) -> Severity {
        Severity::Critical
    }

    fn description(&self) -> &'static str {
        DESCRIPTION
    }

    fn rationale(&self) -> &'static str {
        RATIONALE
    }

    fn fix_suggestion(&self) -> Option<&'static str> {
        Some(FIX_SUGGESTION)
    }

    fn impact(&self) -> Option<ImpactEstimate> {
        Some(
            ImpactEstimate {
                build_time_improvement: None,
                image_size_reduction: None,
                security_improvement: Some(SECURITY_IMPACT.to_owned()),
                reliability_improvement: Some(RELIABILITY_IMPACT.to_owned()),
            },
        )
    }
}

/// The regular expression that an image reference with an explicit tag matches:
/// a name, a colon, a tag.
pub const EXPLICIT_TAG: &'static str = r"^[^:@\s]+:[^@\s]+";

/// The names of well-known base images. A bare name that is one of them is
/// taken for an image; any other bare name for an earlier build stage.
pub open spec fn common_images() -> Seq<Seq<char>> {
    seq![
        "alpine"@,
        "ubuntu"@,
        "debian"@,
        "node"@,
        "python"@,
        "golang"@,
        "rust"@,
        "nginx"@,
        "redis"@,
        "postgres"@,
        "mysql"@,
    ]
}

fn common_image_list() -> (list: Vec<&'static str>)
    ensures
        str_views(list@) == common_images(),
{
    let list = vec![
        "alpine",
        "ubuntu",
        "debian",
        "node",
        "python",
        "golang",
        "rust",
        "nginx",
        "redis",
        "postgres",
        "mysql",
    ];
    assert(str_views(list@) =~= common_images());
    list
}

/// Whether an image reference is bare: it names no registry path, no tag and
/// no host.
pub open spec fn is_bare(image_ref: Seq<char>) -> bool {
    !image_ref.contains('/') && !image_ref.contains(':') && !image_ref.contains('.')
}

/// What is wrong with the image reference of a base-image directive, in words.
/// `None` where the reference is `scratch`, refers to an earlier stage, or is
/// pinned by a tag or a digest. `tagged` tells whether the search for an
/// explicit tag found one.
pub open spec fn unpinned_message(image_ref: Seq<char>, tagged: bool) -> Option<Seq<char>> {
    if image_ref == "scratch"@ {
        None
    } else if is_bare(image_ref) && !is_any(image_ref, common_images()) {
        None
    } else if ends_with(image_ref, ":latest"@) {
        Some("Image '"@ + image_ref + "' explicitly uses ':latest' tag"@)
    } else if !tagged && !image_ref.contains('@') {
        Some("Image '"@ + image_ref + "' has no tag (implicitly uses 'latest')"@)
    } else {
        None
    }
}

/// What is wrong with `image_ref`, in words, if anything is. `tagged` tells
/// whether the search for an explicit tag found one.
pub fn unpinned(image_ref: &str, tagged: bool) -> (message: Option<String>)
    ensures
        match message {
            Some(m) => unpinned_message(image_ref@, tagged) == Some(m@),
            None => unpinned_message(image_ref@, tagged) is None,
        },
{
    if str_eq(image_ref, "scratch") {
        return None;
    }
    if !str_has_char(image_ref, '/') && !str_has_char(image_ref, ':') && !str_has_char(
        image_ref,
        '.',
    ) {
        if !str_is_any(image_ref, &common_image_list()) {
            return None;
        }
    }
    if str_ends_with(image_ref, ":latest") {
        let mut m = "Image '".to_owned();
        m.append(image_ref);
        m.append("' explicitly uses ':latest' tag");
        Some(m)
    } else if !tagged && !str_has_char(image_ref, '@') {
        let mut m = "Image '".to_owned();
        m.append(image_ref);
        m.append("' has no tag (implicitly uses 'latest')");
        Some(m)
    } else {
        None
    }
}

impl InstructionRule for LatestTagRule {
    open spec fn issues_on(&self, instruction: InstructionView) -> Seq<IssueView> {
        if is_named(instruction, "FROM"@) {
            let image_ref = first_token(instruction.arguments);
            match unpinned_message(image_ref, regex_matches(EXPLICIT_TAG@, image_ref)) {
                Some(message) => seq![
                    issue_of(self.info(), Some(instruction.line_number), message),
                ],
                None => Seq::empty(),
            }
        } else {
            Seq::empty()
        }
    }

    fn inspect(&self, instruction: &Instruction) -> (issues: Vec<Issue>) {
        if !has_name(instruction, "FROM") {
            return no_issue();
        }
        let image_ref = first_word(instruction.arguments.as_str());
        let tagged = is_match(EXPLICIT_TAG, image_ref.as_str());
        match unpinned(image_ref.as_str(), tagged) {
            Some(message) => one_issue(self, Some(instruction.line_number), message),
            None => no_issue(),
        }
    }
}

impl DockerfileRule for LatestTagRule {
    open spec fn findings(
        &self,
        instructions: Seq<InstructionView>,
        context: Option<BuildContext>,
    ) -> Seq<IssueView> {
        issues_over(*self, instructions)
    }

    fn check(&self, parser: &DockerfileParser, context: Option<&BuildContext>) -> (issues: Vec<
        Issue,
    >) {
        inspect_all(self, parser)
    }
}

} // verus!
