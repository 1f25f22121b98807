//! Base images that have a smaller variant.

use super::{has_name, inspect_all, issues_over, BuildContext, DockerfileRule, InstructionRule};
use crate::parser::dockerfile::{is_named, DockerfileParser, Instruction, InstructionView};
use crate::rules::rule::{
    issue_of, no_issue, one_issue, ImpactEstimate, ImpactView, Issue, IssueView, Rule, RuleInfo,
};
use crate::rules::severity::Severity;
use crate::text::{
    after_last, after_last_char, before_first, contains, find_char, find_word, first_token,
    first_word, from_chars, index_from, is_any, lowercase, position_after_last, position_of,
    str_contains, str_is_any, str_views, to_chars, to_lowercase,
};
use vstd::string::StringExecFns;
use vstd::prelude::*;

verus! {

/// The rule's short code.
pub const ID: &'static str = "DF009";

/// The rule's name.
pub const NAME: &'static str = "Large base image";

/// What the rule looks for.
pub const DESCRIPTION: &'static str = "Using a large base image when smaller alternatives exist";

/// Why the rule exists.
pub const RATIONALE: &'static str = "Large base images (ubuntu, debian, centos) are often 100MB-1GB. Alpine-based or slim images are typically 5-50MB. Smaller images download faster, have smaller attack surface, and reduce storage/transfer costs.";

/// How to mend what the rule finds.
pub const FIX_SUGGESTION: &'static str = "Use alpine or slim variants (e.g., node:18-alpine, python:3.11-slim)";

/// What mending gains: build time improvement.
pub const BUILD_TIME_IMPACT: &'static str = "Faster image pulls";

/// What mending gains: image size reduction.
pub const IMAGE_SIZE_IMPACT: &'static str = "Can reduce base image by 70-95%";

/// What mending gains: security improvement.
pub const SECURITY_IMPACT: &'static str = "Smaller attack surface";

/// Suggests a slim or alpine variant for base images that are known to be
/// large, or that are known to have one.
pub struct LargeBaseImageRule;

impl Rule for LargeBaseImageRule {
    open spec fn ready(&self) -> bool {
        true
    }

    open spec fn info(&self) -> RuleInfo {
        RuleInfo {
            id: ID@,
            name: NAME@,
            severity: Severity::Suggestion,
            description: DESCRIPTION@,
            rationale: RATIONALE@,
            fix_suggestion: Some(FIX_SUGGESTION@),
            impact: Some(
                ImpactView {
                    build_time_improvement: Some(BUILD_TIME_IMPACT@),
                    image_size_reduction: Some(IMAGE_SIZE_IMPACT@),
                    security_improvement: Some(SECURITY_IMPACT@),
                    reliability_improvement: None,
                },
            ),
        }
    }

    fn id(&self) -> &'static str {
        ID
    }

    fn name(&self) -> &'static str {
        NAME
    }

    fn severity(&self) -> Severity {
        Severity::Suggestion
    }

    fn description(&self) -> &'static str {
        DESCRIPTION
    }

    fn rationale(&self) -> &'static str {
        RATIONALE
    }

    fn fix_suggestion(&self) -> Option<&'static str> {
        Some(FIX_SUGGESTION)
    }

    fn impact(&self) -> Option<ImpactEstimate> {
        Some(
            ImpactEstimate {
                build_time_improvement: Some(BUILD_TIME_IMPACT.to_owned()),
                image_size_reduction: Some(IMAGE_SIZE_IMPACT.to_owned()),
                security_improvement: Some(SECURITY_IMPACT.to_owned()),
                reliability_improvement: None,
            },
        )
    }
}

/// The images that are known to be large.
pub open spec fn large_images() -> Seq<Seq<char>> {
    seq![
        "ubuntu"@,
        "debian"@,
        "centos"@,
        "fedora"@,
        "amazonlinux"@,
        "oraclelinux"@,
    ]
}

fn large_image_list() -> (list: Vec<&'static str>)
    ensures
        str_views(list@) == large_images(),
{
    let list = vec![
        "ubuntu",
        "debian",
        "centos",
        "fedora",
        "amazonlinux",
        "oraclelinux",
    ];
    assert(str_views(list@) =~= large_images());
    list
}

/// The images that have a smaller variant.
pub open spec fn slim_names() -> Seq<Seq<char>> {
    seq![
        "ubuntu"@,
        "debian"@,
        "node"@,
        "python"@,
        "golang"@,
        "ruby"@,
    ]
}

fn slim_name_list() -> (list: Vec<&'static str>)
    ensures
        str_views(list@) == slim_names(),
{
    let list = vec![
        "ubuntu",
        "debian",
        "node",
        "python",
        "golang",
        "ruby",
    ];
    assert(str_views(list@) =~= slim_names());
    list
}

/// The smaller variants of the images of [`slim_names`], in the same order.
pub open spec fn slim_alternatives() -> Seq<Seq<char>> {
    seq![
        "ubuntu:*-slim or alpine"@,
        "debian:*-slim or alpine"@,
        "node:*-alpine or node:*-slim"@,
        "python:*-alpine or python:*-slim"@,
        "golang:*-alpine"@,
        "ruby:*-alpine or ruby:*-slim"@,
    ]
}

fn slim_alternative_list() -> (list: Vec<&'static str>)
    ensures
        str_views(list@) == slim_alternatives(),
{
    let list = vec![
        "ubuntu:*-slim or alpine",
        "debian:*-slim or alpine",
        "node:*-alpine or node:*-slim",
        "python:*-alpine or python:*-slim",
        "golang:*-alpine",
        "ruby:*-alpine or ruby:*-slim",
    ];
    assert(str_views(list@) =~= slim_alternatives());
    list
}

/// The bare name of the image in a reference: the reference without its
/// registry path, which ends at the last `/`, and without its tag, which begins
/// at the first `:` after that.
pub open spec fn bare_name(image_ref: Seq<char>) -> Seq<char> {
    before_first(after_last(image_ref, '/'), ':')
}

/// The name of the image in a reference: the reference without its tag.
pub open spec fn image_name(image_ref: Seq<char>) -> Seq<char> {
    image_ref.subrange(
        0,
        after_last_char(image_ref, '/') + find_char(after_last(image_ref, '/'), ':'),
    )
}

/// The bare name of the image in a reference, in lowercase.
pub open spec fn base_name(image_ref: Seq<char>) -> Seq<char> {
    lowercase(bare_name(image_ref))
}

/// Whether an image reference names a small variant already.
pub open spec fn is_small_variant(image_ref: Seq<char>) -> bool {
    contains(image_ref, "alpine"@) || contains(image_ref, "slim"@) || contains(
        image_ref,
        "distroless"@,
    )
}

impl LargeBaseImageRule {
    /// The issues on a base image with the reference `image_ref`, named at
    /// `line`, whose bare name in lowercase is `base`. An image that is known
    /// to be large is flagged. Any other, unless its reference names a small
    /// variant already, is flagged if its bare name is that of an image that
    /// has a smaller variant, and the issue names the variant.
    pub open spec fn issues_on_base(
        self,
        image_ref: Seq<char>,
        base: Seq<char>,
        line: nat,
    ) -> Seq<IssueView> {
        if is_any(base, large_images()) {
            seq![
                issue_of(
                    self.info(),
                    Some(line),
                    "'"@ + image_name(image_ref)
                        + "' is a large base image - consider alpine or slim variants"@,
                ),
            ]
        } else if is_small_variant(image_ref) {
            Seq::empty()
        } else {
            match index_from(base, slim_names(), 0) {
                Some(k) => seq![
                    IssueView {
                        message: "Consider using "@ + slim_alternatives()[k] + " for '"@
                            + image_name(image_ref) + "' to reduce image size"@,
                        fix_suggestion: Some("Use "@ + slim_alternatives()[k]),
                        ..issue_of(self.info(), Some(line), Seq::empty())
                    },
                ],
                None => Seq::empty(),
            }
        }
    }

    /// The issues on a base image with the reference `image_ref`, named at
    /// `line`.
    pub open spec fn issues_on_image(self, image_ref: Seq<char>, line: nat) -> Seq<IssueView> {
        self.issues_on_base(image_ref, base_name(image_ref), line)
    }

    /// Judges the base image with the reference `image_ref`, named at `line`,
    /// whose bare name in lowercase is `base`.
    pub fn judge_image(&self, image_ref: &str, base: &str, line: usize) -> (issues: Vec<Issue>)
        ensures
            issues.deep_view() == self.issues_on_base(image_ref@, base@, line as nat),
    {
        let name = name_of(image_ref);
        if str_is_any(base, &large_image_list()) {
            let mut message = "'".to_owned();
            message.append(name.as_str());
            message.append("' is a large base image - consider alpine or slim variants");
            return one_issue(self, Some(line), message);
        }
        if str_contains(image_ref, "alpine") || str_contains(image_ref, "slim") || str_contains(
            image_ref,
            "distroless",
        ) {
            return no_issue();
        }
        match find_word(base, &slim_name_list()) {
            Some(k) => {
                let alternatives = slim_alternative_list();
                assert(slim_names().len() == 6 && slim_alternatives().len() == 6);
                assert(str_views(alternatives@).len() == alternatives@.len());
                assert(str_views(alternatives@)[k as int] == alternatives@[k as int]@);
                let alternative = alternatives[k];
                let mut message = "Consider using ".to_owned();
                message.append(alternative);
                message.append(" for '");
                message.append(name.as_str());
                message.append("' to reduce image size");
                let mut fix = "Use ".to_owned();
                fix.append(alternative);
                let issue = Issue {
                    rule_id: ID.to_owned(),
                    rule_name: NAME.to_owned(),
                    severity: Severity::Suggestion,
                    line_number: Some(line),
                    message,
                    fix_suggestion: Some(fix),
                    impact: self.impact(),
                };
                let mut issues: Vec<Issue> = Vec::new();
                issues.push(issue);
                assert(issues.deep_view() =~= seq![issue@]);
                issues
            },
            None => no_issue(),
        }
    }
}

/// Where, in the characters of an image reference, the registry path ends and
/// the tag begins.
fn name_bounds(image_ref: &Vec<char>) -> (r: (usize, usize))
    ensures
        r.0 <= r.1 <= image_ref.len(),
        image_ref@.subrange(r.0 as int, r.1 as int) == bare_name(image_ref@),
        image_ref@.subrange(0, r.1 as int) == image_name(image_ref@),
{
    let slash = position_after_last(image_ref, '/');
    let colon = position_of(image_ref, slash, ':');
    assert(image_ref@.subrange(slash as int, image_ref@.len() as int).subrange(0, colon - slash)
        == image_ref@.subrange(slash as int, colon as int));
    (slash, colon)
}

/// The name of the image in `image_ref`: the reference without its tag.
pub fn name_of(image_ref: &str) -> (name: String)
    ensures
        name@ == image_name(image_ref@),
{
    let chars = to_chars(image_ref);
    let (_, colon) = name_bounds(&chars);
    from_chars(&chars, 0, colon)
}

/// The bare name of the image in `image_ref`: the reference without its
/// registry path and its tag.
pub fn bare_name_of(image_ref: &str) -> (name: String)
    ensures
        name@ == bare_name(image_ref@),
{
    let chars = to_chars(image_ref);
    let (slash, colon) = name_bounds(&chars);
    from_chars(&chars, slash, colon)
}

impl InstructionRule for LargeBaseImageRule {
    open spec fn issues_on(&self, instruction: InstructionView) -> Seq<IssueView> {
        if is_named(instruction, "FROM"@) {
            self.issues_on_image(first_token(instruction.arguments), instruction.line_number)
        } else {
            Seq::empty()
        }
    }

    fn inspect(&self, instruction: &Instruction) -> (issues: Vec<Issue>) {
        if !has_name(instruction, "FROM") {
            return no_issue();
        }
        let image_ref = first_word(instruction.arguments.as_str());
        let base = to_lowercase(bare_name_of(image_ref.as_str()).as_str());
        self.judge_image(image_ref.as_str(), base.as_str(), instruction.line_number)
    }
}

impl DockerfileRule for LargeBaseImageRule {
    open spec fn findings(
        &self,
        instructions: Seq<InstructionView>,
        context: Option<BuildContext>,
    ) -> Seq<IssueView> {
        issues_over(*self, instructions)
    }

    fn check(&self, parser: &DockerfileParser, context: Option<&BuildContext>) -> (issues: Vec<
        Issue,
    >) {
        inspect_all(self, parser)
    }
}

} // verus!
