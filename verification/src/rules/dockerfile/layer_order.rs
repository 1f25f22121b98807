//! Source files copied in before the packages are installed.

use super::{BuildContext, DockerfileRule};
use crate::parser::dockerfile::{DockerfileParser, InstructionView};
use crate::rules::rule::{
    issue_of, line_of, no_issue, one_issue, ImpactEstimate, ImpactView, Issue, IssueView, Rule,
    RuleInfo,
};
use crate::rules::severity::Severity;
use crate::text::{
    contains, contains_any, lowercase, str_contains, str_contains_any, str_eq, str_views,
    to_lowercase,
};
use vstd::prelude::*;

verus! {

/// The rule's short code.
pub const ID: &'static str = "DF004";

/// The rule's name.
pub const NAME: &'static str = "Bad layer ordering";

/// What the rule looks for.
pub const DESCRIPTION: &'static str = "COPY/ADD of frequently changing files before package installation";

/// Why the rule exists.
pub const RATIONALE: &'static str = "Docker caches each layer. If you COPY source files before installing dependencies, any source change invalidates the cache for dependency installation. Order layers from least to most frequently changing: system packages → dependencies → source code.";

/// How to mend what the rule finds.
pub const FIX_SUGGESTION: &'static str = "Reorder: 1) System packages, 2) COPY dependency files (package.json, requirements.txt), 3) Install dependencies, 4) COPY source code";

/// What mending gains: build time improvement.
pub const BUILD_TIME_IMPACT: &'static str = "Can reduce rebuild time by 60-90%";

/// What mending gains: reliability improvement.
pub const RELIABILITY_IMPACT: &'static str = "More consistent CI builds";

/// Flags, once, a package install that follows a copy of source files.
pub struct LayerOrderRule;

impl Rule for LayerOrderRule {
    open spec fn ready(&self) -> bool {
        true
    }

    open spec fn info(&self) -> RuleInfo {
        RuleInfo {
            id: ID@,
            name: NAME@,
            severity: Severity::Warning,
            description: DESCRIPTION@,
            rationale: RATIONALE@,
            fix_suggestion: Some(FIX_SUGGESTION@),
            impact: Some(
                ImpactView {
                    build_time_improvement: Some(BUILD_TIME_IMPACT@),
                    image_size_reduction: None,
                    security_improvement: None,
                    reliability_improvement: Some(RELIABILITY_IMPACT@),
                },
            ),
        }
    }

    fn id(&self) -> &'static str {
        ID
    }

    fn name(&self) -> &'static str {
        NAME
    }

    fn severity(&self) -> Severity {
        Severity::Warning
    }

    fn description(&self) -> &'static str {
        DESCRIPTION
    }

    fn rationale(&self) -> &'static str {
        RATIONALE
    }

    fn fix_suggestion(&self) -> Option<&'static str> {
        Some(FIX_SUGGESTION)
    }

    fn impact(&self) -> Option<ImpactEstimate> {
        Some(
            ImpactEstimate {
                build_time_improvement: Some(BUILD_TIME_IMPACT.to_owned()),
                image_size_reduction: None,
                security_improvement: None,
                reliability_improvement: Some(RELIABILITY_IMPACT.to_owned()),
            },
        )
    }
}

/// What is said of an install after a copy of source files.
pub const MESSAGE: &'static str = "COPY of source files before package installation invalidates cache";

/// The names of the files that list a project's dependencies.
pub open spec fn dependency_files() -> Seq<Seq<char>> {
    seq![
        "package.json"@,
        "package-lock.json"@,
        "yarn.lock"@,
        "requirements.txt"@,
        "Pipfile"@,
        "Pipfile.lock"@,
        "Gemfile"@,
        "Gemfile.lock"@,
        "go.mod"@,
        "go.sum"@,
        "Cargo.toml"@,
        "Cargo.lock"@,
        "pom.xml"@,
        "build.gradle"@,
        "composer.json"@,
        "composer.lock"@,
    ]
}

fn dependency_file_list() -> (list: Vec<&'static str>)
    ensures
        str_views(list@) == dependency_files(),
{
    let list = vec![
        "package.json",
        "package-lock.json",
        "yarn.lock",
        "requirements.txt",
        "Pipfile",
        "Pipfile.lock",
        "Gemfile",
        "Gemfile.lock",
        "go.mod",
        "go.sum",
        "Cargo.toml",
        "Cargo.lock",
        "pom.xml",
        "build.gradle",
        "composer.json",
        "composer.lock",
    ];
    assert(str_views(list@) =~= dependency_files());
    list
}

/// The commands, in lowercase, that install packages.
pub open spec fn install_commands() -> Seq<Seq<char>> {
    seq![
        "apt-get install"@,
        "apk add"@,
        "npm install"@,
        "npm ci"@,
        "yarn install"@,
        "pip install"@,
        "gem install"@,
        "go mod download"@,
        "cargo build"@,
        "mvn install"@,
        "gradle build"@,
        "composer install"@,
    ]
}

fn install_command_list() -> (list: Vec<&'static str>)
    ensures
        str_views(list@) == install_commands(),
{
    let list = vec![
        "apt-get install",
        "apk add",
        "npm install",
        "npm ci",
        "yarn install",
        "pip install",
        "gem install",
        "go mod download",
        "cargo build",
        "mvn install",
        "gradle build",
        "composer install",
    ];
    assert(str_views(list@) =~= install_commands());
    list
}

/// Whether the arguments of a copy name a file that lists dependencies.
pub fn is_dependency_file_copy(args: &str) -> (r: bool)
    ensures
        r == contains_any(args@, dependency_files()),
{
    str_contains_any(args, &dependency_file_list())
}

/// Whether the command text `args`, in lowercase, installs packages.
pub fn is_package_install(args: &str) -> (r: bool)
    ensures
        r == contains_any(args@, install_commands()),
{
    str_contains_any(args, &install_command_list())
}

/// Whether a copy with the arguments `args` is broad: it copies `.`, or it
/// copies neither a file that lists dependencies nor from an earlier stage.
pub open spec fn is_broad_copy(args: Seq<char>) -> bool {
    contains(args, ". "@) || args == "."@ || (!contains_any(args, dependency_files()) && !contains(
        args,
        "--from="@,
    ))
}

/// Whether a copy with the arguments `args` is broad.
fn broad_copy(args: &str) -> (r: bool)
    ensures
        r == is_broad_copy(args@),
{
    str_contains(args, ". ") || str_eq(args, ".") || (!is_dependency_file_copy(args)
        && !str_contains(args, "--from="))
}

impl LayerOrderRule {
    /// The issues on `instructions[i..]`, where `copy_line` is the line of the
    /// last broad copy before them. The scan ends at the first run-directive
    /// that installs packages after a broad copy.
    pub open spec fn scan(
        self,
        instructions: Seq<InstructionView>,
        i: int,
        copy_line: Option<nat>,
    ) -> Seq<IssueView>
        decreases instructions.len() - i,
    {
        if i < 0 || i >= instructions.len() {
            Seq::empty()
        } else {
            let instruction = instructions[i];
            if instruction.name == "COPY"@ || instruction.name == "ADD"@ {
                if is_broad_copy(instruction.arguments) {
                    self.scan(instructions, i + 1, Some(instruction.line_number))
                } else {
                    self.scan(instructions, i + 1, copy_line)
                }
            } else if instruction.name == "RUN"@ && copy_line is Some && contains_any(
                lowercase(instruction.arguments),
                install_commands(),
            ) {
                seq![issue_of(self.info(), copy_line, MESSAGE@)]
            } else {
                self.scan(instructions, i + 1, copy_line)
            }
        }
    }
}

impl DockerfileRule for LayerOrderRule {
    open spec fn findings(
        &self,
        instructions: Seq<InstructionView>,
        context: Option<BuildContext>,
    ) -> Seq<IssueView> {
        self.scan(instructions, 0, None)
    }

    fn check(&self, parser: &DockerfileParser, context: Option<&BuildContext>) -> (issues: Vec<
        Issue,
    >) {
        let ghost instructions = parser.instructions.deep_view();
        let mut copy_line: Option<usize> = None;
        let mut i: usize = 0;
        while i < parser.instructions.len()
            invariant
                i <= parser.instructions.len(),
                instructions == parser.instructions.deep_view(),
                self.scan(instructions, 0, None) == self.scan(
                    instructions,
                    i as int,
                    line_of(copy_line),
                ),
            decreases parser.instructions.len() - i,
        {
            let instruction = &parser.instructions[i];
            assert(instruction@ == instructions[i as int]);
            let name = instruction.name.as_str();
            if str_eq(name, "COPY") || str_eq(name, "ADD") {
                if broad_copy(instruction.arguments.as_str()) {
                    copy_line = Some(instruction.line_number);
                }
            } else if str_eq(name, "RUN") && copy_line.is_some() {
                let args = to_lowercase(instruction.arguments.as_str());
                if is_package_install(args.as_str()) {
                    return one_issue(self, copy_line, MESSAGE.to_owned());
                }
            }
            i += 1;
        }
        no_issue()
    }
}

} // verus!
