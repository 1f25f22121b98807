use docker_review::parser::DockerfileParser;
use docker_review::rules::dockerfile::large_base_image::{bare_name_of, name_of};
use docker_review::rules::dockerfile::latest_tag::unpinned;
use docker_review::rules::dockerfile::layer_optimization::{installs_lean, installs_packages};
use docker_review::rules::dockerfile::layer_order::{is_dependency_file_copy, is_package_install};
use docker_review::rules::dockerfile::multistage::is_compile_command;
use docker_review::rules::dockerfile::root_user::is_root;
use docker_review::rules::dockerfile::{
    BuildContext, CurlBashRule, DockerfileRule, HealthcheckRule, LargeBaseImageRule,
    LatestTagRule, LayerOptimizationRule, LayerOrderRule, MultistageRule, NoDockerignoreRule,
    RootUserRule, SecretsInEnvRule, VersionPinningRule,
};
use docker_review::rules::{Issue, Rule, Severity};

fn parse(content: &str) -> DockerfileParser {
    DockerfileParser::parse_content(content)
}

fn messages(issues: &[Issue]) -> Vec<String> {
    issues.iter().map(|i| i.message.clone()).collect()
}

#[test]
fn large_base_image_fires_once_on_ubuntu_and_not_on_alpine_node() {
    let issues = LargeBaseImageRule.check(&parse("FROM ubuntu:20.04\nRUN apt-get update"), None);
    assert_eq!(issues.len(), 1);
    assert_eq!(issues[0].message, "'ubuntu' is a large base image - consider alpine or slim variants");
    assert_eq!(issues[0].severity, Severity::Suggestion);
    assert_eq!(issues[0].line_number, Some(1));
    assert_eq!(LargeBaseImageRule.check(&parse("FROM node:18-alpine"), None).len(), 0);
}

#[test]
fn large_base_image_names_the_smaller_variant() {
    let issues = LargeBaseImageRule.check(&parse("# x\nFROM Registry.io/Team/Node:18 AS build"), None);
    assert_eq!(issues.len(), 1);
    assert_eq!(issues[0].message, "Consider using node:*-alpine or node:*-slim for 'Registry.io/Team/Node' to reduce image size");
    assert_eq!(issues[0].fix_suggestion.as_deref(), Some("Use node:*-alpine or node:*-slim"));
    assert_eq!(issues[0].line_number, Some(2));
    assert_eq!(issues[0].rule_id, "DF009");
    let issues = LargeBaseImageRule.check(&parse("FROM ubuntu-minimal:1\nFROM centos\nFROM golang\nFROM rust:1\nFROM node-exporter"), None);
    assert_eq!(
        messages(&issues),
        vec![
            "'centos' is a large base image - consider alpine or slim variants",
            "Consider using golang:*-alpine for 'golang' to reduce image size",
        ]
    );
}

#[test]
fn latest_tag_fires_once_on_latest_and_not_on_a_digest() {
    let issues = LatestTagRule.check(&parse("FROM node:latest"), None);
    assert_eq!(issues.len(), 1);
    assert_eq!(issues[0].message, "Image 'node:latest' explicitly uses ':latest' tag");
    assert_eq!(issues[0].severity, Severity::Critical);
    assert_eq!(LatestTagRule.check(&parse("FROM node@sha256:abc123"), None).len(), 0);
}

#[test]
fn latest_tag_passes_over_scratch_and_stage_names() {
    let content = "FROM golang:1.21 AS builder\nFROM scratch\nFROM builder\nFROM builder AS final\nFROM nodejs-base\nFROM my.registry/app\nFROM registry:5000/app";
    let issues = LatestTagRule.check(&parse(content), None);
    assert_eq!(
        messages(&issues),
        vec![
            "Image 'my.registry/app' has no tag (implicitly uses 'latest')",
        ]
    );
    assert_eq!(issues[0].line_number, Some(6));
}

#[test]
fn a_stage_name_that_begins_with_the_name_of_an_image_is_no_image() {
    let parser = parse("FROM node:18 AS nodebuilder\nFROM nodebuilder");
    assert_eq!(LatestTagRule.check(&parser, None).len(), 0);
    let parser = parse("FROM node:18 AS nodebuilder\nFROM node\nFROM rusty\nFROM rust");
    let issues = LatestTagRule.check(&parser, None);
    assert_eq!(
        messages(&issues),
        vec![
            "Image 'node' has no tag (implicitly uses 'latest')",
            "Image 'rust' has no tag (implicitly uses 'latest')",
        ]
    );
    assert_eq!(unpinned("node", false), Some("Image 'node' has no tag (implicitly uses 'latest')".to_string()));
    assert_eq!(unpinned("node", true), None);
    assert_eq!(unpinned("a/b:latest", true), Some("Image 'a/b:latest' explicitly uses ':latest' tag".to_string()));
    assert_eq!(unpinned("nodebuilder", false), None);
    assert_eq!(unpinned("scratch", false), None);
    assert_eq!(unpinned("a/b@sha256:1", false), None);
}

#[test]
fn the_registry_path_and_the_tag_are_taken_off_before_an_image_is_judged() {
    let issues = LargeBaseImageRule.check(&parse("FROM localhost:5000/ubuntu:20.04"), None);
    assert_eq!(issues.len(), 1);
    assert_eq!(issues[0].severity, Severity::Suggestion);
    assert_eq!(issues[0].line_number, Some(1));
    assert_eq!(
        issues[0].message,
        "'localhost:5000/ubuntu' is a large base image - consider alpine or slim variants"
    );
    assert_eq!(bare_name_of("localhost:5000/ubuntu:20.04"), "ubuntu");
    assert_eq!(name_of("localhost:5000/ubuntu:20.04"), "localhost:5000/ubuntu");
    assert_eq!(bare_name_of("Registry.io/Team/Node:18"), "Node");
    assert_eq!(name_of("node"), "node");
    assert_eq!(bare_name_of("a/b/"), "");
    assert_eq!(bare_name_of("node@sha256:abc"), "node@sha256");
    let issues = LargeBaseImageRule.judge_image("x:1/Debian:12", "debian", 7);
    assert_eq!(issues.len(), 1);
    assert_eq!(issues[0].message, "'x:1/Debian' is a large base image - consider alpine or slim variants");
    assert_eq!(issues[0].line_number, Some(7));
    assert_eq!(LargeBaseImageRule.judge_image("x:1/Debian:12", "Debian", 7).len(), 0);
    assert_eq!(LargeBaseImageRule.judge_image("python:3-slim", "python", 1).len(), 0);
    let issues = LargeBaseImageRule.judge_image("python:3", "python", 1);
    assert_eq!(issues[0].fix_suggestion.as_deref(), Some("Use python:*-alpine or python:*-slim"));
}

#[test]
fn texts_in_lowercase_are_judged_by_functions_of_their_own() {
    assert!(is_root("root"));
    assert!(is_root("0"));
    assert!(!is_root("Root"));
    assert!(!is_root("root "));
    assert!(!is_root(""));
    assert!(is_compile_command("cd x && make all"));
    assert!(is_compile_command("go build"));
    assert!(!is_compile_command("make"));
    assert!(!is_compile_command("GO BUILD"));
    assert!(installs_packages("apt-get install -y x"));
    assert!(!installs_packages("apt-get  install"));
    assert!(installs_lean("apt-get install --no-install-recommends x"));
    assert!(!installs_lean("apt-get update --no-install-recommends"));
    assert!(!installs_lean("apt-get install x"));
    let issues = LayerOptimizationRule.judge_run("apt-get update && apt-get clean", 4);
    assert_eq!(
        messages(&issues),
        vec![
            "Cleanup in separate layer doesn't save space - combine with install command",
            "apt-get update in separate RUN - combine with apt-get install using &&",
        ]
    );
    assert_eq!(issues[1].line_number, Some(4));
    assert_eq!(LayerOptimizationRule.judge_run("apt-get update && apt-get install x", 4).len(), 0);
    assert_eq!(LayerOptimizationRule.judge_run("APT-GET UPDATE", 4).len(), 0);
    let issues = VersionPinningRule.judge_run("apt-get install curl && pip install flask", true, true, 9);
    assert_eq!(
        messages(&issues),
        vec!["apt-get install without version pinning", "pip install without version pinning"]
    );
    assert_eq!(issues[0].line_number, Some(9));
    assert_eq!(VersionPinningRule.judge_run("apt-get install curl && pip install flask", false, true, 9).len(), 1);
    assert_eq!(VersionPinningRule.judge_run("apt-get install curl", true, true, 9).len(), 1);
    assert_eq!(VersionPinningRule.judge_run("apt-get install curl=1", true, true, 9).len(), 0);
    assert_eq!(VersionPinningRule.judge_run("pip install -r x", true, true, 9).len(), 0);
    assert_eq!(VersionPinningRule.judge_run("pip install a==1", true, true, 9).len(), 0);
}

#[test]
fn the_last_user_switch_counts() {
    assert_eq!(RootUserRule.check(&parse("FROM a\nUSER root\nUSER app"), None).len(), 0);
    let issues = RootUserRule.check(&parse("FROM a\nUSER app\nRUN x\nuser  ROOT  "), None);
    assert_eq!(issues.len(), 1);
    assert_eq!(issues[0].message, "Container explicitly set to run as root");
    assert_eq!(issues[0].line_number, Some(4));
    let issues = RootUserRule.check(&parse("USER 0"), None);
    assert_eq!(issues.len(), 1);
    assert_eq!(RootUserRule.check(&parse("USER 0:0"), None).len(), 0);
    let issues = RootUserRule.check(&parse("FROM a"), None);
    assert_eq!(issues.len(), 1);
    assert_eq!(issues[0].message, "No USER instruction found - container will run as root");
    assert_eq!(issues[0].line_number, None);
}

#[test]
fn the_ignore_file_rule_speaks_only_of_a_known_context() {
    let parser = parse("FROM a");
    assert_eq!(NoDockerignoreRule.check(&parser, None).len(), 0);
    let with = BuildContext { has_ignore_file: true };
    let without = BuildContext { has_ignore_file: false };
    assert_eq!(NoDockerignoreRule.check(&parser, Some(&with)).len(), 0);
    let issues = NoDockerignoreRule.check(&parser, Some(&without));
    assert_eq!(issues.len(), 1);
    assert_eq!(issues[0].message, "No .dockerignore file found in the build context");
    assert_eq!(issues[0].rule_id, "DF003");
    assert_eq!(issues[0].severity, Severity::Warning);
    assert_eq!(issues[0].line_number, None);
}

#[test]
fn layer_order_flags_once_at_the_last_broad_copy() {
    let content = "FROM node:18\nCOPY . /app\nADD src /src\nRUN NPM install\nCOPY . .\nRUN pip install x";
    let issues = LayerOrderRule.check(&parse(content), None);
    assert_eq!(issues.len(), 1);
    assert_eq!(issues[0].line_number, Some(3));
    assert_eq!(issues[0].message, "COPY of source files before package installation invalidates cache");
    let content = "FROM node:18\nCOPY --from=build /a /b\nCOPY go.mod go.sum ./\nRUN go mod download\nCOPY . .\nRUN echo done";
    assert_eq!(LayerOrderRule.check(&parse(content), None).len(), 0);
    let content = "RUN npm ci\nCOPY . .";
    assert_eq!(LayerOrderRule.check(&parse(content), None).len(), 0);
    let content = "COPY . package.json\nRUN npm ci";
    assert_eq!(LayerOrderRule.check(&parse(content), None).len(), 1);
    let content = "COPY package.json .\nRUN npm ci";
    assert_eq!(LayerOrderRule.check(&parse(content), None).len(), 0);
}

#[test]
fn dependency_files_and_install_commands_are_recognized() {
    assert!(is_dependency_file_copy("package.json ./"));
    assert!(is_dependency_file_copy("a/Cargo.lock b"));
    assert!(!is_dependency_file_copy("src /src"));
    assert!(!is_dependency_file_copy("PACKAGE.JSON ./"));
    assert!(is_package_install("apk add curl"));
    assert!(is_package_install("cd x && composer install"));
    assert!(!is_package_install("npm run build"));
    assert!(!is_package_install("APK ADD curl"));
}

#[test]
fn healthcheck_is_asked_for_once() {
    let issues = HealthcheckRule.check(&parse("FROM a\nRUN b"), None);
    assert_eq!(issues.len(), 1);
    assert_eq!(issues[0].severity, Severity::Warning);
    assert_eq!(issues[0].line_number, None);
    assert_eq!(issues[0].message, "No HEALTHCHECK instruction - container health cannot be monitored");
    assert_eq!(HealthcheckRule.check(&parse("healthcheck NONE"), None).len(), 0);
}

#[test]
fn secrets_are_found_in_env_first_and_then_in_arg() {
    let content = "ARG API_KEY=1\nENV Password = x\nENV PORT=1\nARG token=1\nENV auth_token=1\nRUN SECRET=1 make";
    let issues = SecretsInEnvRule.check(&parse(content), None);
    assert_eq!(
        messages(&issues),
        vec![
            "Potential secret detected in ENV instruction",
            "Potential secret detected in ENV instruction",
            "Potential secret detected in ARG instruction (visible in image history)",
        ]
    );
    assert_eq!(issues[0].line_number, Some(2));
    assert_eq!(issues[1].line_number, Some(5));
    assert_eq!(issues[2].line_number, Some(1));
    assert_eq!(SecretsInEnvRule.check(&parse("ENV PASSWORD_FILE /run/secret"), None).len(), 0);
}

#[test]
fn unpinned_installs_are_flagged_for_each_tool() {
    let issues = VersionPinningRule.check(&parse("RUN Apt-Get Install -y curl && PIP install flask"), None);
    assert_eq!(
        messages(&issues),
        vec!["apt-get install without version pinning", "pip install without version pinning"]
    );
    assert_eq!(VersionPinningRule.check(&parse("RUN apt-get install -y curl=7.68.0"), None).len(), 0);
    assert_eq!(VersionPinningRule.check(&parse("RUN apt-get install -y"), None).len(), 0);
    assert_eq!(VersionPinningRule.check(&parse("RUN pip install -r requirements.txt"), None).len(), 0);
    assert_eq!(VersionPinningRule.check(&parse("CMD apt-get install curl"), None).len(), 0);
}

#[test]
fn multistage_is_suggested_for_a_single_stage_that_compiles() {
    let issues = MultistageRule.check(&parse("FROM rust:1\nRUN Cargo Build --release"), None);
    assert_eq!(issues.len(), 1);
    assert_eq!(issues[0].severity, Severity::Suggestion);
    assert_eq!(issues[0].line_number, None);
    assert_eq!(issues[0].message, "Single-stage build with compilation detected - consider multi-stage build");
    assert_eq!(MultistageRule.check(&parse("RUN make all"), None).len(), 1);
    assert_eq!(MultistageRule.check(&parse("FROM a\nFROM b\nRUN make all"), None).len(), 0);
    assert_eq!(MultistageRule.check(&parse("FROM a\nCMD make all"), None).len(), 0);
    assert_eq!(MultistageRule.check(&parse("FROM a\nRUN make"), None).len(), 0);
}

#[test]
fn a_fetch_piped_into_a_shell_is_flagged() {
    let issues = CurlBashRule.check(&parse("FROM a\nRUN wget -O- http://x | /bin/sh"), None);
    assert_eq!(issues.len(), 1);
    assert_eq!(issues[0].line_number, Some(2));
    assert_eq!(issues[0].message, "Piping curl/wget to shell - remote code execution risk");
    assert_eq!(CurlBashRule.check(&parse("RUN curl http://x > f && sh f"), None).len(), 0);
    assert_eq!(CurlBashRule.check(&parse("CMD curl http://x | sh"), None).len(), 0);
}

#[test]
fn layer_optimization_gives_its_issues_in_order() {
    let content = "FROM ubuntu:20.04\nRUN apt-get update\nRUN apt-get install -y curl\nRUN apt-get install -y git\nRUN apt-get clean && rm -rf /var/lib/apt/lists/*";
    let issues = LayerOptimizationRule.check(&parse(content), None);
    assert_eq!(
        messages(&issues),
        vec![
            "apt-get update in separate RUN - combine with apt-get install using &&",
            "Cleanup in separate layer doesn't save space - combine with install command",
            "apt-get install without --no-install-recommends may install unnecessary packages",
        ]
    );
    assert_eq!(issues[0].line_number, Some(2));
    assert_eq!(issues[0].severity, Severity::Warning);
    assert_eq!(issues[1].line_number, Some(5));
    assert_eq!(issues[2].line_number, Some(4));
    assert_eq!(issues[2].severity, Severity::Suggestion);
    assert_eq!(issues[2].fix_suggestion.as_deref(), Some("Add --no-install-recommends flag to apt-get install"));
    assert_eq!(issues[2].rule_id, "DF011");
    let content = "RUN apt-get install -y curl\nRUN apt-get install --no-install-recommends -y git";
    assert_eq!(LayerOptimizationRule.check(&parse(content), None).len(), 0);
}

#[test]
fn issues_carry_what_the_rule_tells_about_itself() {
    let issues = CurlBashRule.check(&parse("RUN curl x | sh"), None);
    let issue = &issues[0];
    assert_eq!(issue.rule_id, CurlBashRule.id());
    assert_eq!(issue.rule_name, CurlBashRule.name());
    assert_eq!(issue.severity, CurlBashRule.severity());
    assert_eq!(issue.fix_suggestion.as_deref(), CurlBashRule.fix_suggestion());
    let impact = issue.impact.as_ref().unwrap();
    let told = CurlBashRule.impact().unwrap();
    assert_eq!(impact.security_improvement, told.security_improvement);
    assert_eq!(impact.reliability_improvement, Some("Reproducible builds".to_string()));
    assert_eq!(impact.build_time_improvement, None);
    assert_eq!(impact.image_size_reduction, None);
}
