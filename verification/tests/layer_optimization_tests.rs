use docker_review::parser::DockerfileParser;
use docker_review::rules::dockerfile::{DockerfileRule, LayerOptimizationRule};

#[test]
fn test_detects_separate_cleanup_layer() {
    let content = r#"
FROM ubuntu:20.04
RUN apt-get update && apt-get install -y curl
RUN apt-get clean
"#;
    let parser = DockerfileParser::parse_content(content);
    let rule = LayerOptimizationRule;
    let issues = rule.check(&parser, None);
    // Should detect: separate cleanup layer + missing --no-install-recommends
    assert!(issues.iter().any(|i| i.message.contains("separate layer")));
}

#[test]
fn test_detects_separate_apt_update() {
    let content = r#"
FROM ubuntu:20.04
RUN apt-get update
RUN apt-get install -y curl
"#;
    let parser = DockerfileParser::parse_content(content);
    let rule = LayerOptimizationRule;
    let issues = rule.check(&parser, None);
    assert!(issues.iter().any(|i| i.message.contains("apt-get update in separate RUN")));
}

#[test]
fn test_detects_missing_no_install_recommends() {
    let content = r#"
FROM ubuntu:20.04
RUN apt-get update && apt-get install -y curl && rm -rf /var/lib/apt/lists/*
"#;
    let parser = DockerfileParser::parse_content(content);
    let rule = LayerOptimizationRule;
    let issues = rule.check(&parser, None);
    assert!(issues.iter().any(|i| i.message.contains("--no-install-recommends")));
}

#[test]
fn test_allows_good_pattern() {
    let content = r#"
FROM ubuntu:20.04
RUN apt-get update && \
    apt-get install -y --no-install-recommends curl && \
    rm -rf /var/lib/apt/lists/*
"#;
    let parser = DockerfileParser::parse_content(content);
    let rule = LayerOptimizationRule;
    let issues = rule.check(&parser, None);
    assert_eq!(issues.len(), 0);
}

#[test]
fn test_no_issues_without_apt() {
    let content = r#"
FROM node:18-alpine
RUN npm install
"#;
    let parser = DockerfileParser::parse_content(content);
    let rule = LayerOptimizationRule;
    let issues = rule.check(&parser, None);
    assert_eq!(issues.len(), 0);
}
