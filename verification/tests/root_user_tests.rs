use docker_review::parser::DockerfileParser;
use docker_review::rules::dockerfile::{DockerfileRule, RootUserRule};

#[test]
fn test_detects_no_user() {
    let content = "FROM alpine\nRUN apk add curl";
    let parser = DockerfileParser::parse_content(content);
    let rule = RootUserRule;
    let issues = rule.check(&parser, None);
    assert_eq!(issues.len(), 1);
}

#[test]
fn test_detects_explicit_root() {
    let content = "FROM alpine\nUSER root\nRUN apk add curl";
    let parser = DockerfileParser::parse_content(content);
    let rule = RootUserRule;
    let issues = rule.check(&parser, None);
    assert_eq!(issues.len(), 1);
}

#[test]
fn test_allows_non_root_user() {
    let content = "FROM alpine\nRUN adduser -D app\nUSER app";
    let parser = DockerfileParser::parse_content(content);
    let rule = RootUserRule;
    let issues = rule.check(&parser, None);
    assert_eq!(issues.len(), 0);
}
