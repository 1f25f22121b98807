use docker_review::parser::DockerfileParser;
use docker_review::rules::dockerfile::{DockerfileRule, LatestTagRule};

#[test]
fn test_detects_explicit_latest() {
    let content = "FROM node:latest\nRUN npm install";
    let parser = DockerfileParser::parse_content(content);
    let rule = LatestTagRule;
    let issues = rule.check(&parser, None);
    assert_eq!(issues.len(), 1);
    assert!(issues[0].message.contains("latest"));
}

#[test]
fn test_detects_implicit_latest() {
    let content = "FROM ubuntu\nRUN apt-get update";
    let parser = DockerfileParser::parse_content(content);
    let rule = LatestTagRule;
    let issues = rule.check(&parser, None);
    assert_eq!(issues.len(), 1);
    assert!(issues[0].message.contains("no tag"));
}

#[test]
fn test_allows_pinned_version() {
    let content = "FROM node:18.17.0-alpine\nRUN npm install";
    let parser = DockerfileParser::parse_content(content);
    let rule = LatestTagRule;
    let issues = rule.check(&parser, None);
    assert_eq!(issues.len(), 0);
}

#[test]
fn test_allows_digest() {
    let content = "FROM node@sha256:abc123\nRUN npm install";
    let parser = DockerfileParser::parse_content(content);
    let rule = LatestTagRule;
    let issues = rule.check(&parser, None);
    assert_eq!(issues.len(), 0);
}
