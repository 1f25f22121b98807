use docker_review::parser::DockerfileParser;
use docker_review::rules::dockerfile::{DockerfileRule, LargeBaseImageRule};

#[test]
fn test_detects_ubuntu() {
    let content = "FROM ubuntu:20.04\nRUN apt-get update";
    let parser = DockerfileParser::parse_content(content);
    let rule = LargeBaseImageRule;
    let issues = rule.check(&parser, None);
    assert_eq!(issues.len(), 1);
}

#[test]
fn test_detects_non_alpine_node() {
    let content = "FROM node:18\nRUN npm install";
    let parser = DockerfileParser::parse_content(content);
    let rule = LargeBaseImageRule;
    let issues = rule.check(&parser, None);
    assert_eq!(issues.len(), 1);
}

#[test]
fn test_allows_alpine() {
    let content = "FROM node:18-alpine\nRUN npm install";
    let parser = DockerfileParser::parse_content(content);
    let rule = LargeBaseImageRule;
    let issues = rule.check(&parser, None);
    assert_eq!(issues.len(), 0);
}

#[test]
fn test_allows_slim() {
    let content = "FROM python:3.11-slim\nRUN pip install flask";
    let parser = DockerfileParser::parse_content(content);
    let rule = LargeBaseImageRule;
    let issues = rule.check(&parser, None);
    assert_eq!(issues.len(), 0);
}
