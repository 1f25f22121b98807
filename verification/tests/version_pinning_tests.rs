use docker_review::parser::DockerfileParser;
use docker_review::rules::dockerfile::{DockerfileRule, VersionPinningRule};

#[test]
fn test_detects_unpinned_apt() {
    let content = "FROM ubuntu\nRUN apt-get update && apt-get install -y curl";
    let parser = DockerfileParser::parse_content(content);
    let rule = VersionPinningRule;
    let issues = rule.check(&parser, None);
    assert_eq!(issues.len(), 1);
}

#[test]
fn test_detects_unpinned_pip() {
    let content = "FROM python\nRUN pip install requests flask";
    let parser = DockerfileParser::parse_content(content);
    let rule = VersionPinningRule;
    let issues = rule.check(&parser, None);
    assert_eq!(issues.len(), 1);
}

#[test]
fn test_allows_pinned_pip() {
    let content = "FROM python\nRUN pip install requests==2.28.0";
    let parser = DockerfileParser::parse_content(content);
    let rule = VersionPinningRule;
    let issues = rule.check(&parser, None);
    assert_eq!(issues.len(), 0);
}

#[test]
fn test_allows_requirements_file() {
    let content = "FROM python\nRUN pip install -r requirements.txt";
    let parser = DockerfileParser::parse_content(content);
    let rule = VersionPinningRule;
    let issues = rule.check(&parser, None);
    assert_eq!(issues.len(), 0);
}
