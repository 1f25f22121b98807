use docker_review::parser::DockerfileParser;
use docker_review::rules::dockerfile::{DockerfileRule, SecretsInEnvRule};

#[test]
fn test_detects_password_in_env() {
    let content = "FROM alpine\nENV PASSWORD=mysecret123";
    let parser = DockerfileParser::parse_content(content);
    let rule = SecretsInEnvRule;
    let issues = rule.check(&parser, None);
    assert_eq!(issues.len(), 1);
}

#[test]
fn test_detects_api_key_in_env() {
    let content = "FROM alpine\nENV API_KEY=abc123xyz";
    let parser = DockerfileParser::parse_content(content);
    let rule = SecretsInEnvRule;
    let issues = rule.check(&parser, None);
    assert_eq!(issues.len(), 1);
}

#[test]
fn test_allows_regular_env() {
    let content = "FROM alpine\nENV NODE_ENV=production\nENV PORT=3000";
    let parser = DockerfileParser::parse_content(content);
    let rule = SecretsInEnvRule;
    let issues = rule.check(&parser, None);
    assert_eq!(issues.len(), 0);
}
