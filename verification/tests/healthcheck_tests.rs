use docker_review::parser::DockerfileParser;
use docker_review::rules::dockerfile::{DockerfileRule, HealthcheckRule};

#[test]
fn test_detects_no_healthcheck() {
    let content = "FROM alpine\nCMD [\"./app\"]";
    let parser = DockerfileParser::parse_content(content);
    let rule = HealthcheckRule;
    let issues = rule.check(&parser, None);
    assert_eq!(issues.len(), 1);
}

#[test]
fn test_allows_with_healthcheck() {
    let content = "FROM alpine\nHEALTHCHECK CMD curl -f http://localhost/\nCMD [\"./app\"]";
    let parser = DockerfileParser::parse_content(content);
    let rule = HealthcheckRule;
    let issues = rule.check(&parser, None);
    assert_eq!(issues.len(), 0);
}
