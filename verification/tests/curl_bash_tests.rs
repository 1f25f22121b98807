use docker_review::parser::DockerfileParser;
use docker_review::rules::dockerfile::{CurlBashRule, DockerfileRule};

#[test]
fn test_detects_curl_bash() {
    let content = "FROM alpine\nRUN curl -sSL https://example.com/install.sh | bash";
    let parser = DockerfileParser::parse_content(content);
    let rule = CurlBashRule;
    let issues = rule.check(&parser, None);
    assert_eq!(issues.len(), 1);
}

#[test]
fn test_detects_wget_sh() {
    let content = "FROM alpine\nRUN wget -qO- https://example.com/install.sh | sh";
    let parser = DockerfileParser::parse_content(content);
    let rule = CurlBashRule;
    let issues = rule.check(&parser, None);
    assert_eq!(issues.len(), 1);
}

#[test]
fn test_allows_curl_to_file() {
    let content = "FROM alpine\nRUN curl -o /tmp/script.sh https://example.com/install.sh && chmod +x /tmp/script.sh && /tmp/script.sh";
    let parser = DockerfileParser::parse_content(content);
    let rule = CurlBashRule;
    let issues = rule.check(&parser, None);
    assert_eq!(issues.len(), 0);
}
