use docker_review::parser::DockerfileParser;
use docker_review::rules::dockerfile::{DockerfileRule, LayerOrderRule};

#[test]
fn test_detects_bad_order() {
    let content = r#"
FROM node:18
COPY . /app
RUN npm install
"#;
    let parser = DockerfileParser::parse_content(content);
    let rule = LayerOrderRule;
    let issues = rule.check(&parser, None);
    assert_eq!(issues.len(), 1);
}

#[test]
fn test_allows_good_order() {
    let content = r#"
FROM node:18
COPY package.json package-lock.json ./
RUN npm install
COPY . .
"#;
    let parser = DockerfileParser::parse_content(content);
    let rule = LayerOrderRule;
    let issues = rule.check(&parser, None);
    assert_eq!(issues.len(), 0);
}
