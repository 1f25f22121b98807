use docker_review::parser::DockerfileParser;
use docker_review::rules::dockerfile::{DockerfileRule, MultistageRule};

#[test]
fn test_suggests_multistage_for_go() {
    let content = "FROM golang:1.21\nWORKDIR /app\nCOPY . .\nRUN go build -o main\nCMD [\"./main\"]";
    let parser = DockerfileParser::parse_content(content);
    let rule = MultistageRule;
    let issues = rule.check(&parser, None);
    assert_eq!(issues.len(), 1);
}

#[test]
fn test_no_suggestion_for_multistage() {
    let content = r#"
FROM golang:1.21 AS builder
WORKDIR /app
COPY . .
RUN go build -o main

FROM alpine:3.18
COPY --from=builder /app/main /main
CMD ["/main"]
"#;
    let parser = DockerfileParser::parse_content(content);
    let rule = MultistageRule;
    let issues = rule.check(&parser, None);
    assert_eq!(issues.len(), 0);
}

#[test]
fn test_no_suggestion_without_compile() {
    let content = "FROM node:18\nWORKDIR /app\nCOPY . .\nRUN npm install\nCMD [\"node\", \"app.js\"]";
    let parser = DockerfileParser::parse_content(content);
    let rule = MultistageRule;
    let issues = rule.check(&parser, None);
    assert_eq!(issues.len(), 0);
}
