use docker_review::parser::DockerfileParser;

#[test]
fn test_parse_simple_dockerfile() {
    let content = r#"
FROM ubuntu:20.04
RUN apt-get update
COPY . /app
CMD ["./app"]
"#;
    let parser = DockerfileParser::parse_content(content);
    assert_eq!(parser.instructions.len(), 4);
    assert_eq!(parser.instructions[0].name, "FROM");
    assert_eq!(parser.instructions[0].arguments, "ubuntu:20.04");
}

#[test]
fn test_parse_multiline_run() {
    let content = r#"
FROM alpine
RUN apk add --no-cache \
    curl \
    git
"#;
    let parser = DockerfileParser::parse_content(content);
    assert_eq!(parser.instructions.len(), 2);
    assert!(parser.instructions[1].arguments.contains("curl"));
    assert!(parser.instructions[1].arguments.contains("git"));
}

#[test]
fn test_skip_comments() {
    let content = r#"
# This is a comment
FROM alpine
# Another comment
RUN echo hello
"#;
    let parser = DockerfileParser::parse_content(content);
    assert_eq!(parser.instructions.len(), 2);
}

#[test]
fn multiline_run_joins_with_single_spaces_and_keeps_raw_text() {
    let content = "FROM alpine\nRUN apk add --no-cache \\\n    curl \\\n    git\n";
    let parser = DockerfileParser::parse_content(content);
    assert_eq!(parser.instructions[1].arguments, "apk add --no-cache curl git");
    assert_eq!(parser.instructions[1].raw_line, "RUN apk add --no-cache \\\ncurl \\\ngit");
    assert_eq!(parser.instructions[1].line_number, 2);
}

#[test]
fn directive_lines_are_those_of_the_keyword_expression() {
    let re = regex::Regex::new(r"(?i)^(FROM|RUN|CMD|LABEL|EXPOSE|ENV|ADD|COPY|ENTRYPOINT|VOLUME|USER|WORKDIR|ARG|ONBUILD|STOPSIGNAL|HEALTHCHECK|SHELL|MAINTAINER)\s+(.*)$").unwrap();
    let lines = [
        "FROM a", "from a", "FrOm\ta  b", "FROMA b", "RUN", "RUN x \\", "u\u{17f}er root",
        "WOR\u{212a}DIR /x", "healthchec\u{212a} CMD x", "ENTRYPOINT\u{a0}x", "ARGS x", "ENVIRONMENT x",
        "onbuild RUN x", "#FROM x", "maintainer  me", "stop\u{17f}ignal 9", "COPY\u{3000}.  .", "ADD\u{2003}a b",
        "run \\", "expose 80/tcp", "label a=b", "volume /data", "shell [\"sh\"]", "cmd x", "FROM\u{200b}x",
    ];
    for line in lines {
        let parser = DockerfileParser::parse_content(line);
        match re.captures(line.trim()) {
            Some(caps) => {
                assert_eq!(parser.instructions.len(), 1, "{:?}", line);
                let name = caps.get(1).unwrap().as_str().to_uppercase().replace('\u{212a}', "K");
                assert_eq!(parser.instructions[0].name, name, "{:?}", line);
                let arguments = caps.get(2).unwrap().as_str();
                let arguments = arguments.strip_suffix('\\').unwrap_or(arguments).trim();
                assert_eq!(parser.instructions[0].arguments, arguments, "{:?}", line);
                assert_eq!(parser.instructions[0].raw_line, line.trim());
            }
            None => assert_eq!(parser.instructions.len(), 0, "{:?}", line),
        }
    }
}
