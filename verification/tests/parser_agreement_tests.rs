use docker_review::parser::{DockerfileParser, Instruction};
use regex::Regex;

/// The expressions of a directive line, of a continuation marker, and of a
/// marker with the white space before it.
fn expressions() -> (Regex, Regex, Regex) {
    let directive = Regex::new(r"(?i)^(FROM|RUN|CMD|LABEL|EXPOSE|ENV|ADD|COPY|ENTRYPOINT|VOLUME|USER|WORKDIR|ARG|ONBUILD|STOPSIGNAL|HEALTHCHECK|SHELL|MAINTAINER)\s+(.*)$").unwrap();
    let continuation = Regex::new(r"\\\s*$").unwrap();
    let marker = Regex::new(r"\s*\\\s*$").unwrap();
    (directive, continuation, marker)
}

/// The instructions of `content`, found with regular expressions.
fn parse_with_expressions(content: &str, expressions: &(Regex, Regex, Regex)) -> Vec<Instruction> {
    let (directive, continuation, marker) = expressions;
    let lines: Vec<&str> = content.lines().collect();
    let mut instructions = Vec::new();
    let mut i = 0;
    while i < lines.len() {
        let line = lines[i].trim();
        if !line.is_empty() && !line.starts_with('#') {
            if let Some(captures) = directive.captures(line) {
                let name = captures.get(1).unwrap().as_str().to_uppercase().replace('\u{212a}', "K");
                let mut arguments = captures.get(2).unwrap().as_str().to_string();
                let line_number = i + 1;
                let mut raw_line = line.to_string();
                let mut current = line;
                while continuation.is_match(current) && i + 1 < lines.len() {
                    i += 1;
                    current = lines[i].trim();
                    raw_line.push('\n');
                    raw_line.push_str(current);
                    arguments = marker.replace(&arguments, "").to_string();
                    arguments.push(' ');
                    arguments.push_str(current);
                }
                if continuation.is_match(current) {
                    arguments = marker.replace(&arguments, "").to_string();
                }
                instructions.push(Instruction {
                    name,
                    arguments: arguments.trim().to_string(),
                    line_number,
                    raw_line,
                });
            }
        }
        i += 1;
    }
    instructions
}

fn pieces() -> Vec<&'static str> {
    vec![
        "FROM", "from", "Run", "RUN", "copy", "ADD", "env", "ARG", "User", "u\u{17f}er", "WOR\u{212a}DIR",
        "healthcheck", "ONBUILD", "cmd", "entrypoint", "label", "shell", "stopsignal", "maintainer",
        "volume", "expose", "x", "alpine:3.18", "apt-get install", ".", "a=b", "\\", "\\", "\\ ", " \\",
        "#", "# note", " ", " ", "  ", "\t", "\u{a0}", "\u{3000}", "\u{200b}", "\n", "\n", "\n", "\r\n",
        "\r", "\n\n", "é", "=", "|", "RUNNER", "FROMAGE",
    ]
}

#[test]
fn parsing_agrees_with_regular_expressions_on_generated_scripts() {
    let pieces = pieces();
    let expressions = expressions();
    let mut seed: u64 = 0x2545F4914F6CDD1D;
    for round in 0..4000 {
        let mut content = String::new();
        let length = 1 + round % 24;
        for _ in 0..length {
            seed ^= seed << 13;
            seed ^= seed >> 7;
            seed ^= seed << 17;
            content.push_str(pieces[(seed % pieces.len() as u64) as usize]);
            if seed % 3 == 0 {
                content.push(' ');
            }
        }
        let parsed = DockerfileParser::parse_content(&content);
        assert_eq!(parsed.instructions, parse_with_expressions(&content, &expressions), "{:?}", content);
        assert_eq!(parsed.raw_content, content);
    }
}

#[test]
fn parsing_agrees_with_regular_expressions_on_written_scripts() {
    let scripts = [
        "",
        "\n",
        "FROM a",
        "FROM a\n",
        "FROM a \\",
        "FROM a \\\n",
        "FROM a \\\n\n",
        "FROM a \\\n\\\n\\\nb",
        "RUN \\\n\\",
        "RUN a\\\\\nb",
        "RUN a \\ \t\n  b  \\\n# c \\\nd\nRUN e",
        "  \t FROM\tx:1   AS   y  \r\nRUN\u{a0}z\r\n",
        "FROM\nRUN\nCMD x",
        "#FROM a\n # RUN b\nRUN #c",
        "COPY . .\\\n\n\nCMD x",
    ];
    let expressions = expressions();
    for script in scripts {
        let parsed = DockerfileParser::parse_content(script);
        assert_eq!(parsed.instructions, parse_with_expressions(script, &expressions), "{:?}", script);
    }
}
