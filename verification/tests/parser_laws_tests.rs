use docker_review::parser::{DockerfileParser, Instruction};

fn names(content: &str) -> Vec<String> {
    DockerfileParser::parse_content(content).instructions.into_iter().map(|i| i.name).collect()
}

#[test]
fn one_instruction_for_each_logical_directive_line() {
    let content = "# build\n\nFROM alpine:3.18\n  run apk add \\\n    curl \\\n    git\nthis is no directive\nCOPY . /app\n\n  # done\nCMD [\"/app\"]\n";
    let parser = DockerfileParser::parse_content(content);
    assert_eq!(parser.instructions.len(), 4);
    let lines: Vec<usize> = parser.instructions.iter().map(|i| i.line_number).collect();
    assert_eq!(lines, vec![3, 4, 8, 11]);
    assert_eq!(names(content), vec!["FROM", "RUN", "COPY", "CMD"]);
}

#[test]
fn a_directive_line_that_is_joined_to_another_is_no_instruction() {
    let content = "RUN echo a \\\nRUN echo b\nRUN echo c";
    let parser = DockerfileParser::parse_content(content);
    assert_eq!(parser.instructions.len(), 2);
    assert_eq!(parser.instructions[0].arguments, "echo a RUN echo b");
    assert_eq!(parser.instructions[0].raw_line, "RUN echo a \\\nRUN echo b");
    assert_eq!(parser.instructions[1].arguments, "echo c");
    assert_eq!(parser.instructions[1].line_number, 3);
}

#[test]
fn a_line_that_is_no_directive_joins_nothing() {
    let content = "echo a \\\nRUN echo b";
    let parser = DockerfileParser::parse_content(content);
    assert_eq!(parser.instructions.len(), 1);
    assert_eq!(parser.instructions[0].arguments, "echo b");
    assert_eq!(parser.instructions[0].line_number, 2);
}

#[test]
fn comments_and_blank_lines_are_joined_to_a_continued_directive() {
    let content = "RUN a \\\n# note\n\nRUN b";
    let parser = DockerfileParser::parse_content(content);
    assert_eq!(parser.instructions.len(), 2);
    assert_eq!(parser.instructions[0].arguments, "a # note");
    assert_eq!(parser.instructions[0].raw_line, "RUN a \\\n# note");
    assert_eq!(parser.instructions[1].line_number, 4);
}

#[test]
fn a_marker_on_the_last_line_is_taken_off_the_arguments() {
    let parser = DockerfileParser::parse_content("RUN echo a \\");
    assert_eq!(parser.instructions.len(), 1);
    assert_eq!(parser.instructions[0].name, "RUN");
    assert_eq!(parser.instructions[0].arguments, "echo a");
    assert_eq!(parser.instructions[0].raw_line, "RUN echo a \\");
    let parser = DockerfileParser::parse_content("FROM a\nRUN make \\\n  all \\\n");
    assert_eq!(parser.instructions.len(), 2);
    assert_eq!(parser.instructions[1].arguments, "make all");
    assert_eq!(parser.instructions[1].raw_line, "RUN make \\\nall \\");
    let parser = DockerfileParser::parse_content("RUN \\");
    assert_eq!(parser.instructions[0].arguments, "");
}

#[test]
fn a_directive_of_nothing_but_a_marker_takes_the_next_line_as_arguments() {
    let parser = DockerfileParser::parse_content("RUN \\\n  echo hi");
    assert_eq!(parser.instructions.len(), 1);
    assert_eq!(parser.instructions[0].arguments, "echo hi");
}

#[test]
fn empty_text_and_text_without_directives_give_no_instruction() {
    assert_eq!(DockerfileParser::parse_content("").instructions.len(), 0);
    assert_eq!(DockerfileParser::parse_content("\n\n").instructions.len(), 0);
    assert_eq!(DockerfileParser::parse_content("hello\nINSTALL x\nFROM\nRUNx y").instructions.len(), 0);
}

#[test]
fn windows_line_ends_are_trimmed_away() {
    let parser = DockerfileParser::parse_content("FROM alpine\r\nRUN a \\\r\n  b\r\n");
    assert_eq!(parser.instructions.len(), 2);
    assert_eq!(parser.instructions[0].arguments, "alpine");
    assert_eq!(parser.instructions[1].arguments, "a b");
    assert_eq!(parser.instructions[1].raw_line, "RUN a \\\nb");
}

#[test]
fn the_text_that_was_parsed_is_kept() {
    let content = "FROM alpine\n# x\n";
    assert_eq!(DockerfileParser::parse_content(content).raw_content, content);
}

#[test]
fn parsing_the_raw_line_of_a_single_line_instruction_gives_it_back() {
    let content = "\n# c\n   FROM   node:18  AS  build  \nRun npm ci\n\tExpose\t8080\nuser 0";
    let parser = DockerfileParser::parse_content(content);
    assert_eq!(parser.instructions.len(), 4);
    for instruction in &parser.instructions {
        let again = DockerfileParser::parse_content(&instruction.raw_line);
        assert_eq!(again.instructions.len(), 1);
        let expected = Instruction { line_number: 1, ..instruction.clone() };
        assert_eq!(again.instructions[0], expected);
    }
    assert_eq!(parser.instructions[0].raw_line, "FROM   node:18  AS  build");
    assert_eq!(parser.instructions[0].arguments, "node:18  AS  build");
    assert_eq!(parser.instructions[2].name, "EXPOSE");
    assert_eq!(parser.instructions[2].arguments, "8080");
}

#[test]
fn names_are_the_keywords_however_they_are_written() {
    let parser = DockerfileParser::parse_content("u\u{17f}er app\nwor\u{212a}dir /srv\nhealthchec\u{212a} none\nFrOm a");
    assert_eq!(parser.instructions[0].name, "USER");
    assert_eq!(parser.instructions[1].name, "WORKDIR");
    assert_eq!(parser.instructions[2].name, "HEALTHCHECK");
    assert_eq!(parser.instructions[3].name, "FROM");
    assert!(parser.has_instruction("user"));
    assert!(parser.has_instruction("WORKDIR"));
    assert!(parser.has_instruction("healthcheck"));
}

#[test]
fn instructions_are_found_by_name_in_any_case_and_in_order() {
    let parser = DockerfileParser::parse_content("FROM a\nRUN x\nfrom b\nRUN y\nFrom c");
    let found = parser.get_instructions("from");
    assert_eq!(found.len(), 3);
    assert_eq!(found[0].arguments, "a");
    assert_eq!(found[1].arguments, "b");
    assert_eq!(found[2].arguments, "c");
    assert_eq!(found[2].line_number, 5);
    assert_eq!(parser.get_instructions("COPY").len(), 0);
    assert!(parser.has_instruction("Run"));
    assert!(!parser.has_instruction("COPY"));
    assert!(!parser.has_instruction("RU"));
}
