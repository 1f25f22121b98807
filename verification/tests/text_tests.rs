use docker_review::parser::parse_patterns;
use docker_review::text::{
    first_word, is_whitespace, str_contains, str_ends_with, str_eq, str_eq_ignore_ascii_case,
    str_has_char, str_starts_with, to_chars, trimmed,
};

#[test]
fn white_space_is_what_the_standard_library_calls_white_space() {
    for code in 0u32..0x11000 {
        if let Some(c) = char::from_u32(code) {
            assert_eq!(is_whitespace(c), c.is_whitespace(), "U+{:04X}", code);
        }
    }
}

#[test]
fn trimming_agrees_with_the_standard_library() {
    for s in ["", " ", "a", "  a b  ", "\t\r\n x \u{a0}\u{3000}", "\u{2003}é\u{2003}", "x\u{200b}", "\n\n"] {
        assert_eq!(trimmed(s), s.trim(), "{:?}", s);
    }
}

#[test]
fn searching_agrees_with_the_standard_library() {
    let texts = ["", "a", "ab", "abcabc", "apt-get install -y curl", ". ", "x. y", "é${é}"];
    let words = ["", "a", "b", "abc", "bca", "cab", ". ", "${", "install", "é", "abcabca"];
    for s in texts {
        for w in words {
            assert_eq!(str_contains(s, w), s.contains(w), "{:?} {:?}", s, w);
            assert_eq!(str_starts_with(s, w), s.starts_with(w), "{:?} {:?}", s, w);
            assert_eq!(str_ends_with(s, w), s.ends_with(w), "{:?} {:?}", s, w);
            assert_eq!(str_eq(s, w), s == w, "{:?} {:?}", s, w);
        }
        assert_eq!(str_has_char(s, 'a'), s.contains('a'));
        assert_eq!(str_has_char(s, 'é'), s.contains('é'));
    }
}

#[test]
fn the_first_word_is_the_first_of_the_split_at_white_space() {
    for s in ["", "   ", "a", "  node:18  AS build", "\tx\ty", "ubuntu\u{a0}20.04", "one"] {
        assert_eq!(first_word(s), s.split_whitespace().next().unwrap_or(""), "{:?}", s);
    }
}

#[test]
fn ascii_case_is_ignored_and_no_other() {
    assert!(str_eq_ignore_ascii_case("FROM", "from"));
    assert!(str_eq_ignore_ascii_case("HealthCheck", "HEALTHCHECK"));
    assert!(!str_eq_ignore_ascii_case("FROM", "FRO"));
    assert!(!str_eq_ignore_ascii_case("É", "é"));
    assert!(!str_eq_ignore_ascii_case("WORKDIR", "WOR\u{212a}DIR"));
    assert!(!str_eq_ignore_ascii_case("@", "`"));
    assert!(!str_eq_ignore_ascii_case("[", "{"));
}

#[test]
fn characters_are_those_of_the_text() {
    assert_eq!(to_chars("aé→z"), vec!['a', 'é', '→', 'z']);
    assert_eq!(to_chars(""), Vec::<char>::new());
}

#[test]
fn patterns_are_the_trimmed_lines_but_blank_ones_and_comments() {
    let found = parse_patterns("  # c\n node_modules \n\n*.log\r\n#x\n!keep\n  \n.git");
    assert_eq!(found, vec!["node_modules", "*.log", "!keep", ".git"]);
    assert_eq!(parse_patterns(""), Vec::<String>::new());
}
