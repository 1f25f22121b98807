use docker_review::parser::parse_patterns;

#[test]
fn test_parse_patterns() {
    let content = r#"
# Comment
node_modules
*.log

.git
target/
"#;
    let patterns = parse_patterns(content);
    assert_eq!(patterns.len(), 4);
    assert!(patterns.contains(&"node_modules".to_string()));
    assert!(patterns.contains(&".git".to_string()));
}
