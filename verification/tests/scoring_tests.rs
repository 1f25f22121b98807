use docker_review::rules::{Issue, Severity};
use docker_review::scoring::calculate_scores;

#[test]
fn test_perfect_score_no_issues() {
    let issues: Vec<Issue> = vec![];
    let scores = calculate_scores(&issues);
    assert_eq!(scores.security.current, 10);
    assert_eq!(scores.performance.current, 10);
    assert_eq!(scores.maintainability.current, 10);
}

#[test]
fn test_score_deduction() {
    let issues = vec![
        Issue {
            rule_id: "DF001".to_string(),
            rule_name: "Test".to_string(),
            severity: Severity::Critical,
            line_number: Some(1),
            message: "Test".to_string(),
            fix_suggestion: None,
            impact: None,
        },
    ];
    let scores = calculate_scores(&issues);
    assert_eq!(scores.security.current, 7); // 10 - 3 for critical
}
