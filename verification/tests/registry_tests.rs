use docker_review::pattern::{compiles, is_match, try_match};
use docker_review::rules::dockerfile::{LatestTagRule, NoDockerignoreRule};
use docker_review::rules::{
    find_rule, get_all_rules, get_compose_rules, get_dockerfile_rules, get_rule_by_id, AnyRule,
    ComposeRuleKind, DockerfileRuleKind, Rule, Severity,
};

#[test]
fn the_rules_are_listed_in_the_order_in_which_they_run() {
    let ids: Vec<&str> = get_dockerfile_rules().iter().map(|r| r.id()).collect();
    assert_eq!(ids, vec!["DF001", "DF002", "DF003", "DF004", "DF005", "DF006", "DF007", "DF008", "DF009", "DF010"]);
    let ids: Vec<&str> = get_compose_rules().iter().map(|r| r.id()).collect();
    assert_eq!(ids, vec!["DC001", "DC002", "DC003", "DC004", "DC005"]);
    let ids: Vec<&str> = get_all_rules().iter().map(|r| r.id()).collect();
    assert_eq!(
        ids,
        vec![
            "DF001", "DF002", "DF003", "DF004", "DF005", "DF006", "DF007", "DF008", "DF009",
            "DF010", "DC001", "DC002", "DC003", "DC004", "DC005",
        ]
    );
}

#[test]
fn a_rule_is_found_by_its_code_in_any_case() {
    assert_eq!(get_rule_by_id("DF001"), Some(AnyRule::Dockerfile(DockerfileRuleKind::LatestTag)));
    assert_eq!(get_rule_by_id("dc004"), Some(AnyRule::Compose(ComposeRuleKind::LatestTag)));
    assert_eq!(get_rule_by_id("Df010"), Some(AnyRule::Dockerfile(DockerfileRuleKind::CurlBash)));
    assert_eq!(get_rule_by_id("DF011"), None);
    assert_eq!(get_rule_by_id(""), None);
    assert_eq!(get_rule_by_id(" DF001"), None);
    assert_eq!(find_rule("DC001"), Some(AnyRule::Compose(ComposeRuleKind::RestartPolicy)));
    assert_eq!(find_rule("dc001"), None);
    assert_eq!(find_rule("DF011"), None);
}

#[test]
fn every_rule_tells_about_itself() {
    for rule in get_all_rules() {
        assert_eq!(rule.id().len(), 5);
        assert!(!rule.name().is_empty());
        assert!(!rule.description().is_empty());
        assert!(!rule.rationale().is_empty());
        assert!(rule.fix_suggestion().is_some());
        assert!(rule.impact().is_some());
        assert_eq!(get_rule_by_id(rule.id()), Some(rule));
    }
    let severities: Vec<Severity> = get_all_rules().iter().map(|r| r.severity()).collect();
    let (c, w, s) = (Severity::Critical, Severity::Warning, Severity::Suggestion);
    assert_eq!(severities, vec![c, c, w, w, w, c, w, s, s, c, w, c, w, c, c]);
}

#[test]
fn a_rule_is_explained_at_length() {
    assert_eq!(
        LatestTagRule.explain(),
        "Rule: Using latest tag (DF001)\nSeverity: Critical\n\nDescription:\n  Avoid using the 'latest' tag or omitting tags in FROM instructions\n\nRationale:\n  Using 'latest' or implicit tags causes unpredictable builds. The same Dockerfile may build differently on different days as the base image changes. This breaks reproducibility, makes debugging harder, and can introduce security vulnerabilities without warning.\n\nSuggested Fix:\n  Pin to a specific version tag (e.g., FROM node:18.17.0-alpine)\n\nImpact:\n  Security: Prevents unexpected vulnerability introduction\n  Reliability: 100% build reproducibility\n"
    );
    let explained = NoDockerignoreRule.explain();
    assert!(explained.starts_with("Rule: No .dockerignore (DF003)\nSeverity: Warning\n\n"));
    assert!(explained.ends_with("\nImpact:\n  Build time: Can reduce build context transfer by 50-90%\n  Image size: Can reduce image size by 20-80%\n  Security: Prevents accidental inclusion of secrets\n"));
    assert_eq!(get_rule_by_id("df001").unwrap().explain(), LatestTagRule.explain());
}

#[test]
fn regular_expressions_are_searched_for_anywhere_in_the_text() {
    assert!(compiles(r"a+b"));
    assert!(!compiles(r"a(b"));
    assert!(is_match(r"a+b", "xxaab"));
    assert!(!is_match(r"^a+b", "xxaab"));
    assert!(!is_match(r"a+b", "a+b"));
    assert_eq!(try_match(r"(?i)secret", "My_Secret"), Some(true));
    assert_eq!(try_match(r"secret", "My_Secret"), Some(false));
    assert_eq!(try_match(r"[", "["), None);
}
