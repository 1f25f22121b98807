use docker_review::analyzer::Analyzer;
use docker_review::output::span::plain_text;
use docker_review::output::{
    format_issue, format_score_bar, rule_listing, OutputFormatter, Span, Style, TerminalOutput,
};
use docker_review::rules::{ImpactEstimate, Issue, Severity};

fn span(text: &str, style: Style) -> Span {
    Span { text: text.to_string(), style }
}

fn issue(severity: Severity, line_number: Option<usize>) -> Issue {
    Issue {
        rule_id: "DF001".to_string(),
        rule_name: "Using latest tag".to_string(),
        severity,
        line_number,
        message: "Image 'a' has no tag".to_string(),
        fix_suggestion: Some("Pin it".to_string()),
        impact: Some(ImpactEstimate {
            build_time_improvement: Some("faster".to_string()),
            image_size_reduction: None,
            security_improvement: Some("safer".to_string()),
            reliability_improvement: Some("steadier".to_string()),
        }),
    }
}

#[test]
fn a_score_bar_has_ten_cells_and_the_color_of_the_score() {
    assert_eq!(
        format_score_bar(7),
        vec![span("███████░░░", Style::Yellow), span(" 7/10", Style::Plain)]
    );
    assert_eq!(format_score_bar(10)[0], span("██████████", Style::Green));
    assert_eq!(format_score_bar(8)[0].style, Style::Green);
    assert_eq!(format_score_bar(5)[0].style, Style::Yellow);
    assert_eq!(format_score_bar(4)[0].style, Style::Red);
    assert_eq!(format_score_bar(0), vec![span("░░░░░░░░░░", Style::Red), span(" 0/10", Style::Plain)]);
}

#[test]
fn an_issue_is_laid_out_with_its_line_and_its_fix() {
    let spans = format_issue(&issue(Severity::Warning, Some(12)), false, true);
    assert_eq!(
        spans,
        vec![
            span("  ", Style::Plain),
            span("[DF001]", Style::Yellow),
            span(" ", Style::Plain),
            span("Using latest tag", Style::Bold),
            span(" ", Style::Plain),
            span(":12", Style::Dimmed),
            span("\n    Image 'a' has no tag\n", Style::Plain),
            span("    ", Style::Plain),
            span("Fix:", Style::Green),
            span(" Pin it\n", Style::Plain),
            span("\n", Style::Plain),
        ]
    );
    let text = plain_text(&format_issue(&issue(Severity::Critical, None), true, true));
    assert_eq!(
        text,
        "  [DF001] Using latest tag \n    Image 'a' has no tag\n    Fix: Pin it\n    Build: faster\n    Security: safer\n\n"
    );
    let text = plain_text(&format_issue(&issue(Severity::Critical, None), true, false));
    assert_eq!(text, "  [DF001] Using latest tag \n    Image 'a' has no tag\n    Fix: Pin it\n\n");
}

#[test]
fn a_report_without_issues_is_praised() {
    let report = Analyzer::new().assemble("Dockerfile", vec![]);
    let text = TerminalOutput::new(true, true).format(&report);
    assert_eq!(
        text,
        "\nDocker Review Report\nFile: Dockerfile\n\n📊 Scores\n  Security:       ██████████ 10/10\n  Performance:    ██████████ 10/10\n  Maintainability:██████████ 10/10\n  Overall:        ██████████ 10/10\n\n✅ No issues found! Great job!\n"
    );
}

#[test]
fn a_report_is_laid_out_by_severity() {
    let mut warning = issue(Severity::Warning, Some(3));
    warning.rule_id = "DF005".to_string();
    warning.fix_suggestion = None;
    let issues = vec![warning, issue(Severity::Critical, None), issue(Severity::Critical, Some(1))];
    let report = Analyzer::new().assemble("a/Dockerfile", issues);
    let output = TerminalOutput::new(false, true);
    let text = output.format(&report);
    assert_eq!(
        text,
        "\nDocker Review Report\nFile: a/Dockerfile\n\n📊 Scores\n  Security:       ████░░░░░░ 4/10\n  Performance:    ██████████ 10/10\n  Maintainability:████████░░ 8/10\n  Overall:        ███████░░░ 7/10\n\n📋 Issues Summary\n  2 Critical, 1 Warnings, 0 Suggestions\n\n✗ Critical Issues\n  [DF001] Using latest tag \n    Image 'a' has no tag\n    Fix: Pin it\n\n  [DF001] Using latest tag :1\n    Image 'a' has no tag\n    Fix: Pin it\n\n\n⚠ Warnings\n  [DF005] Using latest tag :3\n    Image 'a' has no tag\n\n\n📈 Estimated Impact\n  Fixing all issues could improve:\n  • Security score:       4 → 10\n  • Performance score:    10 → 10\n  • Maintainability score:8 → 10\n\n"
    );
    assert_eq!(plain_text(&output.spans(&report)), text);
    let styles: Vec<Style> = output.spans(&report).iter().map(|s| s.style).filter(|s| *s != Style::Plain).collect();
    assert_eq!(styles[..3], [Style::BoldUnderline, Style::Cyan, Style::Bold]);
    assert!(styles.contains(&Style::RedBold));
    assert!(styles.contains(&Style::YellowBold));
    let quiet = TerminalOutput::new(false, false).format(&report);
    assert!(quiet.ends_with("    Image 'a' has no tag\n\n\n"));
}

#[test]
fn the_rules_are_listed_under_two_headings() {
    let spans = rule_listing();
    assert_eq!(spans[0], span("Dockerfile Rules:", Style::BoldUnderline));
    assert_eq!(spans[2], span("  ", Style::Plain));
    assert_eq!(spans[3], span("DF001", Style::Bold));
    assert_eq!(spans[5], span("[Critical]", Style::Red));
    assert_eq!(spans[6], span(" - Using latest tag\n      ", Style::Plain));
    assert_eq!(spans.len(), 2 + 10 * 7 + 2 + 5 * 7);
    let text = plain_text(&spans);
    assert!(text.starts_with("Dockerfile Rules:\n\n  DF001 [Critical] - Using latest tag\n      Avoid using the 'latest' tag or omitting tags in FROM instructions\n\n  DF002 [Critical] - Running as root\n"));
    assert!(text.contains("\n\nDocker Compose Rules:\n\n  DC001 [Warning] - No restart policy\n      Service has no restart policy defined\n\n"));
    assert!(text.ends_with("  DC005 [Critical] - Hardcoded secrets\n      Service has hardcoded secrets in environment variables\n\n"));
}
