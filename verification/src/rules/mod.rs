pub mod compose;
pub mod dockerfile;
pub mod registry;
pub mod rule;
pub mod severity;

pub use registry::{
    find_rule, get_all_rules, get_compose_rules, get_dockerfile_rules, get_rule_by_id, AnyRule,
    ComposeRuleKind, DockerfileRuleKind,
};
pub use rule::{ImpactEstimate, ImpactView, Issue, IssueView, Rule, RuleInfo};
pub use severity::Severity;
