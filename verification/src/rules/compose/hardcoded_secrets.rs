//! Secrets written into the environment of a service.

use super::{inspect_services, issues_over_services, ComposeRule, ServiceRule};
use crate::parser::compose::{
    ComposeFile, ComposeFileView, Environment, EnvironmentView, Service, ServiceView,
};
use crate::pattern::{is_match, is_regex, regex_matches};
use crate::rules::rule::{
    issue_of, no_issue, one_issue, ImpactEstimate, ImpactView, Issue, IssueView, Rule, RuleInfo,
};
use crate::rules::severity::Severity;
use crate::text::{
    after_first, contains, find_char, from_chars, lemma_find_char, position_of, str_contains,
    to_chars,
};
use vstd::prelude::*;
use vstd::string::StringExecFns;

verus! {

/// The rule's short code.
pub const ID: &'static str = "DC005";

/// The rule's name.
pub const NAME: &'static str = "Hardcoded secrets";

/// What the rule looks for.
pub const DESCRIPTION: &'static str = "Service has hardcoded secrets in environment variables";

/// Why the rule exists.
pub const RATIONALE: &'static str = "Hardcoded secrets in docker-compose files are stored in version control, visible to anyone with repo access, and cannot be rotated without updating the file. Use environment variables, env_file, or Docker secrets.";

/// How to mend what the rule finds.
pub const FIX_SUGGESTION: &'static str = "Use env_file, Docker secrets, or environment variable substitution (${VAR})";

/// What mending gains: security improvement.
pub const SECURITY_IMPACT: &'static str = "Critical - prevents credential exposure";

/// Flags a service whose environment gives something with the name of a secret
/// a literal value.
pub struct HardcodedSecretsRule;

impl Rule for HardcodedSecretsRule {
    open spec fn ready(&self) -> bool {
        is_regex(SECRET_NAME@)
    }

    open spec fn info(&self) -> RuleInfo {
        RuleInfo {
            id: ID@,
            name: NAME@,
            severity: Severity::Critical,
            description: DESCRIPTION@,
            rationale: RATIONALE@,
            fix_suggestion: Some(FIX_SUGGESTION@),
            impact: Some(
                ImpactView {
                    build_time_improvement: None,
                    image_size_reduction: None,
                    security_improvement: Some(SECURITY_IMPACT@),
                    reliability_improvement: None,
                },
            ),
        }
    }

    fn id(&self) -> &'static str {
        ID
    }

    fn name(&self) -> &'static str {
        NAME
    }

    fn severity(&self) -> Severity {
        Severity::Critical
    }

    fn description(&self) -> &'static str {
        DESCRIPTION
    }

    fn rationale(&self) -> &'static str {
        RATIONALE
    }

    fn fix_suggestion(&self) -> Option<&'static str> {
        Some(FIX_SUGGESTION)
    }

    fn impact(&self) -> Option<ImpactEstimate> {
        Some(
            ImpactEstimate {
                build_time_improvement: None,
                image_size_reduction: None,
                security_improvement: Some(SECURITY_IMPACT.to_owned()),
                reliability_improvement: None,
            },
        )
    }
}

/// The regular expression of the name of a secret, case aside.
pub const SECRET_NAME: &'static str = r"(?i)(password|passwd|secret|api_key|apikey|auth_token|access_token|private_key|credentials?)";

/// The value of a list entry: what follows its first `=`. An entry without
/// `=` has no value.
pub open spec fn item_value(item: Seq<char>) -> Option<Seq<char>> {
    if item.contains('=') {
        Some(after_first(item, '='))
    } else {
        None
    }
}

/// Whether a value is a literal: it is there, is not empty, and refers to no
/// variable.
pub open spec fn is_literal(value: Option<Seq<char>>) -> bool {
    value matches Some(v) && v.len() > 0 && !contains(v, "${"@)
}

/// Whether an entry gives a secret a literal value, where `named` tells
/// whether the search for the name of a secret found one, and `value` is the
/// entry's value.
pub open spec fn holds_secret(named: bool, value: Option<Seq<char>>) -> bool {
    named && is_literal(value)
}

/// Whether a list entry gives a secret a literal value: the name of a secret
/// is found in the entry, and its value is a literal.
pub open spec fn is_secret_item(item: Seq<char>) -> bool {
    holds_secret(regex_matches(SECRET_NAME@, item), item_value(item))
}

/// Whether a mapping entry gives a secret a literal value: the name of a
/// secret is found in its key, and its value is a literal.
pub open spec fn is_secret_entry(key: Seq<char>, value: Option<Seq<char>>) -> bool {
    holds_secret(regex_matches(SECRET_NAME@, key), value)
}

/// Whether one of the list entries `items` gives a secret a literal value.
pub open spec fn any_secret_item(items: Seq<Seq<char>>) -> bool {
    exists|i: int| 0 <= i < items.len() && is_secret_item(#[trigger] items[i])
}

/// Whether one of the mapping entries `entries` gives a secret a literal value.
pub open spec fn any_secret_entry(entries: Seq<(Seq<char>, Option<Seq<char>>)>) -> bool {
    exists|i: int|
        0 <= i < entries.len() && is_secret_entry((#[trigger] entries[i]).0, entries[i].1)
}

/// Whether an environment gives a secret a literal value.
pub open spec fn has_hardcoded_secret(environment: EnvironmentView) -> bool {
    match environment {
        EnvironmentView::List(items) => any_secret_item(items),
        EnvironmentView::Mapping(entries) => any_secret_entry(entries),
    }
}

/// The list entry that says what the mapping entry of `key` and `value` says.
pub open spec fn entry_as_item(key: Seq<char>, value: Option<Seq<char>>) -> Seq<char> {
    match value {
        Some(v) => key + seq!['='] + v,
        None => key,
    }
}

/// The list that says what the mapping `entries` says.
pub open spec fn entries_as_items(entries: Seq<(Seq<char>, Option<Seq<char>>)>) -> Seq<Seq<char>> {
    entries.map_values(|e: (Seq<char>, Option<Seq<char>>)| entry_as_item(e.0, e.1))
}

/// The environment as a list: a mapping becomes the list that says the same.
pub open spec fn environment_as_list(environment: EnvironmentView) -> EnvironmentView {
    match environment {
        EnvironmentView::List(items) => EnvironmentView::List(items),
        EnvironmentView::Mapping(entries) => EnvironmentView::List(entries_as_items(entries)),
    }
}

/// The service with its environment as a list.
pub open spec fn service_as_list(service: ServiceView) -> ServiceView {
    ServiceView {
        environment: match service.environment {
            Some(environment) => Some(environment_as_list(environment)),
            None => None,
        },
        ..service
    }
}

/// The services with their environments as lists.
pub open spec fn services_as_lists(services: Seq<(Seq<char>, ServiceView)>) -> Seq<
    (Seq<char>, ServiceView),
> {
    services.map_values(|s: (Seq<char>, ServiceView)| (s.0, service_as_list(s.1)))
}

/// The descriptor with the environment of every service as a list.
pub open spec fn descriptor_as_lists(compose: ComposeFileView) -> ComposeFileView {
    ComposeFileView {
        services: match compose.services {
            Some(services) => Some(services_as_lists(services)),
            None => None,
        },
        ..compose
    }
}

/// Whether a mapping entry reads alike as a list entry. Its key holds no `=`,
/// so that the list entry is read back as this key and this value. And where
/// its value is a literal, as only then either shape can be judged a secret,
/// the name of a secret is found in the list entry exactly if it is found in
/// the key.
pub open spec fn is_plain_entry(key: Seq<char>, value: Option<Seq<char>>) -> bool {
    &&& !key.contains('=')
    &&& is_literal(value) ==> regex_matches(SECRET_NAME@, entry_as_item(key, value))
        == regex_matches(SECRET_NAME@, key)
}

/// Whether every entry of an environment in the shape of a mapping reads alike
/// as a list entry.
pub open spec fn is_plain_environment(environment: EnvironmentView) -> bool {
    match environment {
        EnvironmentView::List(items) => true,
        EnvironmentView::Mapping(entries) => forall|i: int|
            0 <= i < entries.len() ==> is_plain_entry((#[trigger] entries[i]).0, entries[i].1),
    }
}

/// Whether the environment of a service, if it has one, is plain.
pub open spec fn is_plain_service(service: ServiceView) -> bool {
    service.environment matches Some(environment) ==> is_plain_environment(environment)
}

/// Whether the environment of every service is plain.
pub open spec fn is_plain_descriptor(compose: ComposeFileView) -> bool {
    forall|i: int|
        0 <= i < compose.service_list().len() ==> is_plain_service(
            (#[trigger] compose.service_list()[i]).1,
        )
}

/// A list entry that is written from a key without `=` and a value is read
/// back with that value.
pub proof fn lemma_item_value(key: Seq<char>, value: Option<Seq<char>>)
    requires
        !key.contains('='),
    ensures
        item_value(entry_as_item(key, value)) == value,
{
    let item = entry_as_item(key, value);
    lemma_find_char(item, '=');
    match value {
        Some(v) => {
            let n = key.len() as int;
            assert(item[n] == '=');
            if find_char(item, '=') < n {
                assert(key[find_char(item, '=')] == item[find_char(item, '=')]);
            }
            assert(after_first(item, '=') =~= v);
        },
        None => {},
    }
}

/// A plain mapping entry and the list entry that says the same are judged
/// alike.
pub proof fn lemma_entry_shapes_agree(key: Seq<char>, value: Option<Seq<char>>)
    requires
        is_plain_entry(key, value),
    ensures
        is_secret_item(entry_as_item(key, value)) == is_secret_entry(key, value),
{
    lemma_item_value(key, value);
}

/// An environment is judged alike in its two shapes: a mapping of plain
/// entries gives a secret a literal value exactly if the list that says the
/// same does.
pub proof fn lemma_environment_shapes_agree(environment: EnvironmentView)
    requires
        is_plain_environment(environment),
    ensures
        has_hardcoded_secret(environment) == has_hardcoded_secret(
            environment_as_list(environment),
        ),
{
    if let EnvironmentView::Mapping(entries) = environment {
        let items = entries_as_items(entries);
        assert(items.len() == entries.len());
        if any_secret_entry(entries) {
            let i = choose|i: int|
                0 <= i < entries.len() && is_secret_entry((#[trigger] entries[i]).0, entries[i].1);
            lemma_entry_shapes_agree(entries[i].0, entries[i].1);
            assert(items[i] == entry_as_item(entries[i].0, entries[i].1));
            assert(is_secret_item(items[i]));
        }
        if any_secret_item(items) {
            let i = choose|i: int| 0 <= i < items.len() && is_secret_item(#[trigger] items[i]);
            lemma_entry_shapes_agree(entries[i].0, entries[i].1);
            assert(items[i] == entry_as_item(entries[i].0, entries[i].1));
            assert(is_secret_entry(entries[i].0, entries[i].1));
        }
    }
}

/// The rule judges a service alike whether its environment is a mapping of
/// plain entries or the list that says the same.
pub proof fn lemma_service_shapes_agree(name: Seq<char>, service: ServiceView)
    requires
        is_plain_service(service),
    ensures
        HardcodedSecretsRule.issues_on(name, service) == HardcodedSecretsRule.issues_on(
            name,
            service_as_list(service),
        ),
{
    if let Some(environment) = service.environment {
        lemma_environment_shapes_agree(environment);
    }
}

/// The rule raises the same issues on services whether their environments are
/// mappings of plain entries or the lists that say the same.
proof fn lemma_services_shapes_agree(services: Seq<(Seq<char>, ServiceView)>)
    requires
        forall|i: int| 0 <= i < services.len() ==> is_plain_service((#[trigger] services[i]).1),
    ensures
        issues_over_services(HardcodedSecretsRule, services) == issues_over_services(
            HardcodedSecretsRule,
            services_as_lists(services),
        ),
    decreases services.len(),
{
    let lists = services_as_lists(services);
    if services.len() > 0 {
        assert(lists.drop_last() =~= services_as_lists(services.drop_last()));
        lemma_services_shapes_agree(services.drop_last());
        lemma_service_shapes_agree(services.last().0, services.last().1);
    }
}

/// The rule raises the same issues on a descriptor whose environments are
/// plain and on the descriptor that writes every environment as a list: for
/// the same services, in the same order.
pub proof fn lemma_descriptor_shapes_agree(compose: ComposeFileView)
    requires
        is_plain_descriptor(compose),
    ensures
        HardcodedSecretsRule.findings(compose) == HardcodedSecretsRule.findings(
            descriptor_as_lists(compose),
        ),
{
    lemma_services_shapes_agree(compose.service_list());
    assert(descriptor_as_lists(compose).service_list() =~= services_as_lists(
        compose.service_list(),
    ));
}

/// The value of the list entry `item`.
pub fn value_of_item(item: &str) -> (value: Option<String>)
    ensures
        value.deep_view() == item_value(item@),
{
    let chars = to_chars(item);
    assert(chars@.subrange(0, chars@.len() as int) == chars@);
    let eq = position_of(&chars, 0, '=');
    proof {
        lemma_find_char(item@, '=');
    }
    if eq >= chars.len() {
        None
    } else {
        Some(from_chars(&chars, eq + 1, chars.len()))
    }
}

/// Whether an entry gives a secret a literal value, where `named` tells
/// whether the search for the name of a secret found one, and `value` is the
/// entry's value.
pub fn gives_secret(named: bool, value: &Option<String>) -> (r: bool)
    ensures
        r == holds_secret(named, value.deep_view()),
{
    match value {
        Some(v) => named && to_chars(v.as_str()).len() > 0 && !str_contains(v.as_str(), "${"),
        None => false,
    }
}

/// Whether the list entry `item` gives a secret a literal value.
fn secret_item(item: &str) -> (r: bool)
    requires
        is_regex(SECRET_NAME@),
    ensures
        r == is_secret_item(item@),
{
    gives_secret(is_match(SECRET_NAME, item), &value_of_item(item))
}

/// Whether the mapping entry of `key` and `value` gives a secret a literal
/// value.
fn secret_entry(key: &str, value: &Option<String>) -> (r: bool)
    requires
        is_regex(SECRET_NAME@),
    ensures
        r == is_secret_entry(key@, value.deep_view()),
{
    gives_secret(is_match(SECRET_NAME, key), value)
}

/// Whether `environment` gives a secret a literal value.
fn hardcoded(environment: &Environment) -> (r: bool)
    requires
        is_regex(SECRET_NAME@),
    ensures
        r == has_hardcoded_secret(environment.deep_view()),
{
    match environment {
        Environment::List(items) => {
            let mut i: usize = 0;
            while i < items.len()
                invariant
                    i <= items.len(),
                    is_regex(SECRET_NAME@),
                    environment.deep_view() == EnvironmentView::List(items.deep_view()),
                    forall|j: int| 0 <= j < i ==> !is_secret_item(#[trigger] items.deep_view()[j]),
                decreases items.len() - i,
            {
                assert(items.deep_view()[i as int] == items@[i as int]@);
                if secret_item(items[i].as_str()) {
                    assert(is_secret_item(items.deep_view()[i as int]));
                    assert(any_secret_item(items.deep_view()));
                    return true;
                }
                i += 1;
            }
            false
        },
        Environment::Mapping(entries) => {
            let mut i: usize = 0;
            while i < entries.len()
                invariant
                    i <= entries.len(),
                    is_regex(SECRET_NAME@),
                    environment.deep_view() == EnvironmentView::Mapping(entries.deep_view()),
                    forall|j: int|
                        0 <= j < i ==> !is_secret_entry(
                            (#[trigger] entries.deep_view()[j]).0,
                            entries.deep_view()[j].1,
                        ),
                decreases entries.len() - i,
            {
                assert(entries.deep_view()[i as int] == entries@[i as int].deep_view());
                if secret_entry(entries[i].0.as_str(), &entries[i].1) {
                    assert(is_secret_entry(
                        entries.deep_view()[i as int].0,
                        entries.deep_view()[i as int].1,
                    ));
                    assert(any_secret_entry(entries.deep_view()));
                    return true;
                }
                i += 1;
            }
            false
        },
    }
}

impl ServiceRule for HardcodedSecretsRule {
    open spec fn issues_on(&self, name: Seq<char>, service: ServiceView) -> Seq<IssueView> {
        match service.environment {
            Some(environment) if has_hardcoded_secret(environment) => seq![
                issue_of(
                    self.info(),
                    None,
                    "Service '"@ + name + "' has hardcoded secret in environment"@,
                ),
            ],
            _ => Seq::empty(),
        }
    }

    fn inspect(&self, name: &str, service: &Service) -> (issues: Vec<Issue>) {
        match &service.environment {
            Some(environment) => {
                if hardcoded(environment) {
                    let mut message = "Service '".to_owned();
                    message.append(name);
                    message.append("' has hardcoded secret in environment");
                    one_issue(self, None, message)
                } else {
                    no_issue()
                }
            },
            None => no_issue(),
        }
    }
}

impl ComposeRule for HardcodedSecretsRule {
    open spec fn findings(&self, compose: ComposeFileView) -> Seq<IssueView> {
        issues_over_services(*self, compose.service_list())
    }

    fn check(&self, compose: &ComposeFile) -> (issues: Vec<Issue>) {
        inspect_services(self, compose)
    }
}

} // verus!
