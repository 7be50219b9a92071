use aquila::configuration::action::{ActionConfiguration, ActionServiceConfiguration};
use aquila::configuration::environment::Environment;
use aquila::configuration::mode::Mode;
use aquila::configuration::queue::RedisConfiguration;
use aquila::configuration::state::AppReadiness;
use aquila::rule::RuleType;
use std::str::FromStr;

fn s(text: &str) -> String {
    text.to_string()
}

#[test]
fn environment_is_read_whatever_the_case() {
    assert_eq!(Environment::from_str("staging"), Environment::Staging);
    assert_eq!(Environment::from_str("STAGING"), Environment::Staging);
    assert_eq!(Environment::from_str("Production"), Environment::Production);
    assert_eq!(Environment::from_str("development"), Environment::Development);
    assert_eq!(Environment::from_str("anything"), Environment::Development);
    assert_eq!(Environment::from_str(""), Environment::Development);
    assert_eq!(Environment::from_str(" staging"), Environment::Development);
}

#[test]
fn environment_from_lowercase_is_exact() {
    assert_eq!(Environment::from_lowercase("staging"), Environment::Staging);
    assert_eq!(Environment::from_lowercase("production"), Environment::Production);
    assert_eq!(Environment::from_lowercase("STAGING"), Environment::Development);
}

#[test]
fn mode_is_read_whatever_the_case() {
    assert_eq!(Mode::from_str("static"), Ok(Mode::STATIC));
    assert_eq!(Mode::from_str("STATIC"), Ok(Mode::STATIC));
    assert_eq!(Mode::from_str("Dynamic"), Ok(Mode::DYNAMIC));
    assert_eq!(Mode::from_str("hybrid"), Err(()));
    assert_eq!(Mode::from_str(""), Err(()));
    assert_eq!(Mode::parse("dYnAmIc"), Some(Mode::DYNAMIC));
    assert_eq!(Mode::parse("static "), None);
    assert_eq!(Mode::from_lowercase("static"), Some(Mode::STATIC));
    assert_eq!(Mode::from_lowercase("Static"), None);
    assert!(Mode::STATIC.is_static());
    assert!(!Mode::DYNAMIC.is_static());
    assert!(Mode::STATIC == Mode::STATIC);
    assert!(Mode::STATIC != Mode::DYNAMIC);
}

#[test]
fn allow_list_needs_token_and_name_of_one_entry() {
    let list = || {
        ActionConfiguration::new(vec![
            ActionServiceConfiguration::new(s("T"), s("svcA")),
            ActionServiceConfiguration::new(s("U"), s("svcB")),
        ])
    };
    assert!(list().has_action(s("T"), &s("svcA")));
    assert!(list().has_action(s("U"), &s("svcB")));
    assert!(!list().has_action(s("T"), &s("svcB")));
    assert!(!list().has_action(s("U"), &s("svcA")));
    assert!(!list().has_action(s(""), &s("svcA")));
    assert!(!list().has_action(s("T"), &s("")));
    assert!(!ActionConfiguration::new(vec![]).has_action(s("T"), &s("svcA")));
    assert!(list().is_allowed(&s("T"), &s("svcA")));
    assert!(!list().is_allowed(&s("t"), &s("svcA")));
    let entry = ActionServiceConfiguration::new(s("T"), s("svcA"));
    assert_eq!(entry.token(), "T");
    assert_eq!(entry.service_name(), "svcA");
}

#[test]
fn queue_configuration_keeps_its_values() {
    let configuration = RedisConfiguration::new(s("localhost"), 5552, s("guest"), s("secret"));
    assert_eq!(configuration.host(), "localhost");
    assert_eq!(configuration.port(), 5552);
    assert_eq!(configuration.username(), "guest");
    assert_eq!(configuration.password(), "secret");
}

#[test]
fn readiness_starts_not_ready() {
    assert!(!AppReadiness::new().is_ready());
    assert!(!AppReadiness::default().is_ready());
}

#[test]
fn rule_kinds_go_by_their_wire_names() {
    assert_eq!(RuleType::Regex.as_str_name(), "REGEX");
    assert_eq!(RuleType::NumberRange.as_str_name(), "NUMBER_RANGE");
    assert_eq!(RuleType::ItemOfCollection.as_str_name(), "ITEM_OF_COLLECTION");
    assert_eq!(RuleType::from_str_name("REGEX"), Some(RuleType::Regex));
    assert_eq!(RuleType::from_str_name("NUMBER_RANGE"), Some(RuleType::NumberRange));
    assert_eq!(RuleType::from_str_name("ITEM_OF_COLLECTION"), Some(RuleType::ItemOfCollection));
    assert_eq!(RuleType::from_str_name("regex"), None);
    assert_eq!(RuleType::from_str_name(""), None);
    for kind in [RuleType::Regex, RuleType::NumberRange, RuleType::ItemOfCollection] {
        assert_eq!(RuleType::from_str_name(kind.as_str_name()), Some(kind));
    }
}
