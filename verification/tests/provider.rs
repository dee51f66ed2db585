use std::sync::Arc;

use tinyruntime::error::Error;
use tinyruntime::language::Language;
use tinyruntime::provider::{
    CONTRACT_VERSION, ProviderDescriptor, Registry, status_of, verify_contract,
};

/// A provider handle that only records which language it answers for.
#[derive(Debug, PartialEq)]
struct StubProvider {
    language: Language,
}

impl StubProvider {
    fn new(language: Language) -> Self {
        Self { language }
    }
}

fn registry_with_node() -> Registry<Arc<StubProvider>> {
    let mut registry = Registry::new();
    registry.register(
        &Language::nodejs(),
        "ai.tinyhumans.runtime.nodejs.Provider",
        Arc::new(StubProvider::new(Language::nodejs())),
    );
    registry
}

#[test]
fn an_empty_registry_routes_nothing() {
    let registry: Registry<Arc<StubProvider>> = Registry::new();
    assert!(registry.is_empty());
    assert!(matches!(
        registry.provider(&Language::nodejs()),
        Err(Error::UnknownLanguage(_))
    ));
}

#[test]
fn a_registered_language_routes_to_its_provider() {
    let registry = registry_with_node();
    assert_eq!(registry.len(), 1);
    assert!(registry.provider(&Language::nodejs()).is_ok());
}

#[test]
fn lookup_normalises_the_language_the_caller_spelled() {
    let registry = registry_with_node();
    assert!(registry.provider(&Language::new("NodeJS")).is_ok());
}

#[test]
fn a_request_naming_no_language_is_refused_rather_than_defaulted() {
    let registry = registry_with_node();
    assert!(matches!(
        registry.provider(&Language::new("  ")),
        Err(Error::LanguageMissing)
    ));
}

#[test]
fn re_registering_a_language_replaces_its_route_without_duplicating_it() {
    let mut registry = registry_with_node();
    registry.register(
        &Language::nodejs(),
        "ai.tinyhumans.runtime.nodejs.Override",
        Arc::new(StubProvider::new(Language::nodejs())),
    );
    assert_eq!(registry.len(), 1, "the language was listed twice");
    assert_eq!(registry.languages(), vec![Language::nodejs()]);
}

#[test]
fn registration_order_is_the_order_languages_are_reported_in() {
    let mut registry = registry_with_node();
    registry.register(
        &Language::python(),
        "ai.tinyhumans.runtime.python.Provider",
        Arc::new(StubProvider::new(Language::python())),
    );
    assert_eq!(
        registry.languages(),
        vec![Language::nodejs(), Language::python()]
    );
}

#[test]
fn the_contract_gate_accepts_this_build_and_refuses_another_major() {
    let language = Language::nodejs();
    let current = ProviderDescriptor::new(language.clone(), "Stub", "1.0.0");
    assert!(verify_contract(&language, &current).is_ok());

    let (major, minor) = CONTRACT_VERSION;
    let mut future = current;
    future.contract_version = (major + 1, minor);
    assert!(matches!(
        verify_contract(&language, &future),
        Err(Error::ProviderContract { .. })
    ));
}

#[test]
fn a_lookup_after_registering_answers_with_what_was_registered() {
    let mut registry = registry_with_node();
    let replacement = Arc::new(StubProvider::new(Language::python()));
    registry.register(&Language::new("NODEJS"), "elsewhere", Arc::clone(&replacement));
    let found = registry.provider(&Language::nodejs()).unwrap();
    assert!(Arc::ptr_eq(found, &replacement));
}

#[test]
fn re_registering_keeps_a_language_where_it_first_stood() {
    let mut registry = registry_with_node();
    registry.register(&Language::python(), "py", Arc::new(StubProvider::new(Language::python())));
    registry.register(&Language::nodejs(), "again", Arc::new(StubProvider::new(Language::nodejs())));
    assert_eq!(registry.languages(), vec![Language::nodejs(), Language::python()]);
    assert_eq!(registry.len(), 2);
}

#[test]
fn registering_one_language_leaves_the_others_alone() {
    let mut registry = registry_with_node();
    let node = Arc::clone(registry.provider(&Language::nodejs()).unwrap());
    registry.register(&Language::python(), "py", Arc::new(StubProvider::new(Language::python())));
    assert!(Arc::ptr_eq(registry.provider(&Language::nodejs()).unwrap(), &node));
}

#[test]
fn an_unknown_language_is_reported_by_name() {
    let registry = registry_with_node();
    match registry.provider(&Language::new(" Ruby ")) {
        Err(Error::UnknownLanguage(language)) => assert_eq!(language.as_str(), "ruby"),
        other => panic!("got {other:?}"),
    }
}

#[test]
fn a_contract_differing_only_in_minor_version_is_accepted() {
    let language = Language::python();
    let mut descriptor = ProviderDescriptor::new(language.clone(), "Stub", "2.0.0");
    let (major, minor) = CONTRACT_VERSION;
    descriptor.contract_version = (major, minor + 7);
    assert!(verify_contract(&language, &descriptor).is_ok());
    assert_eq!(descriptor.display_name, "Stub");
}

#[test]
fn a_refused_contract_reports_both_versions() {
    let language = Language::python();
    let mut descriptor = ProviderDescriptor::new(language.clone(), "Stub", "2.0.0");
    descriptor.contract_version = (CONTRACT_VERSION.0 + 2, 3);
    match verify_contract(&language, &descriptor) {
        Err(Error::ProviderContract { language: l, expected, found }) => {
            assert_eq!(l, Language::python());
            assert_eq!(expected, CONTRACT_VERSION);
            assert_eq!(found, (CONTRACT_VERSION.0 + 2, 3));
        }
        other => panic!("got {other:?}"),
    }
}

#[test]
fn a_serving_provider_is_a_listed_available_row() {
    let row = status_of(
        &Language::nodejs(),
        Ok(ProviderDescriptor::new(Language::nodejs(), "Stub", "1.0.0")),
    );
    assert_eq!(row.language, Language::nodejs());
    assert!(row.available);
    assert_eq!(row.display_name.as_deref(), Some("Stub"));
    assert!(row.detail.is_none());
}

#[test]
fn a_provider_that_is_down_is_a_row_with_its_reason() {
    let row = status_of(&Language::python(), Err("provider module not loaded".to_string()));
    assert!(!row.available);
    assert!(row.display_name.is_none());
    assert!(row.detail.as_deref().unwrap_or_default().contains("not loaded"));
}

#[test]
fn a_provider_on_a_future_contract_is_a_row_naming_the_contract() {
    let (major, minor) = CONTRACT_VERSION;
    let mut descriptor = ProviderDescriptor::new(Language::python(), "Stub", "1.0.0");
    descriptor.contract_version = (major + 1, minor);
    let row = status_of(&Language::python(), Ok(descriptor));
    assert!(!row.available);
    let detail = row.detail.unwrap_or_default();
    assert!(detail.contains("contract"), "got {detail:?}");
    assert_eq!(
        detail,
        format!("provider speaks contract {}.{}, this router speaks {}.{}", major + 1, minor, major, minor)
    );
}

#[test]
fn the_listing_has_one_row_per_language_in_registration_order() {
    let mut registry = registry_with_node();
    registry.register(
        &Language::python(),
        "ai.tinyhumans.runtime.python.Provider",
        Arc::new(StubProvider::new(Language::python())),
    );
    let rows = registry.statuses_of(&vec![
        Ok(ProviderDescriptor::new(Language::nodejs(), "Stub", "1.0.0")),
        Err("provider module not loaded".to_string()),
    ]);
    assert_eq!(rows.len(), 2);
    assert_eq!(rows[0].language, Language::nodejs());
    assert!(rows[0].available, "the working language was hidden");
    assert_eq!(rows[0].display_name.as_deref(), Some("Stub"));
    assert_eq!(rows[1].language, Language::python());
    assert!(!rows[1].available);
    assert!(rows[1].detail.as_deref().unwrap_or_default().contains("not loaded"));
}

#[test]
fn an_empty_registry_lists_nothing() {
    let registry: Registry<Arc<StubProvider>> = Registry::new();
    assert!(registry.statuses_of(&Vec::new()).is_empty());
}
