use tinyruntime::config::{ModuleConfig, ProviderRoute, WireConfig};
use tinyruntime::language::Language;
use tinyruntime::names::{NODEJS_PROVIDER, PYTHON_PROVIDER};

fn routes(config: &ModuleConfig) -> Vec<(String, String)> {
    config
        .providers
        .iter()
        .map(|route| (route.language.to_string(), route.bus_name.clone()))
        .collect()
}

fn first_party() -> Vec<(String, String)> {
    vec![
        ("nodejs".to_string(), NODEJS_PROVIDER.to_string()),
        ("python".to_string(), PYTHON_PROVIDER.to_string()),
    ]
}

#[test]
fn null_config_decodes() {
    let config = ModuleConfig::from_document(None);
    assert_eq!(routes(&config), first_party());
    assert!(config.harness_dir.is_empty());
}

#[test]
fn an_empty_document_decodes_like_null() {
    let empty = ModuleConfig::from_document(Some(WireConfig { providers: None, harness_dir: None }));
    let null = ModuleConfig::from_document(None);
    assert_eq!(routes(&empty), routes(&null));
    assert_eq!(empty.harness_dir, null.harness_dir);
}

#[test]
fn the_default_routes_the_first_party_providers() {
    let config = ModuleConfig::default();
    assert_eq!(routes(&config), first_party());
    assert_eq!(NODEJS_PROVIDER, "ai.tinyhumans.runtime.nodejs.Provider");
    assert_eq!(PYTHON_PROVIDER, "ai.tinyhumans.runtime.python.Provider");
}

#[test]
fn given_fields_are_taken_as_given() {
    let config = ModuleConfig::from_document(Some(WireConfig {
        providers: Some(vec![ProviderRoute::new(Language::new("Ruby"), "ai.example.Ruby")]),
        harness_dir: Some("/srv/harnesses".to_string()),
    }));
    assert_eq!(routes(&config), vec![("ruby".to_string(), "ai.example.Ruby".to_string())]);
    assert_eq!(config.harness_dir, "/srv/harnesses");

    let nothing_routed = ModuleConfig::from_document(Some(WireConfig {
        providers: Some(Vec::new()),
        harness_dir: None,
    }));
    assert!(nothing_routed.providers.is_empty());
}

#[test]
fn a_configured_harness_directory_is_used_trimmed() {
    let config = ModuleConfig {
        harness_dir: "  /srv/harnesses \n".to_string(),
        ..ModuleConfig::default()
    };
    assert_eq!(config.harness_root_in(Some("/home/u/.cache".to_string())), "/srv/harnesses");
    assert_eq!(config.harness_root(), "/srv/harnesses");
}

#[test]
fn harnesses_default_to_a_directory_under_the_cache() {
    let config = ModuleConfig::default();
    assert_eq!(
        config.harness_root_in(Some("/home/u/.cache".to_string())),
        "/home/u/.cache/tinyruntime/harnesses"
    );
    assert_eq!(
        config.harness_root_in(Some("/home/u/.cache/".to_string())),
        "/home/u/.cache/tinyruntime/harnesses"
    );
    assert_eq!(config.harness_root_in(None), "./tinyruntime/harnesses");
    let blank = ModuleConfig { harness_dir: "   ".to_string(), ..ModuleConfig::default() };
    assert_eq!(blank.harness_root_in(None), "./tinyruntime/harnesses");
}

#[test]
fn the_platform_harness_root_ends_in_the_harness_directory() {
    let root = ModuleConfig::default().harness_root();
    assert!(root.ends_with("/tinyruntime/harnesses"), "got `{root}`");
    assert_ne!(root, "tinyruntime/harnesses");
}

#[test]
fn routes_compare_by_normalised_language_and_bus_name() {
    assert_eq!(
        ProviderRoute::new(Language::new("NodeJS"), "ai.example.Node"),
        ProviderRoute::new(Language::nodejs(), "ai.example.Node")
    );
    assert_ne!(
        ProviderRoute::new(Language::nodejs(), "ai.example.Node"),
        ProviderRoute::new(Language::nodejs(), "ai.example.Other")
    );
}
