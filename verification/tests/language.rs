use tinyruntime::language::{Language, NODEJS_ID as NODEJS, PYTHON_ID as PYTHON};

#[test]
fn normalises_case_and_surrounding_whitespace() {
    assert_eq!(Language::new("  NodeJS \n").as_str(), NODEJS);
    assert_eq!(Language::new("PYTHON").as_str(), PYTHON);
}

#[test]
fn constructors_match_the_published_identifiers() {
    assert_eq!(Language::nodejs().as_str(), NODEJS);
    assert_eq!(Language::python().as_str(), PYTHON);
}

#[test]
fn an_absent_language_is_empty_rather_than_defaulted() {
    assert!(Language::new("   ").is_empty());
    assert!(!Language::nodejs().is_empty());
}

#[test]
fn displays_as_its_identifier() {
    assert_eq!(Language::nodejs().to_string(), "nodejs");
}

#[test]
fn normalising_twice_changes_nothing() {
    let once = Language::new("\t Py Thon\u{3000}");
    assert_eq!(once.as_str(), "py thon");
    assert_eq!(Language::new(once.as_str()), once);
}

#[test]
fn spellings_differing_in_case_name_one_language() {
    assert_eq!(Language::new("NoDeJs"), Language::new("nodejs"));
    assert_ne!(Language::new("node.js"), Language::nodejs());
}

#[test]
fn unicode_whitespace_is_trimmed_but_inner_text_and_non_ascii_case_are_kept() {
    assert_eq!(
        Language::new("\u{00A0}\u{2003}Ünïcode Rust\u{2029}\u{85}").as_str(),
        "Ünïcode rust"
    );
    assert_eq!(Language::new("").as_str(), "");
}

#[test]
fn a_cloned_language_equals_its_source() {
    let language = Language::new(" Ruby ");
    assert_eq!(language.clone(), language);
    assert_eq!(language.clone().as_str(), "ruby");
}

#[test]
fn a_language_converts_from_text_normalised() {
    assert_eq!(Language::from("  NodeJS "), Language::nodejs());
    assert_eq!(Language::from(String::from("PYTHON\t")), Language::python());
    let converted: Language = "Ruby".into();
    assert_eq!(converted.as_str(), "ruby");
}

#[test]
fn languages_order_by_their_identifier() {
    assert!(Language::nodejs() < Language::python());
    assert_eq!(Language::new("B").cmp(&Language::new("a")), std::cmp::Ordering::Greater);
    let mut languages = vec![Language::python(), Language::new("go"), Language::nodejs()];
    languages.sort();
    assert_eq!(languages, vec![Language::new("go"), Language::nodejs(), Language::python()]);
}
