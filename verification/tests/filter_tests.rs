use legendary_software::package::Package;
use legendary_software::search::{contains_str, filter_catalog};

fn pkg(name: &str, description: &str) -> Package {
    Package {
        name: name.to_string(),
        description: description.to_string(),
        icon: "https://example.invalid/icon.png".to_string(),
        install_command: "apt install x".to_string(),
        remove_command: "apt remove x".to_string(),
        update_command: "apt upgrade x".to_string(),
        check_command: "dpkg -s x".to_string(),
    }
}

fn names(catalog: &[Package]) -> Vec<String> {
    catalog.iter().map(|p| p.name.clone()).collect()
}

#[test]
fn empty_query_returns_catalog_unchanged() {
    let catalog = vec![pkg("Foo", "a tool"), pkg("Bar", "another tool"), pkg("Baz", "a third")];
    let filtered = filter_catalog(&catalog, "");
    assert_eq!(names(&filtered), vec!["Foo", "Bar", "Baz"]);
}

#[test]
fn scenario_query_fo_keeps_only_foo() {
    let catalog = vec![pkg("Foo", "first"), pkg("Bar", "second")];
    let filtered = filter_catalog(&catalog, "fo");
    assert_eq!(names(&filtered), vec!["Foo"]);
}

#[test]
fn match_is_case_insensitive_both_ways() {
    let catalog = vec![pkg("Bar", "second"), pkg("quux", "third")];
    let filtered = filter_catalog(&catalog, "bAr");
    assert_eq!(names(&filtered), vec!["Bar"]);
    let filtered = filter_catalog(&catalog, "QUUX");
    assert_eq!(names(&filtered), vec!["quux"]);
}

#[test]
fn description_is_searched_too() {
    let catalog = vec![pkg("Foo", "an Editor"), pkg("Bar", "a shell")];
    let filtered = filter_catalog(&catalog, "editor");
    assert_eq!(names(&filtered), vec!["Foo"]);
}

#[test]
fn no_match_gives_empty_view() {
    let catalog = vec![pkg("Foo", "first"), pkg("Bar", "second")];
    let filtered = filter_catalog(&catalog, "zzz");
    assert!(filtered.is_empty());
}

#[test]
fn order_and_duplicates_are_preserved() {
    let catalog = vec![pkg("Foo", "one"), pkg("Bar", "two"), pkg("Foo", "three")];
    let filtered = filter_catalog(&catalog, "foo");
    assert_eq!(names(&filtered), vec!["Foo", "Foo"]);
    assert_eq!(filtered[0].description, "one");
    assert_eq!(filtered[1].description, "three");
}

#[test]
fn filter_is_idempotent_on_concrete_catalog() {
    let catalog = vec![pkg("Foo", "one"), pkg("Bar", "two"), pkg("foobar", "three")];
    let once = filter_catalog(&catalog, "foo");
    let twice = filter_catalog(&once, "foo");
    assert_eq!(names(&once), vec!["Foo", "foobar"]);
    assert_eq!(names(&twice), names(&once));
}

#[test]
fn contains_str_plain_cases() {
    assert!(contains_str("hello world", "o w"));
    assert!(contains_str("hello world", ""));
    assert!(contains_str("abc", "abc"));
    assert!(!contains_str("abc", "abcd"));
    assert!(!contains_str("abc", "z"));
}
