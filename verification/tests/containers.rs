use democracy::catalog::Catalog;
use democracy::registry::Registry;

fn s(text: &str) -> String {
    text.to_string()
}

#[test]
fn registry_records_one_value_per_name() {
    let mut registry: Registry<bool> = Registry::new();
    assert_eq!(registry.len(), 0);
    assert_eq!(registry.insert(&s("7"), true), None);
    assert_eq!(registry.insert(&s("8"), false), None);
    assert_eq!(registry.len(), 2);
    assert_eq!(registry.get(&s("7")), Some(true));
    assert_eq!(registry.get(&s("8")), Some(false));
    assert_eq!(registry.get(&s("9")), None);
    assert_eq!(registry.insert(&s("7"), false), Some(true));
    assert_eq!(registry.len(), 2);
    assert_eq!(registry.get(&s("7")), Some(false));
    assert!(registry.contains_key(&s("8")));
    assert!(!registry.contains_key(&s("")));
}

#[test]
fn registry_forgets_names() {
    let mut registry: Registry<u8> = Registry::new();
    registry.insert(&s("a"), 1);
    registry.insert(&s("b"), 2);
    registry.insert(&s("c"), 3);
    assert_eq!(registry.remove(&s("b")), Some(2));
    assert_eq!(registry.remove(&s("b")), None);
    assert_eq!(registry.len(), 2);
    assert_eq!(registry.get(&s("a")), Some(1));
    assert_eq!(registry.get(&s("c")), Some(3));
    registry.clear();
    assert_eq!(registry.len(), 0);
    assert_eq!(registry.get(&s("a")), None);
}

#[test]
fn catalog_knows_categories_and_values() {
    let mut catalog = Catalog::new();
    assert!(!catalog.contains_key(&s("map")));
    catalog.insert(&s("map"), &s("mb2_dotf"));
    catalog.insert(&s("map"), &s("mb2_smuggler"));
    catalog.insert(&s("mode"), &s("0"));
    assert!(catalog.contains_key(&s("map")));
    assert!(catalog.contains_key(&s("mode")));
    assert!(!catalog.contains_key(&s("kick")));
    assert!(catalog.contains(&s("map"), &s("mb2_dotf")));
    assert!(catalog.contains(&s("map"), &s("mb2_smuggler")));
    assert!(catalog.contains(&s("mode"), &s("0")));
    assert!(!catalog.contains(&s("mode"), &s("mb2_dotf")));
    assert!(!catalog.contains(&s("map"), &s("0")));
    assert!(!catalog.contains(&s("kick"), &s("0")));
}

#[test]
fn catalog_category_may_allow_nothing() {
    let mut catalog = Catalog::new();
    catalog.add_category(&s("map"));
    assert!(catalog.contains_key(&s("map")));
    assert!(!catalog.contains(&s("map"), &s("")));
    catalog.insert(&s("map"), &s("x"));
    catalog.add_category(&s("map"));
    assert!(catalog.contains(&s("map"), &s("x")));
}
