use bind_this::config::{normalize_config, Config};
use bind_this::scope::BindThisVisit;

fn fresh() -> BindThisVisit {
    BindThisVisit::new(Config { ignoreMap: Vec::new(), needCollect: false })
}

#[test]
fn shadow_counts_are_reference_counted() {
    let mut v = fresh();
    let item = "item".to_string();
    assert!(!v.has_binding(&item));
    v.add_scope(&item);
    assert!(v.has_binding(&item));
    v.add_scope(&item);
    v.remove_scope(&item);
    assert!(v.has_binding(&item));
    v.remove_scope(&item);
    assert!(!v.has_binding(&item));
}

#[test]
fn removing_an_absent_name_is_a_no_op() {
    let mut v = fresh();
    let ghostly = "nothing".to_string();
    v.remove_scope(&ghostly);
    assert!(!v.has_binding(&ghostly));
}

#[test]
fn distinct_names_are_counted_apart() {
    let mut v = fresh();
    let a = "a".to_string();
    let b = "b".to_string();
    v.add_scope(&a);
    assert!(v.has_binding(&a));
    assert!(!v.has_binding(&b));
    v.add_scope(&b);
    v.remove_scope(&a);
    assert!(!v.has_binding(&a));
    assert!(v.has_binding(&b));
}

#[test]
fn built_in_set_is_ignored() {
    let config = Config { ignoreMap: Vec::new(), needCollect: false };
    for name in [
        "Infinity", "undefined", "NaN", "isFinite", "isNaN", "parseFloat", "parseInt",
        "decodeURI", "decodeURIComponent", "encodeURI", "encodeURIComponent", "Math", "Number",
        "Date", "Array", "Object", "Boolean", "String", "RegExp", "Map", "Set", "JSON", "Intl",
        "require", "global",
    ] {
        assert!(config.check_ignore(&name.to_string()), "{} should be ignored", name);
    }
    assert!(!config.check_ignore(&"count".to_string()));
    assert!(!config.check_ignore(&"math".to_string()));
}

#[test]
fn caller_map_extends_the_built_in_set() {
    let config = Config { ignoreMap: vec!["custom".to_string()], needCollect: false };
    assert!(config.check_ignore(&"custom".to_string()));
    assert!(config.check_ignore(&"Math".to_string()));
    assert!(!config.check_ignore(&"other".to_string()));
}

#[test]
fn absent_config_normalizes_to_empty() {
    let c = normalize_config(None);
    assert_eq!(c.ignoreMap.len(), 0);
    assert!(!c.needCollect);
}

#[test]
fn given_config_normalizes_to_itself() {
    let c = normalize_config(Some(Config { ignoreMap: vec!["x".to_string()], needCollect: true }));
    assert_eq!(c.ignoreMap, vec!["x".to_string()]);
    assert!(c.needCollect);
}
