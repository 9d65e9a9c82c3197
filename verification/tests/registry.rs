use tera_text_filters::{register_all, CaseStyle, Registry};

fn sorted_filters(registry: &Registry) -> Vec<(String, CaseStyle)> {
    let mut filters = registry.filters();
    filters.sort_by(|a, b| a.0.cmp(&b.0));
    filters
}

#[test]
fn a_new_registry_is_empty() {
    let registry = Registry::new();
    assert!(registry.filters().is_empty());
    assert_eq!(registry.get("camel_case"), None);
}

#[test]
fn register_all_registers_the_seven_names() {
    let mut registry = Registry::new();
    register_all(&mut registry);
    assert_eq!(registry.get("camel_case"), Some(CaseStyle::Camel));
    assert_eq!(registry.get("kebab_case"), Some(CaseStyle::Kebab));
    assert_eq!(registry.get("lower_case"), Some(CaseStyle::Lower));
    assert_eq!(registry.get("mixed_case"), Some(CaseStyle::Mixed));
    assert_eq!(registry.get("snake_case"), Some(CaseStyle::Snake));
    assert_eq!(registry.get("title_case"), Some(CaseStyle::Title));
    assert_eq!(registry.get("upper_case"), Some(CaseStyle::Upper));
    assert_eq!(
        sorted_filters(&registry),
        vec![
            ("camel_case".to_string(), CaseStyle::Camel),
            ("kebab_case".to_string(), CaseStyle::Kebab),
            ("lower_case".to_string(), CaseStyle::Lower),
            ("mixed_case".to_string(), CaseStyle::Mixed),
            ("snake_case".to_string(), CaseStyle::Snake),
            ("title_case".to_string(), CaseStyle::Title),
            ("upper_case".to_string(), CaseStyle::Upper),
        ]
    );
}

#[test]
fn register_all_registers_nothing_else() {
    let mut registry = Registry::new();
    register_all(&mut registry);
    assert_eq!(registry.get("shouty_case"), None);
    assert_eq!(registry.get("camel"), None);
    assert_eq!(registry.get("Camel_Case"), None);
    assert_eq!(registry.get(""), None);
}

#[test]
fn register_all_twice_changes_nothing() {
    let mut registry = Registry::new();
    register_all(&mut registry);
    let once = sorted_filters(&registry);
    register_all(&mut registry);
    assert_eq!(sorted_filters(&registry), once);
    assert_eq!(once.len(), 7);
}

#[test]
fn register_all_keeps_other_filters_and_replaces_its_own() {
    let mut registry = Registry::new();
    registry.register_filter("shout", CaseStyle::Upper);
    registry.register_filter("camel_case", CaseStyle::Snake);
    register_all(&mut registry);
    assert_eq!(registry.get("shout"), Some(CaseStyle::Upper));
    assert_eq!(registry.get("camel_case"), Some(CaseStyle::Camel));
    assert_eq!(registry.filters().len(), 8);
}

#[test]
fn registering_under_a_taken_name_replaces() {
    let mut registry = Registry::new();
    registry.register_filter("case", CaseStyle::Lower);
    registry.register_filter("other", CaseStyle::Title);
    registry.register_filter("case", CaseStyle::Upper);
    assert_eq!(registry.get("case"), Some(CaseStyle::Upper));
    assert_eq!(registry.get("other"), Some(CaseStyle::Title));
    assert_eq!(
        sorted_filters(&registry),
        vec![("case".to_string(), CaseStyle::Upper), ("other".to_string(), CaseStyle::Title)]
    );
}

#[test]
fn every_style_has_its_name() {
    assert_eq!(CaseStyle::Camel.name(), "camel_case");
    assert_eq!(CaseStyle::Kebab.name(), "kebab_case");
    assert_eq!(CaseStyle::Lower.name(), "lower_case");
    assert_eq!(CaseStyle::Mixed.name(), "mixed_case");
    assert_eq!(CaseStyle::Snake.name(), "snake_case");
    assert_eq!(CaseStyle::Title.name(), "title_case");
    assert_eq!(CaseStyle::Upper.name(), "upper_case");
}

#[test]
fn all_lists_the_seven_styles_once() {
    let styles = CaseStyle::all();
    assert_eq!(
        styles,
        vec![
            CaseStyle::Camel,
            CaseStyle::Kebab,
            CaseStyle::Lower,
            CaseStyle::Mixed,
            CaseStyle::Snake,
            CaseStyle::Title,
            CaseStyle::Upper,
        ]
    );
    let mut registry = Registry::new();
    for style in styles {
        registry.register_filter(style.name(), style);
    }
    let mut standard = Registry::new();
    register_all(&mut standard);
    assert_eq!(sorted_filters(&registry), sorted_filters(&standard));
}
