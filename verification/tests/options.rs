use promptpuppet::options::{
    contains_text, default_include_prompt, OptionCategory, OptionValue, OptionsData,
    OptionsLibrary, VisibilityRule,
};

fn category(id: &str, default: &str, visibility: Option<VisibilityRule>) -> OptionCategory {
    OptionCategory {
        id: id.to_string(),
        label: id.to_string(),
        options: vec![
            OptionValue { value: "f".to_string(), display: "Female".to_string() },
            OptionValue { value: "m".to_string(), display: "Male".to_string() },
            OptionValue { value: "f".to_string(), display: "Second".to_string() },
        ],
        allow_custom: false,
        default: default.to_string(),
        is_text_field: false,
        group: None,
        has_search: None,
        visibility,
    }
}

fn rule(condition: &str, field: &str, value: Option<&str>, values: &[&str]) -> VisibilityRule {
    VisibilityRule {
        condition: condition.to_string(),
        field: field.to_string(),
        value: value.map(|v| v.to_string()),
        values: values.iter().map(|v| v.to_string()).collect(),
    }
}

#[test]
fn default_policy_is_always() {
    assert_eq!(default_include_prompt(), "always");
}

#[test]
fn display_text_of_first_matching_option() {
    let c = category("gender", "f", None);
    assert_eq!(c.get_display_text("f"), "Female");
    assert_eq!(c.get_display_text("m"), "Male");
    assert_eq!(c.get_display_text("other"), "other");
    assert_eq!(c.get_display_text(""), "");
}

#[test]
fn from_library_takes_the_defaults() {
    let lib = OptionsLibrary {
        categories: vec![
            category("gender", "f", None),
            category("age", "adult", None),
            category("gender", "m", None),
        ],
        include_prompt: "always".to_string(),
    };
    let data = OptionsData::from_library(&lib);
    assert_eq!(data.get("gender"), "m");
    assert_eq!(data.get("age"), "adult");
    assert_eq!(data.get("height"), "");
    assert_eq!(data.values.len(), 2);
}

#[test]
fn get_mut_changes_a_value_in_place() {
    let lib = OptionsLibrary {
        categories: vec![category("gender", "f", None)],
        include_prompt: "always".to_string(),
    };
    let mut data = OptionsData::from_library(&lib);
    *data.get_mut("gender").unwrap() = "m".to_string();
    assert_eq!(data.get("gender"), "m");
    assert!(data.get_mut("age").is_none());
}

#[test]
fn a_category_without_a_rule_is_shown() {
    let data = OptionsData::new();
    assert!(category("x", "", None).should_show(&data));
}

#[test]
fn field_equals_shows_on_a_match() {
    let lib = OptionsLibrary {
        categories: vec![category("gender", "f", None)],
        include_prompt: "always".to_string(),
    };
    let data = OptionsData::from_library(&lib);
    let shown = category("beard", "", Some(rule("field_equals", "gender", Some("f"), &[])));
    let hidden = category("beard", "", Some(rule("field_equals", "gender", Some("m"), &[])));
    let no_value = category("beard", "", Some(rule("field_equals", "gender", None, &[])));
    assert!(shown.should_show(&data));
    assert!(!hidden.should_show(&data));
    assert!(no_value.should_show(&data));
}

#[test]
fn field_in_and_field_not_equals() {
    let lib = OptionsLibrary {
        categories: vec![category("gender", "f", None)],
        include_prompt: "always".to_string(),
    };
    let data = OptionsData::from_library(&lib);
    assert!(category("a", "", Some(rule("field_in", "gender", None, &["m", "f"]))).should_show(&data));
    assert!(!category("a", "", Some(rule("field_in", "gender", None, &["m"]))).should_show(&data));
    assert!(!category("a", "", Some(rule("field_in", "gender", None, &[]))).should_show(&data));
    assert!(category("a", "", Some(rule("field_not_equals", "gender", Some("m"), &[]))).should_show(&data));
    assert!(!category("a", "", Some(rule("field_not_equals", "gender", Some("f"), &[]))).should_show(&data));
    // a field that holds nothing reads as the empty text
    assert!(category("a", "", Some(rule("field_equals", "missing", Some(""), &[]))).should_show(&data));
    // a condition that is not known hides nothing
    assert!(category("a", "", Some(rule("field_matches", "gender", Some("m"), &[]))).should_show(&data));
}

#[test]
fn contains_text_looks_through_a_list() {
    let list = vec!["a".to_string(), "b".to_string()];
    assert!(contains_text(&list, "b"));
    assert!(!contains_text(&list, "c"));
}
