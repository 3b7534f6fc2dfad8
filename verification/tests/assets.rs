use promptpuppet::assets::{asset, asset_file_name, parse_error_message, Asset};
use promptpuppet::library::{ComponentConfig, PanelConfig, UiConfig};
use promptpuppet::presets::load_plan;

fn all_assets() -> Vec<Asset> {
    vec![
        Asset::UiConfig,
        Asset::CharacterAttributes,
        Asset::Clothing,
        Asset::Styles,
        Asset::Motion,
        Asset::Global,
        Asset::Poses,
        Asset::Expressions,
        Asset::Environments,
        Asset::Skeleton,
    ]
}

#[test]
fn the_ten_names_resolve() {
    let names = [
        "ui_config.json",
        "character_attributes.json",
        "clothing.json",
        "styles.json",
        "motion.json",
        "global.json",
        "poses.json",
        "expressions.json",
        "environments.json",
        "skeleton.json",
    ];
    let assets = all_assets();
    for (i, name) in names.iter().enumerate() {
        assert_eq!(asset(name), Ok(assets[i]));
        assert_eq!(asset_file_name(assets[i]), *name);
    }
}

#[test]
fn another_name_is_not_registered() {
    let e = asset("hair.json").unwrap_err();
    assert_eq!(e, "Asset 'hair.json' not registered. Add it to the embedding table.");
    assert!(asset("").is_err());
    assert!(asset("poses").is_err());
    assert!(asset("Poses.json").is_err());
}

#[test]
fn parse_error_names_the_file() {
    assert_eq!(
        parse_error_message("poses.json", "expected value at line 1 column 1"),
        "Parse error in poses.json: expected value at line 1 column 1"
    );
}

fn panel(kind: &str, source: &str, components: Vec<ComponentConfig>) -> PanelConfig {
    PanelConfig {
        title: source.to_string(),
        panel_type: kind.to_string(),
        data_source: source.to_string(),
        default_open: true,
        components,
    }
}

#[test]
fn every_source_of_a_panel_tree_resolves() {
    let config = UiConfig {
        panels: vec![
            panel("options_grid", "character_attributes.json", vec![]),
            panel("preset_selector", "poses.json", vec![]),
            panel("preset_selector", "expressions.json", vec![]),
            panel(
                "composite",
                "",
                vec![
                    ComponentConfig {
                        label: "Clothing".to_string(),
                        component_type: "searchable_dropdown".to_string(),
                        data_source: "clothing.json".to_string(),
                    },
                    ComponentConfig {
                        label: "Environment".to_string(),
                        component_type: "dropdown".to_string(),
                        data_source: "environments.json".to_string(),
                    },
                ],
            ),
            panel("preset_selector", "styles.json", vec![]),
            panel("controls", "motion.json", vec![]),
            panel("controls", "global.json", vec![]),
        ],
    };
    let plan = load_plan(&config);
    assert!(!plan.is_empty());
    for request in &plan {
        assert!(asset(&request.source).is_ok(), "{} does not resolve", request.source);
    }
}
