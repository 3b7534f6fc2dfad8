use promptpuppet::dict::Dict;
use promptpuppet::json::{Number, Scalar};
use promptpuppet::library::{
    ComponentConfig, PanelConfig, SettingEntry, SettingsLibrary, UiConfig,
};
use promptpuppet::options::{OptionCategory, OptionsData, OptionsLibrary, VisibilityRule};
use promptpuppet::prompt::{ordered_values, text_less, PromptGenerator};
use promptpuppet::state::{AppState, PresetItem, PresetMetadata, SelectionState, Settings};

type Pose = u32;

fn cat(id: &str, default: &str, group: Option<&str>) -> OptionCategory {
    OptionCategory {
        id: id.to_string(),
        label: id.to_string(),
        options: vec![],
        allow_custom: false,
        default: default.to_string(),
        is_text_field: false,
        group: group.map(|g| g.to_string()),
        has_search: None,
        visibility: None,
    }
}

fn panel(kind: &str, source: &str) -> PanelConfig {
    PanelConfig {
        title: source.to_string(),
        panel_type: kind.to_string(),
        data_source: source.to_string(),
        default_open: true,
        components: vec![],
    }
}

fn preset(id: &str, prompt: Option<&str>) -> PresetItem<Pose> {
    PresetItem {
        id: id.to_string(),
        name: id.to_string(),
        description: String::new(),
        tags: vec![],
        pose_data: None,
        prompt: prompt.map(|p| p.to_string()),
        allow_custom: false,
    }
}

fn meta(policy: &str) -> PresetMetadata {
    PresetMetadata {
        has_search: None,
        multiple_selection: None,
        use_grid: None,
        allow_custom: None,
        include_prompt: policy.to_string(),
    }
}

fn setting(id: &str, label: &str, default: Scalar) -> SettingEntry {
    SettingEntry {
        id: id.to_string(),
        label: label.to_string(),
        setting_type: "slider".to_string(),
        min: None,
        max: None,
        options: vec![],
        default,
    }
}

fn number(literal: &str) -> Scalar {
    Scalar::Number(Number { literal: literal.to_string() })
}

struct World {
    state: AppState<Pose>,
    libraries: Dict<OptionsLibrary>,
    settings_meta: Dict<SettingsLibrary>,
    presets: Dict<Vec<PresetItem<Pose>>>,
    preset_metadata: Dict<PresetMetadata>,
    ui_config: UiConfig,
}

fn empty_world() -> World {
    World {
        state: AppState {
            options: Dict::new(),
            settings: Dict::new(),
            pose: 0,
            video_mode: false,
            selections: Dict::new(),
            custom_data: Dict::new(),
        },
        libraries: Dict::new(),
        settings_meta: Dict::new(),
        presets: Dict::new(),
        preset_metadata: Dict::new(),
        ui_config: UiConfig { panels: vec![] },
    }
}

fn generate(w: &World, manual: bool, description: &str) -> String {
    PromptGenerator::new(
        &w.state,
        &w.libraries,
        &w.settings_meta,
        &w.presets,
        &w.preset_metadata,
        &w.ui_config,
        manual,
        description,
    )
    .generate()
}

fn world_with_everything() -> World {
    let mut w = empty_world();
    let lib = OptionsLibrary {
        categories: vec![
            cat("eyes", "green eyes", Some("Facial Features")),
            cat("age", "adult", Some("Basic Info")),
            cat("mood", "calm", None),
            cat("tattoo", "None", Some("Body Details")),
            cat("aura", "glowing", Some("Zodiac")),
            cat("pet", "cat", Some("Animals")),
            cat("hair", "", Some("Physical Features")),
            cat("build", "slim", Some("Physical Features")),
            cat("horns", "small horns", Some("Animals")),
        ],
        include_prompt: "always".to_string(),
    };
    w.state.options.insert("character_attributes".to_string(), OptionsData::from_library(&lib));
    w.libraries.insert("character_attributes".to_string(), lib);

    let global = SettingsLibrary {
        settings: vec![
            setting("quality", "Quality", number("0.75")),
            setting("ratio", "Aspect", Scalar::Text("16:9".to_string())),
            setting("seed", "Seed", Scalar::Text("None".to_string())),
            setting("flag", "Flag", Scalar::Bool(true)),
        ],
        include_prompt: "always".to_string(),
    };
    w.state.settings.insert("global".to_string(), Settings::from_library(&global));
    w.settings_meta.insert("global".to_string(), global);

    let camera = SettingsLibrary {
        settings: vec![
            setting("zoom", "Zoom", number("2")),
            setting("lens", "Lens", Scalar::Text("wide lens".to_string())),
        ],
        include_prompt: "always".to_string(),
    };
    w.state.settings.insert("camera".to_string(), Settings::from_library(&camera));
    w.settings_meta.insert("camera".to_string(), camera);

    w.presets.insert(
        "poses".to_string(),
        vec![preset("hero", Some("heroic stance")), preset("sit", Some("sitting down"))],
    );
    w.preset_metadata.insert("poses".to_string(), meta("always"));
    w.state.selections.insert(
        "poses".to_string(),
        SelectionState { selected: vec!["hero".to_string()], sequence: vec![] },
    );
    w.presets.insert(
        "clothing".to_string(),
        vec![preset("coat", Some("long coat")), preset("hat", None), preset("boots", Some("boots"))],
    );
    w.preset_metadata.insert("clothing".to_string(), meta("always"));
    w.state.selections.insert(
        "clothing".to_string(),
        SelectionState {
            selected: vec![
                "boots".to_string(),
                "hat".to_string(),
                "cape".to_string(),
                "coat".to_string(),
            ],
            sequence: vec![],
        },
    );
    let mut composite = panel("composite", "");
    composite.components = vec![ComponentConfig {
        label: "Clothing".to_string(),
        component_type: "searchable_dropdown".to_string(),
        data_source: "clothing.json".to_string(),
    }];
    w.ui_config = UiConfig {
        panels: vec![
            panel("options_grid", "character_attributes.json"),
            panel("preset_selector", "poses.json"),
            composite,
            panel("controls", "camera.json"),
            panel("controls", "global.json"),
            panel("sequence", ""),
            panel("mystery", "poses.json"),
        ],
    };
    w
}

#[test]
fn an_empty_tree_gives_an_empty_prompt() {
    assert_eq!(generate(&empty_world(), false, ""), "");
}

#[test]
fn the_whole_prompt_in_panel_order() {
    let w = world_with_everything();
    let expected = "calm, adult, slim, green eyes, cat, small horns, glowing\n\n\
                    heroic stance\n\n\
                    boots, long coat\n\n\
                    2.0\nwide lens\n\
                    Quality: 0.8, Aspect: 16:9\n\n";
    assert_eq!(generate(&w, false, ""), expected);
}

#[test]
fn generating_twice_gives_the_same_bytes() {
    let w = world_with_everything();
    let a = generate(&w, false, "");
    let b = generate(&w, false, "");
    assert_eq!(a.as_bytes(), b.as_bytes());
}

#[test]
fn an_edited_pose_is_described_in_place_of_the_preset() {
    let w = world_with_everything();
    let edited = generate(&w, true, "standing, feet together");
    assert!(edited.contains("standing, feet together\n\n"));
    assert!(!edited.contains("heroic stance"));
    let silent = generate(&w, true, "");
    assert!(!silent.contains("heroic stance"));
    let preset = generate(&w, false, "standing, feet together");
    assert!(preset.contains("heroic stance\n\n"));
    assert!(!preset.contains("standing"));
}

#[test]
fn policies_follow_the_mode() {
    let mut w = world_with_everything();
    w.preset_metadata.insert("poses".to_string(), meta("video"));
    assert!(!generate(&w, false, "").contains("heroic stance"));
    w.state.video_mode = true;
    assert!(generate(&w, false, "").contains("heroic stance"));
    w.preset_metadata.insert("poses".to_string(), meta("image"));
    assert!(!generate(&w, false, "").contains("heroic stance"));
    w.state.video_mode = false;
    assert!(generate(&w, false, "").contains("heroic stance"));
}

#[test]
fn a_hidden_category_adds_nothing() {
    let mut w = empty_world();
    let mut beard = cat("beard", "full beard", None);
    beard.visibility = Some(VisibilityRule {
        condition: "field_equals".to_string(),
        field: "gender".to_string(),
        value: Some("male".to_string()),
        values: vec![],
    });
    let lib = OptionsLibrary {
        categories: vec![cat("gender", "female", None), beard],
        include_prompt: "always".to_string(),
    };
    w.state.options.insert("who".to_string(), OptionsData::from_library(&lib));
    w.libraries.insert("who".to_string(), lib);
    w.ui_config = UiConfig { panels: vec![panel("options_grid", "who.json")] };
    assert_eq!(generate(&w, false, ""), "female\n\n");
    *w.state.options.get_mut("who").unwrap().get_mut("gender").unwrap() = "male".to_string();
    assert_eq!(generate(&w, false, ""), "male, full beard\n\n");
}

#[test]
fn groups_come_in_their_order() {
    let cats = vec![
        cat("a", "z-group", Some("Zebra")),
        cat("b", "body", Some("Body Details")),
        cat("c", "apple", Some("Apple")),
        cat("d", "basic", Some("Basic Info")),
        cat("e", "loose", None),
        cat("f", "apple2", Some("Apple")),
        cat("g", "lower", Some("apple")),
    ];
    let lib = OptionsLibrary { categories: cats, include_prompt: "always".to_string() };
    let data = OptionsData::from_library(&lib);
    assert_eq!(
        ordered_values(&lib.categories, &data),
        vec!["loose", "basic", "body", "apple", "apple2", "z-group", "lower"]
    );
}

#[test]
fn text_less_is_the_order_of_the_dictionary() {
    assert!(text_less("Animals", "Zodiac"));
    assert!(!text_less("Zodiac", "Animals"));
    assert!(text_less("Zodiac", "apple"));
    assert!(text_less("app", "apple"));
    assert!(!text_less("apple", "app"));
    assert!(!text_less("same", "same"));
    assert!(text_less("", "a"));
}

#[test]
fn numbers_show_one_decimal() {
    assert_eq!(number("0.75").val_str().unwrap(), "0.8");
    assert_eq!(number("3").val_str().unwrap(), "3.0");
    assert_eq!(number("-1.25").val_str().unwrap(), "-1.2");
    assert_eq!(number("1e2").val_str().unwrap(), "100.0");
    assert_eq!(number("not a number").val_str(), None);
    assert_eq!(Scalar::Text("soft".to_string()).val_str().unwrap(), "soft");
    assert_eq!(Scalar::Bool(true).val_str(), None);
    assert_eq!(Scalar::Null.val_str(), None);
}
