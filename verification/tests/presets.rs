use promptpuppet::dict::Dict;
use promptpuppet::json::{Json, Number};
use promptpuppet::library::{
    ComponentConfig, GenericLibrary, PanelConfig, StyleEntry, StylesLibrary, UiConfig,
};
use promptpuppet::presets::{
    find_default_pose, is_style_key, load_plan, parse_item, preset_from_item,
    register_preset_library, style_presets, LoadKind,
};
use promptpuppet::state::{PresetItem, PresetMetadata, SelectionState};

fn text(s: &str) -> Json {
    Json::Text(s.to_string())
}

fn num(s: &str) -> Json {
    Json::Number(Number { literal: s.to_string() })
}

fn obj(fields: Vec<(&str, Json)>) -> Json {
    Json::Object(fields.into_iter().map(|(k, v)| (k.to_string(), v)).collect())
}

fn library(data: Json, default: Option<&str>) -> GenericLibrary {
    GenericLibrary {
        has_search: Some(true),
        multiple_selection: Some("video".to_string()),
        use_grid: None,
        include_prompt: "always".to_string(),
        default: default.map(|d| d.to_string()),
        data,
    }
}

#[test]
fn an_item_with_everything() {
    let v = obj(vec![
        ("id", text("hero")),
        ("name", text("Hero")),
        ("prompt", text("heroic stance")),
        (
            "stick_figure",
            obj(vec![(
                "points",
                obj(vec![
                    ("head", Json::Array(vec![num("0"), num("4.5")])),
                    ("neck", Json::Array(vec![num("0"), num("4"), num("-0.25")])),
                ]),
            )]),
        ),
        ("semantics", obj(vec![("prompt", text("a hero"))])),
        ("extra", Json::Bool(true)),
    ]);
    let item = parse_item(&v).unwrap();
    assert_eq!(item.id, "hero");
    assert_eq!(item.name, "Hero");
    assert_eq!(item.prompt.as_deref(), Some("heroic stance"));
    assert_eq!(item.semantics.unwrap().prompt, "a hero");
    let points = item.stick_figure.unwrap().points;
    assert_eq!(points.len(), 2);
    let neck = points.get("neck").unwrap();
    assert_eq!(neck.len(), 3);
    assert_eq!(neck[2].literal, "-0.25");
    assert!(item.description.is_empty());
    assert!(item.tags.is_empty());
}

#[test]
fn term_stands_for_id() {
    let item = parse_item(&obj(vec![("term", text("smile"))])).unwrap();
    assert_eq!(item.id, "smile");
    assert_eq!(item.name, "");
    assert!(item.prompt.is_none());
    assert!(item.stick_figure.is_none());
    assert!(item.semantics.is_none());
}

#[test]
fn ill_made_items_are_no_items() {
    assert!(parse_item(&text("hero")).is_none());
    assert!(parse_item(&Json::Array(vec![text("hero")])).is_none());
    assert!(parse_item(&obj(vec![("name", text("No id"))])).is_none());
    assert!(parse_item(&obj(vec![("id", num("7"))])).is_none());
    assert!(parse_item(&obj(vec![("id", text("a")), ("term", text("b"))])).is_none());
    assert!(parse_item(&obj(vec![("id", text("a")), ("name", Json::Null)])).is_none());
    assert!(parse_item(&obj(vec![("id", text("a")), ("prompt", num("1"))])).is_none());
    assert!(parse_item(&obj(vec![("id", text("a")), ("stick_figure", obj(vec![]))])).is_none());
    assert!(parse_item(&obj(vec![
        ("id", text("a")),
        ("stick_figure", obj(vec![("points", obj(vec![("head", Json::Array(vec![text("x")]))]))])),
    ]))
    .is_none());
    assert!(parse_item(&obj(vec![("id", text("a")), ("semantics", obj(vec![]))])).is_none());
    // null stands for a field that is left out
    let item = parse_item(&obj(vec![
        ("id", text("a")),
        ("prompt", Json::Null),
        ("stick_figure", Json::Null),
        ("semantics", Json::Null),
    ]))
    .unwrap();
    assert!(item.prompt.is_none() && item.stick_figure.is_none() && item.semantics.is_none());
}

#[test]
fn items_are_found_under_arrays_and_categories() {
    let data = obj(vec![
        ("zeta", Json::Array(vec![obj(vec![("id", text("z1"))])])),
        (
            "groups",
            obj(vec![(
                "categories",
                Json::Array(vec![
                    obj(vec![
                        ("label", text("First")),
                        ("one", Json::Array(vec![obj(vec![("id", text("c1"))]), text("skip")])),
                        ("two", Json::Array(vec![obj(vec![("term", text("c2"))])])),
                    ]),
                    text("no category"),
                    obj(vec![("more", Json::Array(vec![obj(vec![("id", text("c3"))])]))]),
                ]),
            )]),
        ),
        ("items", Json::Array(vec![obj(vec![("id", text("i1"))])])),
        ("note", text("not an array")),
        ("loose", obj(vec![("list", Json::Array(vec![obj(vec![("id", text("no"))])]))])),
        ("poses", Json::Array(vec![obj(vec![("id", text("s1"))]), obj(vec![("id", text("s2"))])])),
        ("expressions", Json::Array(vec![obj(vec![("id", text("e1"))])])),
    ]);
    let ids: Vec<String> =
        library(data, None).extract_items().into_iter().map(|i| i.id).collect();
    assert_eq!(ids, vec!["s1", "s2", "e1", "i1", "z1", "c1", "c2", "c3"]);
    assert!(library(text("nothing"), None).extract_items().is_empty());
    assert!(library(Json::Array(vec![obj(vec![("id", text("a"))])]), None)
        .extract_items()
        .is_empty());
}

#[test]
fn a_preset_takes_its_name_and_prompt_from_the_item() {
    let named = parse_item(&obj(vec![
        ("id", text("hero")),
        ("name", text("Hero")),
        ("semantics", obj(vec![("prompt", text("fallback"))])),
    ]))
    .unwrap();
    let p: PresetItem<u8> = preset_from_item(named, Some(3));
    assert_eq!((p.id.as_str(), p.name.as_str()), ("hero", "Hero"));
    assert_eq!(p.prompt.as_deref(), Some("fallback"));
    assert_eq!(p.pose_data, Some(3));
    assert!(!p.allow_custom);

    let bare = parse_item(&obj(vec![("id", text("sit")), ("prompt", text("own"))])).unwrap();
    let p: PresetItem<u8> = preset_from_item(bare, None);
    assert_eq!(p.name, "sit");
    assert_eq!(p.prompt.as_deref(), Some("own"));
    assert_eq!(p.pose_data, None);
}

#[test]
fn styles_end_with_custom() {
    let lib = StylesLibrary {
        styles: vec![StyleEntry {
            id: "noir".to_string(),
            name: "Film Noir".to_string(),
            positive: "high contrast".to_string(),
            negative: "colour".to_string(),
        }],
    };
    let list: Vec<PresetItem<u8>> = style_presets(&lib);
    assert_eq!(list.len(), 2);
    assert_eq!(list[0].id, "noir");
    assert_eq!(list[0].name, "Film Noir");
    assert_eq!(list[0].description, "high contrast\nNegative: colour");
    assert_eq!(list[0].prompt.as_deref(), Some("high contrast"));
    assert!(!list[0].allow_custom);
    assert_eq!(list[1].id, "Custom");
    assert_eq!(list[1].name, "Custom");
    assert!(list[1].prompt.is_none());
    assert!(list[1].allow_custom);
    assert!(is_style_key("styles"));
    assert!(is_style_key("art_style"));
    assert!(!is_style_key("poses"));
}

fn preset(id: &str, pose: Option<u8>) -> PresetItem<u8> {
    PresetItem {
        id: id.to_string(),
        name: id.to_string(),
        description: String::new(),
        tags: vec![],
        pose_data: pose,
        prompt: None,
        allow_custom: false,
    }
}

#[test]
fn registering_selects_the_default() {
    let mut items: Dict<Vec<PresetItem<u8>>> = Dict::new();
    let mut meta: Dict<PresetMetadata> = Dict::new();
    let mut selections: Dict<SelectionState> = Dict::new();
    register_preset_library(
        "poses",
        &library(Json::Null, Some("sit")),
        vec![preset("hero", Some(1)), preset("sit", Some(2))],
        &mut items,
        &mut meta,
        &mut selections,
    );
    assert_eq!(items.get("poses").unwrap().len(), 2);
    let m = meta.get("poses").unwrap();
    assert_eq!(m.has_search, Some(true));
    assert_eq!(m.multiple_selection.as_deref(), Some("video"));
    assert_eq!(m.allow_custom, None);
    assert_eq!(m.include_prompt, "always");
    assert_eq!(selections.get("poses").unwrap().selected, vec!["sit"]);

    register_preset_library(
        "clothing",
        &library(Json::Null, Some("cape")),
        vec![preset("coat", None)],
        &mut items,
        &mut meta,
        &mut selections,
    );
    assert!(selections.get("clothing").is_none());
    assert!(meta.get("clothing").is_some());
    assert_eq!(find_default_pose(&selections, &items), Some(2));
}

#[test]
fn the_first_selection_with_a_pose_gives_the_default_pose() {
    let mut items: Dict<Vec<PresetItem<u8>>> = Dict::new();
    items.insert("faces".to_string(), vec![preset("smile", None)]);
    items.insert("poses".to_string(), vec![preset("hero", Some(1)), preset("sit", Some(2))]);
    let mut selections: Dict<SelectionState> = Dict::new();
    selections
        .insert("empty".to_string(), SelectionState { selected: vec![], sequence: vec![] });
    selections.insert(
        "faces".to_string(),
        SelectionState { selected: vec!["smile".to_string()], sequence: vec![] },
    );
    selections.insert(
        "poses".to_string(),
        SelectionState { selected: vec!["sit".to_string(), "hero".to_string()], sequence: vec![] },
    );
    assert_eq!(find_default_pose(&selections, &items), Some(2));
    assert_eq!(find_default_pose(&Dict::new(), &items), None);
}

#[test]
fn the_plan_reads_options_first_and_presets_last() {
    let panel = |kind: &str, source: &str, components: Vec<ComponentConfig>| PanelConfig {
        title: String::new(),
        panel_type: kind.to_string(),
        data_source: source.to_string(),
        default_open: false,
        components,
    };
    let comp = |kind: &str, source: &str| ComponentConfig {
        label: String::new(),
        component_type: kind.to_string(),
        data_source: source.to_string(),
    };
    let config = UiConfig {
        panels: vec![
            panel("preset_selector", "poses.json", vec![]),
            panel("options_grid", "character_attributes.json", vec![]),
            panel(
                "composite",
                "",
                vec![comp("dropdown", "clothing.json"), comp("label", "global.json")],
            ),
            panel("controls", "motion.json", vec![]),
        ],
    };
    let plan: Vec<(String, String, LoadKind)> =
        load_plan(&config).into_iter().map(|r| (r.key, r.source, r.kind)).collect();
    let want = |k: &str, s: &str, kind: LoadKind| (k.to_string(), s.to_string(), kind);
    assert_eq!(
        plan,
        vec![
            want("character_attributes", "character_attributes.json", LoadKind::Options),
            want("clothing", "clothing.json", LoadKind::Options),
            want("motion", "motion.json", LoadKind::Settings),
            want("poses", "poses.json", LoadKind::Presets),
            want("clothing", "clothing.json", LoadKind::Presets),
        ]
    );
}
