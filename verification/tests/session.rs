use promptpuppet::dict::Dict;
use promptpuppet::library::{PanelConfig, UiConfig};
use promptpuppet::session::{
    status_kind, toast_alpha, DialogAction, PromptPuppetApp, StatusKind, STATUS_LONG,
    STATUS_SHORT,
};
use promptpuppet::state::{
    AppState, PresetItem, PresetMetadata, SelectionState, ViewMode,
};

type Pose = (i32, i32);

fn preset(id: &str, name: &str, prompt: Option<&str>, pose: Option<Pose>) -> PresetItem<Pose> {
    PresetItem {
        id: id.to_string(),
        name: name.to_string(),
        description: String::new(),
        tags: vec![],
        pose_data: pose,
        prompt: prompt.map(|p| p.to_string()),
        allow_custom: id == "Custom",
    }
}

fn meta(multi: Option<&str>) -> PresetMetadata {
    PresetMetadata {
        has_search: None,
        multiple_selection: multi.map(|m| m.to_string()),
        use_grid: None,
        allow_custom: Some(true),
        include_prompt: "always".to_string(),
    }
}

fn app() -> PromptPuppetApp<Pose> {
    let mut preset_items = Dict::new();
    preset_items.insert(
        "poses".to_string(),
        vec![
            preset("hero", "Hero", Some("heroic stance"), Some((1, 1))),
            preset("sit", "Sitting", Some("sitting down"), Some((2, 2))),
            preset("blank", "Blank", None, None),
        ],
    );
    preset_items.insert(
        "clothing".to_string(),
        vec![
            preset("coat", "Coat", Some("long coat"), None),
            preset("hat", "Hat", Some("top hat"), None),
            preset("Custom", "Custom", None, None),
        ],
    );
    let mut preset_metadata = Dict::new();
    preset_metadata.insert("poses".to_string(), meta(None));
    preset_metadata.insert("clothing".to_string(), meta(Some("image")));
    PromptPuppetApp {
        state: AppState {
            options: Dict::new(),
            settings: Dict::new(),
            pose: (0, 0),
            video_mode: false,
            selections: Dict::new(),
            custom_data: Dict::new(),
        },
        libraries: Dict::new(),
        settings_meta: Dict::new(),
        preset_items,
        preset_metadata,
        default_pose: (9, 9),
        pose_is_manual: false,
        dragging_joint_3d: None,
        search: Dict::new(),
        popup_open: Dict::new(),
        generated_prompt: String::new(),
        status_message: String::new(),
        status_millis: 0,
        ui_config: UiConfig {
            panels: vec![PanelConfig {
                title: "Pose".to_string(),
                panel_type: "preset_selector".to_string(),
                data_source: "poses.json".to_string(),
                default_open: true,
                components: vec![],
            }],
        },
        dark_mode: true,
        save_dialog: None,
        load_dialog: false,
        saves: vec![],
        view_mode: ViewMode::View3D,
    }
}

fn selected(app: &PromptPuppetApp<Pose>, key: &str) -> Vec<String> {
    match app.state.selections.get(key) {
        Some(s) => s.selected.clone(),
        None => vec![],
    }
}

#[test]
fn choosing_a_preset_with_a_pose_replaces_the_pose() {
    let mut a = app();
    a.pose_is_manual = true;
    assert!(a.handle_selection("poses", "sit"));
    assert_eq!(selected(&a, "poses"), vec!["sit"]);
    assert_eq!(a.state.pose, (2, 2));
    assert!(!a.pose_is_manual);
    assert_eq!(a.status_message, "\u{2705} Sitting");
    a.update_prompt("standing, feet together");
    assert_eq!(a.generated_prompt, "sitting down\n\n");

    a.mark_pose_edited();
    assert!(a.pose_is_manual);
    a.update_prompt("standing, feet together");
    assert_eq!(a.generated_prompt, "standing, feet together\n\n");
}

#[test]
fn choosing_a_preset_without_a_pose_keeps_the_pose() {
    let mut a = app();
    a.pose_is_manual = true;
    a.state.pose = (5, 5);
    assert!(a.handle_selection("poses", "blank"));
    assert_eq!(selected(&a, "poses"), vec!["blank"]);
    assert_eq!(a.state.pose, (5, 5));
    assert!(a.pose_is_manual);
    assert!(a.handle_selection("poses", "nobody"));
    assert_eq!(selected(&a, "poses"), vec!["nobody"]);
    assert_eq!(a.state.pose, (5, 5));
}

#[test]
fn a_click_toggles_where_several_may_be_chosen() {
    let mut a = app();
    assert!(a.handle_selection("clothing", "coat"));
    assert!(a.handle_selection("clothing", "hat"));
    assert_eq!(selected(&a, "clothing"), vec!["coat", "hat"]);
    assert!(a.handle_selection("clothing", "coat"));
    assert_eq!(selected(&a, "clothing"), vec!["hat"]);
    assert_eq!(a.state.pose, (0, 0));
    a.state.video_mode = true;
    assert!(a.handle_selection("clothing", "coat"));
    assert_eq!(selected(&a, "clothing"), vec!["coat"]);
}

#[test]
fn video_mode_cuts_a_selection_down_to_its_first() {
    let mut a = app();
    a.state.selections.insert(
        "clothing".to_string(),
        SelectionState {
            selected: vec!["hat".to_string(), "coat".to_string()],
            sequence: vec!["x".to_string()],
        },
    );
    a.state.selections.insert(
        "unknown".to_string(),
        SelectionState { selected: vec!["a".to_string(), "b".to_string()], sequence: vec![] },
    );
    a.set_video_mode(true);
    assert!(a.state.video_mode);
    assert_eq!(selected(&a, "clothing"), vec!["hat"]);
    assert_eq!(a.state.selections.get("clothing").unwrap().sequence, vec!["x"]);
    assert_eq!(selected(&a, "unknown"), vec!["a", "b"]);
}

#[test]
fn image_mode_keeps_an_image_selection() {
    let mut a = app();
    a.state.video_mode = true;
    a.state.selections.insert(
        "clothing".to_string(),
        SelectionState { selected: vec!["hat".to_string(), "coat".to_string()], sequence: vec![] },
    );
    a.set_video_mode(false);
    assert_eq!(selected(&a, "clothing"), vec!["hat", "coat"]);
    a.preset_metadata.insert("clothing".to_string(), meta(Some("always")));
    a.set_video_mode(true);
    assert_eq!(selected(&a, "clothing"), vec!["hat", "coat"]);
    a.preset_metadata.insert("clothing".to_string(), meta(Some("never")));
    a.clear_invalid_multiselections();
    assert_eq!(selected(&a, "clothing"), vec!["hat"]);
}

#[test]
fn save_then_load_brings_the_state_back() {
    let mut a = app();
    a.handle_selection("poses", "hero");
    a.handle_selection("clothing", "hat");
    a.state.custom_data.insert("clothing".to_string(), "velvet".to_string());
    a.do_save("first".to_string(), "2024-02-29  12:34".to_string());
    assert_eq!(a.saves.len(), 1);
    assert_eq!(a.saves[0].name, "first");
    assert_eq!(a.saves[0].timestamp, "2024-02-29  12:34");
    assert_eq!(a.status_message, "\u{2705} Saved \"first\"");

    a.handle_selection("poses", "sit");
    a.handle_selection("clothing", "coat");
    a.state.video_mode = true;
    a.state.pose = (7, 7);
    a.state.custom_data.insert("clothing".to_string(), "silk".to_string());

    a.do_load(0, "");
    assert_eq!(a.state.pose, (1, 1));
    assert!(!a.state.video_mode);
    assert_eq!(selected(&a, "poses"), vec!["hero"]);
    assert_eq!(selected(&a, "clothing"), vec!["hat"]);
    assert_eq!(a.state.custom_data.get("clothing").unwrap(), "velvet");
    assert_eq!(a.generated_prompt, "heroic stance\n\n");
    assert_eq!(a.status_message, "\u{2705} Loaded \"first\"");
    assert_eq!(a.saves.len(), 1);
}

#[test]
fn load_and_delete_past_the_saves_change_nothing() {
    let mut a = app();
    a.do_save("one".to_string(), "t".to_string());
    a.state.pose = (3, 3);
    a.do_load(1, "");
    assert_eq!(a.state.pose, (3, 3));
    a.do_delete(1);
    assert_eq!(a.saves.len(), 1);
    a.do_delete(0);
    assert!(a.saves.is_empty());
    assert_eq!(a.status_message, "\u{1f5d1} Deleted \"one\"");
}

#[test]
fn a_name_of_white_space_is_not_saved() {
    let mut a = app();
    assert!(!a.confirm_save("   \t ", "t".to_string()));
    assert!(!a.confirm_save("", "t".to_string()));
    assert!(a.saves.is_empty());
    assert!(a.confirm_save("  hero pose \n", "t".to_string()));
    assert_eq!(a.saves[0].name, "hero pose");
}

#[test]
fn reset_brings_the_first_pose_back() {
    let mut a = app();
    a.state.pose = (4, 4);
    a.reset_pose_to_default();
    assert_eq!(a.state.pose, (9, 9));
    assert_eq!(a.status_message, "\u{2705} Reset to default pose");
}

#[test]
fn chips_and_sequences() {
    let mut a = app();
    a.state.selections.insert(
        "clothing".to_string(),
        SelectionState {
            selected: vec!["hat".to_string(), "coat".to_string(), "hat".to_string()],
            sequence: vec!["a".to_string(), "b".to_string(), "c".to_string()],
        },
    );
    assert!(a.deselect("clothing", "hat"));
    assert_eq!(selected(&a, "clothing"), vec!["coat"]);
    assert!(!a.deselect("nothing", "hat"));
    assert!(a.remove_from_sequence("clothing", 1));
    assert_eq!(a.state.selections.get("clothing").unwrap().sequence, vec!["a", "c"]);
    assert!(!a.remove_from_sequence("clothing", 2));
    assert!(!a.remove_from_sequence("nothing", 0));
    assert!(a.clear_sequences());
    assert!(a.state.selections.get("clothing").unwrap().sequence.is_empty());
    assert_eq!(selected(&a, "clothing"), vec!["coat"]);
}

#[test]
fn the_custom_box_shows_for_a_custom_preset() {
    let mut a = app();
    assert!(!a.custom_text_shown("clothing"));
    a.handle_selection("clothing", "hat");
    assert!(!a.custom_text_shown("clothing"));
    a.state.video_mode = true;
    a.handle_selection("clothing", "Custom");
    assert!(a.custom_text_shown("clothing"));
}

#[test]
fn status_messages_by_their_first_sign() {
    assert_eq!(status_kind("\u{2705} Saved"), StatusKind::Success);
    assert_eq!(status_kind("\u{274c} Failed"), StatusKind::Error);
    assert_eq!(status_kind("Working"), StatusKind::Neutral);
    assert_eq!(status_kind(""), StatusKind::Neutral);
}

#[test]
fn the_theme_turns_over() {
    let mut a = app();
    a.toggle_theme();
    assert!(!a.dark_mode);
    a.toggle_theme();
    assert!(a.dark_mode);
}

#[test]
fn a_status_message_shows_for_its_time_and_no_longer() {
    let mut a = app();
    assert!(!a.tick_status(16));
    a.set_status("\u{2705} Done", STATUS_SHORT);
    assert_eq!(a.status_millis, 2000);
    assert!(a.tick_status(500));
    assert_eq!(a.status_millis, 1500);
    assert_eq!(a.status_message, "\u{2705} Done");
    assert!(a.tick_status(1499));
    assert_eq!(a.status_millis, 1);
    assert!(a.tick_status(16));
    assert_eq!(a.status_millis, 0);
    assert_eq!(a.status_message, "");
    assert!(!a.tick_status(16));
}

#[test]
fn keeping_a_state_is_told_for_longer() {
    let mut a = app();
    a.do_save("first".to_string(), "2024-01-01  00:00".to_string());
    assert_eq!(a.status_millis, STATUS_LONG);
    a.do_delete(0);
    assert_eq!(a.status_millis, STATUS_SHORT);
    a.reset_pose_to_default();
    assert_eq!(a.status_millis, 2000);
}

#[test]
fn a_status_message_fades_through_its_last_half_second() {
    assert_eq!(toast_alpha(3000), 230);
    assert_eq!(toast_alpha(500), 230);
    assert_eq!(toast_alpha(499), 229);
    assert_eq!(toast_alpha(250), 115);
    assert_eq!(toast_alpha(1), 0);
    assert_eq!(toast_alpha(0), 0);
}

#[test]
fn the_save_dialog_keeps_a_state_under_a_name() {
    let mut a = app();
    // no answer yet: the dialog stays open with what was typed
    assert!(!a.answer_save_dialog("  her".to_string(), None, "t".to_string()));
    assert_eq!(a.save_dialog, Some("  her".to_string()));
    // nothing but white space: nothing is kept and the dialog stays open
    assert!(!a.answer_save_dialog("   ".to_string(), Some(DialogAction::Save), "t".to_string()));
    assert_eq!(a.save_dialog, Some("   ".to_string()));
    assert_eq!(a.saves.len(), 0);
    // a name: kept without the white space at its ends
    assert!(a.answer_save_dialog(
        "  hero  ".to_string(),
        Some(DialogAction::Save),
        "2024-01-01  00:00".to_string()
    ));
    assert_eq!(a.save_dialog, None);
    assert_eq!(a.saves.len(), 1);
    assert_eq!(a.saves[0].name, "hero");
    assert_eq!(a.saves[0].timestamp, "2024-01-01  00:00");
    // cancel closes the dialog
    a.save_dialog = Some(String::new());
    assert!(!a.answer_save_dialog("x".to_string(), Some(DialogAction::Cancel), "t".to_string()));
    assert_eq!(a.save_dialog, None);
    assert_eq!(a.saves.len(), 1);
}

#[test]
fn the_load_dialog_loads_deletes_and_closes() {
    let mut a = app();
    a.do_save("one".to_string(), "t1".to_string());
    a.do_save("two".to_string(), "t2".to_string());
    a.load_dialog = true;
    assert!(!a.answer_load_dialog(DialogAction::Delete(5), ""));
    assert_eq!(a.saves.len(), 2);
    assert!(a.answer_load_dialog(DialogAction::Delete(0), ""));
    assert_eq!(a.saves.len(), 1);
    assert_eq!(a.saves[0].name, "two");
    assert!(a.load_dialog);
    a.state.video_mode = true;
    assert!(!a.answer_load_dialog(DialogAction::Load(0), ""));
    assert!(!a.state.video_mode);
    assert!(!a.load_dialog);
    assert_eq!(a.status_message, "\u{2705} Loaded \"two\"");
    a.load_dialog = true;
    assert!(!a.answer_load_dialog(DialogAction::Cancel, ""));
    assert!(!a.load_dialog);
}
