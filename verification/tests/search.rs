use promptpuppet::search::{rank_items, rank_lowered, search_rank};
use promptpuppet::state::PresetItem;

fn item(name: &str, prompt: Option<&str>) -> PresetItem<u8> {
    PresetItem {
        id: name.to_string(),
        name: name.to_string(),
        description: String::new(),
        tags: vec![],
        pose_data: None,
        prompt: prompt.map(|p| p.to_string()),
        allow_custom: false,
    }
}

#[test]
fn empty_query_ranks_everything_alike() {
    assert_eq!(search_rank("Hero", "standing tall", ""), Some(255));
    assert_eq!(rank_lowered("hero", "standing tall", ""), Some(255));
}

#[test]
fn name_prefix_beats_name_substring_beats_prompt() {
    assert_eq!(search_rank("Hero Pose", "standing tall", "hero"), Some(3));
    assert_eq!(search_rank("Super Hero", "standing tall", "hero"), Some(2));
    assert_eq!(search_rank("Victory", "a HERO stands", "hero"), Some(1));
    assert_eq!(search_rank("Victory", "arms raised", "hero"), None);
}

#[test]
fn names_are_compared_in_lower_case() {
    // the query is taken as it is: an upper-case query finds nothing
    assert_eq!(search_rank("HERO", "", "hero"), Some(3));
    assert_eq!(search_rank("HERO", "", "HERO"), None);
}

#[test]
fn rank_items_lists_best_first_and_keeps_order() {
    let items = vec![
        item("Sitting", Some("a hero at rest")),
        item("Super Hero", None),
        item("Hero Landing", Some("dramatic")),
        item("Walking", Some("a stroll")),
        item("Heroic", None),
    ];
    assert_eq!(rank_items(&items, "HERO"), vec![2, 4, 1, 0]);
    assert_eq!(rank_items(&items, ""), vec![0, 1, 2, 3, 4]);
    assert_eq!(rank_items(&items, "zzz"), Vec::<usize>::new());
}
