use promptpuppet::paths::{base_variable, get_app_dir, saves_file, theme_file, Platform};

#[test]
fn folder_of_the_application_by_platform() {
    assert_eq!(
        get_app_dir(Platform::Windows, Some("C:/Users/a/AppData/Roaming")),
        "C:/Users/a/AppData/Roaming/PromptPuppet"
    );
    assert_eq!(
        get_app_dir(Platform::MacOs, Some("/Users/a")),
        "/Users/a/Library/Application Support/PromptPuppet"
    );
    assert_eq!(get_app_dir(Platform::Other, Some("/home/a")), "/home/a/.config/PromptPuppet");
    assert_eq!(get_app_dir(Platform::Other, None), "./PromptPuppet");
    assert_eq!(get_app_dir(Platform::Windows, None), "./PromptPuppet");
}

#[test]
fn variables_and_files() {
    assert_eq!(base_variable(Platform::Windows), "APPDATA");
    assert_eq!(base_variable(Platform::MacOs), "HOME");
    assert_eq!(base_variable(Platform::Other), "HOME");
    assert_eq!(saves_file("/d"), "/d/promptpuppet_saves.json");
    assert_eq!(theme_file("/d"), "/d/promptpuppet_theme.json");
}
