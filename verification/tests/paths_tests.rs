use crosswatch_auth::paths::{
    cfg_path, legacy_cfg_candidates, project_root_cfg, user_config_dir, Environment, Platform,
};

fn env(appdata: Option<&str>, xdg: Option<&str>, home: Option<&str>) -> Environment {
    Environment {
        appdata: appdata.map(|s| s.to_string()),
        xdg_config_home: xdg.map(|s| s.to_string()),
        home: home.map(|s| s.to_string()),
    }
}

fn path(parts: &[&str]) -> Vec<String> {
    parts.iter().map(|s| s.to_string()).collect()
}

#[test]
fn windows_uses_appdata() {
    let e = env(Some("C:\\Users\\me\\AppData\\Roaming"), Some("/x"), Some("/home/me"));
    assert_eq!(
        user_config_dir(Platform::Windows, &e),
        path(&["C:\\Users\\me\\AppData\\Roaming", "CrossWatch"])
    );
}

#[test]
fn macos_uses_application_support() {
    let e = env(Some("ignored"), Some("/x"), Some("/Users/me"));
    assert_eq!(
        user_config_dir(Platform::MacOs, &e),
        path(&["/Users/me", "Library", "Application Support", "CrossWatch"])
    );
}

#[test]
fn other_platforms_prefer_xdg_over_home() {
    let both = env(None, Some("/xdg"), Some("/home/me"));
    assert_eq!(user_config_dir(Platform::Other, &both), path(&["/xdg", "CrossWatch"]));
    let home_only = env(None, None, Some("/home/me"));
    assert_eq!(
        user_config_dir(Platform::Other, &home_only),
        path(&["/home/me", ".config", "CrossWatch"])
    );
}

#[test]
fn without_a_variable_the_directory_is_relative() {
    let bare = env(None, None, None);
    assert_eq!(user_config_dir(Platform::Windows, &bare), path(&["config"]));
    assert_eq!(user_config_dir(Platform::MacOs, &bare), path(&["config"]));
    assert_eq!(user_config_dir(Platform::Other, &bare), path(&["config"]));
    let wrong_ones = env(Some("C:\\a"), None, None);
    assert_eq!(user_config_dir(Platform::Other, &wrong_ones), path(&["config"]));
    assert_eq!(user_config_dir(Platform::MacOs, &wrong_ones), path(&["config"]));
    let home_only = env(None, None, Some("/home/me"));
    assert_eq!(user_config_dir(Platform::Windows, &home_only), path(&["config"]));
}

#[test]
fn canonical_file_is_config_json_in_the_directory() {
    let e = env(None, Some("/xdg"), None);
    assert_eq!(cfg_path(Platform::Other, &e), path(&["/xdg", "CrossWatch", "config.json"]));
    assert_eq!(cfg_path(Platform::Other, &env(None, None, None)), path(&["config", "config.json"]));
}

#[test]
fn mirror_is_config_json() {
    assert_eq!(project_root_cfg(), path(&["config.json"]));
}

#[test]
fn legacy_candidates_in_order() {
    assert_eq!(
        legacy_cfg_candidates(),
        vec![
            path(&["config.json"]),
            path(&["resources/config.json"]),
            path(&["src-tauri/resources/config.json"]),
        ]
    );
}
