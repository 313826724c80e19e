use chat_history_consolidator::config::{
    find_setting, join_path_text, resolve_flag, resolve_text, Config,
};

fn pairs(items: &[(&str, &str)]) -> Vec<(String, String)> {
    items.iter().map(|(key, value)| (key.to_string(), value.to_string())).collect()
}

fn config_with_paths(project_path: &str, db_path: &str, include_absolute_paths: bool) -> Config {
    let mut config = Config::load(&[]);
    config.project_path = project_path.to_string();
    config.db_path = db_path.to_string();
    config.include_absolute_paths = include_absolute_paths;
    config
}

#[test]
fn test_config_loading() {
    let config = Config::load(&pairs(&[("APP_NAME", "persistent-code-lore")]));
    assert_eq!(config.app_name, "persistent-code-lore");
    assert_eq!(config.output_dir, ".knowledge");
}

#[test]
fn load_of_an_empty_source_gives_every_default() {
    let config = Config::load(&[]);
    assert_eq!(config.app_name, "chat-history-consolidator");
    assert_eq!(config.output_dir, ".knowledge");
    assert_eq!(config.output_filename, "chat-history-consolidated.md");
    assert_eq!(config.db_type, "sqlite");
    assert_eq!(config.db_path, "~/Library/Application Support/Cursor/User/workspaceStorage");
    assert_eq!(config.db_filename, "state.vscdb");
    assert_eq!(config.workspace_id, "default-workspace");
    assert_eq!(config.project_name, "unknown-project");
    assert_eq!(config.project_branch, "main");
    assert_eq!(config.project_path, "/path/to/project");
    assert_eq!(config.composer_data_key, "composer.composerData");
    assert_eq!(config.generations_key, "aiService.generations");
    assert_eq!(config.prompts_key, "aiService.prompts");
    assert!(!config.include_secrets);
    assert!(!config.include_absolute_paths);
    assert!(config.include_system_info);
}

#[test]
fn load_takes_every_setting_from_its_key() {
    let config = Config::load(&pairs(&[
        ("APP_NAME", "a"),
        ("OUTPUT_DIR", "b"),
        ("OUTPUT_FILENAME", "c"),
        ("DB_TYPE", "d"),
        ("DB_PATH", "e"),
        ("DB_FILENAME", "f"),
        ("WORKSPACE_ID", "g"),
        ("PROJECT_NAME", "h"),
        ("PROJECT_BRANCH", "i"),
        ("PROJECT_PATH", "j"),
        ("COMPOSER_DATA_KEY", "k"),
        ("GENERATIONS_KEY", "l"),
        ("PROMPTS_KEY", "m"),
        ("INCLUDE_SECRETS", "true"),
        ("INCLUDE_ABSOLUTE_PATHS", "true"),
        ("INCLUDE_SYSTEM_INFO", "false"),
    ]));
    assert_eq!(config.app_name, "a");
    assert_eq!(config.output_dir, "b");
    assert_eq!(config.output_filename, "c");
    assert_eq!(config.db_type, "d");
    assert_eq!(config.db_path, "e");
    assert_eq!(config.db_filename, "f");
    assert_eq!(config.workspace_id, "g");
    assert_eq!(config.project_name, "h");
    assert_eq!(config.project_branch, "i");
    assert_eq!(config.project_path, "j");
    assert_eq!(config.composer_data_key, "k");
    assert_eq!(config.generations_key, "l");
    assert_eq!(config.prompts_key, "m");
    assert!(config.include_secrets);
    assert!(config.include_absolute_paths);
    assert!(!config.include_system_info);
}

#[test]
fn load_passes_over_keys_that_name_no_setting() {
    let config = Config::load(&pairs(&[("HOME", "/root"), ("app_name", "lower"), ("APP_NAME ", "x")]));
    assert_eq!(config.app_name, "chat-history-consolidator");
}

#[test]
fn load_takes_the_first_pair_of_a_key() {
    let config = Config::load(&pairs(&[("APP_NAME", "first"), ("APP_NAME", "second")]));
    assert_eq!(config.app_name, "first");
}

#[test]
fn a_malformed_flag_has_its_default() {
    for value in ["yes", "TRUE", "1", "", " true", "False"] {
        let config = Config::load(&pairs(&[
            ("INCLUDE_SECRETS", value),
            ("INCLUDE_ABSOLUTE_PATHS", value),
            ("INCLUDE_SYSTEM_INFO", value),
        ]));
        assert!(!config.include_secrets, "{value:?}");
        assert!(!config.include_absolute_paths, "{value:?}");
        assert!(config.include_system_info, "{value:?}");
    }
}

#[test]
fn find_setting_finds_the_first_value() {
    let source = pairs(&[("A", "1"), ("B", "2"), ("A", "3")]);
    assert_eq!(find_setting(&source, "A").map(String::as_str), Some("1"));
    assert_eq!(find_setting(&source, "B").map(String::as_str), Some("2"));
    assert_eq!(find_setting(&source, "C"), None);
    assert_eq!(resolve_text(&source, "C", "dflt"), "dflt");
    assert!(resolve_flag(&pairs(&[("F", "true")]), "F", false));
    assert!(!resolve_flag(&pairs(&[("F", "false")]), "F", true));
    assert!(resolve_flag(&pairs(&[("F", "maybe")]), "F", true));
}

#[test]
fn join_path_text_puts_one_separator_between() {
    assert_eq!(join_path_text("/base", "part"), "/base/part");
    assert_eq!(join_path_text("/base/", "part"), "/base/part");
    assert_eq!(join_path_text("", "part"), "part");
    assert_eq!(join_path_text("/base", ""), "/base/");
    assert_eq!(join_path_text("/", "part"), "/part");
}

#[test]
fn database_path_from_joins_base_workspace_and_file() {
    let mut config = Config::load(&[]);
    config.workspace_id = "ws-1".to_string();
    config.db_filename = "state.vscdb".to_string();
    assert_eq!(config.database_path_from("/data/store"), "/data/store/ws-1/state.vscdb");
    assert_eq!(config.database_path_from("/data/store/"), "/data/store/ws-1/state.vscdb");
    assert_eq!(config.database_path_from(""), "ws-1/state.vscdb");
}

#[test]
fn database_path_keeps_a_base_without_tilde() {
    let config = Config::load(&pairs(&[
        ("DB_PATH", "/var/lib/store"),
        ("WORKSPACE_ID", "abc"),
        ("DB_FILENAME", "db.sqlite"),
    ]));
    assert_eq!(config.expanded_db_path(), "/var/lib/store");
    assert_eq!(config.database_path(), "/var/lib/store/abc/db.sqlite");
    let other = Config::load(&pairs(&[("DB_PATH", "~user/store")]));
    assert_eq!(other.expanded_db_path(), "~user/store");
}

#[test]
fn database_path_puts_the_home_directory_for_the_tilde() {
    let config = Config::load(&pairs(&[
        ("DB_PATH", "~/store"),
        ("WORKSPACE_ID", "abc"),
        ("DB_FILENAME", "db.sqlite"),
    ]));
    let base = config.expanded_db_path();
    assert_ne!(base, "~/store");
    assert!(base.ends_with("/store"));
    assert_eq!(base, shellexpand::tilde("~/store"));
    let path = config.database_path();
    assert!(!path.starts_with('~'));
    assert!(path.ends_with("/store/abc/db.sqlite"));
}

#[test]
fn sanitize_path_keeps_the_text_where_paths_are_included() {
    let config = config_with_paths("/home/u/project", "/home/u/store", true);
    assert_eq!(
        config.sanitize_path("/home/u/project/src and /home/u/store/x"),
        "/home/u/project/src and /home/u/store/x"
    );
}

#[test]
fn sanitize_path_puts_placeholders_for_both_paths() {
    let config = config_with_paths("/home/u/project", "/home/u/store", false);
    assert_eq!(
        config.sanitize_path("/home/u/project/src and /home/u/store/x"),
        "<PROJECT_PATH>/src and <DB_PATH>/x"
    );
    assert_eq!(config.sanitize_path("/home/u/project"), "<PROJECT_PATH>");
    assert_eq!(config.sanitize_path("elsewhere"), "elsewhere");
}

#[test]
fn sanitize_path_replaces_the_project_path_first() {
    let inner = config_with_paths("/home/u/store/project", "/home/u/store", false);
    assert_eq!(inner.sanitize_path("/home/u/store/project/src"), "<PROJECT_PATH>/src");
    let outer = config_with_paths("/home/u", "/home/u/store", false);
    assert_eq!(outer.sanitize_path("/home/u/store/x"), "<PROJECT_PATH>/store/x");
}

#[test]
fn sanitize_path_leaves_neither_path_behind() {
    let config = config_with_paths("/home/u/project", "~/Library/Store", false);
    let texts = [
        "/home/u/project",
        "/home/u/project/home/u/project",
        "~/Library/Store/ws/state.vscdb in /home/u/project",
        "/home/u/proj/home/u/projectect",
        "~/Library/Sto~/Library/Storere",
    ];
    for text in texts {
        let shown = config.sanitize_path(text);
        assert!(!shown.contains("/home/u/project"), "{shown:?}");
        assert!(!shown.contains("~/Library/Store"), "{shown:?}");
    }
}

#[test]
fn sanitize_path_agrees_with_the_standard_library() {
    let cases = [
        ("/p", "/d", "/p/x /d/y /p/d"),
        ("", "/d", "ab/d"),
        ("><", "/d", "><><"),
        ("PATH", "DB", "PATH DB"),
        ("/same", "/same", "/same/x"),
    ];
    for (project, store, text) in cases {
        let config = config_with_paths(project, store, false);
        assert_eq!(
            config.sanitize_path(text),
            text.replace(project, "<PROJECT_PATH>").replace(store, "<DB_PATH>"),
            "{project:?} {store:?} {text:?}"
        );
    }
}

#[test]
fn clone_keeps_every_setting() {
    let config = Config::load(&pairs(&[("APP_NAME", "x"), ("INCLUDE_SECRETS", "true")]));
    let copy = config.clone();
    assert_eq!(copy.app_name, "x");
    assert!(copy.include_secrets);
    assert_eq!(copy.db_path, config.db_path);
    assert_eq!(copy.prompts_key, config.prompts_key);
}

#[test]
fn output_path_takes_the_choice_of_the_caller_first() {
    let config = Config::load(&[]);
    assert_eq!(config.output_dir_for(None), ".knowledge");
    assert_eq!(config.output_dir_for(Some("out")), "out");
    assert_eq!(config.output_path_for(None, None), ".knowledge/chat-history-consolidated.md");
    assert_eq!(config.output_path_for(Some("out/"), None), "out/chat-history-consolidated.md");
    assert_eq!(config.output_path_for(None, Some("h.md")), ".knowledge/h.md");
    assert_eq!(config.output_path_for(Some("/tmp/out"), Some("h.md")), "/tmp/out/h.md");
}
