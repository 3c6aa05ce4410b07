use akagi::util::{
    bot_dir_name_eligible, decimal, exe_candidate, workspace_mjai_bot_from_exe_path, is_default_mjai_bot_relative, join,
    resolve_dir, resolve_mjai_bot_dir, strip_leading_dot, user_subdir,
};

#[test]
fn strip_leading_dot_removes_dotslash() {
    assert_eq!(strip_leading_dot("./logs"), "logs");
    assert_eq!(strip_leading_dot("logs"), "logs");
    assert_eq!(strip_leading_dot("./a/b"), "a/b");
}

#[test]
fn appimage_routes_relative_path_to_user_config() {
    let user_root = "/home/u/.config/akagi";
    let candidate = exe_candidate(Some("/opt/akagi"), "./logs");
    let resolved = resolve_dir("./logs", candidate, false, false, true, Some(user_root));
    assert_eq!(resolved, join(user_root, "logs"));
}

#[test]
fn appimage_preserves_absolute_path() {
    let candidate = exe_candidate(Some("/opt/akagi"), "/var/log/akagi");
    let resolved = resolve_dir("/var/log/akagi", candidate, false, false, true, Some("/home/u/.config/akagi"));
    assert_eq!(resolved, "/var/log/akagi");
}

#[test]
fn non_appimage_does_not_use_user_config_for_dirs() {
    let user_root = "/home/u/.config/akagi";
    let candidate = exe_candidate(Some("/opt/akagi"), "./nonexistent-xyz");
    let resolved = resolve_dir("./nonexistent-xyz", candidate, false, false, false, Some(user_root));
    assert!(!resolved.starts_with(user_root));
}

#[test]
fn relative_dot_path_does_not_leak_into_absolute() {
    let candidate = exe_candidate(Some("/home/u/akagi"), "./logs");
    let resolved = resolve_dir("./logs", candidate, false, false, false, None);
    assert!(!resolved.contains("/./"), "got: {resolved}");
    assert!(!resolved.contains("\\.\\"), "got: {resolved}");
}

// ---- further cases ----

#[test]
fn resolve_dir_fallback_chain() {
    let c = || exe_candidate(Some("/exe"), "./d");
    assert_eq!(resolve_dir("./d", c(), true, true, true, Some("/u")), "/exe/d");
    assert_eq!(resolve_dir("./d", c(), false, true, true, Some("/u")), "./d");
    assert_eq!(resolve_dir("./d", c(), false, false, true, Some("/u")), "/u/d");
    assert_eq!(resolve_dir("./d", c(), false, false, false, Some("/u")), "/exe/d");
    assert_eq!(resolve_dir("./d", None, false, false, false, None), "./d");
}

#[test]
fn decimal_rendering() {
    assert_eq!(decimal(0), "0");
    assert_eq!(decimal(7), "7");
    assert_eq!(decimal(10), "10");
    assert_eq!(decimal(1234567890), "1234567890");
    assert_eq!(decimal(u64::MAX), u64::MAX.to_string());
}

#[test]
fn join_rules() {
    assert_eq!(join("/a", "b"), "/a/b");
    assert_eq!(join("/a/", "b"), "/a/b");
    assert_eq!(join("", "b"), "b");
    assert_eq!(join("/a", "/b"), "/b");
    assert_eq!(user_subdir(Some("/home/u/.config/akagi"), "chromium"), Some("/home/u/.config/akagi/chromium".to_string()));
    assert_eq!(user_subdir(None, "chromium"), None);
}

#[test]
fn default_bot_dir_detection() {
    assert!(is_default_mjai_bot_relative("mjai_bot"));
    assert!(is_default_mjai_bot_relative("./mjai_bot"));
    assert!(!is_default_mjai_bot_relative("bots"));
}

#[test]
fn bot_dir_names() {
    assert!(bot_dir_name_eligible("mortal"));
    assert!(!bot_dir_name_eligible(".git"));
    assert!(!bot_dir_name_eligible("__pycache__"));
    assert!(!bot_dir_name_eligible("base"));
    assert!(bot_dir_name_eligible("_private"));
}

#[test]
fn mjai_bot_dir_choice() {
    let p = || "/exe/mjai_bot".to_string();
    let w = || Some("/ws/mjai_bot".to_string());
    assert_eq!(resolve_mjai_bot_dir(p(), true, true, w(), true), "/exe/mjai_bot");
    assert_eq!(resolve_mjai_bot_dir(p(), false, true, w(), true), "/ws/mjai_bot");
    assert_eq!(resolve_mjai_bot_dir(p(), false, false, w(), true), "/exe/mjai_bot");
    assert_eq!(resolve_mjai_bot_dir(p(), false, true, w(), false), "/exe/mjai_bot");
    assert_eq!(resolve_mjai_bot_dir(p(), false, true, None, true), "/exe/mjai_bot");
}

#[test]
fn workspace_mjai_bot_from_exe_path_finds_repo_root() {
    assert_eq!(
        workspace_mjai_bot_from_exe_path("/tmp/ws/target/debug/akagi.exe"),
        Some("/tmp/ws/mjai_bot".to_string())
    );
}

#[test]
fn workspace_mjai_bot_from_exe_path_finds_repo_root_from_deps_dir() {
    assert_eq!(
        workspace_mjai_bot_from_exe_path("/tmp/ws/target/debug/deps/akagi-deadbeef.exe"),
        Some("/tmp/ws/mjai_bot".to_string())
    );
}

#[test]
fn workspace_walk_edge_cases() {
    assert_eq!(workspace_mjai_bot_from_exe_path("/usr/bin/akagi"), None);
    assert_eq!(workspace_mjai_bot_from_exe_path("akagi"), None);
    assert_eq!(workspace_mjai_bot_from_exe_path("target/debug/akagi"), Some("mjai_bot".to_string()));
    assert_eq!(workspace_mjai_bot_from_exe_path("/target/akagi"), Some("/mjai_bot".to_string()));
    // The nearest `target` counts.
    assert_eq!(
        workspace_mjai_bot_from_exe_path("/a/target/b/target/release/akagi"),
        Some("/a/target/b/mjai_bot".to_string())
    );
}
