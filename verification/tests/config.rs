use akagi::config::{
    active_bot_label, exe_config_candidate, UnknownMode, resolve_config_path, AppConfig, BotConfig, ConfigPath, GeneralConfig, Platform,
    PlatformConfig, ProxyConfig,
};
use akagi::history;

#[test]
fn config_to_schema_platform_round_trip() {
    assert_eq!(history::Platform::from(Platform::Majsoul), history::Platform::Majsoul);
    assert_eq!(history::Platform::from(Platform::Tenhou), history::Platform::Tenhou);
}

// ---- further cases ----

#[test]
fn platform_subdirs() {
    assert_eq!(Platform::Majsoul.subdir(), "majsoul");
    assert_eq!(Platform::Tenhou.subdir(), "tenhou");
    assert_eq!(Platform::default(), Platform::Majsoul);
    assert_eq!(PlatformConfig::default().kind, Platform::Majsoul);
}

#[test]
fn defaults() {
    let g = GeneralConfig::default();
    assert_eq!(g.language, "en");
    assert!(!g.first_run_completed);
    let p = ProxyConfig::default();
    assert!(p.enabled);
    assert_eq!(p.addr, "127.0.0.1:23410");
    assert_eq!(p.ca_dir, "./ca");
    let b = BotConfig::default();
    assert!(!b.enabled);
    assert_eq!(b.active_4p, "example");
    assert_eq!(b.active_3p, "");
    assert!(b.auto_sync);
    assert_eq!(b.dir, "mjai_bot");
    let a = AppConfig::default();
    assert_eq!(a.bot, b);
    assert_eq!(a.proxy, p);
}

#[test]
fn active_for_picks_by_player_count() {
    let mut b = BotConfig::default();
    b.active_3p = "sanma-bot".into();
    assert_eq!(b.active_for(3), "sanma-bot");
    assert_eq!(b.active_for(4), "example");
    assert_eq!(b.active_for(0), "example");
}

#[test]
fn migrate_legacy_active_moves_into_empty_4p() {
    let mut b = BotConfig::default();
    b.active_4p = String::new();
    b.active = "legacy".into();
    b.migrate_legacy_active();
    assert_eq!(b.active_4p, "legacy");
    assert_eq!(b.active, "");
    // Idempotent.
    let before = b.clone();
    b.migrate_legacy_active();
    assert_eq!(b, before);
}

#[test]
fn migrate_legacy_active_replaces_the_default_4p() {
    // A legacy table holding only `active` loads with the default yonma bot.
    let mut b = BotConfig::default();
    b.active = "mortal".into();
    b.migrate_legacy_active();
    assert_eq!(b.active_4p, "mortal");
    assert_eq!(b.active, "");
}

#[test]
fn migrate_without_legacy_value_keeps_4p() {
    let mut b = BotConfig::default();
    b.active_4p = "mortal".into();
    b.migrate_legacy_active();
    assert_eq!(b.active_4p, "mortal");
    assert_eq!(b.active, "");
}

#[test]
fn explicit_config_path_is_taken_as_is() {
    assert_eq!(
        resolve_config_path(Some("/etc/akagi.toml"), true, Some("/opt/akagi"), true, true),
        ConfigPath::Existing("/etc/akagi.toml".to_string())
    );
    assert_eq!(
        resolve_config_path(Some("my.toml"), false, Some("/opt/akagi"), true, true),
        ConfigPath::Missing("my.toml".to_string())
    );
}

#[test]
fn exe_config_wins_over_cwd_config() {
    assert_eq!(exe_config_candidate("/opt/akagi"), "/opt/akagi/configs/config.toml");
    assert_eq!(
        resolve_config_path(None, false, Some("/opt/akagi"), true, true),
        ConfigPath::Existing("/opt/akagi/configs/config.toml".to_string())
    );
    assert_eq!(
        resolve_config_path(None, false, Some("/opt/akagi"), false, true),
        ConfigPath::Existing("configs.toml".to_string())
    );
}

#[test]
fn missing_config_is_created_next_to_the_executable() {
    assert_eq!(
        resolve_config_path(None, false, Some("/opt/akagi/"), false, false),
        ConfigPath::Missing("/opt/akagi/configs/config.toml".to_string())
    );
    assert_eq!(
        resolve_config_path(None, false, None, false, false),
        ConfigPath::Missing("configs.toml".to_string())
    );
}

#[test]
fn active_bot_is_set_per_mode() {
    let mut bot = BotConfig::default();
    assert_eq!(bot.set_active("3p", "sanma".to_string()), Ok(()));
    assert_eq!(bot.active_3p, "sanma");
    assert_eq!(bot.active_4p, "example");
    assert_eq!(bot.set_active("4p", String::new()), Ok(()));
    assert_eq!(bot.active_4p, "");
    assert_eq!(bot.set_active("5p", "x".to_string()), Err(UnknownMode { mode: "5p".to_string() }));
    assert_eq!(bot.active_3p, "sanma");
}

#[test]
fn active_bot_notice_text() {
    assert_eq!(active_bot_label("4p", "mortal"), "Active 4p bot set to mortal");
    assert_eq!(active_bot_label("3p", ""), "3p bot cleared");
}
