use akagi::bot::is_decision_point;
use akagi::bridge::{Direction, ParseResult};
use akagi::ipc::{
    bot_deleted_notice, config_saved_notice, settings_saved_notice, sync_finished_notice, sync_started_notice,
    Notification, NotifyLevel, ProxyCommandError, ProxyControl, ProxyStatus,
};
use akagi::logger::LogTarget;
use akagi::mjai::MjaiEvent;

#[test]
fn notification_minimal_fields() {
    let n = Notification::info("hi");
    assert_eq!(n.level, NotifyLevel::Info);
    assert_eq!(n.title, "hi");
    assert_eq!(n.body, None);
    assert!(!n.sticky);
    assert_eq!(n.id, None);
}

#[test]
fn notification_builders_set_only_their_field() {
    let n = Notification::error("boom").body("stack trace here").sticky().id("bot-load-fail");
    assert_eq!(n.level, NotifyLevel::Error);
    assert_eq!(n.title, "boom");
    assert_eq!(n.body.as_deref(), Some("stack trace here"));
    assert!(n.sticky);
    assert_eq!(n.id.as_deref(), Some("bot-load-fail"));
    let m = Notification::error("boom").id("bot-load-fail").sticky().body("stack trace here");
    assert_eq!(m, n);
    assert_eq!(Notification::success("s").level, NotifyLevel::Success);
    assert_eq!(Notification::warn("w").level, NotifyLevel::Warn);
    assert_eq!(Notification::new(NotifyLevel::Warn, "w"), Notification::warn("w"));
}

#[test]
fn direction_names() {
    assert_eq!(Direction::Up.as_str(), "up");
    assert_eq!(Direction::Down.as_str(), "down");
}

#[test]
fn parse_result_constructors() {
    let e = ParseResult::empty();
    assert!(e.events.is_empty() && e.parsed.is_none());
    let j = ParseResult::just_events(vec![MjaiEvent::EndGame]);
    assert_eq!(j.events, vec![MjaiEvent::EndGame]);
    assert!(j.parsed.is_none());
}

#[test]
fn log_target_fields() {
    let t = LogTarget::new("proxy", "akagi::proxy");
    assert_eq!(t.name, "proxy");
    assert_eq!(t.prefix, "akagi::proxy");
}

#[test]
fn decision_points() {
    let dahai = |actor: u8| MjaiEvent::Dahai { actor, pai: "1m".into(), tsumogiri: false };
    let tsumo = |actor: u8| MjaiEvent::Tsumo { actor, pai: "1m".into() };
    assert!(!is_decision_point(None, &tsumo(0)));
    assert!(is_decision_point(Some(0), &tsumo(0)));
    assert!(!is_decision_point(Some(0), &tsumo(1)));
    assert!(is_decision_point(Some(0), &dahai(1)));
    assert!(!is_decision_point(Some(0), &dahai(0)));
    let pon = MjaiEvent::Pon { actor: 2, target: 1, pai: "4m".into(), consumed: vec!["4m".into(), "4m".into()] };
    assert!(is_decision_point(Some(2), &pon));
    assert!(!is_decision_point(Some(0), &pon));
    assert!(is_decision_point(Some(3), &MjaiEvent::EndGame));
    assert!(!is_decision_point(Some(3), &MjaiEvent::Reach { actor: 3 }));
    assert!(!is_decision_point(Some(3), &MjaiEvent::Ankan { actor: 3, consumed: vec![] }));
}

#[test]
fn proxy_control_starts_once_and_stops_once() {
    let mut ctl = ProxyControl::default();
    assert_eq!(ctl.status, ProxyStatus::Stopped);
    assert_eq!(ctl.stop(), Err(ProxyCommandError::NotRunning));
    assert_eq!(ctl.start("127.0.0.1:23410"), Ok(()));
    assert_eq!(ctl.status, ProxyStatus::Running { addr: "127.0.0.1:23410".to_string() });
    assert_eq!(ctl.start("127.0.0.1:1"), Err(ProxyCommandError::AlreadyRunning));
    assert_eq!(ctl.stop(), Ok(()));
    assert_eq!(ctl.stop(), Err(ProxyCommandError::NotRunning));
    ctl.finished("127.0.0.1:23410", None);
    assert_eq!(ctl.status, ProxyStatus::Stopped);
    assert_eq!(ProxyCommandError::AlreadyRunning.message(), "proxy already running");
    assert_eq!(ProxyCommandError::NotRunning.message(), "proxy is not running");
}

#[test]
fn proxy_failure_is_reported_with_its_address() {
    let mut ctl = ProxyControl::default();
    assert_eq!(ctl.start("0.0.0.0:80"), Ok(()));
    ctl.finished("0.0.0.0:80", Some("bind failed".to_string()));
    assert!(!ctl.running);
    assert_eq!(
        ctl.status,
        ProxyStatus::Error { addr: Some("0.0.0.0:80".to_string()), error: "bind failed".to_string() }
    );
}

#[test]
fn command_notices() {
    let saved = config_saved_notice();
    assert_eq!(saved.level, NotifyLevel::Success);
    assert_eq!(saved.title, "Config saved");
    assert_eq!(saved.body.as_deref(), Some("Restart affected subsystems for changes to take effect."));

    let start = sync_started_notice("mortal");
    assert_eq!(start.title, "Syncing mortal");
    assert!(start.sticky);
    assert_eq!(start.id.as_deref(), Some("bot-sync-mortal"));

    let ok = sync_finished_notice("mortal", None);
    assert_eq!((ok.level, ok.title.as_str(), ok.id.as_deref()), (NotifyLevel::Success, "mortal environment ready", Some("bot-sync-mortal")));
    let failed = sync_finished_notice("mortal", Some("exit 2"));
    assert_eq!(failed.level, NotifyLevel::Error);
    assert_eq!(failed.title, "Sync failed for mortal");
    assert_eq!(failed.body.as_deref(), Some("uv sync failed: exit 2"));

    assert_eq!(bot_deleted_notice("old").title, "Deleted bot old");
    assert_eq!(settings_saved_notice("mortal").title, "mortal settings saved");
}
