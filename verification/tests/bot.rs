use akagi::bot::{react_failure, BotBatcher, BotLookup, BotStep, ReactOutcome, SpawnEvent, SpawnOp, SpawnRun};
use akagi::ipc::{BotStatus, LoadStage, NotifyLevel};
use akagi::mjai::MjaiEvent;

/// A manager whose bot "mock" already runs at seat 2.
fn running_manager() -> BotBatcher {
    let mut mgr = BotBatcher::new("mock".to_string(), String::new());
    mgr.actor_id = Some(2);
    mgr.has_runner = true;
    mgr
}

fn dahai(actor: u8) -> MjaiEvent {
    MjaiEvent::Dahai { actor, pai: "1m".into(), tsumogiri: false }
}

fn dora() -> MjaiEvent {
    MjaiEvent::Dora { dora_marker: "5p".into() }
}

fn start_game(id: Option<u8>) -> MjaiEvent {
    MjaiEvent::StartGame {
        names: vec!["a".into(), "b".into(), "c".into(), "d".into()],
        kyoku_first: None,
        aka_flag: None,
        id,
    }
}

fn batch_of(step: BotStep) -> Option<(Vec<MjaiEvent>, u64)> {
    match step {
        BotStep::React { batch, trigger_seq } => Some((batch, trigger_seq)),
        _ => None,
    }
}

#[test]
fn non_decision_events_accumulate_without_calling_react() {
    let mut mgr = running_manager();
    assert!(matches!(mgr.on_event(MjaiEvent::Tsumo { actor: 0, pai: "1m".into() }, 4), BotStep::Nothing));
    assert!(matches!(mgr.on_event(dahai(2), 4), BotStep::Nothing));
    assert!(matches!(mgr.on_event(dora(), 4), BotStep::Nothing));
    assert_eq!(mgr.pending.len(), 3);
}

#[test]
fn others_dahai_flushes_batch() {
    let mut mgr = running_manager();
    assert!(matches!(mgr.on_event(dora(), 4), BotStep::Nothing));
    let (batch, _) = batch_of(mgr.on_event(dahai(0), 4)).expect("one react call");
    assert_eq!(batch.len(), 2);
    assert!(matches!(batch[0], MjaiEvent::Dora { .. }));
    assert!(matches!(batch[1], MjaiEvent::Dahai { actor: 0, .. }));
    assert!(mgr.pending.is_empty());
}

#[test]
fn own_tsumo_flushes_others_tsumo_does_not() {
    let mut mgr = running_manager();
    assert!(matches!(mgr.on_event(MjaiEvent::Tsumo { actor: 0, pai: "1m".into() }, 4), BotStep::Nothing));
    let (batch, _) = batch_of(mgr.on_event(MjaiEvent::Tsumo { actor: 2, pai: "5m".into() }, 4)).expect("react");
    assert_eq!(batch.len(), 2);
}

#[test]
fn own_pon_flushes_so_bot_picks_post_call_discard() {
    let mut mgr = running_manager();
    assert!(batch_of(mgr.on_event(dahai(0), 4)).is_some());
    let pon = MjaiEvent::Pon { actor: 2, target: 0, pai: "1m".into(), consumed: vec!["1m".into(), "1m".into()] };
    let (batch, _) = batch_of(mgr.on_event(pon, 4)).expect("own pon must trigger react()");
    assert!(matches!(batch.last().unwrap(), MjaiEvent::Pon { actor: 2, .. }));
}

#[test]
fn own_chi_and_daiminkan_also_flush() {
    let mut mgr = running_manager();
    let chi = MjaiEvent::Chi { actor: 2, target: 1, pai: "3m".into(), consumed: vec!["4m".into(), "5m".into()] };
    assert!(batch_of(mgr.on_event(chi, 4)).is_some(), "own chi must flush");
    let kan = MjaiEvent::Daiminkan {
        actor: 2,
        target: 0,
        pai: "5m".into(),
        consumed: vec!["5m".into(), "5m".into(), "5mr".into()],
    };
    assert!(batch_of(mgr.on_event(kan, 4)).is_some(), "own daiminkan must flush");
}

#[test]
fn others_pon_does_not_flush() {
    let mut mgr = running_manager();
    let pon = MjaiEvent::Pon { actor: 0, target: 3, pai: "1m".into(), consumed: vec!["1m".into(), "1m".into()] };
    assert!(matches!(mgr.on_event(pon, 4), BotStep::Nothing));
}

#[test]
fn bot_response_broadcast_to_subscribers() {
    let mut mgr = running_manager();
    let (_, trigger_seq) = batch_of(mgr.on_event(dahai(0), 4)).expect("react");
    assert_eq!(trigger_seq, 1);
    assert_eq!(mgr.after_react(true), ReactOutcome::Continue);
    assert!(mgr.has_runner);
}

#[test]
fn end_game_flushes_drops_runner_emits_stopped() {
    let mut mgr = running_manager();
    assert!(batch_of(mgr.on_event(MjaiEvent::EndGame, 4)).is_some());
    assert_eq!(mgr.after_react(true), ReactOutcome::Stopped { bot: "mock".to_string() });
    assert!(!mgr.has_runner);
    assert!(mgr.actor_id.is_none());
}

#[test]
fn react_failure_emits_error_status_and_notification() {
    let mut mgr = running_manager();
    assert!(batch_of(mgr.on_event(dahai(0), 4)).is_some());
    let bot = match mgr.after_react(false) {
        ReactOutcome::Failed { bot } => bot,
        other => panic!("expected Failed, got {other:?}"),
    };
    assert_eq!(bot, "mock");
    assert!(!mgr.has_runner);
    assert!(mgr.pending.is_empty());
    let report = react_failure(&bot, "kaboom");
    assert!(report.error.contains("react failed"));
    match report.status {
        BotStatus::Error { bot, error } => {
            assert_eq!(bot, "mock");
            assert!(error.contains("kaboom"), "got error: {error}");
        }
        other => panic!("expected Error, got {other:?}"),
    }
    assert_eq!(report.notice.level, NotifyLevel::Error);
    assert!(report.notice.title.contains("Bot reaction failed"));
    assert_eq!(report.notice.body.as_deref(), Some("kaboom"));
}

#[test]
fn missing_bot_in_registry_emits_error_status() {
    let mut mgr = BotBatcher::new("ghost".to_string(), String::new());
    match mgr.on_event(start_game(Some(0)), 4) {
        BotStep::Spawn { bot, seat } => {
            assert_eq!(bot, "ghost");
            assert_eq!(seat, 0);
        }
        other => panic!("expected a spawn, got {other:?}"),
    }
    assert!(matches!(mgr.after_spawn(false), BotStep::Nothing));
    assert!(!mgr.has_runner);
    assert!(mgr.pending.is_empty());
}

#[test]
fn events_before_start_game_are_dropped() {
    let mut mgr = BotBatcher::new("mock".to_string(), String::new());
    assert!(matches!(mgr.on_event(dahai(0), 4), BotStep::Nothing));
    assert!(mgr.pending.is_empty());
}

#[test]
fn started_bot_batches_from_start_game_on() {
    let mut mgr = BotBatcher::new("four".to_string(), "three".to_string());
    assert!(matches!(mgr.on_event(dahai(1), 4), BotStep::Nothing));
    match mgr.on_event(start_game(Some(1)), 3) {
        BotStep::Spawn { bot, seat } => {
            assert_eq!(bot, "three");
            assert_eq!(seat, 1);
        }
        other => panic!("expected a spawn, got {other:?}"),
    }
    assert_eq!(mgr.active_name, "three");
    assert!(matches!(mgr.after_spawn(true), BotStep::Nothing));
    assert!(mgr.has_runner);
    assert_eq!(mgr.pending, vec![start_game(Some(1))]);
    let (batch, trigger_seq) = batch_of(mgr.on_event(dahai(0), 3)).expect("react");
    assert_eq!(batch, vec![start_game(Some(1)), dahai(0)]);
    assert_eq!(trigger_seq, 3);
}

#[test]
fn table_without_configured_bot_runs_analysis_only() {
    let mut mgr = running_manager();
    assert!(matches!(mgr.on_event(dora(), 4), BotStep::Nothing));
    assert!(matches!(mgr.on_event(start_game(Some(0)), 3), BotStep::ReportIdle));
    assert!(!mgr.has_runner);
    assert!(mgr.pending.is_empty());
    assert_eq!(mgr.actor_id, Some(0));
    assert!(matches!(mgr.on_event(dahai(1), 3), BotStep::Nothing));
}

#[test]
fn bot_start_reports_loading_then_ready() {
    let (mut run, first) = SpawnRun::start("mortal".to_string(), 1);
    assert_eq!(first.next, SpawnOp::LookUp);
    assert!(first.status.is_none() && first.notice.is_none());

    let found = run.on_event(SpawnEvent::LookedUp(BotLookup::Found { has_manifest: true }));
    assert_eq!(found.next, SpawnOp::AcquireSyncLock);
    assert_eq!(found.status, Some(BotStatus::Loading { bot: "mortal".to_string(), stage: LoadStage::SyncingDeps }));
    let notice = found.notice.expect("loading notice");
    assert_eq!(notice.level, NotifyLevel::Info);
    assert_eq!(notice.title, "Preparing bot");
    assert_eq!(notice.body.as_deref(), Some("Installing Python dependencies — first launch may take a while."));
    assert!(notice.sticky);
    assert_eq!(notice.id.as_deref(), Some("bot-loading-mortal"));

    assert_eq!(run.on_event(SpawnEvent::SyncLock(true)).next, SpawnOp::SyncDeps);
    let synced = run.on_event(SpawnEvent::Synced(None));
    assert_eq!(synced.status, Some(BotStatus::Loading { bot: "mortal".to_string(), stage: LoadStage::Spawning }));
    assert_eq!(synced.next, SpawnOp::ResolveSettings);
    assert_eq!(run.on_event(SpawnEvent::SettingsResolved(None)).next, SpawnOp::Launch);
    let ready = run.on_event(SpawnEvent::Launched(None));
    assert_eq!(ready.next, SpawnOp::Done { ok: true });
    assert_eq!(ready.status, Some(BotStatus::Ready { bot: "mortal".to_string(), actor_id: 1 }));
    let notice = ready.notice.expect("ready notice");
    assert_eq!(notice.level, NotifyLevel::Success);
    assert_eq!(notice.title, "mortal ready");
    assert_eq!(notice.id.as_deref(), Some("bot-loading-mortal"));
}

#[test]
fn bot_without_manifest_launches_after_sync() {
    let (mut run, _) = SpawnRun::start("plain".to_string(), 0);
    run.on_event(SpawnEvent::LookedUp(BotLookup::Found { has_manifest: false }));
    run.on_event(SpawnEvent::SyncLock(true));
    assert_eq!(run.on_event(SpawnEvent::Synced(None)).next, SpawnOp::Launch);
}

#[test]
fn bot_not_found_is_reported_without_loading_id() {
    let (mut run, _) = SpawnRun::start("ghost".to_string(), 0);
    let a = run.on_event(SpawnEvent::LookedUp(BotLookup::Missing { error: "bot \"ghost\" not found in registry at /b".to_string() }));
    assert_eq!(a.next, SpawnOp::Done { ok: false });
    assert_eq!(
        a.status,
        Some(BotStatus::Error { bot: "ghost".to_string(), error: "bot \"ghost\" not found in registry at /b".to_string() })
    );
    let n = a.notice.expect("error notice");
    assert_eq!(n.level, NotifyLevel::Error);
    assert_eq!(n.title, "Bot not found");
    assert!(n.id.is_none());
}

#[test]
fn failed_sync_replaces_the_loading_notice() {
    let (mut run, _) = SpawnRun::start("mortal".to_string(), 2);
    run.on_event(SpawnEvent::LookedUp(BotLookup::Found { has_manifest: false }));
    let busy = {
        let (mut other, _) = SpawnRun::start("mortal".to_string(), 2);
        other.on_event(SpawnEvent::LookedUp(BotLookup::Found { has_manifest: false }));
        other.on_event(SpawnEvent::SyncLock(false))
    };
    assert_eq!(
        busy.status,
        Some(BotStatus::Error { bot: "mortal".to_string(), error: "sync already in progress for mortal".to_string() })
    );
    run.on_event(SpawnEvent::SyncLock(true));
    let failed = run.on_event(SpawnEvent::Synced(Some("exit 1".to_string())));
    let n = failed.notice.expect("error notice");
    assert_eq!(n.title, "Bot dependency install failed");
    assert_eq!(n.body.as_deref(), Some("uv sync failed: exit 1"));
    assert_eq!(n.id.as_deref(), Some("bot-loading-mortal"));
}

#[test]
fn launch_failure_and_out_of_order_outcomes_end_the_start() {
    let (mut run, _) = SpawnRun::start("mortal".to_string(), 2);
    let early = run.on_event(SpawnEvent::Launched(None));
    assert_eq!(early.next, SpawnOp::Done { ok: false });
    assert!(early.status.is_none());

    let (mut run, _) = SpawnRun::start("mortal".to_string(), 2);
    run.on_event(SpawnEvent::LookedUp(BotLookup::Found { has_manifest: false }));
    run.on_event(SpawnEvent::SyncLock(true));
    run.on_event(SpawnEvent::Synced(None));
    let failed = run.on_event(SpawnEvent::Launched(Some("no python".to_string())));
    assert_eq!(
        failed.status,
        Some(BotStatus::Error { bot: "mortal".to_string(), error: "subprocess spawn failed: no python".to_string() })
    );
    assert_eq!(failed.notice.expect("notice").title, "Bot subprocess failed to start");
}
