use akagi::history::{
    GameRecord, GameStats, HistoryFilter, KyokuMode, Platform, RecorderState, UtcTime, MAX_EVENTS_PER_GAME,
};
use akagi::mjai::MjaiEvent;

fn record(platform: Platform, num_players: u8, mode: KyokuMode, started: UtcTime) -> GameRecord {
    GameRecord {
        id: "01ARZ".into(),
        started_at: started,
        ended_at: started,
        platform,
        num_players,
        kyoku_mode: mode,
        names: vec!["a".into(), "b".into(), "c".into(), "d".into()],
        our_seat: Some(0),
        final_scores: vec![30000, 25000, 25000, 20000],
        final_ranks: vec![1, 2, 3, 4],
        our_rank: Some(1),
        our_delta: Some(5000),
        stats: GameStats::default(),
        log_path: "games/01ARZ.mjai.jsonl".into(),
    }
}

fn at(secs: i64, nanos: u32) -> UtcTime {
    UtcTime { secs, nanos }
}

#[test]
fn history_filter_default_matches_everything() {
    let r = record(Platform::Majsoul, 4, KyokuMode::EastOnly, at(1_700_000_000, 5));
    assert!(HistoryFilter::default().matches(&r));
}

#[test]
fn history_filter_platform_mismatch() {
    let r = record(Platform::Majsoul, 4, KyokuMode::EastOnly, at(1, 0));
    let f = HistoryFilter { platform: Some(Platform::Tenhou), ..Default::default() };
    assert!(!f.matches(&r));
}

// ---- further cases ----

#[test]
fn time_bounds_are_inclusive_then_exclusive() {
    let r = record(Platform::Tenhou, 3, KyokuMode::EastSouth, at(100, 500));
    let after = |t: UtcTime| HistoryFilter { started_after: Some(t), ..Default::default() };
    let before = |t: UtcTime| HistoryFilter { started_before: Some(t), ..Default::default() };
    assert!(after(at(100, 500)).matches(&r));
    assert!(!after(at(100, 501)).matches(&r));
    assert!(!before(at(100, 500)).matches(&r));
    assert!(before(at(100, 501)).matches(&r));
    assert!(before(at(101, 0)).matches(&r));
}

#[test]
fn all_clauses_must_pass() {
    let r = record(Platform::Tenhou, 3, KyokuMode::EastSouth, at(100, 0));
    let f = HistoryFilter {
        platform: Some(Platform::Tenhou),
        num_players: Some(3),
        kyoku_mode: Some(KyokuMode::EastSouth),
        started_after: Some(at(50, 0)),
        started_before: Some(at(150, 0)),
    };
    assert!(f.matches(&r));
    let g = HistoryFilter { num_players: Some(4), ..f.clone() };
    assert!(!g.matches(&r));
    let h = HistoryFilter { kyoku_mode: Some(KyokuMode::Other), ..f };
    assert!(!h.matches(&r));
}

fn start_game() -> MjaiEvent {
    MjaiEvent::StartGame {
        names: vec!["A".into(), "B".into(), "C".into(), "D".into()],
        kyoku_first: Some(0),
        aka_flag: Some(true),
        id: Some(0),
    }
}

fn start_kyoku() -> MjaiEvent {
    MjaiEvent::StartKyoku {
        bakaze: "E".into(),
        dora_marker: "1m".into(),
        kyoku: 1,
        honba: 0,
        kyotaku: 0,
        oya: 0,
        scores: vec![25000, 25000, 25000, 25000],
        tehais: vec![vec![]; 4],
    }
}

#[test]
fn complete_game_is_returned_whole() {
    let mut st = RecorderState::new();
    assert_eq!(st.handle(start_game()), None);
    assert_eq!(st.handle(start_kyoku()), None);
    assert_eq!(st.handle(MjaiEvent::EndKyoku), None);
    let game = st.handle(MjaiEvent::EndGame).unwrap();
    assert_eq!(game, vec![start_game(), start_kyoku(), MjaiEvent::EndKyoku, MjaiEvent::EndGame]);
    assert!(st.buf.is_none());
}

#[test]
fn events_before_start_game_are_ignored() {
    let mut st = RecorderState::new();
    assert_eq!(st.handle(start_kyoku()), None);
    assert_eq!(st.handle(MjaiEvent::EndGame), None);
    assert!(st.buf.is_none());
}

#[test]
fn second_start_game_resets_buffer() {
    let mut st = RecorderState::new();
    st.handle(start_game());
    st.handle(start_kyoku());
    st.handle(start_game());
    let game = st.handle(MjaiEvent::EndGame).unwrap();
    assert_eq!(game, vec![start_game(), MjaiEvent::EndGame]);
}

#[test]
fn disconnect_without_end_game_drops_buffer() {
    let mut st = RecorderState::new();
    st.handle(start_game());
    st.handle(start_kyoku());
    st.reset();
    assert_eq!(st.handle(MjaiEvent::EndGame), None);
}

#[test]
fn overflowing_game_is_dropped() {
    let mut st = RecorderState::new();
    st.handle(start_game());
    for _ in 0..MAX_EVENTS_PER_GAME {
        st.handle(MjaiEvent::EndKyoku);
    }
    assert!(st.overflown);
    assert_eq!(st.handle(MjaiEvent::EndGame), None);
    // The next game records normally.
    st.handle(start_game());
    assert!(st.handle(MjaiEvent::EndGame).is_some());
}
