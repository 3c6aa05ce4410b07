use akagi::score::{
    calculate_score, evaluate_hora_3p, evaluate_hora_4p, hand_is_evaluable, hand_text_is_ok, is_tenpai, table_is_wf, waits_for,
    MeldKind, MeldView, ScoreError, SeatView, TableView,
};
use riichienv_core::rule::GameRule;
use riichienv_core::state::GameState;
use riichienv_core::types::MeldType;
use akagi::tile::tid34_to_mjai;

#[test]
fn tid34_covers_all_suits_and_honors() {
    assert_eq!(tid34_to_mjai(0), "1m");
    assert_eq!(tid34_to_mjai(8), "9m");
    assert_eq!(tid34_to_mjai(9), "1p");
    assert_eq!(tid34_to_mjai(17), "9p");
    assert_eq!(tid34_to_mjai(18), "1s");
    assert_eq!(tid34_to_mjai(26), "9s");
    assert_eq!(tid34_to_mjai(27), "E");
    assert_eq!(tid34_to_mjai(33), "C");
}

#[test]
fn ron_3han_30fu_non_dealer_no_honba() {
    let s = calculate_score(3, 30, false, false, 0, 4);
    assert_eq!(s.total, 3900);
    assert_eq!(s.pay_ron, 3900);
}

#[test]
fn mangan_dealer_tsumo() {
    let s = calculate_score(5, 30, true, true, 0, 4);
    assert_eq!(s.total, 12_000);
    assert_eq!(s.pay_tsumo_ko, 4_000);
}

#[test]
fn honba_adds_300_to_ron_4p() {
    let base = calculate_score(2, 30, false, false, 0, 4);
    let with_honba = calculate_score(2, 30, false, false, 1, 4);
    assert_eq!(with_honba.total, base.total + 300);
    assert_eq!(with_honba.pay_ron, base.pay_ron + 300);
}

#[test]
fn waits_finds_chiitoitsu_tanki() {
    let waits = waits_for("1122334455667m").unwrap();
    assert!(waits.contains(&"7m".into()), "got {waits:?}");
}

#[test]
fn waits_returns_empty_for_non_tenpai() {
    let waits = waits_for("123456789m12345p").unwrap();
    assert!(waits.is_empty());
}

#[test]
fn is_tenpai_consistent_with_waits() {
    let hand = "1122334455667m";
    assert!(is_tenpai(hand).unwrap());
    assert!(!waits_for(hand).unwrap().is_empty());
}

// ---- further cases ----

#[test]
fn ron_payments_are_single_payer() {
    let s = calculate_score(1, 30, false, false, 2, 3);
    assert_eq!(s.pay_tsumo_oya, 0);
    assert_eq!(s.pay_tsumo_ko, 0);
    assert_eq!(s.total, s.pay_ron);
    let t = calculate_score(1, 30, false, true, 0, 4);
    assert_eq!(t.pay_ron, 0);
}

#[test]
fn tsumo_honba_adds_100_per_payer() {
    let base = calculate_score(3, 40, false, true, 0, 4);
    let with_honba = calculate_score(3, 40, false, true, 2, 4);
    assert_eq!(with_honba.pay_tsumo_oya, base.pay_tsumo_oya + 200);
    assert_eq!(with_honba.pay_tsumo_ko, base.pay_tsumo_ko + 200);
    assert_eq!(with_honba.total, base.total + 600);
}

#[test]
fn waits_are_in_tile_order() {
    // 23m waits on 1m and 4m.
    let waits = waits_for("23m456p789s11122z").unwrap();
    assert_eq!(waits, vec!["1m", "4m"]);
    assert_eq!(is_tenpai("23m456p789s11122z"), Ok(true));
}

#[test]
fn unparsable_hand_is_an_error() {
    let err = waits_for("12").unwrap_err();
    assert_eq!(err, ScoreError::ParseHand { text: "12".into() });
    assert_eq!(err.message(), "parse hand: 12");
    assert!(is_tenpai("12").is_err());
}

#[test]
fn meld_groups_without_digits_are_flagged() {
    assert!(!hand_text_is_ok("123m(pm)"));
    assert!(!hand_text_is_ok("(ks)456p"));
    assert!(!hand_text_is_ok("(p1m)(sz)"));
    assert!(hand_text_is_ok("123m456p789s1122z"));
    assert!(hand_text_is_ok("123m(p1m)456p11z"));
    assert!(hand_text_is_ok("(123m)456p"));
    assert!(hand_text_is_ok("(xm)"));
    assert!(hand_text_is_ok("(p"));
}

#[test]
fn hand_with_an_open_pon_has_waits() {
    // Pon of 1m, then 456p 789s 11z and a 23m shape waiting on 1m / 4m.
    assert!(hand_text_is_ok("23m456p789s11z(p1m)"));
    let waits = waits_for("23m456p789s11z(p5z)").unwrap();
    assert_eq!(waits, vec!["1m", "4m"]);
}

// ---- scoring a claimed win against the table ----

fn meld_kind(t: MeldType) -> MeldKind {
    match t {
        MeldType::Chi => MeldKind::Chi,
        MeldType::Pon => MeldKind::Pon,
        MeldType::Daiminkan => MeldKind::Daiminkan,
        MeldType::Ankan => MeldKind::Ankan,
        MeldType::Kakan => MeldKind::Kakan,
    }
}

/// The table an engine state shows.
fn view_4p(s: &GameState) -> TableView {
    TableView {
        players: s
            .players
            .iter()
            .map(|p| SeatView {
                hand: p.hand.clone(),
                melds: p
                    .melds
                    .iter()
                    .map(|m| MeldView {
                        kind: meld_kind(m.meld_type),
                        tiles: m.tiles.clone(),
                        opened: m.opened,
                        from_who: m.from_who,
                        called_tile: m.called_tile,
                    })
                    .collect(),
                riichi_declared: p.riichi_declared,
                double_riichi_declared: p.double_riichi_declared,
                ippatsu_cycle: p.ippatsu_cycle,
                kita_count: p.kita_tiles.len() as u8,
            })
            .collect(),
        drawn_tile: s.drawn_tile,
        last_discard: s.last_discard.map(|(t, _)| t),
        drawable_count: s.wall.drawable_count,
        is_rinshan_flag: s.is_rinshan_flag,
        pending_kan: s.pending_kan.is_some(),
        is_first_turn: s.is_first_turn,
        oya: s.oya,
        round_wind: s.round_wind,
        riichi_sticks: s.riichi_sticks,
        honba: s.honba,
        dora_indicators: s.wall.dora_indicators.clone(),
    }
}

/// The engine deals from a shuffled wall (the dealer also draws a tile);
/// a fixed wall keeps these tables reproducible.
const WALL_SEED: Option<u64> = Some(7);

/// Seat `actor` holds 11m 22m 33p 44p 66s 77s 8s, chiitoitsu tenpai on 8s.
fn chiitoitsu_state(actor: u8, oya: u8) -> GameState {
    let rule = GameRule::default_tenhou();
    let mut s = GameState::new(0, true, WALL_SEED, 0, rule);
    s.oya = oya;
    s.round_wind = 0;
    s.honba = 0;
    s.riichi_sticks = 0;
    s.is_first_turn = false;
    let hand = vec![0, 1, 4, 5, 44, 45, 48, 49, 92, 93, 96, 97, 100];
    s.players[actor as usize].hand = hand;
    s
}

fn evaluate_4p(s: &GameState, actor: u8, is_tsumo: bool) -> Option<akagi::score::HoraScoreInfo> {
    let view = view_4p(s);
    assert!(table_is_wf(&view, false));
    evaluate_hora_4p(&view, actor, is_tsumo)
}

#[test]
fn evaluate_hora_4p_tsumo_chiitoitsu_dealer() {
    let mut s = chiitoitsu_state(0, 0);
    s.drawn_tile = Some(101);
    s.players[0].hand.push(101);

    let info = evaluate_4p(&s, 0, true).expect("winning shape");
    assert!(info.han >= 1, "han = {}", info.han);
    assert!(info.points > 0, "points = {}", info.points);
    assert!(info.points % 100 == 0, "points = {}", info.points);
}

#[test]
fn evaluate_hora_4p_ron_chiitoitsu_non_dealer() {
    let mut s = chiitoitsu_state(0, 1);
    s.last_discard = Some((101, 1));

    let info = evaluate_4p(&s, 0, false).expect("winning shape");
    assert!(info.han >= 2, "han = {}", info.han);
    assert!(info.fu >= 20, "fu = {}", info.fu);
    assert!(info.points > 0, "points = {}", info.points);
}

#[test]
fn evaluate_hora_4p_returns_none_when_not_a_win() {
    let rule = GameRule::default_tenhou();
    let mut s = GameState::new(0, true, WALL_SEED, 0, rule);
    s.drawn_tile = Some(0);
    assert!(evaluate_4p(&s, 0, true).is_none());
}

#[test]
fn evaluate_hora_4p_returns_none_when_no_win_tile() {
    let s = chiitoitsu_state(0, 0);
    assert!(evaluate_4p(&s, 0, true).is_none());
    assert!(evaluate_4p(&s, 0, false).is_none());
}

#[test]
fn evaluate_hora_4p_returns_none_for_oob_actor() {
    let mut s = chiitoitsu_state(0, 0);
    s.drawn_tile = Some(101);
    assert!(evaluate_4p(&s, 99, true).is_none());
}

fn seat(hand: Vec<u8>) -> SeatView {
    SeatView {
        hand,
        melds: Vec::new(),
        riichi_declared: false,
        double_riichi_declared: false,
        ippatsu_cycle: false,
        kita_count: 0,
    }
}

/// A quiet table without dora where seat 0 holds the chiitoitsu hand.
fn chiitoitsu_table(seats: usize, oya: u8) -> TableView {
    let mut players: Vec<SeatView> = (0..seats).map(|_| seat(Vec::new())).collect();
    players[0] = seat(vec![0, 1, 4, 5, 44, 45, 48, 49, 92, 93, 96, 97, 100]);
    TableView {
        players,
        drawn_tile: None,
        last_discard: None,
        drawable_count: 40,
        is_rinshan_flag: false,
        pending_kan: false,
        is_first_turn: false,
        oya,
        round_wind: 0,
        riichi_sticks: 0,
        honba: 0,
        dora_indicators: Vec::new(),
    }
}

#[test]
fn dealer_tsumo_is_paid_by_every_other_seat() {
    let mut t = chiitoitsu_table(4, 0);
    t.players[0].hand.push(101);
    t.drawn_tile = Some(101);
    let info = evaluate_hora_4p(&t, 0, true).expect("winning shape");
    assert_eq!(info.han, 3);
    assert_eq!(info.fu, 25);
    assert_eq!(info.points, 4800);
    assert!(!info.yakuman);
    assert_eq!(info.win_tile, "8s");

    let mut t3 = chiitoitsu_table(3, 0);
    t3.players[0].hand.push(101);
    t3.drawn_tile = Some(101);
    let info3 = evaluate_hora_3p(&t3, 0, true).expect("winning shape");
    assert_eq!(info3.points, 3200);
}

#[test]
fn non_dealer_ron_collects_the_ron_payment() {
    let mut t = chiitoitsu_table(4, 1);
    t.last_discard = Some(101);
    let info = evaluate_hora_4p(&t, 0, false).expect("winning shape");
    assert_eq!(info.han, 2);
    assert_eq!(info.fu, 25);
    assert_eq!(info.points, 1600);
    assert_eq!(info.win_tile, "8s");
}

#[test]
fn non_dealer_tsumo_adds_dealer_and_other_payments() {
    let mut t = chiitoitsu_table(4, 1);
    t.players[0].hand.push(101);
    t.drawn_tile = Some(101);
    let info = evaluate_hora_4p(&t, 0, true).expect("winning shape");
    // 3 han 25 fu: the dealer pays 1600, each other non-dealer 800.
    assert_eq!(info.points, 3200);
}

#[test]
fn hands_the_engine_cannot_index_are_refused() {
    assert!(hand_is_evaluable(&vec![0, 1, 2], &Vec::new()));
    assert!(!hand_is_evaluable(&vec![0, 136], &Vec::new()));
    // Four tiles of a kind are a real set; a fifth is not.
    assert!(hand_is_evaluable(&vec![0, 1, 2, 3], &Vec::new()));
    assert!(!hand_is_evaluable(&vec![0, 1, 2, 3, 0], &Vec::new()));
    let kan = MeldView { kind: MeldKind::Ankan, tiles: vec![0, 1, 2, 3], opened: false, from_who: -1, called_tile: None };
    assert!(!hand_is_evaluable(&vec![2], &vec![kan]));
    let short = MeldView { kind: MeldKind::Pon, tiles: vec![0, 1], opened: true, from_who: 1, called_tile: Some(0) };
    assert!(!hand_is_evaluable(&vec![4], &vec![short]));
    let t = chiitoitsu_table(4, 4);
    assert!(!table_is_wf(&t, false));
    assert!(table_is_wf(&chiitoitsu_table(4, 3), false));
    assert!(!table_is_wf(&chiitoitsu_table(4, 0), true));
}

#[test]
fn limit_hands_follow_the_table() {
    // Dealer yakuman tsumo at four players: 16000 from each of three seats.
    let s = calculate_score(13, 30, true, true, 0, 4);
    assert_eq!((s.total, s.pay_ron, s.pay_tsumo_oya, s.pay_tsumo_ko), (48000, 0, 0, 16000));
    // Non-dealer haneman ron: 3000 basic points, 12000.
    let r = calculate_score(6, 40, false, false, 0, 4);
    assert_eq!((r.total, r.pay_ron), (12000, 12000));
    // 4 han 40 fu reaches the mangan cap (40 * 64 = 2560 > 2000): 8000.
    let m = calculate_score(4, 40, false, false, 0, 4);
    assert_eq!(m.total, 8000);
    // Seven pairs keeps 25 fu: 2 han 25 fu non-dealer ron is 1600.
    let c = calculate_score(2, 25, false, false, 0, 4);
    assert_eq!(c.total, 1600);
}
