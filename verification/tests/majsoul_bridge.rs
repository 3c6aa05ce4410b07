use akagi::json::JsonValue;
use akagi::majsoul::{DoraTiming, MajsoulBridge, MessageType, ParsedMessage};
use akagi::mjai::MjaiEvent;
use akagi::tile::{ankan_consumed, kakan_consumed};

const METHOD_AUTH_GAME: &str = ".lq.FastTest.authGame";
const METHOD_ACTION_PROTOTYPE: &str = ".lq.ActionPrototype";
const METHOD_NOTIFY_GAME_END_RESULT: &str = ".lq.NotifyGameEndResult";
const ACTION_NEW_ROUND: &str = "ActionNewRound";
const ACTION_DEAL_TILE: &str = "ActionDealTile";
const ACTION_DISCARD_TILE: &str = "ActionDiscardTile";
const ACTION_CHI_PENG_GANG: &str = "ActionChiPengGang";
const ACTION_AN_GANG_ADD_GANG: &str = "ActionAnGangAddGang";
const ACTION_NO_TILE: &str = "ActionNoTile";
const ACTION_LIU_JU: &str = "ActionLiuJu";
const ACTION_HULE: &str = "ActionHule";

fn jstr(s: &str) -> JsonValue {
    JsonValue::Str(s.to_string())
}

fn jnum(n: i64) -> JsonValue {
    if n < 0 {
        JsonValue::NegInt(n)
    } else {
        JsonValue::PosInt(n as u64)
    }
}

fn jbool(b: bool) -> JsonValue {
    JsonValue::Bool(b)
}

fn jarr(items: Vec<JsonValue>) -> JsonValue {
    JsonValue::Array(items)
}

fn jobj(entries: Vec<(&str, JsonValue)>) -> JsonValue {
    JsonValue::Object(entries.into_iter().map(|(k, v)| (k.to_string(), v)).collect())
}

fn req(method: &str, payload: JsonValue) -> ParsedMessage {
    ParsedMessage { msg_type: MessageType::Request, msg_id: Some(1), method_name: method.to_string(), payload }
}

fn resp(method: &str, payload: JsonValue) -> ParsedMessage {
    ParsedMessage { msg_type: MessageType::Response, msg_id: Some(1), method_name: method.to_string(), payload }
}

/// An ActionPrototype notify carrying an already-decoded ActionNewRound.
fn new_round_msg(action_data: JsonValue) -> ParsedMessage {
    action_msg(ACTION_NEW_ROUND, action_data)
}

fn action_msg(name: &str, data: JsonValue) -> ParsedMessage {
    ParsedMessage {
        msg_type: MessageType::Notify,
        msg_id: None,
        method_name: METHOD_ACTION_PROTOTYPE.to_string(),
        payload: jobj(vec![("step", jnum(1)), ("name", jstr(name)), ("data", data)]),
    }
}



#[test]
fn auth_game_resolves_seat_and_names() {
    let mut bridge = MajsoulBridge::new();

    // Req captures account_id, no events yet.
    let events =
        bridge.dispatch(&req(METHOD_AUTH_GAME, jobj(vec![("account_id", jnum(12345))])));
    assert!(events.is_empty());
    assert_eq!(bridge.account_id, Some(12345));
    assert_eq!(bridge.seat, None);

    // Res shape mirrors a real authGame response against AI: one human in
    // `players`, three robots referenced only by id in `seat_list`.
    let events = bridge.dispatch(&resp(
        METHOD_AUTH_GAME,
        jobj(vec![("players", jarr(vec![jobj(vec![("account_id", jnum(12345)), ("nickname", jstr("player_a"))])])), ("seat_list", jarr(vec![jnum(1), jnum(3), jnum(12345), jnum(2)]))]),
    ));
    assert_eq!(bridge.seat, Some(2));
    assert_eq!(events.len(), 1);
    match &events[0] {
        MjaiEvent::StartGame { id, names, .. } => {
            assert_eq!(*id, Some(2));
            assert_eq!(
                names,
                &["".to_string(), "".to_string(), "player_a".to_string(), "".to_string()]
            );
        }
        other => panic!("expected StartGame, got {other:?}"),
    }
}

#[test]
fn names_filled_for_four_human_players() {
    let mut bridge = MajsoulBridge::new();
    bridge.dispatch(&req(METHOD_AUTH_GAME, jobj(vec![("account_id", jnum(100))])));
    let events = bridge.dispatch(&resp(
        METHOD_AUTH_GAME,
        jobj(vec![("players", jarr(vec![jobj(vec![("account_id", jnum(100)), ("nickname", jstr("alice"))]), jobj(vec![("account_id", jnum(200)), ("nickname", jstr("bob"))]), jobj(vec![("account_id", jnum(300)), ("nickname", jstr("carol"))]), jobj(vec![("account_id", jnum(400)), ("nickname", jstr("dave"))])])), ("seat_list", jarr(vec![jnum(200), jnum(100), jnum(400), jnum(300)]))]),
    ));
    match &events[0] {
        MjaiEvent::StartGame { id, names, .. } => {
            assert_eq!(*id, Some(1));
            assert_eq!(names, &["bob", "alice", "dave", "carol"].map(String::from));
        }
        other => panic!("expected StartGame, got {other:?}"),
    }
}

#[test]
fn three_player_seat_list_pads_with_empty_string() {
    let mut bridge = MajsoulBridge::new();
    bridge.dispatch(&req(METHOD_AUTH_GAME, jobj(vec![("account_id", jnum(50))])));
    let events = bridge.dispatch(&resp(
        METHOD_AUTH_GAME,
        jobj(vec![("players", jarr(vec![jobj(vec![("account_id", jnum(50)), ("nickname", jstr("me"))])])), ("seat_list", jarr(vec![jnum(1), jnum(50), jnum(2)]))]),
    ));
    match &events[0] {
        MjaiEvent::StartGame { id, names, .. } => {
            assert_eq!(*id, Some(1));
            assert_eq!(names, &["", "me", "", ""].map(String::from));
        }
        other => panic!("expected StartGame, got {other:?}"),
    }
}

#[test]
fn auth_game_response_without_request_warns_and_skips() {
    let mut bridge = MajsoulBridge::new();
    let events = bridge.dispatch(&resp(
        METHOD_AUTH_GAME,
        jobj(vec![("seat_list", jarr(vec![jnum(1), jnum(2), jnum(3), jnum(4)]))]),
    ));
    assert!(events.is_empty());
    assert_eq!(bridge.seat, None);
}

#[test]
fn auth_game_account_id_not_in_seat_list_skips() {
    let mut bridge = MajsoulBridge::new();
    bridge.dispatch(&req(METHOD_AUTH_GAME, jobj(vec![("account_id", jnum(999))])));
    let events = bridge.dispatch(&resp(
        METHOD_AUTH_GAME,
        jobj(vec![("seat_list", jarr(vec![jnum(1), jnum(2), jnum(3), jnum(4)]))]),
    ));
    assert!(events.is_empty());
    assert_eq!(bridge.seat, None);
}

#[test]
fn unrelated_methods_pass_through() {
    let mut bridge = MajsoulBridge::new();
    let events =
        bridge.dispatch(&req(".lq.Lobby.heatbeat", jobj(vec![("no_operation_counter", jnum(0))])));
    assert!(events.is_empty());
}




/// Sample ActionNewRound payload from the user-supplied real Majsoul
/// frame: human player (us) at seat 2, ju=0 → dealer is seat 0 (a bot).
/// We're not the dealer, so we get exactly 13 tiles.
#[test]
fn action_new_round_non_dealer_emits_start_kyoku_then_unknown_tsumo() {
    let mut bridge = MajsoulBridge::new();
    bridge.seat = Some(2);
    let msg = new_round_msg(jobj(vec![("doras", jarr(vec![jstr("4s")])), ("left_tile_count", jnum(69)), ("scores", jarr(vec![jnum(25000), jnum(25000), jnum(25000), jnum(25000)])), ("tiles", jarr(vec![jstr("7p"), jstr("3p"), jstr("3s"), jstr("1s"), jstr("2z"), jstr("2m"), jstr("8m"), jstr("6p"), jstr("7m"), jstr("5m"), jstr("0s"), jstr("6s"), jstr("7z")]))]));

    let events = bridge.dispatch(&msg);
    assert_eq!(events.len(), 2);

    match &events[0] {
        MjaiEvent::StartKyoku {
            bakaze,
            dora_marker,
            kyoku,
            honba,
            kyotaku,
            oya,
            scores,
            tehais,
        } => {
            assert_eq!(bakaze, "E");
            assert_eq!(dora_marker, "4s");
            assert_eq!(*kyoku, 1);
            assert_eq!(*honba, 0);
            assert_eq!(*kyotaku, 0);
            assert_eq!(*oya, 0);
            assert_eq!(scores, &[25000, 25000, 25000, 25000]);
            // Other seats stay unknown.
            for s in [0, 1, 3] {
                assert!(tehais[s].iter().all(|t| t == "?"));
            }
            // Our row: 13 tiles, sorted, mapped (0s → 5sr, 2z → S, 7z → C).
            assert_eq!(
                tehais[2],
                [
                    "2m", "5m", "7m", "8m", "3p", "6p", "7p", "1s", "3s", "5sr", "6s", "S", "C",
                ]
                .map(String::from)
            );
        }
        other => panic!("expected StartKyoku, got {other:?}"),
    }
    match &events[1] {
        MjaiEvent::Tsumo { actor, pai } => {
            assert_eq!(*actor, 0); // dealer
            assert_eq!(pai, "?");
        }
        other => panic!("expected Tsumo, got {other:?}"),
    }
}

/// Same shape but with us as dealer (seat 0, ju=0). We get 14 tiles;
/// the 14th is our opening tsumo (kept raw, not sorted in).
#[test]
fn action_new_round_dealer_emits_start_kyoku_then_self_tsumo() {
    let mut bridge = MajsoulBridge::new();
    bridge.seat = Some(0);
    let msg = new_round_msg(jobj(vec![("doras", jarr(vec![jstr("1m")])), ("scores", jarr(vec![jnum(25000), jnum(25000), jnum(25000), jnum(25000)])), ("tiles", jarr(vec![jstr("1m"), jstr("2m"), jstr("3m"), jstr("4m"), jstr("5m"), jstr("6m"), jstr("7m"), jstr("8m"), jstr("9m"), jstr("1p"), jstr("2p"), jstr("3p"), jstr("4p"), jstr("0p")]))]));

    let events = bridge.dispatch(&msg);
    assert_eq!(events.len(), 2);
    match &events[0] {
        MjaiEvent::StartKyoku { oya, tehais, dora_marker, .. } => {
            assert_eq!(*oya, 0);
            assert_eq!(dora_marker, "1m");
            // First 13 tiles, sorted (already in mjai order here).
            assert_eq!(
                tehais[0],
                [
                    "1m", "2m", "3m", "4m", "5m", "6m", "7m", "8m", "9m",
                    "1p", "2p", "3p", "4p",
                ]
                .map(String::from)
            );
            for s in [1, 2, 3] {
                assert!(tehais[s].iter().all(|t| t == "?"));
            }
        }
        other => panic!("expected StartKyoku, got {other:?}"),
    }
    match &events[1] {
        MjaiEvent::Tsumo { actor, pai } => {
            assert_eq!(*actor, 0);
            assert_eq!(pai, "5pr"); // 0p → red 5p
        }
        other => panic!("expected Tsumo, got {other:?}"),
    }
}

/// chang/ju/honba/liqibang explicit non-defaults are reflected verbatim.
#[test]
fn action_new_round_propagates_chang_ju_honba_liqibang() {
    let mut bridge = MajsoulBridge::new();
    bridge.seat = Some(1);
    let msg = new_round_msg(jobj(vec![("chang", jnum(1)), ("ju", jnum(2)), ("ben", jnum(3)), ("liqibang", jnum(1)), ("doras", jarr(vec![jstr("7m")])), ("scores", jarr(vec![jnum(24000), jnum(26000), jnum(25000), jnum(25000)])), ("tiles", jarr(vec![jstr("1m"), jstr("2m"), jstr("3m"), jstr("4m"), jstr("5m"), jstr("6m"), jstr("7m"), jstr("8m"), jstr("9m"), jstr("1p"), jstr("2p"), jstr("3p"), jstr("4p")]))]));
    let events = bridge.dispatch(&msg);
    match &events[0] {
        MjaiEvent::StartKyoku {
            bakaze,
            kyoku,
            honba,
            kyotaku,
            oya,
            scores,
            ..
        } => {
            assert_eq!(bakaze, "S");
            assert_eq!(*kyoku, 3); // ju + 1
            assert_eq!(*oya, 2);
            assert_eq!(*honba, 3);
            assert_eq!(*kyotaku, 1);
            assert_eq!(scores, &[24000, 26000, 25000, 25000]);
        }
        other => panic!("expected StartKyoku, got {other:?}"),
    }
}

/// Three-player table: scores arrive as 3 ints, the 4th slot must be
/// padded with 0 to satisfy the mjai 4-seat schema.
#[test]
fn action_new_round_pads_three_player_scores() {
    let mut bridge = MajsoulBridge::new();
    bridge.seat = Some(0);
    let msg = new_round_msg(jobj(vec![("doras", jarr(vec![jstr("1m")])), ("scores", jarr(vec![jnum(35000), jnum(35000), jnum(35000)])), ("tiles", jarr(vec![jstr("1m"), jstr("2m"), jstr("3m"), jstr("4m"), jstr("5m"), jstr("6m"), jstr("7m"), jstr("8m"), jstr("9m"), jstr("1p"), jstr("2p"), jstr("3p"), jstr("4p"), jstr("0p")]))]));
    let events = bridge.dispatch(&msg);
    match &events[0] {
        MjaiEvent::StartKyoku { scores, .. } => {
            assert_eq!(scores, &[35000, 35000, 35000, 0]);
        }
        other => panic!("expected StartKyoku, got {other:?}"),
    }
}

/// Tile count mismatch with seat role must error out (no events emitted).
#[test]
fn action_new_round_seat_role_mismatch_skips() {
    let mut bridge = MajsoulBridge::new();
    // We say we're seat 0 but ju=1 (dealer is seat 1) and we got 14 tiles.
    bridge.seat = Some(0);
    let msg = new_round_msg(jobj(vec![("ju", jnum(1)), ("doras", jarr(vec![jstr("1m")])), ("scores", jarr(vec![jnum(25000), jnum(25000), jnum(25000), jnum(25000)])), ("tiles", jarr(vec![jstr("1m"), jstr("2m"), jstr("3m"), jstr("4m"), jstr("5m"), jstr("6m"), jstr("7m"), jstr("8m"), jstr("9m"), jstr("1p"), jstr("2p"), jstr("3p"), jstr("4p"), jstr("5p")]))]));
    let events = bridge.dispatch(&msg);
    assert!(events.is_empty(), "mismatch should produce no events");
}

/// ActionNewRound before authGame (seat unresolved) must skip gracefully.
#[test]
fn action_new_round_before_seat_resolved_skips() {
    let mut bridge = MajsoulBridge::new();
    let msg = new_round_msg(jobj(vec![("doras", jarr(vec![jstr("1m")])), ("scores", jarr(vec![jnum(25000), jnum(25000), jnum(25000), jnum(25000)])), ("tiles", jarr(vec![jstr("1m"), jstr("2m"), jstr("3m"), jstr("4m"), jstr("5m"), jstr("6m"), jstr("7m"), jstr("8m"), jstr("9m"), jstr("1p"), jstr("2p"), jstr("3p"), jstr("4p")]))]));
    let events = bridge.dispatch(&msg);
    assert!(events.is_empty());
}


/// Other player's draw — server omits the tile field. We must emit
/// tsumo with pai = "?" rather than fabricating one.
#[test]
fn action_deal_tile_other_player_uses_unknown() {
    let mut bridge = MajsoulBridge::new();
    bridge.seat = Some(2);
    let msg = action_msg(
        ACTION_DEAL_TILE,
        jobj(vec![("left_tile_count", jnum(68)), ("seat", jnum(1))]),
    );
    let events = bridge.dispatch(&msg);
    assert_eq!(events.len(), 1);
    match &events[0] {
        MjaiEvent::Tsumo { actor, pai } => {
            assert_eq!(*actor, 1);
            assert_eq!(pai, "?");
        }
        other => panic!("expected Tsumo, got {other:?}"),
    }
}

/// Our own draw — server tells us the actual tile, mapped through
/// `ms_to_mjai`.
#[test]
fn action_deal_tile_self_uses_real_tile() {
    let mut bridge = MajsoulBridge::new();
    bridge.seat = Some(2);
    let msg = action_msg(
        ACTION_DEAL_TILE,
        jobj(vec![("left_tile_count", jnum(67)), ("seat", jnum(2)), ("tile", jstr("0p"))]),
    );
    let events = bridge.dispatch(&msg);
    match &events[0] {
        MjaiEvent::Tsumo { actor, pai } => {
            assert_eq!(*actor, 2);
            assert_eq!(pai, "5pr"); // 0p → red five
        }
        other => panic!("expected Tsumo, got {other:?}"),
    }
}

/// Even if the server somehow includes a tile addressed to a different
/// seat, we must not leak it — mjai sees `"?"` for non-self draws.
#[test]
fn action_deal_tile_ignores_tile_for_other_seat() {
    let mut bridge = MajsoulBridge::new();
    bridge.seat = Some(2);
    let msg = action_msg(
        ACTION_DEAL_TILE,
        jobj(vec![("seat", jnum(1)), ("tile", jstr("5m"))]),
    );
    match &bridge.dispatch(&msg)[0] {
        MjaiEvent::Tsumo { actor, pai } => {
            assert_eq!(*actor, 1);
            assert_eq!(pai, "?");
        }
        other => panic!("expected Tsumo, got {other:?}"),
    }
}

/// Dealer's first discard: Majsoul omits the seat field (default 0).
/// `moqie` is also absent → tsumogiri = false.
#[test]
fn action_discard_tile_first_discard_defaults_to_seat_zero() {
    let mut bridge = MajsoulBridge::new();
    bridge.seat = Some(2);
    let msg = action_msg(ACTION_DISCARD_TILE, jobj(vec![("tile", jstr("9s"))]));
    match &bridge.dispatch(&msg)[0] {
        MjaiEvent::Dahai { actor, pai, tsumogiri } => {
            assert_eq!(*actor, 0);
            assert_eq!(pai, "9s");
            assert!(!*tsumogiri);
        }
        other => panic!("expected Dahai, got {other:?}"),
    }
}

/// Tsumogiri (`moqie: true`) — drawn-and-immediately-discarded.
#[test]
fn action_discard_tile_tsumogiri_propagates() {
    let mut bridge = MajsoulBridge::new();
    bridge.seat = Some(2);
    let msg = action_msg(
        ACTION_DISCARD_TILE,
        jobj(vec![("moqie", jbool(true)), ("seat", jnum(1)), ("tile", jstr("4z"))]),
    );
    match &bridge.dispatch(&msg)[0] {
        MjaiEvent::Dahai { actor, pai, tsumogiri } => {
            assert_eq!(*actor, 1);
            assert_eq!(pai, "N"); // 4z → N (north)
            assert!(*tsumogiri);
        }
        other => panic!("expected Dahai, got {other:?}"),
    }
}

/// Discard with `moqie:false` explicit — `tsumogiri` must be false.
#[test]
fn action_discard_tile_explicit_non_tsumogiri() {
    let mut bridge = MajsoulBridge::new();
    bridge.seat = Some(2);
    let msg = action_msg(
        ACTION_DISCARD_TILE,
        jobj(vec![("moqie", jbool(false)), ("seat", jnum(3)), ("tile", jstr("0s"))]),
    );
    match &bridge.dispatch(&msg)[0] {
        MjaiEvent::Dahai { actor, pai, tsumogiri } => {
            assert_eq!(*actor, 3);
            assert_eq!(pai, "5sr"); // red 5s
            assert!(!*tsumogiri);
        }
        other => panic!("expected Dahai, got {other:?}"),
    }
}

/// ActionDealTile before authGame must skip — we can't decide self vs other.
#[test]
fn action_deal_tile_before_seat_resolved_skips() {
    let mut bridge = MajsoulBridge::new();
    let msg = action_msg(ACTION_DEAL_TILE, jobj(vec![("seat", jnum(1)), ("tile", jstr("5m"))]));
    assert!(bridge.dispatch(&msg).is_empty());
}

/// Discard with empty/missing tile must be skipped, not turned into a
/// `dahai("")` that would crash downstream.
#[test]
fn action_discard_tile_missing_tile_skips() {
    let mut bridge = MajsoulBridge::new();
    bridge.seat = Some(0);
    assert!(bridge.dispatch(&action_msg(ACTION_DISCARD_TILE, jobj(vec![]))).is_empty());
    assert!(
        bridge
            .dispatch(&action_msg(ACTION_DISCARD_TILE, jobj(vec![("tile", jstr(""))])))
            .is_empty()
    );
}

#[test]
fn ankan_consumed_with_red_five() {
    // Ankan of 5m: must contain exactly one 5mr (the only red 5m in
    // the wall) and three regular 5m.
    let consumed = ankan_consumed("5m");
    assert_eq!(consumed, ["5mr", "5m", "5m", "5m"].map(String::from));
    let consumed = ankan_consumed("5mr");
    assert_eq!(consumed, ["5mr", "5m", "5m", "5m"].map(String::from));
}

#[test]
fn ankan_consumed_no_red_form() {
    let consumed = ankan_consumed("E");
    assert_eq!(consumed, ["E", "E", "E", "E"].map(String::from));
    let consumed = ankan_consumed("1p");
    assert_eq!(consumed, ["1p", "1p", "1p", "1p"].map(String::from));
}

#[test]
fn kakan_consumed_red_handling() {
    // Adding normal 5m on top of an existing pon → the pon must
    // already contain the red.
    assert_eq!(kakan_consumed("5m"), ["5mr", "5m", "5m"].map(String::from));
    // Adding the red 5m → existing pon was three normal 5m.
    assert_eq!(kakan_consumed("5mr"), ["5m", "5m", "5m"].map(String::from));
    // Non-five tiles never have a red form.
    assert_eq!(kakan_consumed("9p"), ["9p", "9p", "9p"].map(String::from));
}

/// Pon by us on actor 1's discard. Three of the four entries in
/// `froms` are `actor`; the one foreign seat is the discarder.
#[test]
fn action_chi_peng_gang_emits_pon() {
    let mut bridge = MajsoulBridge::new();
    bridge.seat = Some(2);
    let msg = action_msg(
        ACTION_CHI_PENG_GANG,
        jobj(vec![("seat", jnum(2)), ("type", jnum(1)), ("tiles", jarr(vec![jstr("4m"), jstr("4m"), jstr("4m")])), ("froms", jarr(vec![jnum(2), jnum(2), jnum(1)]))]),
    );
    match &bridge.dispatch(&msg)[0] {
        MjaiEvent::Pon { actor, target, pai, consumed } => {
            assert_eq!(*actor, 2);
            assert_eq!(*target, 1);
            assert_eq!(pai, "4m");
            assert_eq!(consumed, &["4m", "4m"].map(String::from));
        }
        other => panic!("expected Pon, got {other:?}"),
    }
    // pon doesn't schedule any kan-dora.
    assert!(bridge.dora_timing.is_none());
}

/// Chi from kamicha (seat 0 → seat 1). Carries red five in the run.
#[test]
fn action_chi_peng_gang_emits_chi_with_red() {
    let mut bridge = MajsoulBridge::new();
    bridge.seat = Some(1);
    let msg = action_msg(
        ACTION_CHI_PENG_GANG,
        jobj(vec![("seat", jnum(1)), ("type", jnum(0)), ("tiles", jarr(vec![jstr("3m"), jstr("4m"), jstr("0m")])), ("froms", jarr(vec![jnum(0), jnum(1), jnum(1)]))]),
    );
    match &bridge.dispatch(&msg)[0] {
        MjaiEvent::Chi { actor, target, pai, consumed } => {
            assert_eq!(*actor, 1);
            assert_eq!(*target, 0);
            assert_eq!(pai, "3m");
            assert_eq!(consumed, &["4m", "5mr"].map(String::from));
        }
        other => panic!("expected Chi, got {other:?}"),
    }
}

/// Daiminkan schedules dora 後乗り — flag must be set.
#[test]
fn action_chi_peng_gang_daiminkan_schedules_after_rinshan_dora() {
    let mut bridge = MajsoulBridge::new();
    bridge.seat = Some(2);
    let msg = action_msg(
        ACTION_CHI_PENG_GANG,
        jobj(vec![("seat", jnum(2)), ("type", jnum(2)), ("tiles", jarr(vec![jstr("7s"), jstr("7s"), jstr("7s"), jstr("7s")])), ("froms", jarr(vec![jnum(2), jnum(2), jnum(2), jnum(0)]))]),
    );
    match &bridge.dispatch(&msg)[0] {
        MjaiEvent::Daiminkan { actor, target, pai, consumed } => {
            assert_eq!(*actor, 2);
            assert_eq!(*target, 0);
            assert_eq!(pai, "7s");
            assert_eq!(consumed, &["7s", "7s", "7s"].map(String::from));
        }
        other => panic!("expected Daiminkan, got {other:?}"),
    }
    assert_eq!(bridge.dora_timing, Some(DoraTiming::PendingAfterRinshan));
}

/// Ankan: schedules dora 即乗り (before rinshan). Consumed includes red.
#[test]
fn action_an_gang_add_gang_ankan() {
    let mut bridge = MajsoulBridge::new();
    bridge.seat = Some(1);
    let msg = action_msg(
        ACTION_AN_GANG_ADD_GANG,
        jobj(vec![("seat", jnum(1)), ("type", jnum(3)), ("tiles", jstr("5m"))]),
    );
    match &bridge.dispatch(&msg)[0] {
        MjaiEvent::Ankan { actor, consumed } => {
            assert_eq!(*actor, 1);
            assert_eq!(consumed, &["5mr", "5m", "5m", "5m"].map(String::from));
        }
        other => panic!("expected Ankan, got {other:?}"),
    }
    assert_eq!(bridge.dora_timing, Some(DoraTiming::PendingBeforeRinshan));
}

/// Kakan: schedules dora 後乗り; pai is the new tile, consumed is the
/// existing 3 from the pon.
#[test]
fn action_an_gang_add_gang_kakan() {
    let mut bridge = MajsoulBridge::new();
    bridge.seat = Some(0);
    let msg = action_msg(
        ACTION_AN_GANG_ADD_GANG,
        jobj(vec![("seat", jnum(0)), ("type", jnum(2)), ("tiles", jstr("0p"))]),
    );
    match &bridge.dispatch(&msg)[0] {
        MjaiEvent::Kakan { actor, pai, consumed } => {
            assert_eq!(*actor, 0);
            assert_eq!(pai, "5pr");
            // New tile is the red, so existing 3 are normal.
            assert_eq!(consumed, &["5p", "5p", "5p"].map(String::from));
        }
        other => panic!("expected Kakan, got {other:?}"),
    }
    assert_eq!(bridge.dora_timing, Some(DoraTiming::PendingAfterRinshan));
}

/// Ankan flow end-to-end: ankan → ActionDealTile must produce
/// `[Dora, Tsumo]` in that order (即乗り).
#[test]
fn ankan_then_rinshan_emits_dora_before_tsumo() {
    let mut bridge = MajsoulBridge::new();
    bridge.seat = Some(1);
    bridge.doras = vec!["E".to_string()];

    // Ankan of 1z (E).
    bridge.dispatch(&action_msg(
        ACTION_AN_GANG_ADD_GANG,
        jobj(vec![("seat", jnum(1)), ("type", jnum(3)), ("tiles", jstr("1z"))]),
    ));

    // Rinshan deal carries the new dora marker.
    let events = bridge.dispatch(&action_msg(
        ACTION_DEAL_TILE,
        jobj(vec![("seat", jnum(1)), ("tile", jstr("5p")), ("doras", jarr(vec![jstr("1z"), jstr("2z")]))]),
    ));
    assert_eq!(events.len(), 2);
    match &events[0] {
        MjaiEvent::Dora { dora_marker } => assert_eq!(dora_marker, "S"),
        other => panic!("expected Dora first, got {other:?}"),
    }
    match &events[1] {
        MjaiEvent::Tsumo { actor, pai } => {
            assert_eq!(*actor, 1);
            assert_eq!(pai, "5p");
        }
        other => panic!("expected Tsumo second, got {other:?}"),
    }
    assert!(bridge.dora_timing.is_none());
    assert!(bridge.deferred_dora.is_none());
}

/// Daiminkan flow: daiminkan → ActionDealTile must emit only Tsumo
/// (dora deferred). Then ActionDiscardTile must prepend the dora
/// before dahai (後乗り).
#[test]
fn daiminkan_then_rinshan_then_discard_emits_dora_before_dahai() {
    let mut bridge = MajsoulBridge::new();
    bridge.seat = Some(2);
    bridge.doras = vec!["E".to_string()];

    bridge.dispatch(&action_msg(
        ACTION_CHI_PENG_GANG,
        jobj(vec![("seat", jnum(2)), ("type", jnum(2)), ("tiles", jarr(vec![jstr("7s"), jstr("7s"), jstr("7s"), jstr("7s")])), ("froms", jarr(vec![jnum(2), jnum(2), jnum(2), jnum(0)]))]),
    ));

    // Rinshan: tsumo only, dora deferred.
    let events = bridge.dispatch(&action_msg(
        ACTION_DEAL_TILE,
        jobj(vec![("seat", jnum(2)), ("tile", jstr("9p")), ("doras", jarr(vec![jstr("1z"), jstr("3z")]))]),
    ));
    assert_eq!(events.len(), 1);
    match &events[0] {
        MjaiEvent::Tsumo { actor, pai } => {
            assert_eq!(*actor, 2);
            assert_eq!(pai, "9p");
        }
        other => panic!("expected single Tsumo, got {other:?}"),
    }
    assert_eq!(bridge.deferred_dora, Some("W".to_string()));
    assert!(bridge.dora_timing.is_none());

    // Next discard: dora flushed first, then dahai.
    let events = bridge.dispatch(&action_msg(
        ACTION_DISCARD_TILE,
        jobj(vec![("seat", jnum(2)), ("tile", jstr("9p")), ("moqie", jbool(true))]),
    ));
    assert_eq!(events.len(), 2);
    match &events[0] {
        MjaiEvent::Dora { dora_marker } => assert_eq!(dora_marker, "W"),
        other => panic!("expected Dora first, got {other:?}"),
    }
    match &events[1] {
        MjaiEvent::Dahai { actor, pai, tsumogiri } => {
            assert_eq!(*actor, 2);
            assert_eq!(pai, "9p");
            assert!(*tsumogiri);
        }
        other => panic!("expected Dahai second, got {other:?}"),
    }
    assert!(bridge.deferred_dora.is_none());
}

/// Kakan follows the same 後乗り timing as daiminkan.
#[test]
fn kakan_then_rinshan_then_discard_emits_dora_before_dahai() {
    let mut bridge = MajsoulBridge::new();
    bridge.seat = Some(0);
    bridge.doras = vec!["E".to_string()];

    bridge.dispatch(&action_msg(
        ACTION_AN_GANG_ADD_GANG,
        jobj(vec![("seat", jnum(0)), ("type", jnum(2)), ("tiles", jstr("5m"))]),
    ));

    let events = bridge.dispatch(&action_msg(
        ACTION_DEAL_TILE,
        jobj(vec![("seat", jnum(0)), ("tile", jstr("1p")), ("doras", jarr(vec![jstr("1z"), jstr("4z")]))]),
    ));
    assert_eq!(events.len(), 1);
    assert!(matches!(events[0], MjaiEvent::Tsumo { .. }));
    assert_eq!(bridge.deferred_dora, Some("N".to_string()));

    let events = bridge.dispatch(&action_msg(
        ACTION_DISCARD_TILE,
        jobj(vec![("seat", jnum(0)), ("tile", jstr("1p")), ("moqie", jbool(true))]),
    ));
    assert_eq!(events.len(), 2);
    match &events[0] {
        MjaiEvent::Dora { dora_marker } => assert_eq!(dora_marker, "N"),
        other => panic!("expected Dora first, got {other:?}"),
    }
    assert!(matches!(events[1], MjaiEvent::Dahai { .. }));
}

/// Riichi declaration: dahai with `is_liqi=true` produces
/// `[reach, dahai]` and queues a reach_accepted for the next action.
#[test]
fn discard_with_is_liqi_emits_reach_then_dahai_and_queues_accept() {
    let mut bridge = MajsoulBridge::new();
    bridge.seat = Some(2);
    let events = bridge.dispatch(&action_msg(
        ACTION_DISCARD_TILE,
        jobj(vec![("seat", jnum(1)), ("tile", jstr("1z")), ("moqie", jbool(false)), ("is_liqi", jbool(true))]),
    ));
    assert_eq!(events.len(), 2);
    match &events[0] {
        MjaiEvent::Reach { actor } => assert_eq!(*actor, 1),
        other => panic!("expected Reach first, got {other:?}"),
    }
    match &events[1] {
        MjaiEvent::Dahai { actor, pai, tsumogiri } => {
            assert_eq!(*actor, 1);
            assert_eq!(pai, "E");
            assert!(!*tsumogiri);
        }
        other => panic!("expected Dahai second, got {other:?}"),
    }
    assert_eq!(bridge.pending_reach_accepted, Some(1));
}

/// Double riichi: `is_wliqi` triggers the same flow as `is_liqi`.
#[test]
fn discard_with_is_wliqi_also_triggers_reach() {
    let mut bridge = MajsoulBridge::new();
    bridge.seat = Some(0);
    let events = bridge.dispatch(&action_msg(
        ACTION_DISCARD_TILE,
        jobj(vec![("seat", jnum(0)), ("tile", jstr("9m")), ("moqie", jbool(true)), ("is_wliqi", jbool(true))]),
    ));
    assert!(matches!(events[0], MjaiEvent::Reach { actor: 0 }));
    assert_eq!(bridge.pending_reach_accepted, Some(0));
}

/// Declaration tile passes through to next player's draw — mjai spec
/// requires `reach_accepted` *before* that next tsumo.
#[test]
fn reach_accepted_drains_before_next_tsumo() {
    let mut bridge = MajsoulBridge::new();
    bridge.seat = Some(2);
    bridge.dispatch(&action_msg(
        ACTION_DISCARD_TILE,
        jobj(vec![("seat", jnum(1)), ("tile", jstr("1z")), ("is_liqi", jbool(true))]),
    ));
    let events = bridge.dispatch(&action_msg(
        ACTION_DEAL_TILE,
        jobj(vec![("seat", jnum(2)), ("tile", jstr("5p"))]),
    ));
    assert_eq!(events.len(), 2);
    match &events[0] {
        MjaiEvent::ReachAccepted { actor } => assert_eq!(*actor, 1),
        other => panic!("expected ReachAccepted first, got {other:?}"),
    }
    match &events[1] {
        MjaiEvent::Tsumo { actor, .. } => assert_eq!(*actor, 2),
        other => panic!("expected Tsumo second, got {other:?}"),
    }
    assert!(bridge.pending_reach_accepted.is_none());
}

/// Declaration tile gets called (chi/pon/daiminkan) — riichi is still
/// accepted, reach_accepted prepended to the call event.
#[test]
fn reach_accepted_drains_before_chi_pon_daiminkan() {
    let mut bridge = MajsoulBridge::new();
    bridge.seat = Some(2);
    bridge.dispatch(&action_msg(
        ACTION_DISCARD_TILE,
        jobj(vec![("seat", jnum(1)), ("tile", jstr("5m")), ("is_liqi", jbool(true))]),
    ));
    let events = bridge.dispatch(&action_msg(
        ACTION_CHI_PENG_GANG,
        jobj(vec![("seat", jnum(2)), ("type", jnum(1)), ("tiles", jarr(vec![jstr("5m"), jstr("5m"), jstr("5m")])), ("froms", jarr(vec![jnum(2), jnum(2), jnum(1)]))]),
    ));
    assert!(matches!(events[0], MjaiEvent::ReachAccepted { actor: 1 }));
    assert!(matches!(events[1], MjaiEvent::Pon { actor: 2, target: 1, .. }));
}

/// New kyoku must clear any leftover reach state.
#[test]
fn start_kyoku_resets_pending_reach_accepted() {
    let mut bridge = MajsoulBridge::new();
    bridge.seat = Some(0);
    bridge.pending_reach_accepted = Some(2);
    bridge.dispatch(&new_round_msg(jobj(vec![("doras", jarr(vec![jstr("1m")])), ("scores", jarr(vec![jnum(25000), jnum(25000), jnum(25000), jnum(25000)])), ("tiles", jarr(vec![jstr("1m"), jstr("2m"), jstr("3m"), jstr("4m"), jstr("5m"), jstr("6m"), jstr("7m"), jstr("8m"), jstr("9m"), jstr("1p"), jstr("2p"), jstr("3p"), jstr("4p"), jstr("0p")]))])));
    assert!(bridge.pending_reach_accepted.is_none());
}

/// Real ActionNoTile sample (1 human in tenpai, 3 noten) →
/// `[ryukyoku{deltas:[3000,-1000,-1000,-1000]}, end_kyoku]`.
#[test]
fn action_no_tile_emits_ryukyoku_with_deltas_then_end_kyoku() {
    let mut bridge = MajsoulBridge::new();
    bridge.seat = Some(0);
    let events = bridge.dispatch(&action_msg(
        ACTION_NO_TILE,
        jobj(vec![("gameend", jbool(false)), ("liujumanguan", jbool(false)), ("players", jarr(vec![])), ("scores", jarr(vec![jobj(vec![("delta_scores", jarr(vec![jnum(3000), jnum(-1000), jnum(-1000), jnum(-1000)])), ("old_scores", jarr(vec![jnum(25000), jnum(17300), jnum(32700), jnum(25000)])), ("seat", jnum(0))])]))]),
    ));
    assert_eq!(events.len(), 2);
    match &events[0] {
        MjaiEvent::Ryukyoku { deltas } => {
            assert_eq!(*deltas, Some(vec![3000, -1000, -1000, -1000]));
        }
        other => panic!("expected Ryukyoku first, got {other:?}"),
    }
    assert!(matches!(events[1], MjaiEvent::EndKyoku));
}

/// Multiple `scores` entries (e.g. tenpai redistribution + nagashi
/// mangan in the same frame) must be summed per seat.
#[test]
fn action_no_tile_sums_multiple_score_entries() {
    let mut bridge = MajsoulBridge::new();
    bridge.seat = Some(0);
    let events = bridge.dispatch(&action_msg(
        ACTION_NO_TILE,
        jobj(vec![("scores", jarr(vec![jobj(vec![("delta_scores", jarr(vec![jnum(1000), jnum(-500), jnum(0), jnum(-500)]))]), jobj(vec![("delta_scores", jarr(vec![jnum(500), jnum(1500), jnum(-1000), jnum(-1000)]))])]))]),
    ));
    match &events[0] {
        MjaiEvent::Ryukyoku { deltas } => {
            assert_eq!(*deltas, Some(vec![1500, 1000, -1000, -1500]));
        }
        other => panic!("expected Ryukyoku, got {other:?}"),
    }
}

/// 3p ryukyoku: `delta_scores` arrives with 3 entries; pad to 4 with 0.
#[test]
fn action_no_tile_pads_three_player_deltas() {
    let mut bridge = MajsoulBridge::new();
    bridge.seat = Some(0);
    let events = bridge.dispatch(&action_msg(
        ACTION_NO_TILE,
        jobj(vec![("scores", jarr(vec![jobj(vec![("delta_scores", jarr(vec![jnum(2000), jnum(-1000), jnum(-1000)]))])]))]),
    ));
    match &events[0] {
        MjaiEvent::Ryukyoku { deltas } => {
            assert_eq!(*deltas, Some(vec![2000, -1000, -1000, 0]));
        }
        other => panic!("expected Ryukyoku, got {other:?}"),
    }
}

/// Empty / missing `scores` → `deltas: None`.
#[test]
fn action_no_tile_without_scores_emits_no_deltas() {
    let mut bridge = MajsoulBridge::new();
    bridge.seat = Some(0);
    let events = bridge.dispatch(&action_msg(ACTION_NO_TILE, jobj(vec![])));
    match &events[0] {
        MjaiEvent::Ryukyoku { deltas } => assert!(deltas.is_none()),
        other => panic!("expected Ryukyoku, got {other:?}"),
    }
    assert!(matches!(events[1], MjaiEvent::EndKyoku));
}

/// `ActionLiuJu` (any abortive type) → `[ryukyoku{None}, end_kyoku]`.
/// No point redistribution.
#[test]
fn action_liu_ju_emits_ryukyoku_no_deltas_then_end_kyoku() {
    let mut bridge = MajsoulBridge::new();
    bridge.seat = Some(0);
    let events = bridge.dispatch(&action_msg(
        ACTION_LIU_JU,
        jobj(vec![("type", jnum(1)), ("seat", jnum(0))]),
    ));
    assert_eq!(events.len(), 2);
    match &events[0] {
        MjaiEvent::Ryukyoku { deltas } => assert!(deltas.is_none()),
        other => panic!("expected Ryukyoku, got {other:?}"),
    }
    assert!(matches!(events[1], MjaiEvent::EndKyoku));
}

/// Riichi declared on the very last possible turn, then the round
/// immediately ends in ryukyoku — `reach_accepted` must still be
/// emitted (declaration tile passed through, no ron) before the
/// terminal events.
#[test]
fn reach_accepted_drains_before_no_tile_ryukyoku() {
    let mut bridge = MajsoulBridge::new();
    bridge.seat = Some(0);
    bridge.dispatch(&action_msg(
        ACTION_DISCARD_TILE,
        jobj(vec![("seat", jnum(2)), ("tile", jstr("9p")), ("is_liqi", jbool(true))]),
    ));
    let events = bridge.dispatch(&action_msg(
        ACTION_NO_TILE,
        jobj(vec![("scores", jarr(vec![jobj(vec![("delta_scores", jarr(vec![jnum(-1500), jnum(-1500), jnum(0), jnum(-1500)]))])]))]),
    ));
    assert_eq!(events.len(), 3);
    match &events[0] {
        MjaiEvent::ReachAccepted { actor } => assert_eq!(*actor, 2),
        other => panic!("expected ReachAccepted first, got {other:?}"),
    }
    assert!(matches!(events[1], MjaiEvent::Ryukyoku { .. }));
    assert!(matches!(events[2], MjaiEvent::EndKyoku));
    assert!(bridge.pending_reach_accepted.is_none());
}

/// Real ActionHule sample (single ron, non-riichi): seat 3 rons off
/// seat 2's discard. Expected: `[Hora{actor:3, target:2, deltas, no
/// ura}, EndKyoku]`.
#[test]
fn action_hule_ron_emits_hora_then_end_kyoku() {
    let mut bridge = MajsoulBridge::new();
    bridge.seat = Some(0);
    // Simulate seat 2 having just discarded.
    bridge.dispatch(&action_msg(
        ACTION_DISCARD_TILE,
        jobj(vec![("seat", jnum(2)), ("tile", jstr("0p"))]),
    ));
    let events = bridge.dispatch(&action_msg(
        ACTION_HULE,
        jobj(vec![("delta_scores", jarr(vec![jnum(0), jnum(0), jnum(-2000), jnum(2000)])), ("old_scores", jarr(vec![jnum(25000), jnum(25000), jnum(25000), jnum(25000)])), ("scores", jarr(vec![jnum(25000), jnum(25000), jnum(23000), jnum(27000)])), ("hules", jarr(vec![jobj(vec![("seat", jnum(3)), ("zimo", jbool(false)), ("liqi", jbool(false)), ("hu_tile", jstr("0p")), ("li_doras", jarr(vec![]))])]))]),
    ));
    assert_eq!(events.len(), 2);
    match &events[0] {
        MjaiEvent::Hora { actor, target, deltas, ura_markers } => {
            assert_eq!(*actor, 3);
            assert_eq!(*target, 2);
            assert_eq!(*deltas, Some(vec![0, 0, -2000, 2000]));
            assert!(ura_markers.is_none(), "no riichi → no ura_markers");
        }
        other => panic!("expected Hora first, got {other:?}"),
    }
    assert!(matches!(events[1], MjaiEvent::EndKyoku));
}

/// Self-tsumo win: actor == target, deltas applies to self & all
/// payers, no ura when no riichi.
#[test]
fn action_hule_tsumo_actor_equals_target() {
    let mut bridge = MajsoulBridge::new();
    bridge.seat = Some(0);
    let events = bridge.dispatch(&action_msg(
        ACTION_HULE,
        jobj(vec![("delta_scores", jarr(vec![jnum(4000), jnum(-2000), jnum(-1000), jnum(-1000)])), ("hules", jarr(vec![jobj(vec![("seat", jnum(0)), ("zimo", jbool(true)), ("liqi", jbool(false))])]))]),
    ));
    match &events[0] {
        MjaiEvent::Hora { actor, target, deltas, ura_markers } => {
            assert_eq!(*actor, 0);
            assert_eq!(*target, 0);
            assert_eq!(*deltas, Some(vec![4000, -2000, -1000, -1000]));
            assert!(ura_markers.is_none());
        }
        other => panic!("expected Hora, got {other:?}"),
    }
}

/// Riichi win surfaces ura markers from `li_doras` (mjai-mapped).
#[test]
fn action_hule_riichi_win_emits_ura_markers() {
    let mut bridge = MajsoulBridge::new();
    bridge.seat = Some(0);
    bridge.dispatch(&action_msg(
        ACTION_DISCARD_TILE,
        jobj(vec![("seat", jnum(2)), ("tile", jstr("1m"))]),
    ));
    let events = bridge.dispatch(&action_msg(
        ACTION_HULE,
        jobj(vec![("delta_scores", jarr(vec![jnum(0), jnum(0), jnum(-8000), jnum(8000)])), ("hules", jarr(vec![jobj(vec![("seat", jnum(3)), ("zimo", jbool(false)), ("liqi", jbool(true)), ("li_doras", jarr(vec![jstr("7z"), jstr("0s")]))])]))]),
    ));
    match &events[0] {
        MjaiEvent::Hora { ura_markers, .. } => {
            assert_eq!(
                ura_markers.as_deref(),
                Some(&["C".to_string(), "5sr".to_string()][..]),
            );
        }
        other => panic!("expected Hora, got {other:?}"),
    }
}

/// Riichi win with `li_doras: []` still produces `Some(vec![])` so
/// consumers can tell apart "had riichi but no ura" from "no riichi".
#[test]
fn action_hule_riichi_with_empty_li_doras_is_some_empty() {
    let mut bridge = MajsoulBridge::new();
    bridge.seat = Some(0);
    bridge.dispatch(&action_msg(
        ACTION_DISCARD_TILE,
        jobj(vec![("seat", jnum(2)), ("tile", jstr("1m"))]),
    ));
    let events = bridge.dispatch(&action_msg(
        ACTION_HULE,
        jobj(vec![("delta_scores", jarr(vec![jnum(0), jnum(0), jnum(-1000), jnum(1000)])), ("hules", jarr(vec![jobj(vec![("seat", jnum(3)), ("zimo", jbool(false)), ("liqi", jbool(true)), ("li_doras", jarr(vec![]))])]))]),
    ));
    match &events[0] {
        MjaiEvent::Hora { ura_markers, .. } => {
            assert_eq!(ura_markers.as_deref(), Some(&[][..]));
        }
        other => panic!("expected Hora, got {other:?}"),
    }
}

/// Multi-ron (double): two `Hora` events then one `EndKyoku`. Same
/// total deltas attached to each.
#[test]
fn action_hule_double_ron_emits_two_hora_then_end_kyoku() {
    let mut bridge = MajsoulBridge::new();
    bridge.seat = Some(0);
    bridge.dispatch(&action_msg(
        ACTION_DISCARD_TILE,
        jobj(vec![("seat", jnum(0)), ("tile", jstr("5m"))]),
    ));
    let events = bridge.dispatch(&action_msg(
        ACTION_HULE,
        jobj(vec![("delta_scores", jarr(vec![jnum(-9000), jnum(4000), jnum(0), jnum(5000)])), ("hules", jarr(vec![jobj(vec![("seat", jnum(1)), ("zimo", jbool(false)), ("liqi", jbool(false))]), jobj(vec![("seat", jnum(3)), ("zimo", jbool(false)), ("liqi", jbool(false))])]))]),
    ));
    assert_eq!(events.len(), 3);
    match &events[0] {
        MjaiEvent::Hora { actor, target, .. } => {
            assert_eq!(*actor, 1);
            assert_eq!(*target, 0);
        }
        other => panic!("expected Hora, got {other:?}"),
    }
    match &events[1] {
        MjaiEvent::Hora { actor, target, .. } => {
            assert_eq!(*actor, 3);
            assert_eq!(*target, 0);
        }
        other => panic!("expected Hora, got {other:?}"),
    }
    assert!(matches!(events[2], MjaiEvent::EndKyoku));
}

/// Ron on the declaration tile: riichi voided, so no `reach_accepted`
/// prepended even though `pending_reach_accepted` was set by the
/// declarer's discard.
#[test]
fn action_hule_on_declaration_tile_voids_riichi() {
    let mut bridge = MajsoulBridge::new();
    bridge.seat = Some(0);
    bridge.dispatch(&action_msg(
        ACTION_DISCARD_TILE,
        jobj(vec![("seat", jnum(2)), ("tile", jstr("1z")), ("is_liqi", jbool(true))]),
    ));
    assert_eq!(bridge.pending_reach_accepted, Some(2));
    let events = bridge.dispatch(&action_msg(
        ACTION_HULE,
        jobj(vec![("delta_scores", jarr(vec![jnum(0), jnum(0), jnum(-8000), jnum(8000)])), ("hules", jarr(vec![jobj(vec![("seat", jnum(3)), ("zimo", jbool(false)), ("liqi", jbool(false)), ("hu_tile", jstr("1z"))])]))]),
    ));
    assert!(
        !events.iter().any(|e| matches!(e, MjaiEvent::ReachAccepted { .. })),
        "ron on declaration tile must NOT emit reach_accepted"
    );
    assert!(bridge.pending_reach_accepted.is_none());
    // Still emits the hora and end_kyoku.
    assert!(events.iter().any(|e| matches!(e, MjaiEvent::Hora { .. })));
    assert!(events.iter().any(|e| matches!(e, MjaiEvent::EndKyoku)));
}

/// Ron without any preceding `dahai` is malformed (no discarder to
/// target). Skip with a warning instead of guessing.
#[test]
fn action_hule_ron_without_last_revealed_tile_actor_skips() {
    let mut bridge = MajsoulBridge::new();
    bridge.seat = Some(0);
    let events = bridge.dispatch(&action_msg(
        ACTION_HULE,
        jobj(vec![("delta_scores", jarr(vec![jnum(0), jnum(0), jnum(-2000), jnum(2000)])), ("hules", jarr(vec![jobj(vec![("seat", jnum(3)), ("zimo", jbool(false))])]))]),
    ));
    assert!(events.is_empty());
}

/// 搶槓 (chankan): seat 1 declares kakan; seat 3 rons. Target must be
/// the kakan declarer (seat 1), not whoever happened to discard last.
#[test]
fn action_hule_chankan_targets_kakan_declarer() {
    let mut bridge = MajsoulBridge::new();
    bridge.seat = Some(0);
    // Earlier in the round: seat 0 discarded (this should NOT be the
    // ron target if a kakan happens in between).
    bridge.dispatch(&action_msg(
        ACTION_DISCARD_TILE,
        jobj(vec![("seat", jnum(0)), ("tile", jstr("9m"))]),
    ));
    // Seat 1 declares kakan on 5m.
    bridge.dispatch(&action_msg(
        ACTION_AN_GANG_ADD_GANG,
        jobj(vec![("seat", jnum(1)), ("type", jnum(2)), ("tiles", jstr("5m"))]),
    ));
    assert_eq!(bridge.last_revealed_tile_actor, Some(1));

    // Seat 3 rons (chankan).
    let events = bridge.dispatch(&action_msg(
        ACTION_HULE,
        jobj(vec![("delta_scores", jarr(vec![jnum(0), jnum(-8000), jnum(0), jnum(8000)])), ("hules", jarr(vec![jobj(vec![("seat", jnum(3)), ("zimo", jbool(false)), ("liqi", jbool(false)), ("hu_tile", jstr("5m"))])]))]),
    ));
    match &events[0] {
        MjaiEvent::Hora { actor, target, .. } => {
            assert_eq!(*actor, 3);
            assert_eq!(*target, 1, "chankan target must be the kakan declarer");
        }
        other => panic!("expected Hora, got {other:?}"),
    }
}

/// 国士無双搶暗槓: seat 2 declares ankan; seat 0 (holding kokushi)
/// rons. Mjai target = ankan declarer.
#[test]
fn action_hule_kokushi_robs_ankan_targets_ankan_declarer() {
    let mut bridge = MajsoulBridge::new();
    bridge.seat = Some(0);
    bridge.dispatch(&action_msg(
        ACTION_DISCARD_TILE,
        jobj(vec![("seat", jnum(3)), ("tile", jstr("9p"))]),
    ));
    // Seat 2 declares ankan on East (1z → "E").
    bridge.dispatch(&action_msg(
        ACTION_AN_GANG_ADD_GANG,
        jobj(vec![("seat", jnum(2)), ("type", jnum(3)), ("tiles", jstr("1z"))]),
    ));
    assert_eq!(bridge.last_revealed_tile_actor, Some(2));

    let events = bridge.dispatch(&action_msg(
        ACTION_HULE,
        jobj(vec![("delta_scores", jarr(vec![jnum(32000), jnum(0), jnum(-32000), jnum(0)])), ("hules", jarr(vec![jobj(vec![("seat", jnum(0)), ("zimo", jbool(false)), ("liqi", jbool(false)), ("hu_tile", jstr("1z")), ("yiman", jbool(true))])]))]),
    ));
    match &events[0] {
        MjaiEvent::Hora { actor, target, .. } => {
            assert_eq!(*actor, 0);
            assert_eq!(*target, 2, "kokushi rob ankan: target = ankan declarer");
        }
        other => panic!("expected Hora, got {other:?}"),
    }
}

/// `last_revealed_tile_actor` resets at start_kyoku — a ron in the new round must
/// not target a discarder from the previous round.
#[test]
fn start_kyoku_resets_last_revealed_tile_actor() {
    let mut bridge = MajsoulBridge::new();
    bridge.seat = Some(0);
    bridge.last_revealed_tile_actor = Some(2);
    bridge.dispatch(&new_round_msg(jobj(vec![("doras", jarr(vec![jstr("1m")])), ("scores", jarr(vec![jnum(25000), jnum(25000), jnum(25000), jnum(25000)])), ("tiles", jarr(vec![jstr("1m"), jstr("2m"), jstr("3m"), jstr("4m"), jstr("5m"), jstr("6m"), jstr("7m"), jstr("8m"), jstr("9m"), jstr("1p"), jstr("2p"), jstr("3p"), jstr("4p"), jstr("0p")]))])));
    assert!(bridge.last_revealed_tile_actor.is_none());
}

/// Earlier reach_voided test used an empty `{}` ActionHule payload.
/// With proper hule support that returns Err (no hules); ensure
/// queue still gets cleared regardless of build success.
#[test]
fn reach_voided_by_ron_on_declaration_tile() {
    let mut bridge = MajsoulBridge::new();
    bridge.seat = Some(0);
    bridge.dispatch(&action_msg(
        ACTION_DISCARD_TILE,
        jobj(vec![("seat", jnum(1)), ("tile", jstr("5m")), ("is_liqi", jbool(true))]),
    ));
    assert_eq!(bridge.pending_reach_accepted, Some(1));
    let events = bridge.dispatch(&action_msg(ACTION_HULE, jobj(vec![])));
    assert!(
        !events.iter().any(|e| matches!(e, MjaiEvent::ReachAccepted { .. })),
        "no reach_accepted on ron of declaration tile"
    );
    assert!(bridge.pending_reach_accepted.is_none());
}

/// `NotifyGameEndResult` (top-level Notify, NOT ActionPrototype) →
/// `[EndGame]`. Final standings live in the flow log; mjai's
/// `end_game` carries no payload.
#[test]
fn notify_game_end_result_emits_end_game() {
    let mut bridge = MajsoulBridge::new();
    let msg = ParsedMessage {
        msg_type: MessageType::Notify,
        msg_id: None,
        method_name: METHOD_NOTIFY_GAME_END_RESULT.to_string(),
        payload: jobj(vec![("result", jobj(vec![("players", jarr(vec![jobj(vec![("seat", jnum(1)), ("total_point", jnum(33800)), ("part_point_1", jnum(43800))]), jobj(vec![("seat", jnum(3)), ("total_point", jnum(4700)), ("part_point_1", jnum(24700))]), jobj(vec![("seat", jnum(0)), ("total_point", jnum(-9500)), ("part_point_1", jnum(20500))]), jobj(vec![("seat", jnum(2)), ("total_point", jnum(-29000)), ("part_point_1", jnum(11000))])]))]))]),
    };
    let events = bridge.dispatch(&msg);
    assert_eq!(events.len(), 1);
    assert!(matches!(events[0], MjaiEvent::EndGame));
}

/// State must reset on a new kyoku — a stray `deferred_dora` from the
/// previous round can't leak into the next.
#[test]
fn start_kyoku_resets_dora_state() {
    let mut bridge = MajsoulBridge::new();
    bridge.seat = Some(0);
    bridge.dora_timing = Some(DoraTiming::PendingBeforeRinshan);
    bridge.deferred_dora = Some("S".into());

    bridge.dispatch(&new_round_msg(jobj(vec![("doras", jarr(vec![jstr("1m")])), ("scores", jarr(vec![jnum(25000), jnum(25000), jnum(25000), jnum(25000)])), ("tiles", jarr(vec![jstr("1m"), jstr("2m"), jstr("3m"), jstr("4m"), jstr("5m"), jstr("6m"), jstr("7m"), jstr("8m"), jstr("9m"), jstr("1p"), jstr("2p"), jstr("3p"), jstr("4p"), jstr("0p")]))])));
    assert!(bridge.dora_timing.is_none());
    assert!(bridge.deferred_dora.is_none());
    assert_eq!(bridge.doras, vec!["1m".to_string()]);
}
