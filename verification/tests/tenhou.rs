use akagi::tenhou::{Meld, MeldKind, State};
use akagi::tile::{tenhou_to_mjai, tenhou_to_mjai_one};

#[test]
fn chi_decodes_to_three_consecutive_man_tiles() {
    let m = Meld::parse(0x404f);
    assert_eq!(m.kind, MeldKind::Chi);
    assert_eq!(m.target_rel, 3);
    assert_eq!(m.tiles.len(), 3);
    let types: Vec<u32> = m.tiles.iter().map(|&i| i / 4).collect();
    let mut sorted = types.clone();
    sorted.sort();
    assert_eq!(sorted[1] - sorted[0], 1);
    assert_eq!(sorted[2] - sorted[1], 1);
    assert_eq!(sorted[0] / 9, sorted[2] / 9);
}

#[test]
fn pon_decodes_to_three_same_type_tiles() {
    let m = Meld::parse(47625);
    assert_eq!(m.kind, MeldKind::Pon);
    assert_eq!(m.tiles.len(), 3);
    let t = m.tiles[0] / 4;
    assert!(m.tiles.iter().all(|&i| i / 4 == t));
    assert!(m.unused.is_some());
    assert_eq!(m.unused.unwrap() / 4, t);
}

#[test]
fn kakan_decodes_with_added_tile_first() {
    let m = Meld::parse(16);
    assert_eq!(m.kind, MeldKind::Kakan);
    assert_eq!(m.tiles.len(), 4);
    let t = m.tiles[0] / 4;
    assert_eq!(t, 0);
    assert!(m.tiles.iter().all(|&i| i / 4 == t));
    assert_eq!(m.exposed().len(), 1);
    assert_eq!(m.consumed().len(), 3);
}

#[test]
fn ankan_target_is_zero_and_consumed_is_four() {
    let m = Meld::parse(4096);
    assert_eq!(m.kind, MeldKind::Ankan);
    assert_eq!(m.target_rel, 0);
    assert_eq!(m.tiles.len(), 4);
    let t = m.tiles[0] / 4;
    assert!(m.tiles.iter().all(|&i| i / 4 == t));
    assert_eq!(m.consumed().len(), 4);
    assert_eq!(m.exposed().len(), 4);
}

#[test]
fn daiminkan_target_is_nonzero() {
    let m = Meld::parse(4097);
    assert_eq!(m.kind, MeldKind::Daiminkan);
    assert_eq!(m.target_rel, 1);
    assert_eq!(m.tiles.len(), 4);
    assert_eq!(m.consumed().len(), 3);
    assert_eq!(m.exposed().len(), 3);
}

#[test]
fn nukidora_low_six_bits_match() {
    let m: u32 = 0x20;
    assert_eq!(m & 0x3F, 0x20);
}

#[test]
fn yonma_seat_round_trip() {
    let mut s = State::default();
    s.seat = 2;
    for abs in 0..4u8 {
        let rel = s.abs_to_rel(abs);
        assert_eq!(s.rel_to_abs(rel), abs);
    }
}

#[test]
fn sanma_seat_round_trip() {
    let mut s = State::default();
    s.num_players = 3;
    s.is_3p = true;
    s.seat = 1;
    for abs in 0..3u8 {
        let rel = s.abs_to_rel(abs);
        assert_eq!(s.rel_to_abs(rel), abs);
    }
}

#[test]
fn man_pin_sou_basics() {
    assert_eq!(tenhou_to_mjai_one(0), "1m");
    assert_eq!(tenhou_to_mjai_one(35), "9m");
    assert_eq!(tenhou_to_mjai_one(36), "1p");
    assert_eq!(tenhou_to_mjai_one(71), "9p");
    assert_eq!(tenhou_to_mjai_one(72), "1s");
    assert_eq!(tenhou_to_mjai_one(107), "9s");
}

#[test]
fn red_doras() {
    assert_eq!(tenhou_to_mjai_one(16), "5mr");
    assert_eq!(tenhou_to_mjai_one(52), "5pr");
    assert_eq!(tenhou_to_mjai_one(88), "5sr");
    assert_eq!(tenhou_to_mjai_one(17), "5m");
    assert_eq!(tenhou_to_mjai_one(53), "5p");
    assert_eq!(tenhou_to_mjai_one(89), "5s");
}

#[test]
fn honors() {
    assert_eq!(tenhou_to_mjai_one(108), "E");
    assert_eq!(tenhou_to_mjai_one(112), "S");
    assert_eq!(tenhou_to_mjai_one(116), "W");
    assert_eq!(tenhou_to_mjai_one(120), "N");
    assert_eq!(tenhou_to_mjai_one(124), "P");
    assert_eq!(tenhou_to_mjai_one(128), "F");
    assert_eq!(tenhou_to_mjai_one(132), "C");
}

#[test]
fn out_of_range_is_unknown() {
    assert_eq!(tenhou_to_mjai_one(200), "?");
}

#[test]
fn vector_form() {
    let v = tenhou_to_mjai(&[0, 16, 108]);
    assert_eq!(v, vec!["1m", "5mr", "E"]);
}

// ---- further cases ----

#[test]
fn red_five_only_at_the_three_red_indices() {
    for index in 0..136u32 {
        let t = tenhou_to_mjai_one(index);
        let red = index == 16 || index == 52 || index == 88;
        assert_eq!(t.ends_with('r'), red, "index {index} gave {t}");
    }
}

#[test]
fn index_135_is_last_honor_and_136_unknown() {
    assert_eq!(tenhou_to_mjai_one(135), "C");
    assert_eq!(tenhou_to_mjai_one(136), "?");
}

#[test]
fn seat_round_trip_from_relative_side() {
    let mut s = State::default();
    s.seat = 3;
    for rel in 0..4u8 {
        let abs = s.rel_to_abs(rel);
        assert_eq!(s.abs_to_rel(abs), rel);
    }
    assert_eq!(s.rel_to_abs(0), 3);
    assert_eq!(s.rel_to_abs(1), 0);
}

#[test]
fn reset_for_kyoku_clears_round_state() {
    let mut s = State::default();
    s.hand = vec![1, 2, 3];
    s.in_riichi = true;
    s.live_wall = 3;
    s.is_tsumo = true;
    s.seat = 2;
    s.reset_for_kyoku();
    assert!(s.hand.is_empty());
    assert!(s.melds.is_empty());
    assert!(!s.in_riichi);
    assert_eq!(s.live_wall, 70);
    assert_eq!(s.seat, 2);
}

#[test]
fn pon_pai_and_consumed_names() {
    let m = Meld::parse(47625);
    assert_eq!(m.pai(), "P");
    assert_eq!(m.consumed(), vec!["P", "P"]);
    assert_eq!(m.unused, Some(124));
    assert_eq!(m.tiles, vec![125, 126, 127]);
}
