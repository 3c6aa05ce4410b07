//! Majsoul protocol bridge: decoded `lq.*` messages → mjai events.
//!
//! One [`MajsoulBridge`] per WebSocket flow. It resolves our seat from the
//! `authGame` exchange, then translates every `ActionPrototype` notify into
//! mjai events while tracking the state mjai needs that Majsoul does not
//! send: dora-flip timing around kans, the pending riichi acceptance, and
//! the seat whose last action revealed a tile another seat could ron.
use vstd::prelude::*;
use crate::json::{JsonValue, str_eq, get, as_u64, as_i64, as_bool, as_str, as_array, get_u64, get_i64, get_bool, get_str, get_array};
use crate::mjai::{MjaiEvent, Ev, Actor, ev_views};
use crate::tile::{
    views, spec_ms_tile, sorted_tiles, spec_ankan_consumed, spec_kakan_consumed, ms_to_mjai,
    unknown_tile, owned, sort_tiles, ankan_consumed, kakan_consumed,
};

verus! {

// ---------------------------------------------------------------------------
// Spec: plain-value helpers
// ---------------------------------------------------------------------------

/// A JSON integer that fits in `i32`.
pub open spec fn i32_of(v: JsonValue) -> Option<i32> {
    match as_i64(Some(v)) {
        Some(n) => if i32::MIN <= n <= i32::MAX {
            Some(n as i32)
        } else {
            None
        },
        None => None,
    }
}

pub open spec fn min4(n: int) -> int {
    if n < 4 {
        n
    } else {
        4
    }
}

/// The first `n` entries of `arr` as `i32`s.
pub open spec fn parse_prefix(arr: Seq<JsonValue>, n: int) -> Option<Seq<i32>>
    decreases n,
{
    if n <= 0 {
        Some(Seq::empty())
    } else {
        match (parse_prefix(arr, n - 1), i32_of(arr[n - 1])) {
            (Some(p), Some(x)) => Some(p.push(x)),
            _ => None,
        }
    }
}

/// Four zeros after the first `n` slots.
pub open spec fn zeros(n: int) -> Seq<i32> {
    Seq::new((4 - n) as nat, |i: int| 0i32)
}

/// A per-seat integer list: the first four entries of `arr` (each an `i32`),
/// padded with zeros to four seats. `None` if one of them is not an `i32`.
pub open spec fn spec_parse_four(arr: Seq<JsonValue>) -> Option<Seq<i32>> {
    match parse_prefix(arr, min4(arr.len() as int)) {
        Some(p) => Some(p + zeros(min4(arr.len() as int))),
        None => None,
    }
}

/// `a + b` clamped to the `i32` range.
pub open spec fn sat_add(a: i32, b: i32) -> i32 {
    if a + b > i32::MAX {
        i32::MAX
    } else if a + b < i32::MIN {
        i32::MIN
    } else {
        (a + b) as i32
    }
}

/// Add the first `m` entries of `d` into `total`, seat by seat.
pub open spec fn add_prefix(total: Seq<i32>, d: Seq<JsonValue>, m: int) -> Option<Seq<i32>>
    decreases m,
{
    if m <= 0 {
        Some(total)
    } else {
        match (add_prefix(total, d, m - 1), i32_of(d[m - 1])) {
            (Some(t), Some(x)) => Some(t.update(m - 1, sat_add(t[m - 1], x))),
            _ => None,
        }
    }
}

/// Per-seat sum of the `delta_scores` of the first `n` score entries.
pub open spec fn sum_entries(a: Seq<JsonValue>, n: int) -> Option<Seq<i32>>
    decreases n,
{
    if n <= 0 {
        Some(seq![0i32, 0i32, 0i32, 0i32])
    } else {
        match sum_entries(a, n - 1) {
            Some(prev) => match as_array(get(a[n - 1], "delta_scores"@)) {
                Some(d) => add_prefix(prev, d, min4(d.len() as int)),
                None => Some(prev),
            },
            None => None,
        }
    }
}

/// `ActionNoTile.scores[*].delta_scores` summed per seat: `Some(None)` when
/// there are no score entries, `None` when an entry is not an `i32`.
pub open spec fn spec_sum_delta_scores(data: JsonValue) -> Option<Option<Seq<i32>>> {
    match as_array(get(data, "scores"@)) {
        Some(a) => if a.len() == 0 {
            Some(None)
        } else {
            match sum_entries(a, a.len() as int) {
                Some(t) => Some(Some(t)),
                None => None,
            }
        },
        None => Some(None),
    }
}

/// Nickname of account `id` in `players` (the last entry carrying both an
/// `account_id` and a `nickname` wins).
pub open spec fn nickname_of(players: Seq<JsonValue>, id: u64) -> Option<Seq<char>>
    decreases players.len(),
{
    if players.len() == 0 {
        None
    } else {
        let p = players.last();
        if as_u64(get(p, "account_id"@)) == Some(id) && as_str(get(p, "nickname"@)) is Some {
            as_str(get(p, "nickname"@))
        } else {
            nickname_of(players.drop_last(), id)
        }
    }
}

/// Display name of seat `i`: the nickname of the account at `seat_list[i]`,
/// or `""` for robots, unknown accounts and missing seats.
pub open spec fn seat_name(players: Seq<JsonValue>, seat_list: Seq<JsonValue>, i: int) -> Seq<char> {
    if i < seat_list.len() {
        match as_u64(Some(seat_list[i])) {
            Some(id) => match nickname_of(players, id) {
                Some(n) => n,
                None => Seq::empty(),
            },
            None => Seq::empty(),
        }
    } else {
        Seq::empty()
    }
}

pub open spec fn players_of(payload: JsonValue) -> Seq<JsonValue> {
    match as_array(get(payload, "players"@)) {
        Some(p) => p,
        None => Seq::empty(),
    }
}

/// The four seat names of an `authGame` response.
pub open spec fn spec_names(payload: JsonValue, seat_list: Seq<JsonValue>) -> Seq<Seq<char>> {
    Seq::new(4, |i: int| seat_name(players_of(payload), seat_list, i))
}

/// Index of the first entry of `s` equal to the integer `id`.
pub open spec fn find_account(s: Seq<JsonValue>, id: u64) -> Option<int>
    decreases s.len(),
{
    if s.len() == 0 {
        None
    } else {
        match find_account(s.drop_last(), id) {
            Some(i) => Some(i),
            None => if as_u64(Some(s.last())) == Some(id) {
                Some(s.len() - 1)
            } else {
                None
            },
        }
    }
}


// ---------------------------------------------------------------------------
// Spec: bridge state and the per-action translations
// ---------------------------------------------------------------------------

/// When the dora revealed by a kan reaches the mjai stream.
#[derive(Debug, Clone, Copy, PartialEq, Eq)]
pub enum DoraTiming {
    /// Ankan just declared: the next deal carries the new marker, which is
    /// emitted *before* the rinshan `tsumo`.
    PendingBeforeRinshan,
    /// Kakan or daiminkan just declared: the rinshan `tsumo` comes first and
    /// the new marker is held until just before the next `dahai`.
    PendingAfterRinshan,
}

/// Abstract state of a bridge.
pub struct BridgeView {
    pub account_id: Option<u64>,
    pub seat: Option<u8>,
    pub doras: Seq<Seq<char>>,
    pub dora_timing: Option<DoraTiming>,
    pub deferred_dora: Option<Seq<char>>,
    pub last_revealed_tile_actor: Option<u8>,
    pub pending_reach_accepted: Option<u8>,
}

pub open spec fn opt_view(s: Option<String>) -> Option<Seq<char>> {
    match s {
        Some(x) => Some(x@),
        None => None,
    }
}

/// `data.seat`, defaulting to 0, truncated to a seat byte.
pub open spec fn seat_or_zero(data: JsonValue) -> u8 {
    match as_u64(get(data, "seat"@)) {
        Some(n) => n as u8,
        None => 0,
    }
}

pub open spec fn flag(data: JsonValue, key: Seq<char>) -> bool {
    match as_bool(get(data, key)) {
        Some(b) => b,
        None => false,
    }
}

/// Detect a newly revealed dora marker in `data.doras`: when the list grew
/// past the markers seen so far, its last entry (mapped to mjai) is new.
/// Returns the updated marker list and the new marker, or `None` when that
/// entry is not a tile.
pub open spec fn spec_new_dora(doras: Seq<Seq<char>>, data: JsonValue) -> Option<(Seq<Seq<char>>, Option<Seq<char>>)> {
    match as_array(get(data, "doras"@)) {
        None => Some((doras, None)),
        Some(arr) => if arr.len() <= doras.len() {
            Some((doras, None))
        } else {
            match as_str(Some(arr.last())) {
                Some(raw) => match spec_ms_tile(raw) {
                    Some(m) => Some((doras.push(m), Some(m))),
                    None => None,
                },
                None => None,
            }
        },
    }
}

/// `ActionDealTile` → `tsumo` (our own draw shows the tile, other seats'
/// draws are `"?"`), with a kan's new dora placed by the pending timing.
pub open spec fn spec_deal_tile(st: BridgeView, data: JsonValue) -> Option<(BridgeView, Seq<Ev>)> {
    let actor = seat_or_zero(data);
    let raw = match as_str(get(data, "tile"@)) {
        Some(t) => t,
        None => Seq::empty(),
    };
    match st.seat {
        None => None,
        Some(me) => {
            let pai = if actor == me && raw.len() != 0 {
                spec_ms_tile(raw)
            } else {
                Some(seq!['?'])
            };
            match (pai, spec_new_dora(st.doras, data)) {
                (Some(pai), Some((doras, marker))) => {
                    let tsumo = Ev::Tsumo { actor, pai };
                    let st1 = BridgeView { doras, dora_timing: None, ..st };
                    match marker {
                        Some(m) => if st.dora_timing == Some(DoraTiming::PendingAfterRinshan) {
                            Some((BridgeView { deferred_dora: Some(m), ..st1 }, seq![tsumo]))
                        } else {
                            Some((st1, seq![Ev::Dora { dora_marker: m }, tsumo]))
                        },
                        None => Some((st1, seq![tsumo])),
                    }
                },
                _ => None,
            }
        },
    }
}

/// `ActionDiscardTile` → `dahai`, preceded by a held-back dora and by
/// `reach` on a riichi declaration (which queues `reach_accepted`).
pub open spec fn spec_discard_tile(st: BridgeView, data: JsonValue) -> Option<(BridgeView, Seq<Ev>)> {
    let actor = seat_or_zero(data);
    match as_str(get(data, "tile"@)) {
        None => None,
        Some(raw) => if raw.len() == 0 {
            None
        } else {
            match spec_ms_tile(raw) {
                None => None,
                Some(pai) => {
                    let tsumogiri = flag(data, "moqie"@);
                    let riichi = flag(data, "is_liqi"@) || flag(data, "is_wliqi"@);
                    let dora = match st.deferred_dora {
                        Some(m) => seq![Ev::Dora { dora_marker: m }],
                        None => Seq::empty(),
                    };
                    let reach = if riichi {
                        seq![Ev::Reach { actor }]
                    } else {
                        Seq::empty()
                    };
                    let st1 = BridgeView {
                        deferred_dora: None,
                        pending_reach_accepted: if riichi {
                            Some(actor)
                        } else {
                            st.pending_reach_accepted
                        },
                        last_revealed_tile_actor: Some(actor),
                        ..st
                    };
                    Some((st1, dora + reach + seq![Ev::Dahai { actor, pai, tsumogiri }]))
                },
            }
        },
    }
}

/// Split the tiles of a call by who supplied them: tiles from `actor` are
/// consumed, the (last) foreign one is the called tile and its seat the
/// target. Covers the first `n` tiles; `None` on a malformed entry.
pub open spec fn split_call(tiles: Seq<JsonValue>, froms: Seq<JsonValue>, actor: u8, n: int)
    -> Option<(u8, Seq<char>, Seq<Seq<char>>)>
    decreases n,
{
    if n <= 0 {
        Some((actor, Seq::empty(), Seq::empty()))
    } else {
        match (split_call(tiles, froms, actor, n - 1), as_u64(Some(froms[n - 1])), as_str(Some(tiles[n - 1]))) {
            (Some((target, pai, consumed)), Some(from), Some(raw)) => match spec_ms_tile(raw) {
                Some(t) => if from as u8 == actor {
                    Some((target, pai, consumed.push(t)))
                } else {
                    Some((from as u8, t, consumed))
                },
                None => None,
            },
            _ => None,
        }
    }
}

/// `ActionChiPengGang` → `chi` (type 0) / `pon` (1) / `daiminkan` (2).
pub open spec fn spec_chi_peng_gang(st: BridgeView, data: JsonValue) -> Option<(BridgeView, Seq<Ev>)> {
    match (as_u64(get(data, "seat"@)), as_u64(get(data, "type"@)), as_array(get(data, "tiles"@)), as_array(get(data, "froms"@))) {
        (Some(a), Some(kind), Some(tiles), Some(froms)) => {
            let actor = a as u8;
            if tiles.len() != froms.len() {
                None
            } else {
                match split_call(tiles, froms, actor, tiles.len() as int) {
                    None => None,
                    Some((target, pai, consumed)) => if target == actor || pai.len() == 0 {
                        None
                    } else if kind == 0 && consumed.len() == 2 {
                        Some((st, seq![Ev::Chi { actor, target, pai, consumed }]))
                    } else if kind == 1 && consumed.len() == 2 {
                        Some((st, seq![Ev::Pon { actor, target, pai, consumed }]))
                    } else if kind == 2 && consumed.len() == 3 {
                        Some((
                            BridgeView { dora_timing: Some(DoraTiming::PendingAfterRinshan), ..st },
                            seq![Ev::Daiminkan { actor, target, pai, consumed }],
                        ))
                    } else {
                        None
                    },
                }
            }
        },
        _ => None,
    }
}

/// `ActionAnGangAddGang` → `ankan` (type 3) or `kakan` (type 2); either
/// reveals a tile another seat may rob.
pub open spec fn spec_an_gang_add_gang(st: BridgeView, data: JsonValue) -> Option<(BridgeView, Seq<Ev>)> {
    match (as_u64(get(data, "seat"@)), as_u64(get(data, "type"@)), as_str(get(data, "tiles"@))) {
        (Some(a), Some(kind), Some(raw)) => match spec_ms_tile(raw) {
            None => None,
            Some(pai) => {
                let actor = a as u8;
                let st1 = BridgeView { last_revealed_tile_actor: Some(actor), ..st };
                if kind == 3 {
                    Some((
                        BridgeView { dora_timing: Some(DoraTiming::PendingBeforeRinshan), ..st1 },
                        seq![Ev::Ankan { actor, consumed: spec_ankan_consumed(pai) }],
                    ))
                } else if kind == 2 {
                    Some((
                        BridgeView { dora_timing: Some(DoraTiming::PendingAfterRinshan), ..st1 },
                        seq![Ev::Kakan { actor, pai, consumed: spec_kakan_consumed(pai) }],
                    ))
                } else {
                    None
                }
            },
        },
        _ => None,
    }
}

/// `ActionNoTile` (exhaustive draw) → `ryukyoku` with the summed deltas,
/// then `end_kyoku`.
pub open spec fn spec_no_tile(st: BridgeView, data: JsonValue) -> Option<(BridgeView, Seq<Ev>)> {
    match spec_sum_delta_scores(data) {
        Some(deltas) => Some((st, seq![Ev::Ryukyoku { deltas }, Ev::EndKyoku])),
        None => None,
    }
}

/// `ActionLiuJu` (abortive draw) → `ryukyoku` without deltas, `end_kyoku`.
pub open spec fn spec_liu_ju(st: BridgeView) -> Option<(BridgeView, Seq<Ev>)> {
    Some((st, seq![Ev::Ryukyoku { deltas: None }, Ev::EndKyoku]))
}

/// Majsoul tiles of a JSON list, each mapped to mjai; `None` if one is not
/// a tile string.
pub open spec fn ms_tiles(a: Seq<JsonValue>, n: int) -> Option<Seq<Seq<char>>>
    decreases n,
{
    if n <= 0 {
        Some(Seq::empty())
    } else {
        match (ms_tiles(a, n - 1), as_str(Some(a[n - 1]))) {
            (Some(p), Some(raw)) => match spec_ms_tile(raw) {
                Some(t) => Some(p.push(t)),
                None => None,
            },
            _ => None,
        }
    }
}

/// Ura markers of one winner: revealed only for a riichi win (`Some` even
/// when the list is empty or absent).
pub open spec fn spec_ura(hule: JsonValue) -> Option<Option<Seq<Seq<char>>>> {
    if flag(hule, "liqi"@) {
        match as_array(get(hule, "li_doras"@)) {
            None => Some(Some(Seq::empty())),
            Some(a) => match ms_tiles(a, a.len() as int) {
                Some(t) => Some(Some(t)),
                None => None,
            },
        }
    } else {
        Some(None)
    }
}

/// The `hora` events of the first `n` winners.
pub open spec fn hora_events(st: BridgeView, hules: Seq<JsonValue>, deltas: Option<Seq<i32>>, n: int) -> Option<Seq<Ev>>
    decreases n,
{
    if n <= 0 {
        Some(Seq::empty())
    } else {
        let h = hules[n - 1];
        match (hora_events(st, hules, deltas, n - 1), as_u64(get(h, "seat"@)), spec_ura(h)) {
            (Some(prev), Some(a), Some(ura_markers)) => {
                let actor = a as u8;
                if flag(h, "zimo"@) {
                    Some(prev.push(Ev::Hora { actor, target: actor, deltas, ura_markers }))
                } else {
                    match st.last_revealed_tile_actor {
                        Some(target) => Some(prev.push(Ev::Hora { actor, target, deltas, ura_markers })),
                        None => None,
                    }
                }
            },
            _ => None,
        }
    }
}

/// `data.delta_scores` of `ActionHule` as a per-seat list, if present.
pub open spec fn hule_deltas(data: JsonValue) -> Option<Option<Seq<i32>>> {
    match as_array(get(data, "delta_scores"@)) {
        None => Some(None),
        Some(a) => match spec_parse_four(a) {
            Some(d) => Some(Some(d)),
            None => None,
        },
    }
}

/// `ActionHule` → one `hora` per winner (ron targets the seat that last
/// revealed a tile), then `end_kyoku`.
pub open spec fn spec_hule(st: BridgeView, data: JsonValue) -> Option<(BridgeView, Seq<Ev>)> {
    match as_array(get(data, "hules"@)) {
        None => None,
        Some(hules) => if hules.len() == 0 {
            None
        } else {
            match hule_deltas(data) {
                None => None,
                Some(d) => match hora_events(st, hules, d, hules.len() as int) {
                    Some(evs) => Some((st, evs.push(Ev::EndKyoku))),
                    None => None,
                },
            }
        },
    }
}

/// A row of thirteen unknown tiles.
pub open spec fn unknown_row() -> Seq<Seq<char>> {
    Seq::new(13, |i: int| seq!['?'])
}

/// Four rows of unknown tiles with `row` at `seat`.
pub open spec fn tehais_with(seat: u8, row: Seq<Seq<char>>) -> Seq<Seq<Seq<char>>> {
    Seq::new(4, |i: int| unknown_row()).update(seat as int, row)
}

pub open spec fn bakaze_of(chang: u64) -> Option<Seq<char>> {
    if chang as usize == 0 {
        Some(seq!['E'])
    } else if chang as usize == 1 {
        Some(seq!['S'])
    } else if chang as usize == 2 {
        Some(seq!['W'])
    } else if chang as usize == 3 {
        Some(seq!['N'])
    } else {
        None
    }
}

pub open spec fn u64_or_zero(data: JsonValue, key: Seq<char>) -> u64 {
    match as_u64(get(data, key)) {
        Some(n) => n,
        None => 0,
    }
}

/// The first dora marker of `ActionNewRound`, mapped to mjai.
pub open spec fn first_dora(data: JsonValue) -> Option<Seq<char>> {
    match as_array(get(data, "doras"@)) {
        Some(a) => if a.len() > 0 {
            match as_str(Some(a[0])) {
                Some(raw) => spec_ms_tile(raw),
                None => None,
            }
        } else {
            None
        },
        None => None,
    }
}

/// `ActionNewRound` → `start_kyoku` (our row sorted, other rows unknown)
/// followed by the dealer's first `tsumo`: the 14th tile when we deal,
/// `"?"` otherwise. Resets all per-kyoku bookkeeping.
pub open spec fn spec_new_round(st: BridgeView, data: JsonValue) -> Option<(BridgeView, Seq<Ev>)> {
    let oya = u64_or_zero(data, "ju"@) as u8;
    let honba = u64_or_zero(data, "ben"@) as u8;
    let kyotaku = u64_or_zero(data, "liqibang"@) as u8;
    match (st.seat, bakaze_of(u64_or_zero(data, "chang"@)), first_dora(data)) {
        (Some(seat), Some(bakaze), Some(dora_marker)) => match (as_array(get(data, "scores"@)), as_array(get(data, "tiles"@))) {
            (Some(sc), Some(raw)) => match (spec_parse_four(sc), ms_tiles(raw, raw.len() as int)) {
                (Some(scores), Some(mine)) => {
                    let st1 = BridgeView {
                        doras: seq![dora_marker],
                        dora_timing: None,
                        deferred_dora: None,
                        last_revealed_tile_actor: None,
                        pending_reach_accepted: None,
                        ..st
                    };
                    let kyoku = if oya == 255 { 0u8 } else { (oya + 1) as u8 };
                    if seat >= 4 {
                        None
                    } else if mine.len() == 13 && oya != seat {
                        Some((st1, seq![
                            Ev::StartKyoku { bakaze, dora_marker, kyoku, honba, kyotaku, oya, scores,
                                tehais: tehais_with(seat, sorted_tiles(mine)) },
                            Ev::Tsumo { actor: oya, pai: seq!['?'] },
                        ]))
                    } else if mine.len() == 14 && oya == seat {
                        Some((st1, seq![
                            Ev::StartKyoku { bakaze, dora_marker, kyoku, honba, kyotaku, oya, scores,
                                tehais: tehais_with(seat, sorted_tiles(mine.take(13))) },
                            Ev::Tsumo { actor: seat, pai: mine[13] },
                        ]))
                    } else {
                        None
                    }
                },
                _ => None,
            },
            _ => None,
        },
        _ => None,
    }
}

pub open spec fn action_is(payload: JsonValue, name: Seq<char>) -> bool {
    as_str(get(payload, "name"@)) == Some(name)
}

/// Translation of one `ActionPrototype` whose name is `name`.
pub open spec fn spec_action(st: BridgeView, name: Seq<char>, data: JsonValue) -> Option<Option<(BridgeView, Seq<Ev>)>> {
    if name == "ActionNewRound"@ {
        Some(spec_new_round(st, data))
    } else if name == "ActionDealTile"@ {
        Some(spec_deal_tile(st, data))
    } else if name == "ActionDiscardTile"@ {
        Some(spec_discard_tile(st, data))
    } else if name == "ActionChiPengGang"@ {
        Some(spec_chi_peng_gang(st, data))
    } else if name == "ActionAnGangAddGang"@ {
        Some(spec_an_gang_add_gang(st, data))
    } else if name == "ActionNoTile"@ {
        Some(spec_no_tile(st, data))
    } else if name == "ActionLiuJu"@ {
        Some(spec_liu_ju(st))
    } else if name == "ActionHule"@ {
        Some(spec_hule(st, data))
    } else {
        None
    }
}

/// `.lq.ActionPrototype` notify. A queued `reach_accepted` is emitted first
/// (riichi accepted once the declaration tile passed) unless the action is a
/// win on that tile (riichi void, queue dropped) or another discard (queue
/// kept). An action that cannot be translated yields no events of its own
/// and leaves the state as it was, apart from the queue.
pub open spec fn spec_action_prototype(st: BridgeView, payload: JsonValue) -> (BridgeView, Seq<Ev>) {
    match (as_str(get(payload, "name"@)), get(payload, "data"@)) {
        (Some(name), Some(data)) => {
            let is_hule = name == "ActionHule"@;
            let keeps = is_hule || name == "ActionDiscardTile"@;
            let pending = if keeps {
                None
            } else {
                st.pending_reach_accepted
            };
            let st1 = if keeps && !is_hule {
                st
            } else {
                BridgeView { pending_reach_accepted: None, ..st }
            };
            let prefix = match pending {
                Some(a) => seq![Ev::ReachAccepted { actor: a }],
                None => Seq::empty(),
            };
            match spec_action(st1, name, data) {
                None => (st1, Seq::empty()),
                Some(None) => (st1, prefix),
                Some(Some((st2, evs))) => (st2, prefix + evs),
            }
        },
        _ => (st, Seq::empty()),
    }
}

/// `authGame` response: our seat is the index of our account in
/// `seat_list`; emits `start_game` with the seat names and our seat.
pub open spec fn spec_auth_response(st: BridgeView, payload: JsonValue) -> (BridgeView, Seq<Ev>) {
    match (st.account_id, as_array(get(payload, "seat_list"@))) {
        (Some(account), Some(seat_list)) => match find_account(seat_list, account) {
            Some(i) => {
                let seat = i as u8;
                (
                    BridgeView { seat: Some(seat), ..st },
                    seq![Ev::StartGame { names: spec_names(payload, seat_list), kyoku_first: None, aka_flag: None, id: Some(seat) }],
                )
            },
            None => (st, Seq::empty()),
        },
        _ => (st, Seq::empty()),
    }
}


// ---------------------------------------------------------------------------
// Executable helpers
// ---------------------------------------------------------------------------

fn int32_of(v: &JsonValue) -> (r: Option<i32>)
    ensures
        r == i32_of(*v),
{
    match v.as_i64() {
        Some(n) => if i32::MIN as i64 <= n && n <= i32::MAX as i64 {
            Some(n as i32)
        } else {
            None
        },
        None => None,
    }
}

/// Parse a per-seat integer list: the first four entries as `i32`, padded
/// with zeros (three-player tables send three entries).
pub fn parse_four(arr: &Vec<JsonValue>) -> (r: Option<Vec<i32>>)
    ensures
        match spec_parse_four(arr@) {
            Some(s) => r matches Some(v) && v@ == s,
            None => r is None,
        },
{
    let m = if arr.len() < 4 {
        arr.len()
    } else {
        4
    };
    let mut out: Vec<i32> = vec![0i32, 0i32, 0i32, 0i32];
    assert(out@ =~= Seq::<i32>::empty() + zeros(0));
    let mut i: usize = 0;
    while i < m
        invariant
            m == min4(arr@.len() as int),
            i <= m,
            m <= 4,
            out@.len() == 4,
            parse_prefix(arr@, i as int) is Some,
            out@ == parse_prefix(arr@, i as int).unwrap() + zeros(i as int),
        decreases m - i,
    {
        match int32_of(&arr[i]) {
            Some(x) => {
                let ghost p = parse_prefix(arr@, i as int).unwrap();
                out.set(i, x);
                assert(out@ =~= p.push(x) + zeros(i + 1));
            },
            None => {
                proof {
                    lemma_parse_prefix_none(arr@, i + 1, m as int);
                }
                return None;
            },
        }
        i += 1;
    }
    Some(out)
}

proof fn lemma_parse_prefix_none(arr: Seq<JsonValue>, i: int, m: int)
    requires
        0 <= i <= m,
        parse_prefix(arr, i) is None,
    ensures
        parse_prefix(arr, m) is None,
    decreases m - i,
{
    if i < m {
        lemma_parse_prefix_none(arr, i + 1, m);
    }
}

proof fn lemma_add_prefix_none(t: Seq<i32>, d: Seq<JsonValue>, i: int, m: int)
    requires
        0 <= i <= m,
        add_prefix(t, d, i) is None,
    ensures
        add_prefix(t, d, m) is None,
    decreases m - i,
{
    if i < m {
        lemma_add_prefix_none(t, d, i + 1, m);
    }
}

proof fn lemma_sum_entries_none(a: Seq<JsonValue>, e: int, n: int)
    requires
        0 <= e <= n,
        sum_entries(a, e) is None,
    ensures
        sum_entries(a, n) is None,
    decreases n - e,
{
    if e < n {
        lemma_sum_entries_none(a, e + 1, n);
    }
}

proof fn lemma_ms_tiles_none(a: Seq<JsonValue>, i: int, n: int)
    requires
        0 <= i <= n,
        ms_tiles(a, i) is None,
    ensures
        ms_tiles(a, n) is None,
    decreases n - i,
{
    if i < n {
        lemma_ms_tiles_none(a, i + 1, n);
    }
}

/// `a + b` clamped to the `i32` range.
pub fn saturating_add_i32(a: i32, b: i32) -> (r: i32)
    ensures
        r == sat_add(a, b),
{
    let s = a as i64 + b as i64;
    if s > i32::MAX as i64 {
        i32::MAX
    } else if s < i32::MIN as i64 {
        i32::MIN
    } else {
        s as i32
    }
}

/// Sum every `delta_scores` list under `data.scores[]` per seat. `Some(None)`
/// when there are no entries (kept apart from an explicit all-zero delta).
pub fn sum_delta_scores(data: &JsonValue) -> (r: Option<Option<Vec<i32>>>)
    ensures
        match spec_sum_delta_scores(*data) {
            Some(Some(t)) => r matches Some(Some(v)) && v@ == t,
            Some(None) => r matches Some(None),
            None => r is None,
        },
{
    let arr = match get_array(data, "scores") {
        Some(a) => a,
        None => {
            return Some(None);
        },
    };
    if arr.len() == 0 {
        return Some(None);
    }
    let n = arr.len();
    let mut total: Vec<i32> = vec![0i32, 0i32, 0i32, 0i32];
    let mut e: usize = 0;
    while e < n
        invariant
            n == arr@.len(),
            e <= n,
            as_array(get(*data, "scores"@)) == Some(arr@),
            sum_entries(arr@, e as int) == Some(total@),
            total@.len() == 4,
        decreases n - e,
    {
        match get_array(&arr[e], "delta_scores") {
            None => {},
            Some(d) => {
                let m = if d.len() < 4 {
                    d.len()
                } else {
                    4
                };
                let ghost prev = total@;
                let mut i: usize = 0;
                while i < m
                    invariant
                        m == min4(d@.len() as int),
                        i <= m,
                        m <= 4,
                        e < n,
                        n == arr@.len(),
                        as_array(get(*data, "scores"@)) == Some(arr@),
                        sum_entries(arr@, e as int) == Some(prev),
                        as_array(get(arr@[e as int], "delta_scores"@)) == Some(d@),
                        add_prefix(prev, d@, i as int) == Some(total@),
                        total@.len() == 4,
                    decreases m - i,
                {
                    match int32_of(&d[i]) {
                        Some(x) => {
                            let s = saturating_add_i32(total[i], x);
                            total.set(i, s);
                        },
                        None => {
                            proof {
                                lemma_add_prefix_none(prev, d@, i + 1, m as int);
                                assert(sum_entries(arr@, e + 1) is None);
                                lemma_sum_entries_none(arr@, e + 1, n as int);
                            }
                            return None;
                        },
                    }
                    i += 1;
                }
            },
        }
        e += 1;
    }
    Some(Some(total))
}

/// Index of `account` in `seat_list`.
fn find_account_index(seat_list: &Vec<JsonValue>, account: u64) -> (r: Option<usize>)
    ensures
        match find_account(seat_list@, account) {
            Some(i) => r matches Some(j) && j as int == i,
            None => r is None,
        },
{
    let n = seat_list.len();
    let mut i: usize = 0;
    while i < n
        invariant
            n == seat_list@.len(),
            i <= n,
            find_account(seat_list@.take(i as int), account) is None,
        decreases n - i,
    {
        assert(seat_list@.take(i + 1).drop_last() =~= seat_list@.take(i as int));
        if seat_list[i].as_u64() == Some(account) {
            proof {
                lemma_find_account_prefix(seat_list@, account, i + 1);
            }
            return Some(i);
        }
        i += 1;
    }
    assert(seat_list@.take(n as int) =~= seat_list@);
    None
}

proof fn lemma_find_account_prefix(s: Seq<JsonValue>, id: u64, k: int)
    requires
        0 < k <= s.len(),
        find_account(s.take(k), id) is Some,
    ensures
        find_account(s, id) == find_account(s.take(k), id),
    decreases s.len() - k,
{
    if k < s.len() {
        assert(s.take(k + 1).drop_last() =~= s.take(k));
        lemma_find_account_prefix(s, id, k + 1);
    } else {
        assert(s.take(k) =~= s);
    }
}

/// Nickname of account `id` among `players`.
fn nickname_for(players: &Vec<JsonValue>, id: u64) -> (r: Option<String>)
    ensures
        opt_view(r) == nickname_of(players@, id),
{
    let mut found: Option<String> = None;
    let n = players.len();
    let mut j: usize = 0;
    assert(players@.take(0) =~= Seq::<JsonValue>::empty());
    while j < n
        invariant
            n == players@.len(),
            j <= n,
            opt_view(found) == nickname_of(players@.take(j as int), id),
        decreases n - j,
    {
        assert(players@.take(j + 1).drop_last() =~= players@.take(j as int));
        let p = &players[j];
        if get_u64(p, "account_id") == Some(id) {
            match get_str(p, "nickname") {
                Some(name) => {
                    found = Some(owned(name));
                },
                None => {},
            }
        }
        j += 1;
    }
    assert(players@.take(n as int) =~= players@);
    found
}

/// Seat → display name through `payload.players[]`. Robot seats (absent
/// from `players`) get `""`; a three-seat list pads the fourth name.
pub fn names_from_payload(payload: &JsonValue, seat_list: &Vec<JsonValue>) -> (r: Vec<String>)
    ensures
        views(r@) == spec_names(*payload, seat_list@),
{
    let empty: Vec<JsonValue> = Vec::new();
    let players: &Vec<JsonValue> = match get_array(payload, "players") {
        Some(p) => p,
        None => &empty,
    };
    assert(players@ == players_of(*payload));
    let mut names: Vec<String> = Vec::new();
    let mut i: usize = 0;
    while i < 4
        invariant
            i <= 4,
            players@ == players_of(*payload),
            names@.len() == i,
            forall|k: int| 0 <= k < i ==> #[trigger] names@[k]@ == seat_name(players@, seat_list@, k),
        decreases 4 - i,
    {
        let mut name = String::new();
        if i < seat_list.len() {
            match seat_list[i].as_u64() {
                Some(id) => match nickname_for(players, id) {
                    Some(n) => {
                        name = n;
                    },
                    None => {},
                },
                None => {},
            }
        }
        names.push(name);
        i += 1;
    }
    assert(views(names@) =~= spec_names(*payload, seat_list@));
    names
}

/// Majsoul tiles of a JSON list mapped to mjai.
fn ms_tile_list(a: &Vec<JsonValue>) -> (r: Option<Vec<String>>)
    ensures
        match ms_tiles(a@, a@.len() as int) {
            Some(t) => r matches Some(v) && views(v@) == t,
            None => r is None,
        },
{
    let n = a.len();
    let mut out: Vec<String> = Vec::new();
    let mut i: usize = 0;
    while i < n
        invariant
            n == a@.len(),
            i <= n,
            ms_tiles(a@, i as int) == Some(views(out@)),
            out@.len() == i,
        decreases n - i,
    {
        match a[i].as_str() {
            Some(raw) => match ms_to_mjai(raw) {
                Some(t) => {
                    let ghost before = out@;
                    out.push(t);
                    assert(views(out@) =~= views(before).push(out@[i as int]@));
                },
                None => {
                    proof {
                        lemma_ms_tiles_none(a@, i + 1, n as int);
                    }
                    return None;
                },
            },
            None => {
                proof {
                    lemma_ms_tiles_none(a@, i + 1, n as int);
                }
                return None;
            },
        }
        i += 1;
    }
    Some(out)
}


// ---------------------------------------------------------------------------
// The bridge
// ---------------------------------------------------------------------------

/// Per-flow Majsoul → mjai state.
///
/// `account_id` is captured from the outbound `authGame` request; `seat` is
/// resolved on the matching response by indexing into `seat_list`.
pub struct MajsoulBridge {
    pub account_id: Option<u64>,
    pub seat: Option<Actor>,
    /// mjai-mapped dora indicators seen so far this kyoku.
    pub doras: Vec<String>,
    /// Pending kan-dora timing, set by kan actions and consumed by the next
    /// deal.
    pub dora_timing: Option<DoraTiming>,
    /// Dora marker held back until just before the next `dahai`.
    pub deferred_dora: Option<String>,
    /// Seat whose most recent action revealed a tile another seat could ron
    /// (a discard, a kakan, or an ankan): the `target` of a ron.
    pub last_revealed_tile_actor: Option<Actor>,
    /// Seat that just declared riichi; its `reach_accepted` is emitted
    /// before the next action unless that action is a win on the
    /// declaration tile.
    pub pending_reach_accepted: Option<Actor>,
}

impl View for MajsoulBridge {
    type V = BridgeView;

    open spec fn view(&self) -> BridgeView {
        BridgeView {
            account_id: self.account_id,
            seat: self.seat,
            doras: views(self.doras@),
            dora_timing: self.dora_timing,
            deferred_dora: opt_view(self.deferred_dora),
            last_revealed_tile_actor: self.last_revealed_tile_actor,
            pending_reach_accepted: self.pending_reach_accepted,
        }
    }
}

/// Outcome of an action translation against a bridge state, as the
/// `ensures` of the translating methods states it.
pub open spec fn translated(
    spec: Option<(BridgeView, Seq<Ev>)>,
    before: BridgeView,
    after: BridgeView,
    r: Option<Vec<MjaiEvent>>,
) -> bool {
    match spec {
        Some((st, evs)) => r matches Some(v) && ev_views(v@) == evs && after == st,
        None => r is None && after == before,
    }
}

/// `data.seat` (default 0) as a seat byte.
fn seat_or_zero_of(data: &JsonValue) -> (r: u8)
    ensures
        r == seat_or_zero(*data),
{
    match get_u64(data, "seat") {
        Some(n) => n as u8,
        None => 0,
    }
}

fn flag_of(data: &JsonValue, key: &str) -> (r: bool)
    ensures
        r == flag(*data, key@),
{
    match get_bool(data, key) {
        Some(b) => b,
        None => false,
    }
}

fn ev1(e: MjaiEvent) -> (r: Vec<MjaiEvent>)
    ensures
        ev_views(r@) == seq![e@],
{
    let r = vec![e];
    assert(ev_views(r@) =~= seq![e@]);
    r
}

fn ev2(a: MjaiEvent, b: MjaiEvent) -> (r: Vec<MjaiEvent>)
    ensures
        ev_views(r@) == seq![a@, b@],
{
    let r = vec![a, b];
    assert(ev_views(r@) =~= seq![a@, b@]);
    r
}

impl MajsoulBridge {
    /// A bridge for a fresh WebSocket flow.
    pub fn new() -> (r: Self)
        ensures
            r@ == (BridgeView {
                account_id: None,
                seat: None,
                doras: Seq::empty(),
                dora_timing: None,
                deferred_dora: None,
                last_revealed_tile_actor: None,
                pending_reach_accepted: None,
            }),
    {
        let r = MajsoulBridge {
            account_id: None,
            seat: None,
            doras: Vec::new(),
            dora_timing: None,
            deferred_dora: None,
            last_revealed_tile_actor: None,
            pending_reach_accepted: None,
        };
        assert(views(r.doras@) =~= Seq::<Seq<char>>::empty());
        r
    }

    /// Detect a new dora marker in `data.doras` and record it.
    fn consume_new_dora(&mut self, data: &JsonValue) -> (r: Option<Option<String>>)
        ensures
            match spec_new_dora(old(self)@.doras, *data) {
                Some((d, m)) => r matches Some(x) && opt_view(x) == m
                    && final(self)@ == (BridgeView { doras: d, ..old(self)@ }),
                None => r is None && final(self)@ == old(self)@,
            },
    {
        let arr = match get_array(data, "doras") {
            Some(a) => a,
            None => {
                return Some(None);
            },
        };
        if arr.len() <= self.doras.len() {
            return Some(None);
        }
        let last = match arr[arr.len() - 1].as_str() {
            Some(s) => s,
            None => {
                return None;
            },
        };
        match ms_to_mjai(last) {
            Some(m) => {
                let ghost before = self.doras@;
                self.doras.push(m.clone());
                assert(views(self.doras@) =~= views(before).push(m@));
                Some(Some(m))
            },
            None => None,
        }
    }

    /// `ActionDealTile` → `tsumo`, with kan-dora placement.
    fn build_tsumo(&mut self, data: &JsonValue) -> (r: Option<Vec<MjaiEvent>>)
        ensures
            translated(spec_deal_tile(old(self)@, *data), old(self)@, final(self)@, r),
    {
        let me = match self.seat {
            Some(s) => s,
            None => {
                return None;
            },
        };
        let actor = seat_or_zero_of(data);
        let raw = match get_str(data, "tile") {
            Some(t) => t,
            None => "",
        };
        proof {
            reveal_strlit("");
        }
        let pai = if actor == me && raw.unicode_len() != 0 {
            match ms_to_mjai(raw) {
                Some(p) => p,
                None => {
                    return None;
                },
            }
        } else {
            unknown_tile()
        };
        let marker = match self.consume_new_dora(data) {
            Some(m) => m,
            None => {
                return None;
            },
        };
        let timing = self.dora_timing.take();
        match marker {
            Some(m) => {
                let after = match timing {
                    Some(DoraTiming::PendingAfterRinshan) => true,
                    _ => false,
                };
                if after {
                    self.deferred_dora = Some(m);
                    Some(ev1(MjaiEvent::Tsumo { actor, pai }))
                } else {
                    Some(ev2(MjaiEvent::Dora { dora_marker: m }, MjaiEvent::Tsumo { actor, pai }))
                }
            },
            None => Some(ev1(MjaiEvent::Tsumo { actor, pai })),
        }
    }

    /// `ActionDiscardTile` → (`dora`) (`reach`) `dahai`.
    fn build_dahai(&mut self, data: &JsonValue) -> (r: Option<Vec<MjaiEvent>>)
        ensures
            translated(spec_discard_tile(old(self)@, *data), old(self)@, final(self)@, r),
    {
        let actor = seat_or_zero_of(data);
        let raw = match get_str(data, "tile") {
            Some(t) => t,
            None => {
                return None;
            },
        };
        if raw.unicode_len() == 0 {
            return None;
        }
        let pai = match ms_to_mjai(raw) {
            Some(p) => p,
            None => {
                return None;
            },
        };
        let tsumogiri = flag_of(data, "moqie");
        let is_riichi = flag_of(data, "is_liqi") || flag_of(data, "is_wliqi");
        let mut events: Vec<MjaiEvent> = Vec::new();
        let ghost d0 = old(self)@.deferred_dora;
        if let Some(marker) = self.deferred_dora.take() {
            events.push(MjaiEvent::Dora { dora_marker: marker });
        }
        if is_riichi {
            events.push(MjaiEvent::Reach { actor });
        }
        events.push(MjaiEvent::Dahai { actor, pai, tsumogiri });
        if is_riichi {
            self.pending_reach_accepted = Some(actor);
        }
        self.last_revealed_tile_actor = Some(actor);
        proof {
            let dora = match d0 {
                Some(m) => seq![Ev::Dora { dora_marker: m }],
                None => Seq::<Ev>::empty(),
            };
            let reach = if is_riichi {
                seq![Ev::Reach { actor }]
            } else {
                Seq::<Ev>::empty()
            };
            assert(ev_views(events@) =~= dora + reach + seq![Ev::Dahai { actor, pai: pai@, tsumogiri }]);
        }
        Some(events)
    }

    /// `ActionChiPengGang` → `chi` / `pon` / `daiminkan`.
    fn build_chi_peng_gang(&mut self, data: &JsonValue) -> (r: Option<Vec<MjaiEvent>>)
        ensures
            translated(spec_chi_peng_gang(old(self)@, *data), old(self)@, final(self)@, r),
    {
        let actor = match get_u64(data, "seat") {
            Some(a) => a as u8,
            None => {
                return None;
            },
        };
        let kind = match get_u64(data, "type") {
            Some(k) => k,
            None => {
                return None;
            },
        };
        let tiles = match get_array(data, "tiles") {
            Some(t) => t,
            None => {
                return None;
            },
        };
        let froms = match get_array(data, "froms") {
            Some(f) => f,
            None => {
                return None;
            },
        };
        if tiles.len() != froms.len() {
            return None;
        }
        let n = froms.len();
        let mut target: u8 = actor;
        let mut pai = String::new();
        let mut consumed: Vec<String> = Vec::new();
        let mut i: usize = 0;
        while i < n
            invariant
                n == froms@.len(),
                n == tiles@.len(),
                i <= n,
                split_call(tiles@, froms@, actor, i as int) == Some((target, pai@, views(consumed@))),
                as_array(get(*data, "tiles"@)) == Some(tiles@),
                as_array(get(*data, "froms"@)) == Some(froms@),
                as_u64(get(*data, "seat"@)) matches Some(a) && a as u8 == actor,
                as_u64(get(*data, "type"@)) == Some(kind),
                self@ == old(self)@,
            decreases n - i,
        {
            let from = match froms[i].as_u64() {
                Some(f) => f as u8,
                None => {
                    proof {
                        lemma_split_call_none(tiles@, froms@, actor, i + 1, n as int);
                    }
                    return None;
                },
            };
            let raw = match tiles[i].as_str() {
                Some(s) => s,
                None => {
                    proof {
                        lemma_split_call_none(tiles@, froms@, actor, i + 1, n as int);
                    }
                    return None;
                },
            };
            let t = match ms_to_mjai(raw) {
                Some(t) => t,
                None => {
                    proof {
                        lemma_split_call_none(tiles@, froms@, actor, i + 1, n as int);
                    }
                    return None;
                },
            };
            if from == actor {
                let ghost before = consumed@;
                let ghost tv = t@;
                consumed.push(t);
                assert(views(consumed@) =~= views(before).push(tv));
            } else {
                target = from;
                pai = t;
            }
            i += 1;
        }
        if target == actor || pai.unicode_len() == 0 {
            return None;
        }
        if kind == 0 && consumed.len() == 2 {
            Some(ev1(MjaiEvent::Chi { actor, target, pai, consumed }))
        } else if kind == 1 && consumed.len() == 2 {
            Some(ev1(MjaiEvent::Pon { actor, target, pai, consumed }))
        } else if kind == 2 && consumed.len() == 3 {
            self.dora_timing = Some(DoraTiming::PendingAfterRinshan);
            Some(ev1(MjaiEvent::Daiminkan { actor, target, pai, consumed }))
        } else {
            None
        }
    }

    /// `ActionAnGangAddGang` → `ankan` / `kakan`.
    fn build_an_gang_add_gang(&mut self, data: &JsonValue) -> (r: Option<Vec<MjaiEvent>>)
        ensures
            translated(spec_an_gang_add_gang(old(self)@, *data), old(self)@, final(self)@, r),
    {
        let actor = match get_u64(data, "seat") {
            Some(a) => a as u8,
            None => {
                return None;
            },
        };
        let kind = match get_u64(data, "type") {
            Some(k) => k,
            None => {
                return None;
            },
        };
        let raw = match get_str(data, "tiles") {
            Some(t) => t,
            None => {
                return None;
            },
        };
        let pai = match ms_to_mjai(raw) {
            Some(p) => p,
            None => {
                return None;
            },
        };
        if kind == 3 {
            let consumed = ankan_consumed(pai.as_str());
            self.dora_timing = Some(DoraTiming::PendingBeforeRinshan);
            self.last_revealed_tile_actor = Some(actor);
            Some(ev1(MjaiEvent::Ankan { actor, consumed }))
        } else if kind == 2 {
            let consumed = kakan_consumed(pai.as_str());
            self.dora_timing = Some(DoraTiming::PendingAfterRinshan);
            self.last_revealed_tile_actor = Some(actor);
            Some(ev1(MjaiEvent::Kakan { actor, pai, consumed }))
        } else {
            None
        }
    }

    /// `ActionNoTile` → `ryukyoku{deltas}`, `end_kyoku`.
    fn build_no_tile(&mut self, data: &JsonValue) -> (r: Option<Vec<MjaiEvent>>)
        ensures
            translated(spec_no_tile(old(self)@, *data), old(self)@, final(self)@, r),
    {
        match sum_delta_scores(data) {
            Some(deltas) => Some(ev2(MjaiEvent::Ryukyoku { deltas }, MjaiEvent::EndKyoku)),
            None => None,
        }
    }

    /// `ActionLiuJu` → `ryukyoku`, `end_kyoku`.
    fn build_liu_ju(&mut self, data: &JsonValue) -> (r: Option<Vec<MjaiEvent>>)
        ensures
            translated(spec_liu_ju(old(self)@), old(self)@, final(self)@, r),
    {
        Some(ev2(MjaiEvent::Ryukyoku { deltas: None }, MjaiEvent::EndKyoku))
    }
}

proof fn lemma_split_call_none(tiles: Seq<JsonValue>, froms: Seq<JsonValue>, actor: u8, i: int, n: int)
    requires
        0 <= i <= n,
        split_call(tiles, froms, actor, i) is None,
    ensures
        split_call(tiles, froms, actor, n) is None,
    decreases n - i,
{
    if i < n {
        lemma_split_call_none(tiles, froms, actor, i + 1, n);
    }
}


/// Ura markers of one winner (see [`spec_ura`]).
fn ura_of(hule: &JsonValue) -> (r: Option<Option<Vec<String>>>)
    ensures
        match spec_ura(*hule) {
            Some(Some(t)) => r matches Some(Some(v)) && views(v@) == t,
            Some(None) => r matches Some(None),
            None => r is None,
        },
{
    if !flag_of(hule, "liqi") {
        return Some(None);
    }
    match get_array(hule, "li_doras") {
        None => {
            let v: Vec<String> = Vec::new();
            assert(views(v@) =~= Seq::<Seq<char>>::empty());
            Some(Some(v))
        },
        Some(a) => match ms_tile_list(a) {
            Some(t) => Some(Some(t)),
            None => None,
        },
    }
}

fn clone_i32s(v: &Option<Vec<i32>>) -> (r: Option<Vec<i32>>)
    ensures
        crate::mjai::opt_seq_view(r) == crate::mjai::opt_seq_view(*v),
{
    match v {
        Some(d) => Some(d.clone()),
        None => None,
    }
}

proof fn lemma_hora_events_none(st: BridgeView, hules: Seq<JsonValue>, d: Option<Seq<i32>>, i: int, n: int)
    requires
        0 <= i <= n,
        hora_events(st, hules, d, i) is None,
    ensures
        hora_events(st, hules, d, n) is None,
    decreases n - i,
{
    if i < n {
        lemma_hora_events_none(st, hules, d, i + 1, n);
    }
}

/// Wind of the round for `chang` 0..=3.
fn bakaze_tile(chang: u64) -> (r: Option<String>)
    ensures
        opt_view(r) == bakaze_of(chang),
{
    let c = chang as usize;
    if c == 0 {
        proof { reveal_strlit("E"); }
        Some(owned("E"))
    } else if c == 1 {
        proof { reveal_strlit("S"); }
        Some(owned("S"))
    } else if c == 2 {
        proof { reveal_strlit("W"); }
        Some(owned("W"))
    } else if c == 3 {
        proof { reveal_strlit("N"); }
        Some(owned("N"))
    } else {
        None
    }
}

fn u64_or_zero_of(data: &JsonValue, key: &str) -> (r: u64)
    ensures
        r == u64_or_zero(*data, key@),
{
    match get_u64(data, key) {
        Some(n) => n,
        None => 0,
    }
}

fn first_dora_of(data: &JsonValue) -> (r: Option<String>)
    ensures
        opt_view(r) == first_dora(*data),
{
    match get_array(data, "doras") {
        Some(a) => if a.len() > 0 {
            match a[0].as_str() {
                Some(raw) => ms_to_mjai(raw),
                None => None,
            }
        } else {
            None
        },
        None => None,
    }
}

/// Thirteen unknown tiles.
fn unknown_row_vec() -> (r: Vec<String>)
    ensures
        views(r@) == unknown_row(),
{
    let mut r: Vec<String> = Vec::new();
    let mut i: usize = 0;
    while i < 13
        invariant
            i <= 13,
            r@.len() == i,
            forall|k: int| 0 <= k < i ==> #[trigger] r@[k]@ == seq!['?'],
        decreases 13 - i,
    {
        r.push(unknown_tile());
        i += 1;
    }
    assert(views(r@) =~= unknown_row());
    r
}

/// The first `n` tiles of `v`.
fn prefix_of(v: &Vec<String>, n: usize) -> (r: Vec<String>)
    requires
        n <= v@.len(),
    ensures
        views(r@) == views(v@).take(n as int),
{
    let mut r: Vec<String> = Vec::new();
    let mut i: usize = 0;
    while i < n
        invariant
            n <= v@.len(),
            i <= n,
            r@.len() == i,
            forall|k: int| 0 <= k < i ==> #[trigger] r@[k]@ == v@[k]@,
        decreases n - i,
    {
        r.push(v[i].clone());
        i += 1;
    }
    assert(views(r@) =~= views(v@).take(n as int));
    r
}

/// Four rows of unknown tiles with `row` placed at `seat`.
fn tehais_vec(seat: u8, row: Vec<String>) -> (r: Vec<Vec<String>>)
    requires
        seat < 4,
    ensures
        crate::mjai::rows_view(r@) == tehais_with(seat, views(row@)),
{
    let mut rows: Vec<Vec<String>> = Vec::new();
    let mut i: u8 = 0;
    while i < 4
        invariant
            i <= 4,
            seat < 4,
            rows@.len() == i,
            forall|k: int| 0 <= k < i ==> #[trigger] views(rows@[k]@) == unknown_row(),
        decreases 4 - i,
    {
        rows.push(unknown_row_vec());
        i += 1;
    }
    let ghost rv = views(row@);
    rows.set(seat as usize, row);
    assert(crate::mjai::rows_view(rows@) =~= tehais_with(seat, rv));
    rows
}

impl MajsoulBridge {
    /// `ActionHule` → one `hora` per winner, then `end_kyoku`.
    fn build_hule(&mut self, data: &JsonValue) -> (r: Option<Vec<MjaiEvent>>)
        ensures
            translated(spec_hule(old(self)@, *data), old(self)@, final(self)@, r),
    {
        let hules = match get_array(data, "hules") {
            Some(h) => h,
            None => {
                return None;
            },
        };
        if hules.len() == 0 {
            return None;
        }
        let deltas: Option<Vec<i32>> = match get_array(data, "delta_scores") {
            None => None,
            Some(a) => match parse_four(a) {
                Some(d) => Some(d),
                None => {
                    return None;
                },
            },
        };
        let ghost dv = crate::mjai::opt_seq_view(deltas);
        let n = hules.len();
        let mut events: Vec<MjaiEvent> = Vec::new();
        let mut i: usize = 0;
        while i < n
            invariant
                n == hules@.len(),
                i <= n,
                dv == crate::mjai::opt_seq_view(deltas),
                hule_deltas(*data) == Some(dv),
                as_array(get(*data, "hules"@)) == Some(hules@),
                self@ == old(self)@,
                hora_events(self@, hules@, dv, i as int) == Some(ev_views(events@)),
                events@.len() == i,
            decreases n - i,
        {
            let h = &hules[i];
            let actor = match get_u64(h, "seat") {
                Some(a) => a as u8,
                None => {
                    proof {
                        lemma_hora_events_none(self@, hules@, dv, i + 1, n as int);
                    }
                    return None;
                },
            };
            let ura_markers = match ura_of(h) {
                Some(u) => u,
                None => {
                    proof {
                        lemma_hora_events_none(self@, hules@, dv, i + 1, n as int);
                    }
                    return None;
                },
            };
            let target = if flag_of(h, "zimo") {
                actor
            } else {
                match self.last_revealed_tile_actor {
                    Some(t) => t,
                    None => {
                        proof {
                            lemma_hora_events_none(self@, hules@, dv, i + 1, n as int);
                        }
                        return None;
                    },
                }
            };
            let ghost before = ev_views(events@);
            let e = MjaiEvent::Hora { actor, target, deltas: clone_i32s(&deltas), ura_markers };
            let ghost ev = e@;
            events.push(e);
            assert(ev_views(events@) =~= before.push(ev));
            i += 1;
        }
        let ghost before = ev_views(events@);
        events.push(MjaiEvent::EndKyoku);
        assert(ev_views(events@) =~= before.push(Ev::EndKyoku));
        Some(events)
    }

    /// `ActionNewRound` → `start_kyoku`, dealer's first `tsumo`.
    fn build_start_kyoku(&mut self, data: &JsonValue) -> (r: Option<Vec<MjaiEvent>>)
        ensures
            translated(spec_new_round(old(self)@, *data), old(self)@, final(self)@, r),
    {
        let seat = match self.seat {
            Some(s) => s,
            None => {
                return None;
            },
        };
        let oya = u64_or_zero_of(data, "ju") as u8;
        let honba = u64_or_zero_of(data, "ben") as u8;
        let kyotaku = u64_or_zero_of(data, "liqibang") as u8;
        let bakaze = match bakaze_tile(u64_or_zero_of(data, "chang")) {
            Some(b) => b,
            None => {
                return None;
            },
        };
        let dora_marker = match first_dora_of(data) {
            Some(d) => d,
            None => {
                return None;
            },
        };
        let scores = match get_array(data, "scores") {
            Some(sc) => match parse_four(sc) {
                Some(s) => s,
                None => {
                    return None;
                },
            },
            None => {
                return None;
            },
        };
        let mine = match get_array(data, "tiles") {
            Some(raw) => match ms_tile_list(raw) {
                Some(t) => t,
                None => {
                    return None;
                },
            },
            None => {
                return None;
            },
        };
        let kyoku: u8 = if oya == 255 {
            0
        } else {
            oya + 1
        };
        if seat >= 4 {
            return None;
        }
        let (tehais, tsumo) = if mine.len() == 13 && oya != seat {
            let row = sort_tiles(&mine);
            (tehais_vec(seat, row), MjaiEvent::Tsumo { actor: oya, pai: unknown_tile() })
        } else if mine.len() == 14 && oya == seat {
            let first = prefix_of(&mine, 13);
            let row = sort_tiles(&first);
            (tehais_vec(seat, row), MjaiEvent::Tsumo { actor: seat, pai: mine[13].clone() })
        } else {
            return None;
        };
        let ghost dm = dora_marker@;
        let mut doras: Vec<String> = Vec::new();
        doras.push(dora_marker.clone());
        assert(views(doras@) =~= seq![dm]);
        self.doras = doras;
        self.dora_timing = None;
        self.deferred_dora = None;
        self.last_revealed_tile_actor = None;
        self.pending_reach_accepted = None;
        Some(ev2(
            MjaiEvent::StartKyoku { bakaze, dora_marker, kyoku, honba, kyotaku, oya, scores, tehais },
            tsumo,
        ))
    }
}


// ---------------------------------------------------------------------------
// Message dispatch
// ---------------------------------------------------------------------------

/// Kind of a decoded liqi frame.
#[derive(Debug, Clone, Copy, PartialEq, Eq)]
pub enum MessageType {
    Notify,
    Request,
    Response,
}

/// One decoded liqi frame: method name and JSON payload (an action's inner
/// message already decoded).
#[derive(Debug)]
pub struct ParsedMessage {
    pub msg_type: MessageType,
    pub msg_id: Option<u32>,
    pub method_name: String,
    pub payload: JsonValue,
}

/// Translation of one decoded frame: the new bridge state and the mjai
/// events it yields.
pub open spec fn spec_dispatch(st: BridgeView, msg: ParsedMessage) -> (BridgeView, Seq<Ev>) {
    let m = msg.method_name@;
    match msg.msg_type {
        MessageType::Request => if m == ".lq.FastTest.authGame"@ {
            (BridgeView { account_id: as_u64(get(msg.payload, "account_id"@)), ..st }, Seq::empty())
        } else {
            (st, Seq::empty())
        },
        MessageType::Response => if m == ".lq.FastTest.authGame"@ {
            spec_auth_response(st, msg.payload)
        } else {
            (st, Seq::empty())
        },
        MessageType::Notify => if m == ".lq.ActionPrototype"@ {
            spec_action_prototype(st, msg.payload)
        } else if m == ".lq.NotifyGameEndResult"@ {
            (st, seq![Ev::EndGame])
        } else {
            (st, Seq::empty())
        },
    }
}

impl MajsoulBridge {
    /// `authGame` response → `start_game` with our seat and the seat names.
    fn handle_auth_game_response(&mut self, payload: &JsonValue) -> (r: Vec<MjaiEvent>)
        ensures
            (final(self)@, ev_views(r@)) == spec_auth_response(old(self)@, *payload),
    {
        let account = match self.account_id {
            Some(a) => a,
            None => {
                return Vec::new();
            },
        };
        let seat_list = match get_array(payload, "seat_list") {
            Some(s) => s,
            None => {
                return Vec::new();
            },
        };
        let pos = match find_account_index(seat_list, account) {
            Some(p) => p,
            None => {
                return Vec::new();
            },
        };
        let seat = pos as u8;
        self.seat = Some(seat);
        let names = names_from_payload(payload, seat_list);
        ev1(MjaiEvent::StartGame { names, kyoku_first: None, aka_flag: None, id: Some(seat) })
    }

    /// `.lq.ActionPrototype` → events of the inner action, with a queued
    /// `reach_accepted` drained first (see [`spec_action_prototype`]).
    fn handle_action_prototype(&mut self, payload: &JsonValue) -> (r: Vec<MjaiEvent>)
        ensures
            (final(self)@, ev_views(r@)) == spec_action_prototype(old(self)@, *payload),
    {
        let name = match get_str(payload, "name") {
            Some(n) => n,
            None => {
                return Vec::new();
            },
        };
        let data = match payload.get("data") {
            Some(d) => d,
            None => {
                return Vec::new();
            },
        };
        let is_hule = str_eq(name, "ActionHule");
        let keeps = is_hule || str_eq(name, "ActionDiscardTile");
        let pending = if keeps {
            if is_hule {
                self.pending_reach_accepted = None;
            }
            None
        } else {
            self.pending_reach_accepted.take()
        };
        let result = if str_eq(name, "ActionNewRound") {
            self.build_start_kyoku(data)
        } else if str_eq(name, "ActionDealTile") {
            self.build_tsumo(data)
        } else if str_eq(name, "ActionDiscardTile") {
            self.build_dahai(data)
        } else if str_eq(name, "ActionChiPengGang") {
            self.build_chi_peng_gang(data)
        } else if str_eq(name, "ActionAnGangAddGang") {
            self.build_an_gang_add_gang(data)
        } else if str_eq(name, "ActionNoTile") {
            self.build_no_tile(data)
        } else if str_eq(name, "ActionLiuJu") {
            self.build_liu_ju(data)
        } else if str_eq(name, "ActionHule") {
            self.build_hule(data)
        } else {
            return Vec::new();
        };
        let events = match result {
            Some(e) => e,
            None => Vec::new(),
        };
        match pending {
            Some(actor) => {
                let mut combined: Vec<MjaiEvent> = Vec::new();
                combined.push(MjaiEvent::ReachAccepted { actor });
                let ghost first = ev_views(combined@);
                let ghost rest = ev_views(events@);
                let mut events = events;
                combined.append(&mut events);
                assert(ev_views(combined@) =~= first + rest);
                combined
            },
            None => {
                proof {
                    assert(ev_views(events@) =~= Seq::<Ev>::empty() + ev_views(events@));
                }
                events
            },
        }
    }

    /// Translate one decoded frame into zero or more mjai events, updating
    /// the bridge state.
    pub fn dispatch(&mut self, msg: &ParsedMessage) -> (r: Vec<MjaiEvent>)
        ensures
            (final(self)@, ev_views(r@)) == spec_dispatch(old(self)@, *msg),
    {
        let m = msg.method_name.as_str();
        match msg.msg_type {
            MessageType::Request => {
                if str_eq(m, ".lq.FastTest.authGame") {
                    self.account_id = get_u64(&msg.payload, "account_id");
                }
                let r: Vec<MjaiEvent> = Vec::new();
                assert(ev_views(r@) =~= Seq::<Ev>::empty());
                r
            },
            MessageType::Response => {
                if str_eq(m, ".lq.FastTest.authGame") {
                    self.handle_auth_game_response(&msg.payload)
                } else {
                    let r: Vec<MjaiEvent> = Vec::new();
                    assert(ev_views(r@) =~= Seq::<Ev>::empty());
                    r
                }
            },
            MessageType::Notify => {
                if str_eq(m, ".lq.ActionPrototype") {
                    self.handle_action_prototype(&msg.payload)
                } else if str_eq(m, ".lq.NotifyGameEndResult") {
                    ev1(MjaiEvent::EndGame)
                } else {
                    let r: Vec<MjaiEvent> = Vec::new();
                    assert(ev_views(r@) =~= Seq::<Ev>::empty());
                    r
                }
            },
        }
    }
}


// ---------------------------------------------------------------------------
// Properties of the translation
// ---------------------------------------------------------------------------

/// `msg` is an `ActionPrototype` notify naming the action `name` with
/// payload `data`.
pub open spec fn action_message(msg: ParsedMessage, name: Seq<char>, data: JsonValue) -> bool {
    &&& msg.msg_type == MessageType::Notify
    &&& msg.method_name@ == ".lq.ActionPrototype"@
    &&& as_str(get(msg.payload, "name"@)) == Some(name)
    &&& get(msg.payload, "data"@) == Some(data)
}

/// The actions other than a discard or a win that the bridge translates.
pub open spec fn draining_action(name: Seq<char>) -> bool {
    name == "ActionNewRound"@ || name == "ActionDealTile"@ || name == "ActionChiPengGang"@ || name
        == "ActionAnGangAddGang"@ || name == "ActionNoTile"@ || name == "ActionLiuJu"@
}

/// `evs` holds no `reach_accepted`.
pub open spec fn no_reach_accepted(evs: Seq<Ev>) -> bool {
    forall|i: int| 0 <= i < evs.len() ==> !(#[trigger] evs[i] is ReachAccepted)
}

/// The action names the bridge translates are distinct.
pub proof fn lemma_action_names_distinct()
    ensures
        "ActionNewRound"@ != "ActionDealTile"@,
        "ActionNewRound"@ != "ActionDiscardTile"@,
        "ActionNewRound"@ != "ActionChiPengGang"@,
        "ActionNewRound"@ != "ActionAnGangAddGang"@,
        "ActionNewRound"@ != "ActionNoTile"@,
        "ActionNewRound"@ != "ActionLiuJu"@,
        "ActionNewRound"@ != "ActionHule"@,
        "ActionDealTile"@ != "ActionDiscardTile"@,
        "ActionDealTile"@ != "ActionChiPengGang"@,
        "ActionDealTile"@ != "ActionAnGangAddGang"@,
        "ActionDealTile"@ != "ActionNoTile"@,
        "ActionDealTile"@ != "ActionLiuJu"@,
        "ActionDealTile"@ != "ActionHule"@,
        "ActionDiscardTile"@ != "ActionChiPengGang"@,
        "ActionDiscardTile"@ != "ActionAnGangAddGang"@,
        "ActionDiscardTile"@ != "ActionNoTile"@,
        "ActionDiscardTile"@ != "ActionLiuJu"@,
        "ActionDiscardTile"@ != "ActionHule"@,
        "ActionChiPengGang"@ != "ActionAnGangAddGang"@,
        "ActionChiPengGang"@ != "ActionNoTile"@,
        "ActionChiPengGang"@ != "ActionLiuJu"@,
        "ActionChiPengGang"@ != "ActionHule"@,
        "ActionAnGangAddGang"@ != "ActionNoTile"@,
        "ActionAnGangAddGang"@ != "ActionLiuJu"@,
        "ActionAnGangAddGang"@ != "ActionHule"@,
        "ActionNoTile"@ != "ActionLiuJu"@,
        "ActionNoTile"@ != "ActionHule"@,
        "ActionLiuJu"@ != "ActionHule"@,
{
    reveal_strlit("ActionNewRound");
    reveal_strlit("ActionDealTile");
    reveal_strlit("ActionDiscardTile");
    reveal_strlit("ActionChiPengGang");
    reveal_strlit("ActionAnGangAddGang");
    reveal_strlit("ActionNoTile");
    reveal_strlit("ActionLiuJu");
    reveal_strlit("ActionHule");
    assert("ActionNewRound"@.len() == 14);
    assert("ActionDealTile"@.len() == 14);
    assert("ActionDiscardTile"@.len() == 17);
    assert("ActionChiPengGang"@.len() == 17);
    assert("ActionAnGangAddGang"@.len() == 19);
    assert("ActionNoTile"@.len() == 12);
    assert("ActionLiuJu"@.len() == 11);
    assert("ActionHule"@.len() == 10);
    assert("ActionNewRound"@[6] != "ActionDealTile"@[6]);
    assert("ActionDiscardTile"@[6] != "ActionChiPengGang"@[6]);
}

/// A riichi is accepted once its declaration tile has passed: the next
/// translated action other than a discard or a win starts its events with
/// the queued `reach_accepted`, and the queue is then empty.
pub proof fn lemma_reach_accepted_drained(st: BridgeView, msg: ParsedMessage, name: Seq<char>, data: JsonValue, actor: u8)
    requires
        action_message(msg, name, data),
        draining_action(name),
        st.pending_reach_accepted == Some(actor),
    ensures
        spec_dispatch(st, msg).1.len() >= 1,
        spec_dispatch(st, msg).1[0] == (Ev::ReachAccepted { actor }),
        spec_dispatch(st, msg).0.pending_reach_accepted is None,
        spec_dispatch(st, msg).1 == seq![Ev::ReachAccepted { actor }] + match spec_action(
            BridgeView { pending_reach_accepted: None, ..st },
            name,
            data,
        ) {
            Some(Some((_, evs))) => evs,
            _ => Seq::empty(),
        },
{
    lemma_action_names_distinct();
    match spec_action(BridgeView { pending_reach_accepted: None, ..st }, name, data) {
        Some(Some((_, evs))) => {},
        _ => {
            assert(seq![Ev::ReachAccepted { actor }] + Seq::<Ev>::empty() =~= seq![Ev::ReachAccepted { actor }]);
        },
    }
}

/// A new round is not translated, and leaves the bridge as it was (apart
/// from a queued riichi acceptance), when our seat is unknown, the round
/// wind is beyond north, the first dora marker is missing, or our tiles
/// are neither 13 (not dealing) nor 14 (dealing).
pub proof fn lemma_new_round_refusals(st: BridgeView, data: JsonValue)
    ensures
        st.seat is None ==> spec_new_round(st, data) is None,
        u64_or_zero(data, "chang"@) as usize > 3 ==> spec_new_round(st, data) is None,
        first_dora(data) is None ==> spec_new_round(st, data) is None,
        st.seat matches Some(seat) ==> (as_array(get(data, "tiles"@)) matches Some(raw) ==> (ms_tiles(raw, raw.len() as int) matches Some(mine)
            ==> (!((mine.len() == 13 && u64_or_zero(data, "ju"@) as u8 != seat) || (mine.len() == 14 && u64_or_zero(data, "ju"@) as u8 == seat))
            ==> spec_new_round(st, data) is None))),
{
}

/// An action other than a discard or a win that cannot be translated
/// leaves the bridge as it was, apart from the queued riichi acceptance,
/// which is still emitted and then dropped.
pub proof fn lemma_untranslated_action_keeps_state(st: BridgeView, msg: ParsedMessage, name: Seq<char>, data: JsonValue)
    requires
        action_message(msg, name, data),
        draining_action(name),
        spec_action(BridgeView { pending_reach_accepted: None, ..st }, name, data) == Some(None::<(BridgeView, Seq<Ev>)>),
    ensures
        spec_dispatch(st, msg).0 == (BridgeView { pending_reach_accepted: None, ..st }),
        spec_dispatch(st, msg).1 == match st.pending_reach_accepted {
            Some(a) => seq![Ev::ReachAccepted { actor: a }],
            None => Seq::<Ev>::empty(),
        },
{
    lemma_action_names_distinct();
}

/// The `hora` of one winner `h`: the winner's seat, the winner itself on
/// a tsumo or the seat that last revealed a tile on a ron (none: no
/// event), the shared score deltas and, after a riichi, the ura markers.
pub open spec fn hora_of(st: BridgeView, h: JsonValue, deltas: Option<Seq<i32>>) -> Option<Ev> {
    match (as_u64(get(h, "seat"@)), spec_ura(h)) {
        (Some(a), Some(ura_markers)) => if flag(h, "zimo"@) {
            Some(Ev::Hora { actor: a as u8, target: a as u8, deltas, ura_markers })
        } else {
            match st.last_revealed_tile_actor {
                Some(target) => Some(Ev::Hora { actor: a as u8, target, deltas, ura_markers }),
                None => None,
            }
        },
        _ => None,
    }
}

proof fn lemma_hora_events_each(st: BridgeView, hules: Seq<JsonValue>, d: Option<Seq<i32>>, n: int)
    requires
        0 <= n <= hules.len(),
    ensures
        hora_events(st, hules, d, n) is Some <==> forall|i: int| 0 <= i < n ==> (#[trigger] hora_of(st, hules[i], d)) is Some,
        hora_events(st, hules, d, n) matches Some(evs) ==> evs.len() == n && forall|i: int| 0 <= i < n ==> Some(
            #[trigger] evs[i],
        ) == hora_of(st, hules[i], d),
    decreases n,
{
    if n > 0 {
        lemma_hora_events_each(st, hules, d, n - 1);
        if !(hora_of(st, hules[n - 1], d) is Some) {
            assert(!(forall|i: int| 0 <= i < n ==> (#[trigger] hora_of(st, hules[i], d)) is Some));
        }
        if hora_events(st, hules, d, n - 1) is None {
            let k: int = choose|i: int| 0 <= i < n - 1 && !((#[trigger] hora_of(st, hules[i], d)) is Some);
            assert(!(hora_of(st, hules[k], d) is Some));
        }
        if let Some(evs) = hora_events(st, hules, d, n) {
            let prev = hora_events(st, hules, d, n - 1).unwrap();
            assert(evs == prev.push(hora_of(st, hules[n - 1], d).unwrap()));
            assert forall|i: int| 0 <= i < n implies Some(#[trigger] evs[i]) == hora_of(st, hules[i], d) by {
                if i < n - 1 {
                    assert(evs[i] == prev[i]);
                }
            }
        }
    }
}

/// Shape of a translated win: one `hora` per winner in order (see
/// [`hora_of`]), then `end_kyoku`, with the bridge unchanged; missing or
/// empty winners, a malformed winner, or a ron with no seat that revealed
/// a tile give no translation.
pub proof fn lemma_hule_shape(st: BridgeView, data: JsonValue)
    ensures
        spec_hule(st, data) matches Some((st2, evs)) ==> {
            let hules = as_array(get(data, "hules"@)).unwrap();
            let d = hule_deltas(data).unwrap();
            &&& st2 == st
            &&& hules.len() > 0
            &&& evs.len() == hules.len() + 1
            &&& evs.last() == Ev::EndKyoku
            &&& forall|i: int| 0 <= i < hules.len() ==> Some(#[trigger] evs[i]) == hora_of(st, hules[i], d)
        },
        as_array(get(data, "hules"@)) matches Some(hules) ==> (hule_deltas(data) matches Some(d) ==> (
            spec_hule(st, data) is Some <==> (hules.len() > 0 && forall|i: int| 0 <= i < hules.len() ==> (
            #[trigger] hora_of(st, hules[i], d)) is Some))),
        as_array(get(data, "hules"@)) is None ==> spec_hule(st, data) is None,
{
    if let Some(hules) = as_array(get(data, "hules"@)) {
        if let Some(d) = hule_deltas(data) {
            lemma_hora_events_each(st, hules, d, hules.len() as int);
            if let Some(evs) = hora_events(st, hules, d, hules.len() as int) {
                let all = evs.push(Ev::EndKyoku);
                assert forall|i: int| 0 <= i < hules.len() implies Some(#[trigger] all[i]) == hora_of(st, hules[i], d) by {
                    assert(all[i] == evs[i]);
                }
            }
        }
    }
}

/// Entry `i` of a call is a Majsoul tile with an integer supplier.
pub open spec fn call_tile_ok(tiles: Seq<JsonValue>, froms: Seq<JsonValue>, i: int) -> bool {
    as_u64(Some(froms[i])) is Some && (as_str(Some(tiles[i])) matches Some(raw) && spec_ms_tile(raw) is Some)
}

/// Tile `i` of a call came from `actor`'s own hand.
pub open spec fn call_from_own(froms: Seq<JsonValue>, actor: u8, i: int) -> bool {
    as_u64(Some(froms[i])) matches Some(f) && f as u8 == actor
}

/// Tile `i` of a call came from another seat.
pub open spec fn call_from_other(froms: Seq<JsonValue>, actor: u8, i: int) -> bool {
    as_u64(Some(froms[i])) matches Some(f) && f as u8 != actor
}

/// How many of the first `n` tiles of a call came from `actor`.
pub open spec fn own_count(froms: Seq<JsonValue>, actor: u8, n: int) -> int
    decreases n,
{
    if n <= 0 {
        0
    } else {
        own_count(froms, actor, n - 1) + if call_from_own(froms, actor, n - 1) { 1int } else { 0int }
    }
}

/// Splitting the first `n` tiles of a call: it succeeds exactly when each
/// tile is a Majsoul tile with an integer supplier; then the consumed
/// tiles are the actor's own, as many as [`own_count`], and the target is
/// another seat exactly when some tile came from one, the last such tile
/// being the called tile.
pub proof fn lemma_split_call_shape(tiles: Seq<JsonValue>, froms: Seq<JsonValue>, actor: u8, n: int)
    requires
        0 <= n <= tiles.len(),
        n <= froms.len(),
    ensures
        split_call(tiles, froms, actor, n) is Some <==> forall|i: int| 0 <= i < n ==> #[trigger] call_tile_ok(tiles, froms, i),
        split_call(tiles, froms, actor, n) matches Some((target, pai, consumed)) ==> {
            &&& consumed.len() == own_count(froms, actor, n)
            &&& (target != actor <==> exists|j: int| 0 <= j < n && #[trigger] call_from_other(froms, actor, j))
            &&& target != actor ==> exists|j: int| 0 <= j < n && #[trigger] call_from_other(froms, actor, j)
                && target == as_u64(Some(froms[j])).unwrap() as u8 && Some(pai) == spec_ms_tile(as_str(Some(tiles[j])).unwrap())
                && forall|k: int| j < k < n ==> !#[trigger] call_from_other(froms, actor, k)
        },
    decreases n,
{
    if n > 0 {
        lemma_split_call_shape(tiles, froms, actor, n - 1);
        if !call_tile_ok(tiles, froms, n - 1) {
            assert(!call_tile_ok(tiles, froms, n - 1));
        }
        if split_call(tiles, froms, actor, n - 1) is None {
            let k: int = choose|i: int| 0 <= i < n - 1 && !#[trigger] call_tile_ok(tiles, froms, i);
            assert(!call_tile_ok(tiles, froms, k));
        }
        if let Some((target, pai, consumed)) = split_call(tiles, froms, actor, n) {
            let (t0, p0, c0) = split_call(tiles, froms, actor, n - 1).unwrap();
            if call_from_other(froms, actor, n - 1) {
                assert(call_from_other(froms, actor, n - 1));
            } else {
                assert(call_from_own(froms, actor, n - 1));
                if t0 != actor {
                    let j: int = choose|j: int| 0 <= j < n - 1 && #[trigger] call_from_other(froms, actor, j)
                        && t0 == as_u64(Some(froms[j])).unwrap() as u8 && Some(p0) == spec_ms_tile(as_str(Some(tiles[j])).unwrap())
                        && forall|k: int| j < k < n - 1 ==> !#[trigger] call_from_other(froms, actor, k);
                    assert(forall|k: int| j < k < n ==> !#[trigger] call_from_other(froms, actor, k));
                } else {
                    assert forall|j: int| 0 <= j < n implies !#[trigger] call_from_other(froms, actor, j) by {
                        if j < n - 1 {
                            assert(!call_from_other(froms, actor, j));
                        }
                    }
                }
            }
        }
    }
}

/// Shape of a translated call: the bridge is unchanged except that a
/// daiminkan schedules its dora after the replacement draw; the single
/// event is a chi (type 0) or pon (type 1) of two own tiles or a
/// daiminkan (type 2) of three, its target another seat and its consumed
/// tiles the actor's own.
pub proof fn lemma_chi_peng_gang_shape(st: BridgeView, data: JsonValue)
    ensures
        spec_chi_peng_gang(st, data) matches Some((st2, evs)) ==> {
            let actor = as_u64(get(data, "seat"@)).unwrap() as u8;
            let kind = as_u64(get(data, "type"@)).unwrap();
            let froms = as_array(get(data, "froms"@)).unwrap();
            let n = froms.len() as int;
            &&& as_array(get(data, "tiles"@)).unwrap().len() == froms.len()
            &&& evs.len() == 1
            &&& exists|j: int| 0 <= j < n && #[trigger] call_from_other(froms, actor, j)
            &&& kind == 0 ==> evs[0] is Chi && own_count(froms, actor, n) == 2 && st2 == st
            &&& kind == 1 ==> evs[0] is Pon && own_count(froms, actor, n) == 2 && st2 == st
            &&& kind == 2 ==> evs[0] is Daiminkan && own_count(froms, actor, n) == 3 && st2 == (BridgeView {
                dora_timing: Some(DoraTiming::PendingAfterRinshan),
                ..st
            })
            &&& kind <= 2
        },
{
    if let (Some(a), Some(kind), Some(tiles), Some(froms)) = (
        as_u64(get(data, "seat"@)),
        as_u64(get(data, "type"@)),
        as_array(get(data, "tiles"@)),
        as_array(get(data, "froms"@)),
    ) {
        if tiles.len() == froms.len() {
            lemma_split_call_shape(tiles, froms, a as u8, tiles.len() as int);
        }
    }
}

proof fn lemma_hora_events_are_hora(st: BridgeView, hules: Seq<JsonValue>, deltas: Option<Seq<i32>>, n: int)
    ensures
        (hora_events(st, hules, deltas, n) matches Some(evs) ==> no_reach_accepted(evs)),
    decreases n,
{
    if n > 0 {
        lemma_hora_events_are_hora(st, hules, deltas, n - 1);
    }
}

/// A win on the declaration tile voids the riichi: the queue is dropped
/// and no `reach_accepted` is emitted.
pub proof fn lemma_hule_voids_riichi(st: BridgeView, msg: ParsedMessage, data: JsonValue)
    requires
        action_message(msg, "ActionHule"@, data),
    ensures
        spec_dispatch(st, msg).0.pending_reach_accepted is None,
        no_reach_accepted(spec_dispatch(st, msg).1),
{
    lemma_action_names_distinct();
    let st1 = BridgeView { pending_reach_accepted: None, ..st };
    match as_array(get(data, "hules"@)) {
        Some(hules) => match hule_deltas(data) {
            Some(d) => {
                lemma_hora_events_are_hora(st1, hules, d, hules.len() as int);
                match hora_events(st1, hules, d, hules.len() as int) {
                    Some(evs) => {
                        assert(no_reach_accepted(evs.push(Ev::EndKyoku))) by {
                            assert forall|i: int| 0 <= i < evs.len() + 1 implies !(#[trigger] evs.push(Ev::EndKyoku)[i] is ReachAccepted) by {
                                if i < evs.len() {
                                    assert(evs.push(Ev::EndKyoku)[i] == evs[i]);
                                }
                            }
                        }
                    },
                    None => {},
                }
            },
            None => {},
        },
        None => {},
    }
}

/// A discard right after a riichi declaration leaves the queued acceptance
/// for the next action: its own events hold no `reach_accepted`, and a
/// queue stays filled.
pub proof fn lemma_discard_keeps_queue(st: BridgeView, msg: ParsedMessage, data: JsonValue, actor: u8)
    requires
        action_message(msg, "ActionDiscardTile"@, data),
        st.pending_reach_accepted == Some(actor),
    ensures
        spec_dispatch(st, msg).0.pending_reach_accepted is Some,
        no_reach_accepted(spec_dispatch(st, msg).1),
{
    lemma_action_names_distinct();
    match spec_discard_tile(st, data) {
        Some((st2, evs)) => {
            let a = seat_or_zero(data);
            let dora = match st.deferred_dora {
                Some(m) => seq![Ev::Dora { dora_marker: m }],
                None => Seq::<Ev>::empty(),
            };
            let riichi = flag(data, "is_liqi"@) || flag(data, "is_wliqi"@);
            let reach = if riichi {
                seq![Ev::Reach { actor: a }]
            } else {
                Seq::<Ev>::empty()
            };
            let pai = spec_ms_tile(as_str(get(data, "tile"@)).unwrap()).unwrap();
            let tail = seq![Ev::Dahai { actor: a, pai, tsumogiri: flag(data, "moqie"@) }];
            assert(evs == dora + reach + tail);
            assert forall|i: int| 0 <= i < evs.len() implies !(#[trigger] evs[i] is ReachAccepted) by {
                if i < dora.len() {
                    assert(evs[i] == dora[i]);
                } else if i < dora.len() + reach.len() {
                    assert(evs[i] == reach[i - dora.len()]);
                } else {
                    assert(evs[i] == tail[i - dora.len() - reach.len()]);
                }
            }
        },
        None => {},
    }
}

/// A new round starts from clean per-kyoku bookkeeping: the dora list is
/// just the round's first marker, no kan dora is pending or held back, no
/// tile is open to a ron and no riichi acceptance is queued.
pub proof fn lemma_new_round_resets(st: BridgeView, msg: ParsedMessage, data: JsonValue)
    requires
        action_message(msg, "ActionNewRound"@, data),
        spec_new_round(BridgeView { pending_reach_accepted: None, ..st }, data) is Some,
    ensures
        spec_dispatch(st, msg).0.doras == seq![first_dora(data).unwrap()],
        spec_dispatch(st, msg).0.dora_timing is None,
        spec_dispatch(st, msg).0.deferred_dora is None,
        spec_dispatch(st, msg).0.last_revealed_tile_actor is None,
        spec_dispatch(st, msg).0.pending_reach_accepted is None,
        spec_dispatch(st, msg).0.seat == st.seat,
        spec_dispatch(st, msg).0.account_id == st.account_id,
{
}

/// An ankan reveals its dora before the replacement draw; a kakan or a
/// daiminkan after it.
pub proof fn lemma_kan_sets_dora_timing(st: BridgeView, data: JsonValue)
    ensures
        (spec_an_gang_add_gang(st, data) matches Some((st2, _)) ==> st2.dora_timing == Some(
            if as_u64(get(data, "type"@)) == Some(3u64) {
                DoraTiming::PendingBeforeRinshan
            } else {
                DoraTiming::PendingAfterRinshan
            },
        )),
        (spec_chi_peng_gang(st, data) matches Some((st2, evs)) ==> (evs[0] is Daiminkan ==> st2.dora_timing
            == Some(DoraTiming::PendingAfterRinshan))),
{
}

/// After an ankan, the new marker that comes with the replacement draw is
/// emitted before the `tsumo`.
pub proof fn lemma_ankan_dora_before_rinshan(st: BridgeView, data: JsonValue, doras: Seq<Seq<char>>, marker: Seq<char>)
    requires
        st.dora_timing == Some(DoraTiming::PendingBeforeRinshan),
        spec_new_dora(st.doras, data) == Some((doras, Some(marker))),
        spec_deal_tile(st, data) is Some,
    ensures
        ({
            let (st2, evs) = spec_deal_tile(st, data).unwrap();
            &&& evs.len() == 2
            &&& evs[0] == Ev::Dora { dora_marker: marker }
            &&& evs[1] is Tsumo
            &&& st2.dora_timing is None
            &&& st2.deferred_dora == st.deferred_dora
        }),
{
}

/// After a kakan or daiminkan, the replacement `tsumo` is emitted alone and
/// its new marker is held back ...
pub proof fn lemma_open_kan_dora_held(st: BridgeView, data: JsonValue, doras: Seq<Seq<char>>, marker: Seq<char>)
    requires
        st.dora_timing == Some(DoraTiming::PendingAfterRinshan),
        spec_new_dora(st.doras, data) == Some((doras, Some(marker))),
        spec_deal_tile(st, data) is Some,
    ensures
        ({
            let (st2, evs) = spec_deal_tile(st, data).unwrap();
            &&& evs.len() == 1
            &&& evs[0] is Tsumo
            &&& st2.deferred_dora == Some(marker)
            &&& st2.dora_timing is None
        }),
{
}

/// ... until the next discard, whose `dahai` it immediately precedes
/// (a riichi declaration's `reach` sits between them).
pub proof fn lemma_held_dora_before_dahai(st: BridgeView, data: JsonValue, marker: Seq<char>)
    requires
        st.deferred_dora == Some(marker),
        spec_discard_tile(st, data) is Some,
    ensures
        ({
            let (st2, evs) = spec_discard_tile(st, data).unwrap();
            &&& evs[0] == Ev::Dora { dora_marker: marker }
            &&& evs.last() is Dahai
            &&& (evs.len() == 2 || (evs.len() == 3 && evs[1] is Reach))
            &&& st2.deferred_dora is None
        }),
{
}

/// The position of `id` in `s` found by [`find_account`] holds `id`, and
/// no earlier position does.
pub proof fn lemma_find_account(s: Seq<JsonValue>, id: u64)
    ensures
        match find_account(s, id) {
            Some(i) => 0 <= i < s.len() && as_u64(Some(s[i])) == Some(id) && forall|k: int| 0 <= k < i
                ==> as_u64(Some(#[trigger] s[k])) != Some(id),
            None => forall|k: int| 0 <= k < s.len() ==> as_u64(Some(#[trigger] s[k])) != Some(id),
        },
    decreases s.len(),
{
    if s.len() > 0 {
        lemma_find_account(s.drop_last(), id);
        assert forall|k: int| 0 <= k < s.len() - 1 implies #[trigger] s[k] == s.drop_last()[k] by {}
    }
}

/// Our seat is where our account sits in the `authGame` seat list (its
/// first occurrence), and the `start_game` event names that seat.
pub proof fn lemma_seat_resolution(st: BridgeView, msg: ParsedMessage, account: u64, seat_list: Seq<JsonValue>, i: int)
    requires
        st.account_id == Some(account),
        msg.msg_type == MessageType::Response,
        msg.method_name@ == ".lq.FastTest.authGame"@,
        as_array(get(msg.payload, "seat_list"@)) == Some(seat_list),
        0 <= i < seat_list.len(),
        as_u64(Some(seat_list[i])) == Some(account),
        forall|k: int| 0 <= k < i ==> as_u64(Some(#[trigger] seat_list[k])) != Some(account),
    ensures
        spec_dispatch(st, msg).0.seat == Some(i as u8),
        spec_dispatch(st, msg).1.len() == 1,
        (spec_dispatch(st, msg).1[0] matches Ev::StartGame { id, .. } && id == Some(i as u8)),
{
    lemma_find_account(seat_list, account);
    match find_account(seat_list, account) {
        Some(j) => {
            if j < i {
                assert(as_u64(Some(seat_list[j])) != Some(account));
            } else if j > i {
                assert(as_u64(Some(seat_list[i])) != Some(account));
            }
        },
        None => {
            assert(as_u64(Some(seat_list[i])) != Some(account));
        },
    }
}

/// The account id of our `authGame` request is remembered for the
/// response.
pub proof fn lemma_auth_request_records_account(st: BridgeView, msg: ParsedMessage)
    requires
        msg.msg_type == MessageType::Request,
        msg.method_name@ == ".lq.FastTest.authGame"@,
    ensures
        spec_dispatch(st, msg).0.account_id == as_u64(get(msg.payload, "account_id"@)),
        spec_dispatch(st, msg).1.len() == 0,
{
}

} // verus!
