//! mjai protocol events (the JSONL stream consumed by bots).
//!
//! Tiles are mjai strings (`"1m"`, `"5mr"`, `"E"`, `"?"`). Per-seat lists
//! (`names`, `scores`, `tehais`, `deltas`) hold one entry per seat of a
//! four-seat table; three-player tables pad the fourth seat.
use vstd::prelude::*;
use crate::tile::views;

verus! {

/// mjai tile string.
pub type Tile = String;

/// Seat index, 0..=3 (4p) or 0..=2 (3p).
pub type Actor = u8;

/// One mjai event.
#[derive(Debug, Clone, PartialEq, Eq)]
pub enum MjaiEvent {
    StartGame {
        names: Vec<String>,
        kyoku_first: Option<u8>,
        aka_flag: Option<bool>,
        /// The bot's own seat, when this stream is the bot's view.
        id: Option<Actor>,
    },
    StartKyoku {
        bakaze: Tile,
        dora_marker: Tile,
        /// 1..=4
        kyoku: u8,
        honba: u8,
        kyotaku: u8,
        oya: Actor,
        scores: Vec<i32>,
        tehais: Vec<Vec<Tile>>,
    },
    Tsumo { actor: Actor, pai: Tile },
    Dahai { actor: Actor, pai: Tile, tsumogiri: bool },
    Chi { actor: Actor, target: Actor, pai: Tile, consumed: Vec<Tile> },
    Pon { actor: Actor, target: Actor, pai: Tile, consumed: Vec<Tile> },
    Daiminkan { actor: Actor, target: Actor, pai: Tile, consumed: Vec<Tile> },
    Kakan { actor: Actor, pai: Tile, consumed: Vec<Tile> },
    Ankan { actor: Actor, consumed: Vec<Tile> },
    Dora { dora_marker: Tile },
    Reach { actor: Actor },
    ReachAccepted { actor: Actor },
    Hora { actor: Actor, target: Actor, deltas: Option<Vec<i32>>, ura_markers: Option<Vec<Tile>> },
    Ryukyoku { deltas: Option<Vec<i32>> },
    EndKyoku,
    EndGame,
}

/// Mathematical view of an [`MjaiEvent`]: strings become character
/// sequences, vectors become sequences.
pub enum Ev {
    StartGame { names: Seq<Seq<char>>, kyoku_first: Option<u8>, aka_flag: Option<bool>, id: Option<u8> },
    StartKyoku {
        bakaze: Seq<char>,
        dora_marker: Seq<char>,
        kyoku: u8,
        honba: u8,
        kyotaku: u8,
        oya: u8,
        scores: Seq<i32>,
        tehais: Seq<Seq<Seq<char>>>,
    },
    Tsumo { actor: u8, pai: Seq<char> },
    Dahai { actor: u8, pai: Seq<char>, tsumogiri: bool },
    Chi { actor: u8, target: u8, pai: Seq<char>, consumed: Seq<Seq<char>> },
    Pon { actor: u8, target: u8, pai: Seq<char>, consumed: Seq<Seq<char>> },
    Daiminkan { actor: u8, target: u8, pai: Seq<char>, consumed: Seq<Seq<char>> },
    Kakan { actor: u8, pai: Seq<char>, consumed: Seq<Seq<char>> },
    Ankan { actor: u8, consumed: Seq<Seq<char>> },
    Dora { dora_marker: Seq<char> },
    Reach { actor: u8 },
    ReachAccepted { actor: u8 },
    Hora { actor: u8, target: u8, deltas: Option<Seq<i32>>, ura_markers: Option<Seq<Seq<char>>> },
    Ryukyoku { deltas: Option<Seq<i32>> },
    EndKyoku,
    EndGame,
}

pub open spec fn opt_seq_view(v: Option<Vec<i32>>) -> Option<Seq<i32>> {
    match v {
        Some(d) => Some(d@),
        None => None,
    }
}

pub open spec fn opt_tiles_view(v: Option<Vec<String>>) -> Option<Seq<Seq<char>>> {
    match v {
        Some(d) => Some(views(d@)),
        None => None,
    }
}

pub open spec fn rows_view(rows: Seq<Vec<String>>) -> Seq<Seq<Seq<char>>> {
    rows.map_values(|r: Vec<String>| views(r@))
}

impl View for MjaiEvent {
    type V = Ev;

    open spec fn view(&self) -> Ev {
        match self {
            MjaiEvent::StartGame { names, kyoku_first, aka_flag, id } => Ev::StartGame {
                names: views(names@),
                kyoku_first: *kyoku_first,
                aka_flag: *aka_flag,
                id: *id,
            },
            MjaiEvent::StartKyoku { bakaze, dora_marker, kyoku, honba, kyotaku, oya, scores, tehais } =>
                Ev::StartKyoku {
                bakaze: bakaze@,
                dora_marker: dora_marker@,
                kyoku: *kyoku,
                honba: *honba,
                kyotaku: *kyotaku,
                oya: *oya,
                scores: scores@,
                tehais: rows_view(tehais@),
            },
            MjaiEvent::Tsumo { actor, pai } => Ev::Tsumo { actor: *actor, pai: pai@ },
            MjaiEvent::Dahai { actor, pai, tsumogiri } => Ev::Dahai {
                actor: *actor,
                pai: pai@,
                tsumogiri: *tsumogiri,
            },
            MjaiEvent::Chi { actor, target, pai, consumed } => Ev::Chi {
                actor: *actor,
                target: *target,
                pai: pai@,
                consumed: views(consumed@),
            },
            MjaiEvent::Pon { actor, target, pai, consumed } => Ev::Pon {
                actor: *actor,
                target: *target,
                pai: pai@,
                consumed: views(consumed@),
            },
            MjaiEvent::Daiminkan { actor, target, pai, consumed } => Ev::Daiminkan {
                actor: *actor,
                target: *target,
                pai: pai@,
                consumed: views(consumed@),
            },
            MjaiEvent::Kakan { actor, pai, consumed } => Ev::Kakan {
                actor: *actor,
                pai: pai@,
                consumed: views(consumed@),
            },
            MjaiEvent::Ankan { actor, consumed } => Ev::Ankan { actor: *actor, consumed: views(consumed@) },
            MjaiEvent::Dora { dora_marker } => Ev::Dora { dora_marker: dora_marker@ },
            MjaiEvent::Reach { actor } => Ev::Reach { actor: *actor },
            MjaiEvent::ReachAccepted { actor } => Ev::ReachAccepted { actor: *actor },
            MjaiEvent::Hora { actor, target, deltas, ura_markers } => Ev::Hora {
                actor: *actor,
                target: *target,
                deltas: opt_seq_view(*deltas),
                ura_markers: opt_tiles_view(*ura_markers),
            },
            MjaiEvent::Ryukyoku { deltas } => Ev::Ryukyoku { deltas: opt_seq_view(*deltas) },
            MjaiEvent::EndKyoku => Ev::EndKyoku,
            MjaiEvent::EndGame => Ev::EndGame,
        }
    }
}

/// Views of a sequence of events.
pub open spec fn ev_views(v: Seq<MjaiEvent>) -> Seq<Ev> {
    v.map_values(|e: MjaiEvent| e@)
}

} // verus!
