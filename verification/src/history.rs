//! Persisted game-history records and the filter the history views apply.
//! Timestamps are UTC instants given as whole seconds since the Unix epoch
//! plus a nanosecond part, ordered as the pair.
use vstd::prelude::*;
use crate::mjai::MjaiEvent;

verus! {

/// Bridge that produced the record. `Unknown` is the safety net for a
/// future bridge whose tag is added before the schema knows about it.
#[derive(Debug, Clone, Copy, PartialEq, Eq, Structural)]
pub enum Platform {
    Majsoul,
    Tenhou,
    RiichiCity,
    Mjai,
    Unknown,
}

/// Game length, derived from the highest `bakaze` seen in `start_kyoku`.
#[derive(Debug, Clone, Copy, PartialEq, Eq, Structural)]
pub enum KyokuMode {
    /// Only `"E"` rounds — tonpuu (east-only).
    EastOnly,
    /// At least one `"S"` round — hanchan (east-south).
    EastSouth,
    /// Saw `"W"` or `"N"` — west / north overtime.
    Other,
}

/// A UTC instant: seconds since the Unix epoch and the nanoseconds within
/// that second.
#[derive(Debug, Clone, Copy, PartialEq, Eq, Structural)]
pub struct UtcTime {
    pub secs: i64,
    pub nanos: u32,
}

/// `a` is strictly earlier than `b`.
pub open spec fn earlier(a: UtcTime, b: UtcTime) -> bool {
    a.secs < b.secs || (a.secs == b.secs && a.nanos < b.nanos)
}

impl UtcTime {
    /// `self` is strictly earlier than `other`.
    pub fn is_before(&self, other: &UtcTime) -> (r: bool)
        ensures
            r == earlier(*self, *other),
    {
        self.secs < other.secs || (self.secs == other.secs && self.nanos < other.nanos)
    }
}

/// Per-game counters from the recorded player's perspective.
#[derive(Debug, Clone, Default, PartialEq, Eq)]
pub struct GameStats {
    pub round: i64,
    pub oya: i64,
    pub fuuro: i64,
    pub fuuro_num: i64,
    pub fuuro_point: i64,
    pub fuuro_agari: i64,
    pub fuuro_agari_jun: i64,
    pub fuuro_agari_point: i64,
    pub fuuro_houjuu: i64,
    pub agari: i64,
    pub agari_as_oya: i64,
    pub agari_jun: i64,
    pub agari_point_oya: i64,
    pub agari_point_ko: i64,
    pub houjuu: i64,
    pub houjuu_jun: i64,
    pub houjuu_to_oya: i64,
    pub houjuu_point_to_oya: i64,
    pub houjuu_point_to_ko: i64,
    pub riichi: i64,
    pub riichi_as_oya: i64,
    pub riichi_jun: i64,
    pub riichi_agari: i64,
    pub riichi_agari_point: i64,
    pub riichi_agari_jun: i64,
    pub riichi_houjuu: i64,
    pub riichi_ryukyoku: i64,
    pub riichi_point: i64,
    pub chasing_riichi: i64,
    pub riichi_got_chased: i64,
    pub dama_agari: i64,
    pub dama_agari_jun: i64,
    pub dama_agari_point: i64,
    pub ryukyoku: i64,
    pub ryukyoku_point: i64,
    pub yakuman: i64,
    pub nagashi_mangan: i64,
}

/// One finalised game.
#[derive(Debug, Clone, PartialEq, Eq)]
pub struct GameRecord {
    /// Sortable id; doubles as the file stem of the stored event log.
    pub id: String,
    /// When the recorder saw the game's first event.
    pub started_at: UtcTime,
    /// When `EndGame` arrived.
    pub ended_at: UtcTime,
    pub platform: Platform,
    /// 3 (sanma) or 4 (yonma).
    pub num_players: u8,
    pub kyoku_mode: KyokuMode,
    /// Player display names, indexed by seat.
    pub names: Vec<String>,
    /// The recorded player's seat, when one was declared.
    pub our_seat: Option<u8>,
    /// Final scores per seat.
    pub final_scores: Vec<i32>,
    /// Final rank (1..=num_players) per seat.
    pub final_ranks: Vec<u8>,
    pub our_rank: Option<u8>,
    /// Our final score minus the starting score.
    pub our_delta: Option<i32>,
    pub stats: GameStats,
    /// Path of the stored event log, relative to the history root.
    pub log_path: String,
}

/// Filter for history listings. Every clause is optional; the default
/// filter has none and matches every record.
#[derive(Debug, Clone, PartialEq, Eq)]
pub struct HistoryFilter {
    pub platform: Option<Platform>,
    /// 3 or 4. Filters by `num_players`.
    pub num_players: Option<u8>,
    pub kyoku_mode: Option<KyokuMode>,
    /// Inclusive lower bound on `started_at`.
    pub started_after: Option<UtcTime>,
    /// Exclusive upper bound on `started_at`.
    pub started_before: Option<UtcTime>,
}

/// The filter with no clause.
pub open spec fn empty_filter() -> HistoryFilter {
    HistoryFilter {
        platform: None,
        num_players: None,
        kyoku_mode: None,
        started_after: None,
        started_before: None,
    }
}

impl Default for HistoryFilter {
    fn default() -> (r: Self)
        ensures
            r == empty_filter(),
    {
        HistoryFilter {
            platform: None,
            num_players: None,
            kyoku_mode: None,
            started_after: None,
            started_before: None,
        }
    }
}

/// `record` passes every populated clause of `f`.
pub open spec fn filter_accepts(f: HistoryFilter, record: GameRecord) -> bool {
    &&& (f.platform matches Some(p) ==> record.platform == p)
    &&& (f.num_players matches Some(n) ==> record.num_players == n)
    &&& (f.kyoku_mode matches Some(m) ==> record.kyoku_mode == m)
    &&& (f.started_after matches Some(a) ==> !earlier(record.started_at, a))
    &&& (f.started_before matches Some(b) ==> earlier(record.started_at, b))
}

impl HistoryFilter {
    /// True when `record` passes every populated filter clause.
    pub fn matches(&self, record: &GameRecord) -> (r: bool)
        ensures
            r == filter_accepts(*self, *record),
    {
        if let Some(p) = self.platform {
            if record.platform != p {
                return false;
            }
        }
        if let Some(n) = self.num_players {
            if record.num_players != n {
                return false;
            }
        }
        if let Some(m) = self.kyoku_mode {
            if record.kyoku_mode != m {
                return false;
            }
        }
        if let Some(after) = self.started_after {
            if record.started_at.is_before(&after) {
                return false;
            }
        }
        if let Some(before) = self.started_before {
            if !record.started_at.is_before(&before) {
                return false;
            }
        }
        true
    }
}

/// The default filter matches every record.
pub proof fn lemma_default_filter_matches_all(record: GameRecord)
    ensures
        filter_accepts(empty_filter(), record),
{
}

/// A filter's clauses are independent: a record passes the filter exactly
/// when it passes each one-clause filter made of one of its clauses.
pub proof fn lemma_filter_is_conjunction(f: HistoryFilter, record: GameRecord)
    ensures
        filter_accepts(f, record) == (filter_accepts(
            HistoryFilter { platform: f.platform, ..empty_filter() },
            record,
        ) && filter_accepts(HistoryFilter { num_players: f.num_players, ..empty_filter() }, record)
            && filter_accepts(HistoryFilter { kyoku_mode: f.kyoku_mode, ..empty_filter() }, record)
            && filter_accepts(
            HistoryFilter { started_after: f.started_after, ..empty_filter() },
            record,
        ) && filter_accepts(
            HistoryFilter { started_before: f.started_before, ..empty_filter() },
            record,
        )),
{
}

/// Notification that a record landed in, or left, the history.
#[derive(Debug, Clone, PartialEq, Eq)]
pub enum HistoryEvent {
    /// A finalised game was appended to the index.
    Recorded { record: Box<GameRecord> },
    /// A record was deleted.
    Deleted { id: String },
}

// ---------------------------------------------------------------------------
// Buffering one game of events
// ---------------------------------------------------------------------------

/// Cap on one game's buffered events (a hanchan is about 1500); a game
/// that exceeds it is dropped from the history.
pub const MAX_EVENTS_PER_GAME: usize = 5000;

/// The events of the game in progress, from its `start_game` on.
#[derive(Debug)]
pub struct RecorderState {
    /// `None` until the first `start_game`.
    pub buf: Option<Vec<MjaiEvent>>,
    /// A `start_game` opened the current buffer.
    pub has_start: bool,
    /// The buffer overflowed; events are ignored until the next game.
    pub overflown: bool,
}

/// `after` is `before` with `ev` appended to the open buffer: nothing
/// changes without an open buffer or after an overflow; at the cap the
/// buffer is emptied and marked overflowed.
pub open spec fn pushed(before: RecorderState, ev: MjaiEvent, after: RecorderState) -> bool {
    &&& after.has_start == before.has_start
    &&& if before.overflown || before.buf is None {
        after.buf == before.buf && after.overflown == before.overflown
    } else if before.buf.unwrap()@.len() >= MAX_EVENTS_PER_GAME {
        after.overflown && (after.buf matches Some(b) && b@.len() == 0)
    } else {
        !after.overflown && (after.buf matches Some(b) && b@ == before.buf.unwrap()@.push(ev))
    }
}

/// An `end_game` arriving in state `st` completes a game: a buffer opened
/// by `start_game` is still within the cap.
pub open spec fn completes_game(st: RecorderState) -> bool {
    st.buf is Some && st.has_start && !st.overflown && st.buf.unwrap()@.len() < MAX_EVENTS_PER_GAME
}

/// What handling `ev` in state `before` does: a `start_game` opens a fresh
/// buffer holding it; an `end_game` closes the buffer and gives back the
/// whole game with the `end_game` exactly when it completes one; every
/// other event is buffered.
pub open spec fn recorded(before: RecorderState, ev: MjaiEvent, after: RecorderState, r: Option<Seq<MjaiEvent>>) -> bool {
    &&& ev is StartGame ==> after.has_start && !after.overflown && (after.buf matches Some(b) && b@ == seq![ev])
        && r is None
    &&& ev is EndGame ==> after.buf is None && !after.has_start && !after.overflown && (r is Some
        <==> completes_game(before)) && (r matches Some(evs) ==> evs == before.buf.unwrap()@.push(ev))
    &&& !(ev is StartGame) && !(ev is EndGame) ==> pushed(before, ev, after) && r is None
}

/// A complete game is recorded whole: from any state, the events of a
/// game (a `start_game`, events that neither start nor end a game, then an
/// `end_game`, no more than the cap) give back nothing until the
/// `end_game`, which gives back exactly those events.
pub proof fn lemma_complete_game_recorded(states: Seq<RecorderState>, evs: Seq<MjaiEvent>, rs: Seq<Option<Seq<MjaiEvent>>>)
    requires
        2 <= evs.len() <= MAX_EVENTS_PER_GAME,
        states.len() == evs.len() + 1,
        rs.len() == evs.len(),
        evs[0] is StartGame,
        evs.last() is EndGame,
        forall|i: int| 0 < i < evs.len() - 1 ==> !(#[trigger] evs[i] is StartGame) && !(evs[i] is EndGame),
        forall|i: int| 0 <= i < evs.len() ==> #[trigger] recorded(states[i], evs[i], states[i + 1], rs[i]),
    ensures
        forall|i: int| 0 <= i < evs.len() - 1 ==> #[trigger] rs[i] is None,
        rs.last() == Some(evs),
{
    let n = evs.len() as int;
    lemma_game_prefix_buffered(states, evs, rs, n - 2);
    let k = n - 1;
    assert(recorded(states[k], evs[k], states[k + 1], rs[k]));
    assert(evs.take(k).push(evs[k]) =~= evs);
}

/// Events `j..i` are one game in progress: `evs[j]` starts it and no later
/// event before `i` starts or ends a game.
pub open spec fn game_since(evs: Seq<MjaiEvent>, j: int, i: int) -> bool {
    &&& 0 <= j < i
    &&& evs[j] is StartGame
    &&& forall|m: int| j < m < i ==> !(#[trigger] evs[m] is StartGame) && !(evs[m] is EndGame)
}

/// An open, unspoilt buffer holds exactly the events since the last
/// `start_game`.
proof fn lemma_open_buffer(states: Seq<RecorderState>, evs: Seq<MjaiEvent>, rs: Seq<Option<Seq<MjaiEvent>>>, i: int)
    requires
        states.len() == evs.len() + 1,
        rs.len() == evs.len(),
        !states[0].has_start,
        forall|k: int| 0 <= k < evs.len() ==> #[trigger] recorded(states[k], evs[k], states[k + 1], rs[k]),
        0 <= i <= evs.len(),
    ensures
        (states[i].has_start && !states[i].overflown && states[i].buf is Some) ==> exists|j: int|
            #[trigger] game_since(evs, j, i) && states[i].buf.unwrap()@ == evs.subrange(j, i),
    decreases i,
{
    if i > 0 {
        lemma_open_buffer(states, evs, rs, i - 1);
        let k = i - 1;
        assert(recorded(states[k], evs[k], states[k + 1], rs[k]));
        let after = states[i];
        if after.has_start && !after.overflown && after.buf is Some {
            if evs[k] is StartGame {
                assert(game_since(evs, k, i));
                assert(evs.subrange(k, i) =~= seq![evs[k]]);
            } else if evs[k] is EndGame {
            } else {
                let before = states[k];
                let j: int = choose|j: int| #[trigger] game_since(evs, j, k) && before.buf.unwrap()@ == evs.subrange(j, k);
                assert(game_since(evs, j, i));
                assert(evs.subrange(j, i) =~= evs.subrange(j, k).push(evs[k]));
            }
        }
    }
}

/// Only a complete game is ever given back, and it is the last one
/// started: on a run from a recorder with no game open, a record comes
/// only with an `end_game`, and it holds exactly the events from the last
/// `start_game` through that `end_game`. A second `start_game` before the
/// `end_game` drops what came before it; a run that stops before an
/// `end_game` gives nothing back.
pub proof fn lemma_record_is_last_game(states: Seq<RecorderState>, evs: Seq<MjaiEvent>, rs: Seq<Option<Seq<MjaiEvent>>>, k: int)
    requires
        states.len() == evs.len() + 1,
        rs.len() == evs.len(),
        !states[0].has_start,
        forall|m: int| 0 <= m < evs.len() ==> #[trigger] recorded(states[m], evs[m], states[m + 1], rs[m]),
        0 <= k < evs.len(),
    ensures
        rs[k] matches Some(g) ==> evs[k] is EndGame && exists|j: int| #[trigger] game_since(evs, j, k) && g
            == evs.subrange(j, k + 1),
{
    assert(recorded(states[k], evs[k], states[k + 1], rs[k]));
    if let Some(g) = rs[k] {
        lemma_open_buffer(states, evs, rs, k);
        let j: int = choose|j: int| #[trigger] game_since(evs, j, k) && states[k].buf.unwrap()@ == evs.subrange(j, k);
        assert(evs.subrange(j, k + 1) =~= evs.subrange(j, k).push(evs[k]));
    }
}

/// While a game is in progress its first `i + 1` events are buffered and
/// nothing has been given back.
proof fn lemma_game_prefix_buffered(states: Seq<RecorderState>, evs: Seq<MjaiEvent>, rs: Seq<Option<Seq<MjaiEvent>>>, i: int)
    requires
        2 <= evs.len() <= MAX_EVENTS_PER_GAME,
        states.len() == evs.len() + 1,
        rs.len() == evs.len(),
        0 <= i <= evs.len() - 2,
        evs[0] is StartGame,
        forall|j: int| 0 < j < evs.len() - 1 ==> !(#[trigger] evs[j] is StartGame) && !(evs[j] is EndGame),
        forall|j: int| 0 <= j < evs.len() ==> #[trigger] recorded(states[j], evs[j], states[j + 1], rs[j]),
    ensures
        forall|j: int| 0 <= j <= i ==> #[trigger] rs[j] is None,
        states[i + 1].has_start && !states[i + 1].overflown,
        states[i + 1].buf matches Some(b) && b@ == evs.take(i + 1),
    decreases i,
{
    if i == 0 {
        assert(recorded(states[0], evs[0], states[1], rs[0]));
        assert(evs.take(1) =~= seq![evs[0]]);
    } else {
        lemma_game_prefix_buffered(states, evs, rs, i - 1);
        assert(recorded(states[i], evs[i], states[i + 1], rs[i]));
        assert(!(evs[i] is StartGame) && !(evs[i] is EndGame));
        assert(evs.take(i + 1) =~= evs.take(i).push(evs[i]));
    }
}

impl RecorderState {
    /// A buffer is only opened by `start_game`, which it keeps first; an
    /// overflowed buffer is empty; an open one stays within the cap.
    pub open spec fn wf(&self) -> bool {
        match self.buf {
            None => !self.overflown,
            Some(b) => self.has_start && if self.overflown {
                b@.len() == 0
            } else {
                0 < b@.len() <= MAX_EVENTS_PER_GAME && b@[0] is StartGame
            },
        }
    }

    /// Nothing recorded yet.
    pub fn new() -> (r: Self)
        ensures
            r.wf(),
            r.buf is None,
            !r.has_start,
            !r.overflown,
    {
        RecorderState { buf: None, has_start: false, overflown: false }
    }

    /// Forget the game in progress.
    pub fn reset(&mut self)
        ensures
            final(self).wf(),
            final(self).buf is None,
            !final(self).has_start,
            !final(self).overflown,
    {
        self.buf = None;
        self.has_start = false;
        self.overflown = false;
    }

    /// Append `ev` to the open buffer; at the cap the game is abandoned:
    /// the buffer is emptied and marked overflowed.
    pub fn push(&mut self, ev: MjaiEvent)
        requires
            old(self).wf(),
        ensures
            final(self).wf(),
            pushed(*old(self), ev, *final(self)),
    {
        if self.overflown {
            return;
        }
        match self.buf.take() {
            None => {},
            Some(mut b) => {
                if b.len() >= MAX_EVENTS_PER_GAME {
                    self.overflown = true;
                    b.clear();
                } else {
                    b.push(ev);
                }
                self.buf = Some(b);
            },
        }
    }

    /// Track one event. `start_game` opens a fresh buffer; `end_game`
    /// closes it and returns the whole game, from `start_game` to
    /// `end_game`, unless it overflowed; everything else is buffered.
    pub fn handle(&mut self, ev: MjaiEvent) -> (r: Option<Vec<MjaiEvent>>)
        requires
            old(self).wf(),
        ensures
            final(self).wf(),
            recorded(*old(self), ev, *final(self), match r { Some(v) => Some(v@), None => None }),
            r matches Some(evs) ==> 2 <= evs@.len() <= MAX_EVENTS_PER_GAME && evs@[0] is StartGame
                && evs@.last() is EndGame,
    {
        let is_start = match ev {
            MjaiEvent::StartGame { .. } => true,
            _ => false,
        };
        let is_end = match ev {
            MjaiEvent::EndGame => true,
            _ => false,
        };
        if is_start {
            let mut b: Vec<MjaiEvent> = Vec::new();
            b.push(ev);
            self.buf = Some(b);
            self.has_start = true;
            self.overflown = false;
            None
        } else if is_end {
            self.push(ev);
            let result = if self.has_start && !self.overflown {
                self.buf.take()
            } else {
                None
            };
            self.reset();
            result
        } else {
            if self.buf.is_none() || self.overflown {
                return None;
            }
            self.push(ev);
            None
        }
    }
}

} // verus!
