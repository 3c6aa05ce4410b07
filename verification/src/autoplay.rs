//! Majsoul autoplay decisions that do not depend on screen geometry: which
//! rack slot a discard clicks, and which call candidate matches the bot's
//! consumed tiles. Slots are indices into the rack; turning them into
//! screen coordinates is the caller's job.
use vstd::prelude::*;
use crate::mjai::MjaiEvent;
use crate::tile::{views, sorted_tiles, sort_tiles, spec_same_tile_relaxed, same_tile_relaxed, same_tile, compare_pai, tile_rank, tid_to_mjai, spec_tid_to_mjai, strip_red_marker, strip_one_r};
use crate::mjai::rows_view;
use crate::util::lemma_filter_take_push;

verus! {

/// Majsoul autoplay planner (stateless).
pub struct MajsoulAutoplay;

impl MajsoulAutoplay {
    pub fn new() -> (r: Self) {
        MajsoulAutoplay
    }
}

/// Where a discard click lands on the rack.
#[derive(Debug, Clone, Copy, PartialEq, Eq)]
pub enum DahaiSlot {
    /// Dealer's first discard: all 14 tiles laid out continuously, sorted;
    /// slot `index` of that layout.
    Rack { index: usize },
    /// Slot `index` of the sorted closed hand of `hand_len` tiles.
    Hand { index: usize, hand_len: usize },
    /// The separated just-drawn tile next to a closed hand of `hand_len`.
    Drawn { hand_len: usize },
}

/// Index of the first occurrence of `x` in `s`.
pub open spec fn first_index(s: Seq<Seq<char>>, x: Seq<char>) -> Option<int>
    decreases s.len(),
{
    if s.len() == 0 {
        None
    } else if s[0] == x {
        Some(0)
    } else {
        match first_index(s.drop_first(), x) {
            Some(i) => Some(i + 1),
            None => None,
        }
    }
}

/// Index of the last occurrence of `x` in `s`.
pub open spec fn last_index(s: Seq<Seq<char>>, x: Seq<char>) -> Option<int>
    decreases s.len(),
{
    if s.len() == 0 {
        None
    } else if s.last() == x {
        Some(s.len() - 1)
    } else {
        last_index(s.drop_last(), x)
    }
}

/// Hand sizes that include a just-drawn tile (`len % 3 == 2`, up to 14).
pub open spec fn has_drawn_slot(n: int) -> bool {
    n == 14 || n == 11 || n == 8 || n == 5 || n == 2
}

/// The closed hand after separating the drawn tile (the last copy of it),
/// and whether it was separated.
pub open spec fn split_drawn(tehai: Seq<Seq<char>>, drawn: Option<Seq<char>>) -> (Seq<Seq<char>>, bool) {
    match drawn {
        Some(t) => if has_drawn_slot(tehai.len() as int) {
            match last_index(tehai, t) {
                Some(pos) => (tehai.remove(pos), true),
                None => (tehai, false),
            }
        } else {
            (tehai, false)
        },
        None => (tehai, false),
    }
}

/// Slot clicked to discard `pai`. Red fives match exactly: a normal five
/// never clicks the red five.
pub open spec fn spec_plan_dahai(
    pai: Seq<char>,
    tsumogiri: bool,
    tehai: Seq<Seq<char>>,
    drawn: Option<Seq<char>>,
    dealer_first: bool,
) -> Option<DahaiSlot> {
    if dealer_first {
        match first_index(sorted_tiles(tehai), pai) {
            Some(i) => if i < 14 {
                Some(DahaiSlot::Rack { index: i as usize })
            } else {
                None
            },
            None => None,
        }
    } else {
        let (hand, separated) = split_drawn(tehai, drawn);
        let sorted = sorted_tiles(hand);
        if drawn is Some && (separated || tsumogiri) && pai == drawn.unwrap() {
            Some(DahaiSlot::Drawn { hand_len: sorted.len() as usize })
        } else {
            match first_index(sorted, pai) {
                Some(i) => if i >= 13 {
                    None
                } else {
                    Some(DahaiSlot::Hand { index: i as usize, hand_len: sorted.len() as usize })
                },
                None => None,
            }
        }
    }
}

/// Index of `pai` in a sorted closed hand (exact match, red fives kept apart).
pub fn sorted_hand_index_for_discard(pai: &str, sorted: &Vec<String>) -> (r: Option<usize>)
    ensures
        match first_index(views(sorted@), pai@) {
            Some(i) => r matches Some(j) && j as int == i,
            None => r is None,
        },
{
    let n = sorted.len();
    let mut i: usize = 0;
    assert(views(sorted@).skip(0) =~= views(sorted@));
    while i < n
        invariant
            n == sorted@.len(),
            i <= n,
            first_index(views(sorted@), pai@) == match first_index(views(sorted@).skip(i as int), pai@) {
                Some(k) => Some(k + i),
                None => None::<int>,
            },
        decreases n - i,
    {
        assert(views(sorted@).skip(i as int).drop_first() =~= views(sorted@).skip(i + 1));
        assert(views(sorted@).skip(i as int)[0] == sorted@[i as int]@);
        if same_tile(sorted[i].as_str(), pai) {
            return Some(i);
        }
        i += 1;
    }
    None
}

/// Position of the drawn tile in the raw hand: the last exact copy.
pub fn rposition_remove_drawn(hand: &Vec<String>, drawn: &str) -> (r: Option<usize>)
    ensures
        match last_index(views(hand@), drawn@) {
            Some(i) => r matches Some(j) && j as int == i,
            None => r is None,
        },
        r matches Some(j) ==> j < hand@.len(),
{
    let mut i = hand.len();
    assert(views(hand@).take(i as int) =~= views(hand@));
    while i > 0
        invariant
            i <= hand@.len(),
            last_index(views(hand@), drawn@) == last_index(views(hand@).take(i as int), drawn@),
        decreases i,
    {
        assert(views(hand@).take(i as int).drop_last() =~= views(hand@).take(i - 1));
        if same_tile(hand[i - 1].as_str(), drawn) {
            return Some(i - 1);
        }
        i -= 1;
    }
    None
}

/// Plan the rack slot of a discard (or of the riichi-declaring discard).
///
/// `tehai` is our hand as the tracker sees it, `last_self_tsumo` our last
/// drawn tile, `dealer_first` whether this is the dealer's first discard
/// (see [`is_dealer_first_discard`]). `None` means no click.
pub fn plan_dahai_click(
    pai: &str,
    tsumogiri: bool,
    tehai: &Vec<String>,
    last_self_tsumo: Option<&str>,
    dealer_first: bool,
) -> (r: Option<DahaiSlot>)
    ensures
        r == spec_plan_dahai(
            pai@,
            tsumogiri,
            views(tehai@),
            match last_self_tsumo {
                Some(t) => Some(t@),
                None => None,
            },
            dealer_first,
        ),
{
    if dealer_first {
        let sorted = sort_tiles(tehai);
        return match sorted_hand_index_for_discard(pai, &sorted) {
            Some(i) => if i < 14 {
                Some(DahaiSlot::Rack { index: i })
            } else {
                None
            },
            None => None,
        };
    }
    let mut hand: Vec<String> = tehai.clone();
    assert(hand@ == tehai@);
    let mut separated = false;
    let n = hand.len();
    if n == 14 || n == 11 || n == 8 || n == 5 || n == 2 {
        if let Some(t) = last_self_tsumo {
            if let Some(pos) = rposition_remove_drawn(&hand, t) {
                let ghost before = views(hand@);
                hand.remove(pos);
                assert(views(hand@) =~= before.remove(pos as int));
                separated = true;
            }
        }
    }
    let sorted = sort_tiles(&hand);
    if let Some(t) = last_self_tsumo {
        if separated || tsumogiri {
            if same_tile(pai, t) {
                return Some(DahaiSlot::Drawn { hand_len: sorted.len() });
            }
        }
    }
    let idx = match sorted_hand_index_for_discard(pai, &sorted) {
        Some(i) => i,
        None => {
            return None;
        },
    };
    if idx >= 13 {
        return None;
    }
    Some(DahaiSlot::Hand { index: idx, hand_len: sorted.len() })
}

/// The dealer's very first discard of a kyoku: we deal, hold 14 tiles, and
/// have neither discards nor melds yet.
pub fn is_dealer_first_discard(oya: u8, our_seat: u8, hand_len: usize, river_len: usize, melds_len: usize) -> (r: bool)
    ensures
        r == (oya == our_seat && hand_len == 14 && river_len == 0 && melds_len == 0),
{
    oya == our_seat && hand_len == 14 && river_len == 0 && melds_len == 0
}

/// The bot's discard target is in the hand or is the drawn tile.
pub fn hand_snapshot_contains_target(tehai: &Vec<String>, target: &str, last_self_tsumo: Option<&str>) -> (r: bool)
    ensures
        r == (views(tehai@).contains(target@) || (last_self_tsumo matches Some(t) && t@ == target@)),
{
    let n = tehai.len();
    let mut i: usize = 0;
    while i < n
        invariant
            n == tehai@.len(),
            i <= n,
            forall|k: int| 0 <= k < i ==> tehai@[k]@ != target@,
        decreases n - i,
    {
        if same_tile(tehai[i].as_str(), target) {
            assert(views(tehai@)[i as int] == target@);
            return true;
        }
        i += 1;
    }
    assert(!views(tehai@).contains(target@));
    match last_self_tsumo {
        Some(t) => same_tile(t, target),
        None => false,
    }
}

/// Order used for the hand in a discard-plan signature: the canonical
/// mjai order.
pub fn compare_pai_for_signature(a: &String, b: &String) -> (r: std::cmp::Ordering)
    ensures
        r == if tile_rank(a@) < tile_rank(b@) {
            std::cmp::Ordering::Less
        } else if tile_rank(a@) > tile_rank(b@) {
            std::cmp::Ordering::Greater
        } else {
            std::cmp::Ordering::Equal
        },
{
    compare_pai(a.as_str(), b.as_str())
}

/// Number of planning samples that must agree before a discard click:
/// the configured count clamped to `5..=20`.
pub fn effective_dahai_confirm_samples(configured: u32) -> (r: u32)
    ensures
        r == if configured < 5 {
            5
        } else if configured > 20 {
            20
        } else {
            configured
        },
{
    if configured < 5 {
        5
    } else if configured > 20 {
        20
    } else {
        configured
    }
}

// ---------------------------------------------------------------------------
// Call candidates
// ---------------------------------------------------------------------------

/// Candidate equal to the consumed tiles.
pub open spec fn exact_match(c: Seq<Seq<char>>, s: Seq<Seq<char>>) -> bool {
    c == s
}

/// Candidate equal to the consumed tiles up to red-five markers.
pub open spec fn relaxed_match(c: Seq<Seq<char>>, s: Seq<Seq<char>>) -> bool {
    c.len() == s.len() && forall|i: int| 0 <= i < c.len() ==> #[trigger] spec_same_tile_relaxed(c[i], s[i])
}

/// Element-wise exact comparison of two tile lists.
pub fn same_consumed_exact(a: &Vec<String>, b: &Vec<String>) -> (r: bool)
    ensures
        r == exact_match(views(a@), views(b@)),
{
    if a.len() != b.len() {
        assert(views(a@).len() != views(b@).len());
        return false;
    }
    let n = a.len();
    let mut i: usize = 0;
    while i < n
        invariant
            n == a@.len(),
            n == b@.len(),
            i <= n,
            forall|k: int| 0 <= k < i ==> a@[k]@ == b@[k]@,
        decreases n - i,
    {
        if !same_tile(a[i].as_str(), b[i].as_str()) {
            assert(views(a@)[i as int] != views(b@)[i as int]);
            return false;
        }
        i += 1;
    }
    assert(views(a@) =~= views(b@));
    true
}

/// Element-wise comparison up to red-five markers.
pub fn same_consumed_relaxed(a: &Vec<String>, b: &Vec<String>) -> (r: bool)
    ensures
        r == relaxed_match(views(a@), views(b@)),
{
    if a.len() != b.len() {
        return false;
    }
    let n = a.len();
    let mut i: usize = 0;
    while i < n
        invariant
            n == a@.len(),
            n == b@.len(),
            i <= n,
            forall|k: int| 0 <= k < i ==> spec_same_tile_relaxed(a@[k]@, b@[k]@),
        decreases n - i,
    {
        if !same_tile_relaxed(a[i].as_str(), b[i].as_str()) {
            assert(!spec_same_tile_relaxed(views(a@)[i as int], views(b@)[i as int]));
            return false;
        }
        i += 1;
    }
    true
}

/// Consumed tiles in canonical order.
pub fn sorted_consumed_tiles(consumed: &Vec<String>) -> (r: Vec<String>)
    ensures
        views(r@) == sorted_tiles(views(consumed@)),
{
    sort_tiles(consumed)
}

/// Candidate `i` equals the consumed tiles `s` exactly.
pub open spec fn cand_exact(candidates: Seq<Vec<String>>, s: Seq<Seq<char>>, i: int) -> bool {
    exact_match(views(candidates[i]@), s)
}

/// Candidate `i` equals the consumed tiles `s` up to red-five markers.
pub open spec fn cand_relaxed(candidates: Seq<Vec<String>>, s: Seq<Seq<char>>, i: int) -> bool {
    relaxed_match(views(candidates[i]@), s)
}

/// Which call candidate (each pre-sorted) the bot's consumed tiles select:
/// the first exact match; failing that, the only candidate that matches up
/// to red-five markers; otherwise none.
pub fn find_consumed_candidate_idx(consumed: &Vec<String>, candidates: &Vec<Vec<String>>) -> (r: Option<usize>)
    ensures
        ({
            let s = sorted_tiles(views(consumed@));
            let c = candidates@;
            let n = c.len() as int;
            match r {
                Some(i) => i < n && (
                    (cand_exact(c, s, i as int) && forall|j: int| 0 <= j < i ==> !#[trigger] cand_exact(c, s, j))
                    || ((forall|j: int| 0 <= j < n ==> !#[trigger] cand_exact(c, s, j)) && cand_relaxed(c, s, i as int)
                        && forall|j: int| 0 <= j < n && j != i ==> !#[trigger] cand_relaxed(c, s, j))),
                None => (forall|j: int| 0 <= j < n ==> !#[trigger] cand_exact(c, s, j))
                    && forall|i: int| 0 <= i < n && #[trigger] cand_relaxed(c, s, i)
                        ==> exists|j: int| 0 <= j < n && j != i && #[trigger] cand_relaxed(c, s, j),
            }
        }),
{
    let sorted = sorted_consumed_tiles(consumed);
    let ghost s = sorted_tiles(views(consumed@));
    let n = candidates.len();
    let mut i: usize = 0;
    while i < n
        invariant
            n == candidates@.len(),
            i <= n,
            views(sorted@) == s,
            s == sorted_tiles(views(consumed@)),
            forall|j: int| 0 <= j < i ==> !#[trigger] cand_exact(candidates@, s, j),
        decreases n - i,
    {
        if same_consumed_exact(&candidates[i], &sorted) {
            assert(cand_exact(candidates@, s, i as int));
            return Some(i);
        }
        i += 1;
    }
    let mut found: Option<usize> = None;
    let mut count: usize = 0;
    let mut k: usize = 0;
    while k < n
        invariant
            n == candidates@.len(),
            k <= n,
            views(sorted@) == s,
            s == sorted_tiles(views(consumed@)),
            count <= k,
            count == 0 ==> found is None && forall|j: int| 0 <= j < k ==> !#[trigger] cand_relaxed(candidates@, s, j),
            count >= 1 ==> (found matches Some(f) && f < k && cand_relaxed(candidates@, s, f as int)),
            count == 1 ==> (found matches Some(f) && forall|j: int| 0 <= j < k && j != f ==> !#[trigger] cand_relaxed(candidates@, s, j)),
            count >= 2 ==> (found matches Some(f) && exists|j: int| 0 <= j < k && j != f && #[trigger] cand_relaxed(candidates@, s, j)),
        decreases n - k,
    {
        if same_consumed_relaxed(&candidates[k], &sorted) {
            assert(cand_relaxed(candidates@, s, k as int));
            if count == 0 {
                found = Some(k);
            }
            count += 1;
        }
        k += 1;
    }
    if count == 1 {
        found
    } else {
        proof {
            if count >= 2 {
                let f = found.unwrap() as int;
                let w = choose|j: int| 0 <= j < n && j != f && #[trigger] cand_relaxed(candidates@, s, j);
                assert forall|i: int| 0 <= i < n && #[trigger] cand_relaxed(candidates@, s, i)
                    implies exists|j: int| 0 <= j < n && j != i && #[trigger] cand_relaxed(candidates@, s, j) by {
                    if i == f {
                        assert(cand_relaxed(candidates@, s, w));
                    } else {
                        assert(cand_relaxed(candidates@, s, f));
                    }
                }
            }
        }
        None
    }
}

// ---------------------------------------------------------------------------
// Per-game tracking of the mjai stream
// ---------------------------------------------------------------------------

/// What the autoplay loop remembers of the mjai stream: whether a kyoku is
/// running, the last discard, our last draw (until we discard or call),
/// whether our riichi was accepted, whether a riichi declaration waits for
/// its discard, and how many events were seen.
#[derive(Debug, Clone, PartialEq, Eq)]
pub struct AutoplayState {
    pub in_kyoku: bool,
    pub last_kawa_tile: Option<String>,
    pub last_self_tsumo: Option<String>,
    pub self_riichi_accepted: bool,
    /// The riichi button was clicked without a declaration tile: the bot
    /// was prompted for the discard that declares riichi.
    pub awaiting_riichi_dahai: bool,
    /// Number of mjai events seen, saturating.
    pub mjai_seq: u64,
}

/// The event counter after one more event.
pub open spec fn next_seq(seq: u64) -> u64 {
    if seq == u64::MAX {
        seq
    } else {
        (seq + 1) as u64
    }
}

/// `e` is a call or kan made by `seat`.
pub open spec fn own_call(e: MjaiEvent, seat: u8) -> bool {
    match e {
        MjaiEvent::Chi { actor, .. } => actor == seat,
        MjaiEvent::Pon { actor, .. } => actor == seat,
        MjaiEvent::Daiminkan { actor, .. } => actor == seat,
        MjaiEvent::Ankan { actor, .. } => actor == seat,
        MjaiEvent::Kakan { actor, .. } => actor == seat,
        _ => false,
    }
}

impl Default for AutoplayState {
    /// Nothing seen yet.
    fn default() -> (r: Self)
        ensures
            !r.in_kyoku,
            r.last_kawa_tile is None,
            r.last_self_tsumo is None,
            !r.self_riichi_accepted,
            !r.awaiting_riichi_dahai,
            r.mjai_seq == 0,
    {
        AutoplayState {
            in_kyoku: false,
            last_kawa_tile: None,
            last_self_tsumo: None,
            self_riichi_accepted: false,
            awaiting_riichi_dahai: false,
            mjai_seq: 0,
        }
    }
}

impl AutoplayState {
    /// Track one mjai event; `our_seat` is our seat when known. Every event
    /// advances the counter. Game and round boundaries forget the round
    /// (only `start_kyoku` opens a new one); our draw is remembered until
    /// our discard or call; any discard is the last river tile; our
    /// `reach_accepted` marks our riichi.
    pub fn handle_mjai_event(&mut self, ev: &MjaiEvent, our_seat: Option<u8>)
        ensures
            final(self).mjai_seq == next_seq(old(self).mjai_seq),
            (ev is StartGame || ev is EndGame || ev is StartKyoku || ev is EndKyoku) ==> {
                &&& final(self).in_kyoku == (ev is StartKyoku)
                &&& final(self).last_kawa_tile is None
                &&& final(self).last_self_tsumo is None
                &&& !final(self).self_riichi_accepted
                &&& !final(self).awaiting_riichi_dahai
            },
            !(ev is StartGame || ev is EndGame || ev is StartKyoku || ev is EndKyoku) ==> {
                &&& final(self).in_kyoku == old(self).in_kyoku
                &&& final(self).last_kawa_tile == match *ev {
                    MjaiEvent::Dahai { pai, .. } => Some(pai),
                    _ => old(self).last_kawa_tile,
                }
                &&& final(self).last_self_tsumo == match (*ev, our_seat) {
                    (MjaiEvent::Tsumo { actor, pai }, Some(seat)) => if actor == seat {
                        Some(pai)
                    } else {
                        old(self).last_self_tsumo
                    },
                    (MjaiEvent::Dahai { actor, .. }, Some(seat)) => if actor == seat {
                        None
                    } else {
                        old(self).last_self_tsumo
                    },
                    (e, Some(seat)) => if own_call(e, seat) {
                        None
                    } else {
                        old(self).last_self_tsumo
                    },
                    _ => old(self).last_self_tsumo,
                }
                &&& final(self).self_riichi_accepted == (old(self).self_riichi_accepted || (
                *ev matches MjaiEvent::ReachAccepted { actor } && our_seat == Some(actor)))
                &&& final(self).awaiting_riichi_dahai == old(self).awaiting_riichi_dahai
            },
    {
        let seq = self.mjai_seq.saturating_add(1);
        match ev {
            MjaiEvent::StartGame { .. } | MjaiEvent::EndGame | MjaiEvent::EndKyoku => {
                *self = AutoplayState::default();
                self.mjai_seq = seq;
            },
            MjaiEvent::StartKyoku { .. } => {
                *self = AutoplayState::default();
                self.mjai_seq = seq;
                self.in_kyoku = true;
            },
            MjaiEvent::Tsumo { actor, pai } => {
                self.mjai_seq = seq;
                if let Some(s) = our_seat {
                    if *actor == s {
                        self.last_self_tsumo = Some(pai.clone());
                    }
                }
            },
            MjaiEvent::Dahai { actor, pai, .. } => {
                self.mjai_seq = seq;
                self.last_kawa_tile = Some(pai.clone());
                if let Some(s) = our_seat {
                    if *actor == s {
                        self.last_self_tsumo = None;
                    }
                }
            },
            MjaiEvent::ReachAccepted { actor } => {
                self.mjai_seq = seq;
                if let Some(s) = our_seat {
                    if *actor == s {
                        self.self_riichi_accepted = true;
                    }
                }
            },
            MjaiEvent::Chi { actor, .. }
            | MjaiEvent::Pon { actor, .. }
            | MjaiEvent::Daiminkan { actor, .. }
            | MjaiEvent::Ankan { actor, .. }
            | MjaiEvent::Kakan { actor, .. } => {
                self.mjai_seq = seq;
                if let Some(s) = our_seat {
                    if *actor == s {
                        self.last_self_tsumo = None;
                    }
                }
            },
            _ => {
                self.mjai_seq = seq;
            },
        }
    }

    /// A bot response stamped with the event count that triggered it is
    /// current unless newer events have been seen since; an unstamped
    /// response is always current.
    pub fn response_matches_current_mjai(&self, trigger_seq: Option<u64>) -> (r: bool)
        ensures
            r == spec_response_current(self.mjai_seq, trigger_seq),
    {
        match trigger_seq {
            Some(t) => t >= self.mjai_seq,
            None => true,
        }
    }

    /// Record what an executed plan implies: a plan that clicked riichi
    /// without a declaration tile leaves us waiting for the declaring
    /// discard (the caller then prompts the bot for it, as the result
    /// says); our own discard ends that wait.
    pub fn apply_plan_side_effects(&mut self, inject_reach: bool, action: &MjaiEvent, our_seat: u8) -> (prompt: bool)
        ensures
            prompt == inject_reach,
            final(self).awaiting_riichi_dahai == ((inject_reach || old(self).awaiting_riichi_dahai)
                && !(*action matches MjaiEvent::Dahai { actor, .. } && actor == our_seat)),
            *final(self) == (AutoplayState { awaiting_riichi_dahai: final(self).awaiting_riichi_dahai, ..*old(self) }),
    {
        if inject_reach {
            self.awaiting_riichi_dahai = true;
        }
        if self.awaiting_riichi_dahai {
            if let MjaiEvent::Dahai { actor, .. } = action {
                if *actor == our_seat {
                    self.awaiting_riichi_dahai = false;
                }
            }
        }
        inject_reach
    }
}

/// A response stamped with event count `trigger` is current at count
/// `seq` unless newer events were seen; unstamped responses always are.
pub open spec fn spec_response_current(seq: u64, trigger: Option<u64>) -> bool {
    match trigger {
        Some(t) => t >= seq,
        None => true,
    }
}

/// A response is current until the next event: once one more event is
/// tracked, a response stamped with the old count is stale (until the
/// counter saturates), while one stamped with the new count is current.
pub proof fn lemma_response_goes_stale(seq: u64)
    requires
        seq < u64::MAX,
    ensures
        !spec_response_current(next_seq(seq), Some(seq)),
        spec_response_current(next_seq(seq), Some(next_seq(seq))),
{
}

// ---------------------------------------------------------------------------
// Did the clicked discard reach the river?
// ---------------------------------------------------------------------------

/// What our river shows after a discard was clicked.
#[derive(Debug, Clone, PartialEq, Eq)]
pub enum DiscardVerifyResult {
    /// The river advanced with the bot's tile (red-five aliases allowed).
    Expected,
    /// The river advanced with another tile.
    Different { actual: String },
    /// The river did not advance, or there is no river to look at.
    Missing,
}

/// The river advanced since the click: it grew, or its last tile changed.
pub open spec fn river_advanced(river: Seq<Seq<char>>, len_before: usize, last_before: Option<Seq<char>>) -> bool {
    river.len() > len_before || (last_before matches Some(prev) && prev != river.last())
}

/// Compare our river (`None` when the snapshot has no such seat) with its
/// length and last tile before the click.
pub fn tracker_discard_after_click(
    river: Option<&Vec<String>>,
    expected_pai: &str,
    river_len_before: usize,
    river_last_before: Option<&str>,
) -> (r: DiscardVerifyResult)
    ensures
        match river {
            None => r == DiscardVerifyResult::Missing,
            Some(rv) => {
                let tiles = views(rv@);
                if tiles.len() == 0 || !river_advanced(
                    tiles,
                    river_len_before,
                    match river_last_before { Some(p) => Some(p@), None => None },
                ) {
                    r == DiscardVerifyResult::Missing
                } else if spec_same_tile_relaxed(tiles.last(), expected_pai@) {
                    r == DiscardVerifyResult::Expected
                } else {
                    r matches DiscardVerifyResult::Different { actual } && actual@ == tiles.last()
                }
            },
        },
{
    let rv = match river {
        Some(rv) => rv,
        None => return DiscardVerifyResult::Missing,
    };
    let n = rv.len();
    if n == 0 {
        return DiscardVerifyResult::Missing;
    }
    let last = &rv[n - 1];
    assert(views(rv@).last() == last@);
    let advanced = if n > river_len_before {
        true
    } else {
        match river_last_before {
            Some(prev) => !same_tile(prev, last.as_str()),
            None => false,
        }
    };
    if !advanced {
        return DiscardVerifyResult::Missing;
    }
    if same_tile_relaxed(last.as_str(), expected_pai) {
        DiscardVerifyResult::Expected
    } else {
        DiscardVerifyResult::Different { actual: last.clone() }
    }
}

// ---------------------------------------------------------------------------
// Calls: candidates from the engine's legal actions
// ---------------------------------------------------------------------------

/// Kinds of the riichi engine's legal actions.
#[derive(Debug, Clone, Copy, PartialEq, Eq, Structural)]
pub enum ActionKind {
    Discard,
    Chi,
    Pon,
    Daiminkan,
    Ron,
    Riichi,
    Tsumo,
    Pass,
    Ankan,
    Kakan,
    KyushuKyuhai,
    Kita,
}

/// One legal action of the riichi engine: its kind and the tiles it
/// takes from the hand (136-space ids).
#[derive(Debug, Clone)]
pub struct LegalAction {
    pub kind: ActionKind,
    pub consume_tiles: Vec<u8>,
}

/// The tile-id list as sorted mjai names.
pub open spec fn candidate_row(tiles: Seq<u8>) -> Seq<Seq<char>> {
    sorted_tiles(tiles.map_values(|t: u8| spec_tid_to_mjai(t)))
}

/// The consumed tiles of every legal action of kind `at`, each as sorted
/// mjai names, in the engine's order.
pub open spec fn candidate_rows(legal: Seq<LegalAction>, at: ActionKind) -> Seq<Seq<Seq<char>>> {
    legal.filter(|a: LegalAction| a.kind == at).map_values(|a: LegalAction| candidate_row(a.consume_tiles@))
}

fn tile_names(tiles: &Vec<u8>) -> (r: Vec<String>)
    ensures
        views(r@) == tiles@.map_values(|t: u8| spec_tid_to_mjai(t)),
{
    let mut out: Vec<String> = Vec::new();
    let n = tiles.len();
    let mut i: usize = 0;
    while i < n
        invariant
            n == tiles@.len(),
            i <= n,
            views(out@) == tiles@.take(i as int).map_values(|t: u8| spec_tid_to_mjai(t)),
        decreases n - i,
    {
        let ghost before = out@;
        let name = tid_to_mjai(tiles[i]);
        out.push(name);
        assert(views(out@) =~= views(before).push(name@));
        assert(tiles@.take(i + 1) =~= tiles@.take(i as int).push(tiles@[i as int]));
        assert(views(out@) =~= tiles@.take(i + 1).map_values(|t: u8| spec_tid_to_mjai(t)));
        i += 1;
    }
    assert(tiles@.take(n as int) =~= tiles@);
    out
}

/// All consume-tile combinations of one action kind among the legal
/// actions, as sorted mjai names.
pub fn collect_candidate_consumes(legal: &Vec<LegalAction>, at: ActionKind) -> (r: Vec<Vec<String>>)
    ensures
        rows_view(r@) == candidate_rows(legal@, at),
{
    let ghost pred = |a: LegalAction| a.kind == at;
    let mut out: Vec<Vec<String>> = Vec::new();
    let n = legal.len();
    let mut i: usize = 0;
    while i < n
        invariant
            n == legal@.len(),
            i <= n,
            pred == (|a: LegalAction| a.kind == at),
            rows_view(out@) == legal@.take(i as int).filter(pred).map_values(
                |a: LegalAction| candidate_row(a.consume_tiles@),
            ),
        decreases n - i,
    {
        proof { lemma_filter_take_push(legal@, i as int, pred); }
        if legal[i].kind == at {
            let names = tile_names(&legal[i].consume_tiles);
            let row = sort_tiles(&names);
            let ghost before = out@;
            out.push(row);
            assert(rows_view(out@) =~= rows_view(before).push(views(row@)));
        }
        assert(rows_view(out@) =~= legal@.take(i + 1).filter(pred).map_values(
            |a: LegalAction| candidate_row(a.consume_tiles@),
        ));
        i += 1;
    }
    assert(legal@.take(n as int) =~= legal@);
    out
}

/// Some legal action has kind `k`.
pub open spec fn has_kind(legal: Seq<LegalAction>, k: ActionKind) -> bool {
    exists|i: int| 0 <= i < legal.len() && #[trigger] legal[i].kind == k
}

fn any_of_kind(legal: &Vec<LegalAction>, k: ActionKind) -> (r: bool)
    ensures
        r == has_kind(legal@, k),
{
    let n = legal.len();
    let mut i: usize = 0;
    while i < n
        invariant
            n == legal@.len(),
            i <= n,
            forall|j: int| 0 <= j < i ==> legal@[j].kind != k,
        decreases n - i,
    {
        if legal[i].kind == k {
            return true;
        }
        i += 1;
    }
    false
}

/// Our win is on our own draw exactly when the engine offers tsumo.
pub fn hora_is_tsumo(legal: &Vec<LegalAction>) -> (r: bool)
    ensures
        r == has_kind(legal@, ActionKind::Tsumo),
{
    any_of_kind(legal, ActionKind::Tsumo)
}

/// Majsoul shows the pass button exactly when the engine offers a pass.
pub fn pass_button_visible(legal: &Vec<LegalAction>) -> (r: bool)
    ensures
        r == has_kind(legal@, ActionKind::Pass),
{
    any_of_kind(legal, ActionKind::Pass)
}

/// How a chi, pon or daiminkan is clicked.
#[derive(Debug, Clone, Copy, PartialEq, Eq)]
pub enum MeldClick {
    /// The candidate cannot be told apart: no click at all.
    Skip,
    /// One option: the call button, Majsoul confirms by itself.
    ButtonOnly,
    /// The call button, then candidate `index` of the candidate row.
    ButtonThenCandidate { index: usize },
}

/// The clicks of a call whose consumed tiles are `consumed`, given the
/// candidate rows (at most one row: just the button; several: the
/// candidate [`find_consumed_candidate_idx`] picks, or nothing when it
/// picks none).
pub fn plan_meld_clicks(consumed: &Vec<String>, candidates: &Vec<Vec<String>>) -> (r: MeldClick)
    ensures
        candidates@.len() <= 1 ==> r == MeldClick::ButtonOnly,
        candidates@.len() > 1 ==> (r is Skip || r is ButtonThenCandidate),
        r matches MeldClick::ButtonThenCandidate { index } ==> ({
            let s = sorted_tiles(views(consumed@));
            let c = candidates@;
            &&& index < c.len()
            &&& ((cand_exact(c, s, index as int) && forall|j: int| 0 <= j < index ==> !#[trigger] cand_exact(c, s, j))
                || ((forall|j: int| 0 <= j < c.len() ==> !#[trigger] cand_exact(c, s, j)) && cand_relaxed(c, s, index as int)
                    && forall|j: int| 0 <= j < c.len() && j != index ==> !#[trigger] cand_relaxed(c, s, j)))
        }),
        r is Skip ==> candidates@.len() > 1 && ({
            let s = sorted_tiles(views(consumed@));
            let c = candidates@;
            &&& forall|j: int| 0 <= j < c.len() ==> !#[trigger] cand_exact(c, s, j)
            &&& forall|i: int| 0 <= i < c.len() && #[trigger] cand_relaxed(c, s, i)
                ==> exists|j: int| 0 <= j < c.len() && j != i && #[trigger] cand_relaxed(c, s, j)
        }),
{
    if candidates.len() <= 1 {
        return MeldClick::ButtonOnly;
    }
    match find_consumed_candidate_idx(consumed, candidates) {
        Some(i) => MeldClick::ButtonThenCandidate { index: i },
        None => MeldClick::Skip,
    }
}

/// The tile a kan is chosen by: the first consumed tile of an ankan, the
/// added tile of a kakan.
pub open spec fn spec_kan_consumed_pai(action: MjaiEvent) -> Option<Seq<char>> {
    match action {
        MjaiEvent::Ankan { consumed, .. } => if consumed@.len() > 0 {
            Some(consumed@[0]@)
        } else {
            None
        },
        MjaiEvent::Kakan { pai, .. } => Some(pai@),
        _ => None,
    }
}

/// Row `i` of the kan candidates holds the kan of `base` (compared without
/// red markers on its first tile).
pub open spec fn kan_row_matches(rows: Seq<Seq<Seq<char>>>, base: Seq<char>, i: int) -> bool {
    rows[i].len() > 0 && strip_one_r(rows[i][0]) == base
}

/// Which kan candidate to click. Kakan candidates are listed before ankan
/// ones in a single row; with at most one candidate Majsoul confirms by
/// itself. Otherwise the first candidate whose first tile, red marker
/// removed, is the bot's kan tile, red marker removed.
pub fn kan_candidate_idx(unified: &Vec<Vec<String>>, action: &MjaiEvent) -> (r: Option<usize>)
    ensures
        unified@.len() <= 1 ==> r is None,
        unified@.len() > 1 ==> match spec_kan_consumed_pai(*action) {
            None => r is None,
            Some(p) => match r {
                Some(i) => i < unified@.len() && kan_row_matches(rows_view(unified@), strip_one_r(p), i as int)
                    && forall|j: int| 0 <= j < i ==> !#[trigger] kan_row_matches(rows_view(unified@), strip_one_r(p), j),
                None => forall|j: int| 0 <= j < unified@.len() ==> !#[trigger] kan_row_matches(rows_view(unified@), strip_one_r(p), j),
            },
        },
{
    if unified.len() <= 1 {
        return None;
    }
    let pai: &str = match action {
        MjaiEvent::Ankan { consumed, .. } => {
            if consumed.len() == 0 {
                return None;
            }
            consumed[0].as_str()
        },
        MjaiEvent::Kakan { pai, .. } => pai.as_str(),
        _ => {
            return None;
        },
    };
    let base = strip_red_marker(pai);
    let n = unified.len();
    let mut i: usize = 0;
    while i < n
        invariant
            n == unified@.len(),
            n > 1,
            spec_kan_consumed_pai(*action) == Some(pai@),
            base@ == strip_one_r(pai@),
            i <= n,
            forall|j: int| 0 <= j < i ==> !#[trigger] kan_row_matches(rows_view(unified@), base@, j),
        decreases n - i,
    {
        let row = &unified[i];
        assert(rows_view(unified@)[i as int] == views(row@));
        if row.len() > 0 {
            let first = strip_red_marker(row[0].as_str());
            if same_tile(first, base) {
                return Some(i);
            }
        }
        i += 1;
    }
    None
}


// ---------------------------------------------------------------------------
// Planning the clicks of one bot action
// ---------------------------------------------------------------------------

/// The action buttons Majsoul can show above the hand.
#[derive(Debug, Clone, Copy, PartialEq, Eq, Structural)]
pub enum OpButton {
    /// Pass / cancel.
    Pass,
    Chi,
    Pon,
    Daiminkan,
    Ankan,
    Kakan,
    Reach,
    Zimo,
    Ron,
    /// Abortive draw (nine terminals).
    Ryukyoku,
    /// North extraction (three-player).
    Nukidora,
}

/// One step of a click plan. Where a button or a candidate sits on the
/// screen is the caller's business: it is laid out from the buttons
/// [`button_visible`] reports and the candidate count.
#[derive(Debug, Clone, Copy, PartialEq, Eq)]
pub enum AutoStep {
    /// A pause of a random length from `min_ms` to `max_ms`.
    Delay { min_ms: u32, max_ms: u32 },
    /// A fixed pause.
    Sleep { ms: u32 },
    /// Click an action button.
    Button { op: OpButton },
    /// Click a tile of the rack.
    Rack { slot: DahaiSlot },
    /// Click call candidate `index` of `count`.
    Candidate { index: usize, count: usize },
    /// Click kan candidate `index` of `count`.
    KanCandidate { index: usize, count: usize },
}

/// The configured pauses of a plan.
#[derive(Debug, Clone, Copy, PartialEq, Eq, Structural)]
pub struct PlanDelays {
    pub pre_click_min_ms: u32,
    pub pre_click_max_ms: u32,
    pub inter_click_ms: u32,
    pub dealer_first_discard_extra_ms: u32,
}

/// Our seat as the tracker sees it: the closed hand, and how many
/// discards and melds it has.
#[derive(Debug, Clone)]
pub struct OurHand {
    pub tehai: Vec<String>,
    pub river_len: usize,
    pub melds_len: usize,
}

/// What the planner reads besides the bot's action.
#[derive(Debug, Clone)]
pub struct PlanContext {
    pub our_seat: u8,
    pub oya: u8,
    pub num_players: u8,
    /// Our seat's hand; `None` when the snapshot has no such seat.
    pub hand: Option<OurHand>,
    /// The engine's legal actions for us.
    pub legal: Vec<LegalAction>,
    /// A tile has been discarded this kyoku.
    pub last_kawa_known: bool,
    pub last_self_tsumo: Option<String>,
    pub self_riichi_accepted: bool,
    /// A riichi was clicked and its declaration discard is awaited.
    pub awaiting_riichi_dahai: bool,
    pub delays: PlanDelays,
}

/// Three-player table with a North tile in our hand.
pub open spec fn north_in_sanma(ctx: PlanContext) -> bool {
    ctx.num_players == 3 && (ctx.hand matches Some(h) && views(h.tehai@).contains("N"@))
}

/// Majsoul shows button `op`: pass always accompanies a prompt; the
/// others follow the engine's legal actions (north extraction also when a
/// three-player hand holds a North).
pub open spec fn op_visible(legal: Seq<LegalAction>, north: bool, op: OpButton) -> bool {
    match op {
        OpButton::Pass => true,
        OpButton::Chi => has_kind(legal, ActionKind::Chi),
        OpButton::Pon => has_kind(legal, ActionKind::Pon),
        OpButton::Daiminkan => has_kind(legal, ActionKind::Daiminkan),
        OpButton::Ankan => has_kind(legal, ActionKind::Ankan),
        OpButton::Kakan => has_kind(legal, ActionKind::Kakan),
        OpButton::Reach => has_kind(legal, ActionKind::Riichi),
        OpButton::Zimo => has_kind(legal, ActionKind::Tsumo),
        OpButton::Ron => has_kind(legal, ActionKind::Ron),
        OpButton::Ryukyoku => has_kind(legal, ActionKind::KyushuKyuhai),
        OpButton::Nukidora => has_kind(legal, ActionKind::Kita) || north,
    }
}

/// Executable [`op_visible`] for the context's legal actions.
pub fn button_visible(ctx: &PlanContext, op: OpButton) -> (r: bool)
    ensures
        r == op_visible(ctx.legal@, north_in_sanma(*ctx), op),
{
    match op {
        OpButton::Pass => true,
        OpButton::Chi => any_of_kind(&ctx.legal, ActionKind::Chi),
        OpButton::Pon => any_of_kind(&ctx.legal, ActionKind::Pon),
        OpButton::Daiminkan => any_of_kind(&ctx.legal, ActionKind::Daiminkan),
        OpButton::Ankan => any_of_kind(&ctx.legal, ActionKind::Ankan),
        OpButton::Kakan => any_of_kind(&ctx.legal, ActionKind::Kakan),
        OpButton::Reach => any_of_kind(&ctx.legal, ActionKind::Riichi),
        OpButton::Zimo => any_of_kind(&ctx.legal, ActionKind::Tsumo),
        OpButton::Ron => any_of_kind(&ctx.legal, ActionKind::Ron),
        OpButton::Ryukyoku => any_of_kind(&ctx.legal, ActionKind::KyushuKyuhai),
        OpButton::Nukidora => {
            if any_of_kind(&ctx.legal, ActionKind::Kita) {
                return true;
            }
            if ctx.num_players != 3 {
                return false;
            }
            match &ctx.hand {
                Some(h) => {
                    proof {
                        reveal_strlit("N");
                    }
                    crate::capture::contains_str(&h.tehai, "N")
                },
                None => false,
            }
        },
    }
}

/// The random pause before the first click: from the configured minimum
/// to the maximum (raised to the minimum); before the first discard of a
/// kyoku, the maximum.
pub open spec fn spec_pre_delay(d: PlanDelays, last_kawa_known: bool) -> AutoStep {
    let hi: u32 = if d.pre_click_max_ms >= d.pre_click_min_ms { d.pre_click_max_ms } else { d.pre_click_min_ms };
    if last_kawa_known {
        AutoStep::Delay { min_ms: d.pre_click_min_ms, max_ms: hi }
    } else {
        AutoStep::Delay { min_ms: hi, max_ms: hi }
    }
}

fn pre_delay(d: PlanDelays, last_kawa_known: bool) -> (r: AutoStep)
    ensures
        r == spec_pre_delay(d, last_kawa_known),
{
    let hi: u32 = if d.pre_click_max_ms >= d.pre_click_min_ms { d.pre_click_max_ms } else { d.pre_click_min_ms };
    if last_kawa_known {
        AutoStep::Delay { min_ms: d.pre_click_min_ms, max_ms: hi }
    } else {
        AutoStep::Delay { min_ms: hi, max_ms: hi }
    }
}

/// The dealer's first discard of the kyoku (see [`is_dealer_first_discard`]).
pub open spec fn ctx_dealer_first(ctx: PlanContext) -> bool {
    &&& ctx.hand matches Some(h)
    &&& ctx.oya == ctx.our_seat
    &&& h.tehai@.len() == 14
    &&& h.river_len == 0
    &&& h.melds_len == 0
}

/// The rack slot a discard of `pai` clicks (see [`plan_dahai_click`]).
pub open spec fn ctx_dahai_slot(ctx: PlanContext, pai: Seq<char>, tsumogiri: bool) -> Option<DahaiSlot> {
    match ctx.hand {
        Some(h) => spec_plan_dahai(
            pai,
            tsumogiri,
            views(h.tehai@),
            crate::majsoul::opt_view(ctx.last_self_tsumo),
            ctx_dealer_first(ctx),
        ),
        None => None,
    }
}

fn dahai_slot(ctx: &PlanContext, pai: &str, tsumogiri: bool) -> (r: Option<DahaiSlot>)
    ensures
        r == ctx_dahai_slot(*ctx, pai@, tsumogiri),
{
    match &ctx.hand {
        Some(h) => {
            let first = is_dealer_first_discard(ctx.oya, ctx.our_seat, h.tehai.len(), h.river_len, h.melds_len);
            let tsumo: Option<&str> = match &ctx.last_self_tsumo {
                Some(t) => Some(t.as_str()),
                None => None,
            };
            plan_dahai_click(pai, tsumogiri, &h.tehai, tsumo, first)
        },
        None => None,
    }
}

/// No step, or the one step.
pub open spec fn opt_step(o: Option<AutoStep>) -> Seq<AutoStep> {
    match o {
        Some(x) => seq![x],
        None => Seq::empty(),
    }
}

/// The rack click of a slot, if any.
pub open spec fn rack_step(o: Option<DahaiSlot>) -> Seq<AutoStep> {
    match o {
        Some(slot) => seq![AutoStep::Rack { slot }],
        None => Seq::empty(),
    }
}

/// Call candidate `i` of the rows equals the sorted consumed tiles `s`.
pub open spec fn row_exact(rows: Seq<Seq<Seq<char>>>, s: Seq<Seq<char>>, i: int) -> bool {
    rows[i] == s
}

/// Call candidate `i` of the rows equals `s` up to red-five markers.
pub open spec fn row_relaxed(rows: Seq<Seq<Seq<char>>>, s: Seq<Seq<char>>, i: int) -> bool {
    relaxed_match(rows[i], s)
}

/// `m` is how a call consuming `consumed` is clicked among the candidate
/// rows (see [`plan_meld_clicks`]).
pub open spec fn meld_rows_ok(consumed: Seq<Seq<char>>, rows: Seq<Seq<Seq<char>>>, m: MeldClick) -> bool {
    let s = sorted_tiles(consumed);
    &&& rows.len() <= 1 ==> m == MeldClick::ButtonOnly
    &&& rows.len() > 1 ==> (m is Skip || m is ButtonThenCandidate)
    &&& m matches MeldClick::ButtonThenCandidate { index } ==> {
        &&& index < rows.len()
        &&& ((row_exact(rows, s, index as int) && forall|j: int| 0 <= j < index ==> !#[trigger] row_exact(rows, s, j))
            || ((forall|j: int| 0 <= j < rows.len() ==> !#[trigger] row_exact(rows, s, j)) && row_relaxed(
            rows,
            s,
            index as int,
        ) && forall|j: int| 0 <= j < rows.len() && j != index ==> !#[trigger] row_relaxed(rows, s, j)))
    }
    &&& m is Skip ==> rows.len() > 1 && {
        &&& forall|j: int| 0 <= j < rows.len() ==> !#[trigger] row_exact(rows, s, j)
        &&& forall|i: int| 0 <= i < rows.len() && #[trigger] row_relaxed(rows, s, i) ==> exists|j: int|
            0 <= j < rows.len() && j != i && #[trigger] row_relaxed(rows, s, j)
    }
}

/// At most one way of clicking a call fits [`meld_rows_ok`].
pub proof fn lemma_meld_click_unique(consumed: Seq<Seq<char>>, rows: Seq<Seq<Seq<char>>>, m1: MeldClick, m2: MeldClick)
    requires
        meld_rows_ok(consumed, rows, m1),
        meld_rows_ok(consumed, rows, m2),
    ensures
        m1 == m2,
{
    let s = sorted_tiles(consumed);
    if rows.len() > 1 {
        match (m1, m2) {
            (MeldClick::ButtonThenCandidate { index: a }, MeldClick::ButtonThenCandidate { index: b }) => {
                if row_exact(rows, s, a as int) && row_exact(rows, s, b as int) {
                    if a < b {
                        assert(!row_exact(rows, s, a as int));
                    } else if b < a {
                        assert(!row_exact(rows, s, b as int));
                    }
                } else if row_exact(rows, s, a as int) {
                    assert(!row_exact(rows, s, a as int));
                } else if row_exact(rows, s, b as int) {
                    assert(!row_exact(rows, s, b as int));
                } else if a != b {
                    assert(!row_relaxed(rows, s, b as int));
                }
            },
            (MeldClick::ButtonThenCandidate { index: a }, MeldClick::Skip) => {
                if row_exact(rows, s, a as int) {
                    assert(!row_exact(rows, s, a as int));
                } else {
                    let j: int = choose|j: int| 0 <= j < rows.len() && j != a && #[trigger] row_relaxed(rows, s, j);
                    assert(!row_relaxed(rows, s, j));
                }
            },
            (MeldClick::Skip, MeldClick::ButtonThenCandidate { index: b }) => {
                if row_exact(rows, s, b as int) {
                    assert(!row_exact(rows, s, b as int));
                } else {
                    let j: int = choose|j: int| 0 <= j < rows.len() && j != b && #[trigger] row_relaxed(rows, s, j);
                    assert(!row_relaxed(rows, s, j));
                }
            },
            _ => {},
        }
    }
}

/// How a call consuming `consumed` is clicked among `rows`.
pub open spec fn spec_meld_choice(consumed: Seq<Seq<char>>, rows: Seq<Seq<Seq<char>>>) -> MeldClick {
    choose|m: MeldClick| meld_rows_ok(consumed, rows, m)
}

/// `r` is the kan candidate to click among `rows` for `action` (see
/// [`kan_candidate_idx`]).
pub open spec fn kan_rows_ok(rows: Seq<Seq<Seq<char>>>, action: MjaiEvent, r: Option<usize>) -> bool {
    &&& rows.len() <= 1 ==> r is None
    &&& rows.len() > 1 ==> match spec_kan_consumed_pai(action) {
        None => r is None,
        Some(p) => match r {
            Some(i) => i < rows.len() && kan_row_matches(rows, strip_one_r(p), i as int) && forall|j: int|
                0 <= j < i ==> !#[trigger] kan_row_matches(rows, strip_one_r(p), j),
            None => forall|j: int| 0 <= j < rows.len() ==> !#[trigger] kan_row_matches(rows, strip_one_r(p), j),
        },
    }
}

/// At most one kan candidate fits [`kan_rows_ok`].
pub proof fn lemma_kan_choice_unique(rows: Seq<Seq<Seq<char>>>, action: MjaiEvent, r1: Option<usize>, r2: Option<usize>)
    requires
        kan_rows_ok(rows, action, r1),
        kan_rows_ok(rows, action, r2),
    ensures
        r1 == r2,
{
    if rows.len() > 1 {
        if let Some(p) = spec_kan_consumed_pai(action) {
            let b = strip_one_r(p);
            match (r1, r2) {
                (Some(x), Some(y)) => {
                    if x < y {
                        assert(!kan_row_matches(rows, b, x as int));
                    } else if y < x {
                        assert(!kan_row_matches(rows, b, y as int));
                    }
                },
                (Some(x), None) => {
                    assert(!kan_row_matches(rows, b, x as int));
                },
                (None, Some(y)) => {
                    assert(!kan_row_matches(rows, b, y as int));
                },
                _ => {},
            }
        }
    }
}

/// The kan candidate to click among `rows` for `action`.
pub open spec fn spec_kan_choice(rows: Seq<Seq<Seq<char>>>, action: MjaiEvent) -> Option<usize> {
    choose|r: Option<usize>| kan_rows_ok(rows, action, r)
}

/// The kan candidates Majsoul lists in one row: added kans, then closed.
pub open spec fn kan_rows(legal: Seq<LegalAction>) -> Seq<Seq<Seq<char>>> {
    candidate_rows(legal, ActionKind::Kakan) + candidate_rows(legal, ActionKind::Ankan)
}

/// The clicks after the pre-click pause of a chi, pon or daiminkan: the
/// call button (when shown), then the candidate when several can be
/// told apart; nothing when they cannot.
pub open spec fn meld_steps(ctx: PlanContext, op: OpButton, kind: ActionKind, consumed: Seq<Seq<char>>) -> Seq<AutoStep> {
    let rows = candidate_rows(ctx.legal@, kind);
    if !op_visible(ctx.legal@, north_in_sanma(ctx), op) {
        Seq::empty()
    } else {
        match spec_meld_choice(consumed, rows) {
            MeldClick::Skip => Seq::empty(),
            MeldClick::ButtonOnly => seq![AutoStep::Button { op }],
            MeldClick::ButtonThenCandidate { index } => seq![
                AutoStep::Button { op },
                AutoStep::Sleep { ms: ctx.delays.inter_click_ms },
                AutoStep::Candidate { index, count: rows.len() as usize },
            ],
        }
    }
}

/// The clicks after the pre-click pause of an ankan or kakan: the kan
/// button (when shown), then the candidate of the bot's kan when the row
/// holds several.
pub open spec fn kan_steps(ctx: PlanContext, op: OpButton, action: MjaiEvent) -> Seq<AutoStep> {
    let rows = kan_rows(ctx.legal@);
    if !op_visible(ctx.legal@, north_in_sanma(ctx), op) {
        Seq::empty()
    } else {
        seq![AutoStep::Button { op }] + match spec_kan_choice(rows, action) {
            Some(i) => seq![
                AutoStep::Sleep { ms: ctx.delays.inter_click_ms },
                AutoStep::KanCandidate { index: i, count: rows.len() as usize },
            ],
            None => Seq::empty(),
        }
    }
}

/// The button click, when the button is shown.
pub open spec fn button_step(ctx: PlanContext, op: OpButton) -> Seq<AutoStep> {
    if op_visible(ctx.legal@, north_in_sanma(ctx), op) {
        seq![AutoStep::Button { op }]
    } else {
        Seq::empty()
    }
}

/// The clicks for the bot's action (`None`: the bot passes), with
/// `reach_pai` the riichi-declaring tile the bot filled in for a riichi.
///
/// Only our own actions click (a draw, and a pass, for any seat): a
/// discard is suppressed once our riichi is accepted, except the
/// declaration discard; the dealer's first discard waits the extra pause;
/// a riichi clicks its button and then its declaration tile, and without
/// a declaration tile clicks nothing; calls and kans click their button
/// and candidate; a win clicks tsumo when the engine offers it, else ron;
/// a pass clicks only while the engine offers a pass. Every plan that
/// clicks starts with the random pre-click pause.
pub open spec fn spec_plan_steps(action: Option<MjaiEvent>, reach_pai: Option<Seq<char>>, ctx: PlanContext) -> Seq<AutoStep> {
    let pre = seq![spec_pre_delay(ctx.delays, ctx.last_kawa_known)];
    let me: u8 = ctx.our_seat;
    match action {
        None => if has_kind(ctx.legal@, ActionKind::Pass) {
            pre + seq![AutoStep::Button { op: OpButton::Pass }]
        } else {
            Seq::empty()
        },
        Some(ev) => match ev {
            MjaiEvent::Dahai { actor, pai, tsumogiri } => if actor != me || (ctx.self_riichi_accepted
                && !ctx.awaiting_riichi_dahai) {
                Seq::empty()
            } else {
                let pad = if ctx_dealer_first(ctx) && ctx.delays.dealer_first_discard_extra_ms > 0 {
                    seq![AutoStep::Sleep { ms: ctx.delays.dealer_first_discard_extra_ms }]
                } else {
                    Seq::empty()
                };
                pre + pad + rack_step(ctx_dahai_slot(ctx, pai@, tsumogiri))
            },
            MjaiEvent::Reach { actor } => if actor != me || !op_visible(
                ctx.legal@,
                north_in_sanma(ctx),
                OpButton::Reach,
            ) {
                Seq::empty()
            } else {
                match reach_pai {
                    Some(t) => if t.len() > 0 {
                        pre + seq![
                            AutoStep::Button { op: OpButton::Reach },
                            AutoStep::Sleep { ms: ctx.delays.inter_click_ms },
                        ] + rack_step(ctx_dahai_slot(ctx, t, false))
                    } else {
                        Seq::empty()
                    },
                    None => Seq::empty(),
                }
            },
            MjaiEvent::Chi { actor, consumed, .. } => if actor != me {
                Seq::empty()
            } else {
                pre + meld_steps(ctx, OpButton::Chi, ActionKind::Chi, views(consumed@))
            },
            MjaiEvent::Pon { actor, consumed, .. } => if actor != me {
                Seq::empty()
            } else {
                pre + meld_steps(ctx, OpButton::Pon, ActionKind::Pon, views(consumed@))
            },
            MjaiEvent::Daiminkan { actor, consumed, .. } => if actor != me {
                Seq::empty()
            } else {
                pre + meld_steps(ctx, OpButton::Daiminkan, ActionKind::Daiminkan, views(consumed@))
            },
            MjaiEvent::Ankan { actor, .. } => if actor != me {
                Seq::empty()
            } else {
                pre + kan_steps(ctx, OpButton::Ankan, ev)
            },
            MjaiEvent::Kakan { actor, .. } => if actor != me {
                Seq::empty()
            } else {
                pre + kan_steps(ctx, OpButton::Kakan, ev)
            },
            MjaiEvent::Hora { actor, .. } => if actor != me {
                Seq::empty()
            } else {
                let op = if has_kind(ctx.legal@, ActionKind::Tsumo) { OpButton::Zimo } else { OpButton::Ron };
                pre + button_step(ctx, op)
            },
            MjaiEvent::Ryukyoku { .. } => pre + button_step(ctx, OpButton::Ryukyoku),
            _ => Seq::empty(),
        },
    }
}

/// A call or kan plan clicks only the button of the bot's own call: every
/// button step of the plan of our chi, pon, daiminkan, ankan or kakan is
/// the chi, pon, daiminkan, ankan or kakan button respectively.
pub proof fn lemma_call_plan_uses_its_button(ev: MjaiEvent, reach_pai: Option<Seq<char>>, ctx: PlanContext)
    ensures
        forall|i: int| 0 <= i < spec_plan_steps(Some(ev), reach_pai, ctx).len() ==> (#[trigger] spec_plan_steps(
            Some(ev),
            reach_pai,
            ctx,
        )[i] matches AutoStep::Button { op } ==> {
            &&& ev is Chi ==> op == OpButton::Chi
            &&& ev is Pon ==> op == OpButton::Pon
            &&& ev is Daiminkan ==> op == OpButton::Daiminkan
            &&& ev is Ankan ==> op == OpButton::Ankan
            &&& ev is Kakan ==> op == OpButton::Kakan
            &&& ev is Reach ==> op == OpButton::Reach
            &&& ev is Hora ==> op == (if has_kind(ctx.legal@, ActionKind::Tsumo) { OpButton::Zimo } else { OpButton::Ron })
            &&& ev is Ryukyoku ==> op == OpButton::Ryukyoku
            &&& !(ev is Chi || ev is Pon || ev is Daiminkan || ev is Ankan || ev is Kakan || ev is Reach || ev is Hora
                || ev is Ryukyoku) ==> false
        }),
        forall|i: int| 0 <= i < spec_plan_steps(None, reach_pai, ctx).len() ==> (#[trigger] spec_plan_steps(
            None,
            reach_pai,
            ctx,
        )[i] matches AutoStep::Button { op } ==> op == OpButton::Pass),
{
    let steps = spec_plan_steps(Some(ev), reach_pai, ctx);
    let pre = seq![spec_pre_delay(ctx.delays, ctx.last_kawa_known)];
    assert forall|i: int| 0 <= i < steps.len() implies (#[trigger] steps[i] matches AutoStep::Button { op } ==> {
        &&& ev is Chi ==> op == OpButton::Chi
        &&& ev is Pon ==> op == OpButton::Pon
        &&& ev is Daiminkan ==> op == OpButton::Daiminkan
        &&& ev is Ankan ==> op == OpButton::Ankan
        &&& ev is Kakan ==> op == OpButton::Kakan
        &&& ev is Reach ==> op == OpButton::Reach
        &&& ev is Hora ==> op == (if has_kind(ctx.legal@, ActionKind::Tsumo) { OpButton::Zimo } else { OpButton::Ron })
        &&& ev is Ryukyoku ==> op == OpButton::Ryukyoku
        &&& !(ev is Chi || ev is Pon || ev is Daiminkan || ev is Ankan || ev is Kakan || ev is Reach || ev is Hora
            || ev is Ryukyoku) ==> false
    }) by {
        if i > 0 && steps.len() > 0 && (ev is Chi || ev is Pon || ev is Daiminkan || ev is Ankan || ev is Kakan) {
            assert(steps[i] == steps.subrange(1, steps.len() as int)[i - 1]);
        }
    }
    let none_steps = spec_plan_steps(None, reach_pai, ctx);
    assert forall|i: int| 0 <= i < none_steps.len() implies (#[trigger] none_steps[i] matches AutoStep::Button { op }
        ==> op == OpButton::Pass) by {}
}

/// The engine's kind and the bot's consumed tiles of a chi, pon or
/// daiminkan.
pub open spec fn call_parts(ev: MjaiEvent) -> (ActionKind, Seq<Seq<char>>) {
    match ev {
        MjaiEvent::Chi { consumed, .. } => (ActionKind::Chi, views(consumed@)),
        MjaiEvent::Pon { consumed, .. } => (ActionKind::Pon, views(consumed@)),
        MjaiEvent::Daiminkan { consumed, .. } => (ActionKind::Daiminkan, views(consumed@)),
        _ => (ActionKind::Pass, Seq::empty()),
    }
}

/// A call whose candidate cannot be told apart opens no menu: when the
/// engine offers several candidates of our chi, pon or daiminkan, none
/// equal to the bot's consumed tiles and none matching them alone up to
/// red fives, the plan holds no button or candidate click, at most the
/// pre-click pause.
pub proof fn lemma_unresolved_call_clicks_nothing(ev: MjaiEvent, reach_pai: Option<Seq<char>>, ctx: PlanContext)
    requires
        ev is Chi || ev is Pon || ev is Daiminkan,
        candidate_rows(ctx.legal@, call_parts(ev).0).len() > 1,
        forall|j: int| 0 <= j < candidate_rows(ctx.legal@, call_parts(ev).0).len() ==> !#[trigger] row_exact(
            candidate_rows(ctx.legal@, call_parts(ev).0),
            sorted_tiles(call_parts(ev).1),
            j,
        ),
        forall|i: int| 0 <= i < candidate_rows(ctx.legal@, call_parts(ev).0).len() && #[trigger] row_relaxed(
            candidate_rows(ctx.legal@, call_parts(ev).0),
            sorted_tiles(call_parts(ev).1),
            i,
        ) ==> exists|j: int| 0 <= j < candidate_rows(ctx.legal@, call_parts(ev).0).len() && j != i && #[trigger] row_relaxed(
            candidate_rows(ctx.legal@, call_parts(ev).0),
            sorted_tiles(call_parts(ev).1),
            j,
        ),
    ensures
        forall|i: int| 0 <= i < spec_plan_steps(Some(ev), reach_pai, ctx).len() ==> !(#[trigger] spec_plan_steps(
            Some(ev),
            reach_pai,
            ctx,
        )[i] is Button) && !(spec_plan_steps(Some(ev), reach_pai, ctx)[i] is Candidate),
        spec_plan_steps(Some(ev), reach_pai, ctx).len() <= 1,
{
    let kind = call_parts(ev).0;
    let consumed = call_parts(ev).1;
    let rows = candidate_rows(ctx.legal@, kind);
    assert(meld_rows_ok(consumed, rows, MeldClick::Skip));
    lemma_meld_click_unique(consumed, rows, MeldClick::Skip, spec_meld_choice(consumed, rows));
    let pre = seq![spec_pre_delay(ctx.delays, ctx.last_kawa_known)];
    let steps = spec_plan_steps(Some(ev), reach_pai, ctx);
    assert(steps =~= pre || steps =~= Seq::<AutoStep>::empty());
}

fn push_button(out: &mut Vec<AutoStep>, ctx: &PlanContext, op: OpButton)
    ensures
        final(out)@ == old(out)@ + button_step(*ctx, op),
{
    if button_visible(ctx, op) {
        out.push(AutoStep::Button { op });
    } else {
        assert(old(out)@ + button_step(*ctx, op) =~= old(out)@);
    }
}

fn push_rack(out: &mut Vec<AutoStep>, slot: Option<DahaiSlot>)
    ensures
        final(out)@ == old(out)@ + rack_step(slot),
{
    match slot {
        Some(slot) => out.push(AutoStep::Rack { slot }),
        None => {
            assert(old(out)@ + rack_step(slot) =~= old(out)@);
        },
    }
}

/// Bridges the candidate predicates of [`plan_meld_clicks`] to the rows.
proof fn lemma_meld_rows(consumed: Seq<Seq<char>>, c: Seq<Vec<String>>, m: MeldClick)
    requires
        ({
            let s = sorted_tiles(consumed);
            &&& c.len() <= 1 ==> m == MeldClick::ButtonOnly
            &&& c.len() > 1 ==> (m is Skip || m is ButtonThenCandidate)
            &&& m matches MeldClick::ButtonThenCandidate { index } ==> ({
                &&& index < c.len()
                &&& ((cand_exact(c, s, index as int) && forall|j: int| 0 <= j < index ==> !#[trigger] cand_exact(c, s, j))
                    || ((forall|j: int| 0 <= j < c.len() ==> !#[trigger] cand_exact(c, s, j)) && cand_relaxed(c, s, index as int)
                        && forall|j: int| 0 <= j < c.len() && j != index ==> !#[trigger] cand_relaxed(c, s, j)))
            })
            &&& m is Skip ==> c.len() > 1 && ({
                &&& forall|j: int| 0 <= j < c.len() ==> !#[trigger] cand_exact(c, s, j)
                &&& forall|i: int| 0 <= i < c.len() && #[trigger] cand_relaxed(c, s, i)
                    ==> exists|j: int| 0 <= j < c.len() && j != i && #[trigger] cand_relaxed(c, s, j)
            })
        }),
    ensures
        meld_rows_ok(consumed, rows_view(c), m),
{
    let s = sorted_tiles(consumed);
    let rows = rows_view(c);
    match m {
        MeldClick::ButtonOnly => {},
        MeldClick::ButtonThenCandidate { index } => {
            lemma_row_bridge(c, s, index as int);
            if cand_exact(c, s, index as int) && forall|j: int| 0 <= j < index ==> !#[trigger] cand_exact(c, s, j) {
                assert forall|j: int| 0 <= j < index implies !#[trigger] row_exact(rows, s, j) by {
                    lemma_row_bridge(c, s, j);
                }
            } else {
                assert forall|j: int| 0 <= j < rows.len() implies !#[trigger] row_exact(rows, s, j) by {
                    lemma_row_bridge(c, s, j);
                }
                assert forall|j: int| 0 <= j < rows.len() && j != index implies !#[trigger] row_relaxed(rows, s, j) by {
                    lemma_row_bridge(c, s, j);
                }
            }
        },
        MeldClick::Skip => {
            assert forall|j: int| 0 <= j < rows.len() implies !#[trigger] row_exact(rows, s, j) by {
                lemma_row_bridge(c, s, j);
            }
            assert forall|i: int| 0 <= i < rows.len() && #[trigger] row_relaxed(rows, s, i) implies exists|j: int|
                0 <= j < rows.len() && j != i && #[trigger] row_relaxed(rows, s, j) by {
                lemma_row_bridge(c, s, i);
                assert(cand_relaxed(c, s, i));
                let j: int = choose|j: int| 0 <= j < c.len() && j != i && #[trigger] cand_relaxed(c, s, j);
                lemma_row_bridge(c, s, j);
                assert(row_relaxed(rows, s, j));
            }
        },
    }
}

proof fn lemma_row_bridge(c: Seq<Vec<String>>, s: Seq<Seq<char>>, j: int)
    requires
        0 <= j < c.len(),
    ensures
        row_exact(rows_view(c), s, j) == cand_exact(c, s, j),
        row_relaxed(rows_view(c), s, j) == cand_relaxed(c, s, j),
{
    assert(rows_view(c)[j] == views(c[j]@));
}

fn push_meld(out: &mut Vec<AutoStep>, ctx: &PlanContext, op: OpButton, kind: ActionKind, consumed: &Vec<String>)
    ensures
        final(out)@ == old(out)@ + meld_steps(*ctx, op, kind, views(consumed@)),
{
    let ghost rows = candidate_rows(ctx.legal@, kind);
    if !button_visible(ctx, op) {
        assert(old(out)@ + meld_steps(*ctx, op, kind, views(consumed@)) =~= old(out)@);
        return;
    }
    let cands = collect_candidate_consumes(&ctx.legal, kind);
    let m = plan_meld_clicks(consumed, &cands);
    proof {
        lemma_meld_rows(views(consumed@), cands@, m);
        assert(meld_rows_ok(views(consumed@), rows, m));
        lemma_meld_click_unique(views(consumed@), rows, m, spec_meld_choice(views(consumed@), rows));
    }
    match m {
        MeldClick::Skip => {
            assert(old(out)@ + meld_steps(*ctx, op, kind, views(consumed@)) =~= old(out)@);
        },
        MeldClick::ButtonOnly => {
            out.push(AutoStep::Button { op });
            assert(final(out)@ =~= old(out)@ + meld_steps(*ctx, op, kind, views(consumed@)));
        },
        MeldClick::ButtonThenCandidate { index } => {
            out.push(AutoStep::Button { op });
            out.push(AutoStep::Sleep { ms: ctx.delays.inter_click_ms });
            out.push(AutoStep::Candidate { index, count: cands.len() });
            assert(final(out)@ =~= old(out)@ + meld_steps(*ctx, op, kind, views(consumed@)));
        },
    }
}

fn push_kan(out: &mut Vec<AutoStep>, ctx: &PlanContext, op: OpButton, action: &MjaiEvent)
    ensures
        final(out)@ == old(out)@ + kan_steps(*ctx, op, *action),
{
    let ghost rows = kan_rows(ctx.legal@);
    if !button_visible(ctx, op) {
        assert(old(out)@ + kan_steps(*ctx, op, *action) =~= old(out)@);
        return;
    }
    let mut unified = collect_candidate_consumes(&ctx.legal, ActionKind::Kakan);
    let mut ankans = collect_candidate_consumes(&ctx.legal, ActionKind::Ankan);
    let ghost k0 = unified@;
    let ghost a0 = ankans@;
    unified.append(&mut ankans);
    assert(unified@ == k0 + a0);
    assert(rows_view(unified@) =~= rows_view(k0) + rows_view(a0));
    let idx = kan_candidate_idx(&unified, action);
    proof {
        assert(kan_rows_ok(rows, *action, idx));
        lemma_kan_choice_unique(rows, *action, idx, spec_kan_choice(rows, *action));
    }
    out.push(AutoStep::Button { op });
    match idx {
        Some(i) => {
            out.push(AutoStep::Sleep { ms: ctx.delays.inter_click_ms });
            out.push(AutoStep::KanCandidate { index: i, count: unified.len() });
        },
        None => {},
    }
    assert(final(out)@ =~= old(out)@ + kan_steps(*ctx, op, *action));
}

/// Plan the clicks for the bot's action: see [`spec_plan_steps`].
pub fn plan_steps(action: Option<&MjaiEvent>, reach_pai: Option<&str>, ctx: &PlanContext) -> (r: Vec<AutoStep>)
    ensures
        r@ == spec_plan_steps(
            match action {
                Some(a) => Some(*a),
                None => None,
            },
            match reach_pai {
                Some(t) => Some(t@),
                None => None,
            },
            *ctx,
        ),
{
    let mut out: Vec<AutoStep> = Vec::new();
    let me: u8 = ctx.our_seat;
    let ev = match action {
        None => {
            if pass_button_visible(&ctx.legal) {
                out.push(pre_delay(ctx.delays, ctx.last_kawa_known));
                out.push(AutoStep::Button { op: OpButton::Pass });
                assert(out@ =~= seq![spec_pre_delay(ctx.delays, ctx.last_kawa_known)] + seq![
                    AutoStep::Button { op: OpButton::Pass },
                ]);
            }
            return out;
        },
        Some(ev) => ev,
    };
    let ghost pre = seq![spec_pre_delay(ctx.delays, ctx.last_kawa_known)];
    match ev {
        MjaiEvent::Dahai { actor, pai, tsumogiri } => {
            if *actor != me || (ctx.self_riichi_accepted && !ctx.awaiting_riichi_dahai) {
                return out;
            }
            out.push(pre_delay(ctx.delays, ctx.last_kawa_known));
            let first = match &ctx.hand {
                Some(h) => is_dealer_first_discard(ctx.oya, ctx.our_seat, h.tehai.len(), h.river_len, h.melds_len),
                None => false,
            };
            if first && ctx.delays.dealer_first_discard_extra_ms > 0 {
                out.push(AutoStep::Sleep { ms: ctx.delays.dealer_first_discard_extra_ms });
            }
            let slot = dahai_slot(ctx, pai.as_str(), *tsumogiri);
            let ghost before = out@;
            push_rack(&mut out, slot);
            assert(out@ =~= spec_plan_steps(Some(*ev), match reach_pai {
                Some(t) => Some(t@),
                None => None,
            }, *ctx));
        },
        MjaiEvent::Reach { actor } => {
            if *actor != me || !button_visible(ctx, OpButton::Reach) {
                return out;
            }
            let t = match reach_pai {
                Some(t) => t,
                None => {
                    return out;
                },
            };
            if t.unicode_len() == 0 {
                return out;
            }
            out.push(pre_delay(ctx.delays, ctx.last_kawa_known));
            out.push(AutoStep::Button { op: OpButton::Reach });
            out.push(AutoStep::Sleep { ms: ctx.delays.inter_click_ms });
            let slot = dahai_slot(ctx, t, false);
            push_rack(&mut out, slot);
            assert(out@ =~= spec_plan_steps(Some(*ev), Some(t@), *ctx));
        },
        MjaiEvent::Chi { actor, consumed, .. } => {
            if *actor != me {
                return out;
            }
            out.push(pre_delay(ctx.delays, ctx.last_kawa_known));
            push_meld(&mut out, ctx, OpButton::Chi, ActionKind::Chi, consumed);
        },
        MjaiEvent::Pon { actor, consumed, .. } => {
            if *actor != me {
                return out;
            }
            out.push(pre_delay(ctx.delays, ctx.last_kawa_known));
            push_meld(&mut out, ctx, OpButton::Pon, ActionKind::Pon, consumed);
        },
        MjaiEvent::Daiminkan { actor, consumed, .. } => {
            if *actor != me {
                return out;
            }
            out.push(pre_delay(ctx.delays, ctx.last_kawa_known));
            push_meld(&mut out, ctx, OpButton::Daiminkan, ActionKind::Daiminkan, consumed);
        },
        MjaiEvent::Ankan { actor, .. } => {
            if *actor != me {
                return out;
            }
            out.push(pre_delay(ctx.delays, ctx.last_kawa_known));
            push_kan(&mut out, ctx, OpButton::Ankan, ev);
        },
        MjaiEvent::Kakan { actor, .. } => {
            if *actor != me {
                return out;
            }
            out.push(pre_delay(ctx.delays, ctx.last_kawa_known));
            push_kan(&mut out, ctx, OpButton::Kakan, ev);
        },
        MjaiEvent::Hora { actor, .. } => {
            if *actor != me {
                return out;
            }
            let op = if hora_is_tsumo(&ctx.legal) { OpButton::Zimo } else { OpButton::Ron };
            out.push(pre_delay(ctx.delays, ctx.last_kawa_known));
            push_button(&mut out, ctx, op);
        },
        MjaiEvent::Ryukyoku { .. } => {
            out.push(pre_delay(ctx.delays, ctx.last_kawa_known));
            push_button(&mut out, ctx, OpButton::Ryukyoku);
        },
        _ => {},
    }
    out
}

// ---------------------------------------------------------------------------
// Whether the tracker's snapshot still fits the bot's decision
// ---------------------------------------------------------------------------

/// Whom the table waits for: the player to act, or the others to answer
/// a discard.
#[derive(Debug, Clone, Copy, PartialEq, Eq, Structural)]
pub enum TablePhase {
    WaitAct,
    WaitResponse,
}

/// One seat as the tracker sees it: the closed hand and how many tiles
/// it has discarded.
#[derive(Debug, Clone)]
pub struct SeatSnapshot {
    pub tehai: Vec<String>,
    pub river_len: usize,
}

/// The tracker's snapshot of the table, as far as autoplay reads it.
#[derive(Debug, Clone)]
pub struct TableSnapshot {
    pub is_done: bool,
    pub our_seat: Option<u8>,
    pub phase: TablePhase,
    pub current_player: u8,
    pub num_players: u8,
    pub players: Vec<SeatSnapshot>,
}

/// `action` (the bot's choice for `our_seat`) can still be carried out on
/// the table the snapshot shows: the game runs with us at `our_seat`, and
/// our own turn moves need it to be our turn to act, calls and ron need
/// the table to wait for answers (ron on a seat that exists), a draw can
/// always be declared; nothing else is clicked.
pub open spec fn spec_snapshot_is_live(
    action: MjaiEvent,
    is_done: bool,
    snap_seat: Option<u8>,
    phase: TablePhase,
    current_player: u8,
    num_players: u8,
    our_seat: u8,
) -> bool {
    let own_turn = phase == TablePhase::WaitAct && current_player == our_seat;
    let answering = phase == TablePhase::WaitResponse;
    if is_done || snap_seat != Some(our_seat) {
        false
    } else {
        match action {
            MjaiEvent::Dahai { actor, .. } => actor == our_seat && own_turn,
            MjaiEvent::Reach { actor } => actor == our_seat && own_turn,
            MjaiEvent::Ankan { actor, .. } => actor == our_seat && own_turn,
            MjaiEvent::Kakan { actor, .. } => actor == our_seat && own_turn,
            MjaiEvent::Chi { actor, .. } => actor == our_seat && answering,
            MjaiEvent::Pon { actor, .. } => actor == our_seat && answering,
            MjaiEvent::Daiminkan { actor, .. } => actor == our_seat && answering,
            MjaiEvent::Hora { actor, target, .. } => actor == our_seat && target < num_players && answering,
            MjaiEvent::Ryukyoku { .. } => true,
            _ => false,
        }
    }
}

/// Executable [`spec_snapshot_is_live`].
pub fn snapshot_is_live_for_action(action: &MjaiEvent, snap: &TableSnapshot, our_seat: u8) -> (r: bool)
    ensures
        r == spec_snapshot_is_live(
            *action,
            snap.is_done,
            snap.our_seat,
            snap.phase,
            snap.current_player,
            snap.num_players,
            our_seat,
        ),
{
    if snap.is_done {
        return false;
    }
    match snap.our_seat {
        Some(s) => {
            if s != our_seat {
                return false;
            }
        },
        None => {
            return false;
        },
    }
    let own_turn = snap.phase == TablePhase::WaitAct && snap.current_player == our_seat;
    let answering = snap.phase == TablePhase::WaitResponse;
    match action {
        MjaiEvent::Dahai { actor, .. } => *actor == our_seat && own_turn,
        MjaiEvent::Reach { actor } => *actor == our_seat && own_turn,
        MjaiEvent::Ankan { actor, .. } => *actor == our_seat && own_turn,
        MjaiEvent::Kakan { actor, .. } => *actor == our_seat && own_turn,
        MjaiEvent::Chi { actor, .. } => *actor == our_seat && answering,
        MjaiEvent::Pon { actor, .. } => *actor == our_seat && answering,
        MjaiEvent::Daiminkan { actor, .. } => *actor == our_seat && answering,
        MjaiEvent::Hora { actor, target, .. } => *actor == our_seat && *target < snap.num_players && answering,
        MjaiEvent::Ryukyoku { .. } => true,
        _ => false,
    }
}

/// What must stay the same between the samples of a discard plan: the
/// target tile, the sorted hand, the drawn tile, the phase, whose turn it
/// is and the length of our river.
#[derive(Debug, Clone)]
pub struct DiscardPlanSignature {
    pub target_pai: String,
    pub tehai: Vec<String>,
    pub last_self_tsumo: Option<String>,
    pub phase: TablePhase,
    pub current_player: u8,
    pub river_len: usize,
}

/// The mathematical content of a [`DiscardPlanSignature`].
pub open spec fn signature_key(s: DiscardPlanSignature) -> (
    Seq<char>,
    Seq<Seq<char>>,
    Option<Seq<char>>,
    TablePhase,
    u8,
    usize,
) {
    (s.target_pai@, views(s.tehai@), crate::majsoul::opt_view(s.last_self_tsumo), s.phase, s.current_player, s.river_len)
}

impl DiscardPlanSignature {
    /// Two samples agree exactly when every part of their signatures does.
    pub fn matches(&self, other: &DiscardPlanSignature) -> (r: bool)
        ensures
            r == (signature_key(*self) == signature_key(*other)),
    {
        if !same_tile(self.target_pai.as_str(), other.target_pai.as_str()) {
            return false;
        }
        if !same_consumed_exact(&self.tehai, &other.tehai) {
            return false;
        }
        let tsumo_same = match (&self.last_self_tsumo, &other.last_self_tsumo) {
            (Some(a), Some(b)) => same_tile(a.as_str(), b.as_str()),
            (None, None) => true,
            _ => false,
        };
        tsumo_same && self.phase == other.phase && self.current_player == other.current_player && self.river_len
            == other.river_len
    }
}

/// The hand of `our_seat` holds the discard target, or it is the drawn tile.
pub open spec fn target_in_hand(tehai: Seq<Seq<char>>, target: Seq<char>, last_self_tsumo: Option<Seq<char>>) -> bool {
    tehai.contains(target) || last_self_tsumo == Some(target)
}

/// The signature of the bot's discard for `our_seat` on this snapshot;
/// `None` when the action is not our discard, the seat is not on the
/// table, or the target is neither in the hand nor the drawn tile.
pub fn discard_plan_signature(
    action: &MjaiEvent,
    snap: &TableSnapshot,
    our_seat: u8,
    last_self_tsumo: Option<&str>,
) -> (r: Option<DiscardPlanSignature>)
    ensures
        r is Some <==> ({
            &&& action is Dahai
            &&& action->Dahai_actor == our_seat
            &&& (our_seat as int) < snap.players@.len()
            &&& target_in_hand(
                views(snap.players@[our_seat as int].tehai@),
                action->Dahai_pai@,
                match last_self_tsumo {
                    Some(t) => Some(t@),
                    None => None,
                },
            )
        }),
        r matches Some(s) ==> {
            &&& s.target_pai@ == action->Dahai_pai@
            &&& views(s.tehai@) == sorted_tiles(views(snap.players@[our_seat as int].tehai@))
            &&& crate::majsoul::opt_view(s.last_self_tsumo) == match last_self_tsumo {
                Some(t) => Some(t@),
                None => None::<Seq<char>>,
            }
            &&& s.phase == snap.phase
            &&& s.current_player == snap.current_player
            &&& s.river_len == snap.players@[our_seat as int].river_len
        },
{
    let pai = match action {
        MjaiEvent::Dahai { actor, pai, .. } => {
            if *actor != our_seat {
                return None;
            }
            pai
        },
        _ => {
            return None;
        },
    };
    let seat = our_seat as usize;
    if seat >= snap.players.len() {
        return None;
    }
    let player = &snap.players[seat];
    if !hand_snapshot_contains_target(&player.tehai, pai.as_str(), last_self_tsumo) {
        return None;
    }
    let tsumo = match last_self_tsumo {
        Some(t) => Some(String::from_str(t)),
        None => None,
    };
    Some(
        DiscardPlanSignature {
            target_pai: pai.clone(),
            tehai: sort_tiles(&player.tehai),
            last_self_tsumo: tsumo,
            phase: snap.phase,
            current_player: snap.current_player,
            river_len: player.river_len,
        },
    )
}

/// A discard plan came out with no click (and no riichi follow-up to
/// inject) for our own discard: the tracker has likely not caught up yet,
/// so planning is worth another try.
pub fn plan_should_retry_after_tracker_catchup(
    action: &MjaiEvent,
    our_seat: u8,
    steps: &Vec<crate::click_plan::PlanStep>,
    inject_reach_for_followup: bool,
) -> (r: bool)
    ensures
        r == (action is Dahai && action->Dahai_actor == our_seat && !steps@.contains(crate::click_plan::PlanStep::Click)
            && !inject_reach_for_followup),
{
    match action {
        MjaiEvent::Dahai { actor, .. } => {
            if *actor != our_seat {
                return false;
            }
        },
        _ => {
            return false;
        },
    }
    let n = steps.len();
    let mut i: usize = 0;
    while i < n
        invariant
            n == steps@.len(),
            i <= n,
            forall|k: int| 0 <= k < i ==> steps@[k] != crate::click_plan::PlanStep::Click,
        decreases n - i,
    {
        if steps[i] == crate::click_plan::PlanStep::Click {
            assert(steps@[i as int] == crate::click_plan::PlanStep::Click);
            return false;
        }
        i += 1;
    }
    !inject_reach_for_followup
}

} // verus!
