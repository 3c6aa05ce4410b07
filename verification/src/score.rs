//! Hand scoring and tenpai checks, computed by `riichienv_core`.
use vstd::prelude::*;
use crate::tile::{kind_name, spec_tid_to_mjai, tid34_to_mjai, tid_to_mjai, views};
use riichienv_core::hand_evaluator::HandEvaluator;
use riichienv_core::types::{Conditions, Meld, MeldType, Wind};

verus! {

// ---------------------------------------------------------------------------
// Score table
// ---------------------------------------------------------------------------

/// Fu rounded up to a multiple of ten; 25 (seven pairs) stays.
pub open spec fn rounded_fu(fu: u8) -> int {
    if fu == 25 { 25 } else { ((fu + 9) / 10) * 10 }
}

/// `v` rounded up to a multiple of a hundred.
pub open spec fn ceil_100(v: int) -> int {
    ((v + 99) / 100) * 100
}

/// Basic points of `han` and `fu`: mangan (5 han) 2000, haneman (6-7)
/// 3000, baiman (8-10) 4000, sanbaiman (11-12) 6000, 8000 per multiple of
/// 13 han for yakuman; below 5 han `fu * 2^(han + 2)`, capped at 2000.
pub open spec fn base_points(han: u8, fu: u8) -> int {
    if han >= 13 {
        8000 * (han / 13)
    } else if han >= 11 {
        6000
    } else if han >= 8 {
        4000
    } else if han >= 6 {
        3000
    } else if han == 5 {
        2000
    } else {
        let p = rounded_fu(fu) * pow2(han as nat + 2);
        if p > 2000 { 2000 } else { p }
    }
}

/// `2^k`.
pub open spec fn pow2(k: nat) -> int
    decreases k,
{
    if k == 0 { 1 } else { 2 * pow2((k - 1) as nat) }
}

/// `(total, pay_ron, pay_tsumo_oya, pay_tsumo_ko)` without honba: a ron
/// pays 6 (dealer) or 4 times the basic points; a tsumo is paid twice
/// the basic points by each seat when the dealer wins, else twice by the
/// dealer and once by each other seat; every payment rounded up to a
/// hundred.
pub open spec fn base_score(han: u8, fu: u8, is_oya: bool, is_tsumo: bool, num_players: u8) -> (int, int, int, int) {
    let b = base_points(han, fu);
    let ron = if is_oya { ceil_100(b * 6) } else { ceil_100(b * 4) };
    let pay_oya = if is_oya { 0 } else { ceil_100(b * 2) };
    let pay_ko = if is_oya { ceil_100(b * 2) } else { ceil_100(b) };
    let tsumo_total = if is_oya { pay_ko * (num_players - 1) } else { pay_oya + pay_ko * (num_players - 2) };
    if is_tsumo {
        (tsumo_total, 0, pay_oya, pay_ko)
    } else {
        (ron, ron, 0, 0)
    }
}

/// Payments of a winning hand.
#[derive(Debug, Clone, Copy, PartialEq, Eq)]
pub struct Score {
    pub total: u32,
    pub pay_ron: u32,
    pub pay_tsumo_oya: u32,
    pub pay_tsumo_ko: u32,
}

/// The inputs the score table is written for, on which it neither
/// overflows nor underflows: a three- or four-player table, a fu value
/// that can be rounded up to a multiple of 10 within `u8` when fu counts,
/// and honba payments that fit in `u32`.
pub open spec fn score_inputs_ok(han: u8, fu: u8, is_oya: bool, is_tsumo: bool, honba: u32, num_players: u8) -> bool {
    &&& (num_players == 3 || num_players == 4)
    &&& (han < 5 ==> fu <= 250)
    &&& honba * 100 * num_players + 40_000_000 <= u32::MAX
}

/// Calls `riichienv_core::score::calculate_score`. Claimed, as its source
/// shows: the honba-free table is [`base_score`], and honba add
/// `100 * honba` per paying player; a ron is paid by one player in full,
/// a tsumo by the others.
#[verifier::external_body]
fn riichienv_score(han: u8, fu: u8, is_oya: bool, is_tsumo: bool, honba: u32, num_players: u8) -> (r: Score)
    requires
        score_inputs_ok(han, fu, is_oya, is_tsumo, honba, num_players),
    ensures
        ({
            let b = base_score(han, fu, is_oya, is_tsumo, num_players);
            let extra = honba * 100 * (num_players - 1);
            if is_tsumo {
                &&& b.1 == 0
                &&& r.total == b.0 + extra
                &&& r.pay_ron == 0
                &&& r.pay_tsumo_oya == b.2 + honba * 100
                &&& r.pay_tsumo_ko == b.3 + honba * 100
            } else {
                &&& b.1 == b.0 && b.2 == 0 && b.3 == 0
                &&& r.total == b.0 + extra
                &&& r.pay_ron == b.1 + extra
                &&& r.pay_tsumo_oya == 0
                &&& r.pay_tsumo_ko == 0
            }
        }),
{
    let s = riichienv_core::score::calculate_score(han, fu, is_oya, is_tsumo, honba, num_players);
    Score { total: s.total, pay_ron: s.pay_ron, pay_tsumo_oya: s.pay_tsumo_oya, pay_tsumo_ko: s.pay_tsumo_ko }
}

/// Payments for `han`/`fu`, dealer or not, tsumo or ron, with `honba`
/// repeat counters, at a table of `num_players` (3 or 4).
pub fn calculate_score(han: u8, fu: u8, is_oya: bool, is_tsumo: bool, honba: u32, num_players: u8) -> (r: Score)
    requires
        score_inputs_ok(han, fu, is_oya, is_tsumo, honba, num_players),
    ensures
        ({
            let b = base_score(han, fu, is_oya, is_tsumo, num_players);
            let extra = honba * 100 * (num_players - 1);
            if is_tsumo {
                &&& r.total == b.0 + extra
                &&& r.pay_ron == 0
                &&& r.pay_tsumo_oya == b.2 + honba * 100
                &&& r.pay_tsumo_ko == b.3 + honba * 100
            } else {
                &&& r.total == b.0 + extra
                &&& r.pay_ron == b.0 + extra
                &&& r.pay_tsumo_oya == 0
                &&& r.pay_tsumo_ko == 0
            }
        }),
{
    riichienv_score(han, fu, is_oya, is_tsumo, honba, num_players)
}

/// Each extra honba on a ron adds 100 points per other player to both the
/// total and the ron payment.
pub proof fn lemma_ron_honba_step(han: u8, fu: u8, is_oya: bool, honba: u32, num_players: u8, r0: Score, r1: Score)
    requires
        num_players >= 1,
        ({
            let b = base_score(han, fu, is_oya, false, num_players);
            &&& r0.total == b.0 + honba * 100 * (num_players - 1)
            &&& r0.pay_ron == b.0 + honba * 100 * (num_players - 1)
            &&& r1.total == b.0 + (honba + 1) * 100 * (num_players - 1)
            &&& r1.pay_ron == b.0 + (honba + 1) * 100 * (num_players - 1)
        }),
    ensures
        r1.total == r0.total + 100 * (num_players - 1),
        r1.pay_ron == r0.pay_ron + 100 * (num_players - 1),
{
    assert((honba + 1) * 100 * (num_players - 1) == honba * 100 * (num_players - 1) + 100 * (
    num_players - 1)) by (nonlinear_arith);
}

// ---------------------------------------------------------------------------
// Tenpai and waits
// ---------------------------------------------------------------------------

#[verifier::external_type_specification]
#[verifier::external_body]
pub struct ExHandEvaluator(riichienv_core::hand_evaluator::HandEvaluator);

/// `riichienv_core` parses `text` (MPSZ notation, melds in brackets).
pub uninterp spec fn hand_text_parses(text: Seq<char>) -> bool;

/// The tiles (34-space indices) that complete the hand written as `text`.
pub uninterp spec fn hand_waits(text: Seq<char>) -> Seq<u8>;

/// Index of the first `)` in `s` at or after `j`, or the length of `s`.
pub open spec fn close_index(s: Seq<char>, j: int) -> int
    decreases s.len() - j,
{
    if j >= s.len() {
        s.len() as int
    } else if s[j] == ')' {
        j
    } else {
        close_index(s, j + 1)
    }
}

/// A meld group the parser cannot read without failing outright: a
/// pon/kan/added-kan marker followed directly by a suit, with no digits.
pub open spec fn digitless_meld(content: Seq<char>) -> bool {
    content.len() >= 2 && (content[0] == 'p' || content[0] == 'k' || content[0] == 's') && (content[1] == 'm'
        || content[1] == 'p' || content[1] == 's' || content[1] == 'z')
}

/// From position `i` on, `s` has a meld group `( … )` (closed by the next
/// `)` or the end) that is [`digitless_meld`].
pub open spec fn has_digitless_meld_from(s: Seq<char>, i: int) -> bool
    decreases s.len() - i,
{
    if i < 0 || i >= s.len() {
        false
    } else if s[i] == '(' {
        let e = close_index(s, i + 1);
        proof {
            lemma_close_index(s, i + 1);
        }
        digitless_meld(s.subrange(i + 1, e)) || (e < s.len() && has_digitless_meld_from(s, e + 1))
    } else {
        has_digitless_meld_from(s, i + 1)
    }
}

/// `text` can be handed to the hand parser: it has no
/// [`digitless_meld`] group, on which the parser panics.
pub open spec fn hand_text_ok(text: Seq<char>) -> bool {
    !has_digitless_meld_from(text, 0)
}

/// Where the search for `)` from `j` stops, and that it skips no `)`.
pub proof fn lemma_close_index(s: Seq<char>, j: int)
    requires
        0 <= j,
    ensures
        j <= close_index(s, j) <= s.len() || (j > s.len() && close_index(s, j) == s.len()),
        close_index(s, j) < s.len() ==> s[close_index(s, j)] == ')',
        forall|k: int| j <= k < close_index(s, j) ==> s[k] != ')',
    decreases s.len() - j,
{
    if j < s.len() && s[j] != ')' {
        lemma_close_index(s, j + 1);
    }
}

fn find_close(s: &str, n: usize, j: usize) -> (r: usize)
    requires
        n == s@.len(),
        j <= n,
    ensures
        r == close_index(s@, j as int),
    decreases n - j,
{
    if j >= n {
        n
    } else if s.get_char(j) == ')' {
        j
    } else {
        find_close(s, n, j + 1)
    }
}

/// Executable [`hand_text_ok`].
pub fn hand_text_is_ok(text: &str) -> (r: bool)
    ensures
        r == hand_text_ok(text@),
{
    let n = text.unicode_len();
    let mut i: usize = 0;
    while i < n
        invariant
            n == text@.len(),
            i <= n,
            has_digitless_meld_from(text@, 0) == has_digitless_meld_from(text@, i as int),
        decreases n - i,
    {
        if text.get_char(i) == '(' {
            let e = find_close(text, n, i + 1);
            proof {
                lemma_close_index(text@, i + 1);
            }
            if e - i >= 3 {
                let c0 = text.get_char(i + 1);
                let c1 = text.get_char(i + 2);
                if (c0 == 'p' || c0 == 'k' || c0 == 's') && (c1 == 'm' || c1 == 'p' || c1 == 's' || c1 == 'z') {
                    assert(digitless_meld(text@.subrange(i + 1, e as int)));
                    return false;
                }
            }
            assert(!digitless_meld(text@.subrange(i + 1, e as int)));
            if e >= n {
                return true;
            }
            i = e + 1;
        } else {
            i = i + 1;
        }
    }
    true
}

/// A parsed hand with the text it was parsed from.
pub struct ParsedHand {
    text: String,
    evaluator: riichienv_core::hand_evaluator::HandEvaluator,
}

impl ParsedHand {
    pub closed spec fn text(&self) -> Seq<char> {
        self.text@
    }
}

/// Calls `HandEvaluator::hand_from_text`. Claimed: it succeeds exactly on
/// the texts [`hand_text_parses`] names, and the parsed hand remembers
/// its text. The `requires` leaves out texts with a meld group made of a
/// pon/kan marker and a suit but no digit (such as `(pm)`): there the
/// parser reads the first digit of an empty list and panics.
#[verifier::external_body]
fn parse_hand(text: &str) -> (r: Option<ParsedHand>)
    requires
        hand_text_ok(text@),
    ensures
        r is Some == hand_text_parses(text@),
        r matches Some(h) ==> h.text() == text@,
{
    match riichienv_core::hand_evaluator::HandEvaluator::hand_from_text(text) {
        Ok(e) => Some(ParsedHand { text: text.to_string(), evaluator: e }),
        Err(_) => None,
    }
}

/// Calls `HandEvaluator::get_waits_u8`. Claimed, as its source shows: the
/// waits are distinct 34-space indices in increasing order.
#[verifier::external_body]
fn evaluator_waits(h: &ParsedHand) -> (r: Vec<u8>)
    ensures
        r@ == hand_waits(h.text()),
        forall|i: int| 0 <= i < r@.len() ==> r@[i] < 34,
        forall|i: int, j: int| 0 <= i < j < r@.len() ==> r@[i] < r@[j],
{
    h.evaluator.get_waits_u8()
}

/// Calls `HandEvaluator::is_tenpai`. Claimed, as its source shows (the
/// same scan as `get_waits_u8`, stopping at the first wait): the hand is
/// tenpai exactly when it has a wait.
#[verifier::external_body]
fn evaluator_is_tenpai(h: &ParsedHand) -> (r: bool)
    ensures
        r == (hand_waits(h.text()).len() > 0),
{
    h.evaluator.is_tenpai()
}

/// Why a hand text was refused.
#[derive(Debug, Clone, PartialEq, Eq)]
pub enum ScoreError {
    /// The text is not a hand in MPSZ notation.
    ParseHand { text: String },
}

pub open spec fn score_error_text(e: ScoreError) -> Seq<char> {
    match e {
        ScoreError::ParseHand { text } => "parse hand: "@ + text@,
    }
}

impl ScoreError {
    /// Human-readable description of the error.
    pub fn message(&self) -> (r: String)
        ensures
            r@ == score_error_text(*self),
    {
        match self {
            ScoreError::ParseHand { text } => String::from_str("parse hand: ").concat(text.as_str()),
        }
    }
}

/// The mjai names of the waits of `text`, empty when not tenpai; `None`
/// when the text does not parse.
pub open spec fn spec_waits_for(text: Seq<char>) -> Option<Seq<Seq<char>>> {
    if !hand_text_parses(text) {
        None
    } else {
        Some(hand_waits(text).map_values(|t: u8| kind_name(t as int)))
    }
}

/// Whether `text` is tenpai; `None` when it does not parse.
pub open spec fn spec_is_tenpai(text: Seq<char>) -> Option<bool> {
    if !hand_text_parses(text) {
        None
    } else {
        Some(hand_waits(text).len() > 0)
    }
}

/// Tenpai check + waits for a hand in MPSZ notation (e.g.
/// `"123m456p789s1122z"`): the waits as mjai tile names, empty when the
/// hand is not tenpai.
pub fn waits_for(hand_text: &str) -> (r: Result<Vec<String>, ScoreError>)
    requires
        hand_text_ok(hand_text@),
    ensures
        match spec_waits_for(hand_text@) {
            Some(w) => r matches Ok(v) && views(v@) == w,
            None => r matches Err(ScoreError::ParseHand { text }) && text@ == hand_text@,
        },
{
    let h = match parse_hand(hand_text) {
        Some(h) => h,
        None => {
            return Err(ScoreError::ParseHand { text: String::from_str(hand_text) });
        },
    };
    if !evaluator_is_tenpai(&h) {
        let v: Vec<String> = Vec::new();
        assert(views(v@) =~= hand_waits(hand_text@).map_values(|t: u8| kind_name(t as int)));
        return Ok(v);
    }
    let waits = evaluator_waits(&h);
    let mut out: Vec<String> = Vec::new();
    let n = waits.len();
    let mut i: usize = 0;
    while i < n
        invariant
            n == waits@.len(),
            i <= n,
            forall|k: int| 0 <= k < n ==> waits@[k] < 34,
            views(out@) == waits@.take(i as int).map_values(|t: u8| kind_name(t as int)),
        decreases n - i,
    {
        let ghost before = out@;
        let name = tid34_to_mjai(waits[i]);
        out.push(name);
        assert(views(out@) =~= views(before).push(name@));
        assert(waits@.take(i + 1) =~= waits@.take(i as int).push(waits@[i as int]));
        assert(views(out@) =~= waits@.take(i + 1).map_values(|t: u8| kind_name(t as int)));
        i += 1;
    }
    assert(waits@.take(n as int) =~= waits@);
    Ok(out)
}

/// Tenpai check only, when the wait list isn't needed.
pub fn is_tenpai(hand_text: &str) -> (r: Result<bool, ScoreError>)
    requires
        hand_text_ok(hand_text@),
    ensures
        match spec_is_tenpai(hand_text@) {
            Some(b) => r == Ok::<bool, ScoreError>(b),
            None => r matches Err(ScoreError::ParseHand { text }) && text@ == hand_text@,
        },
{
    match parse_hand(hand_text) {
        Some(h) => Ok(evaluator_is_tenpai(&h)),
        None => Err(ScoreError::ParseHand { text: String::from_str(hand_text) }),
    }
}

/// A hand is tenpai exactly when its wait list is not empty, and both
/// refuse the same texts.
pub proof fn lemma_tenpai_iff_waits(text: Seq<char>)
    ensures
        spec_is_tenpai(text) is None <==> spec_waits_for(text) is None,
        spec_is_tenpai(text) == Some(true) <==> (spec_waits_for(text) matches Some(w) && w.len() > 0),
{
}

// ---------------------------------------------------------------------------
// Scoring a claimed win against the table
// ---------------------------------------------------------------------------

/// Kind of a meld, as the riichi engine records it.
#[derive(Debug, Clone, Copy, PartialEq, Eq, Structural)]
pub enum MeldKind {
    Chi,
    Pon,
    Daiminkan,
    Ankan,
    Kakan,
}

/// A meld as the engine holds it: kind, 136-space tiles, whether it is
/// open, the seat it was claimed from, and the claimed tile.
#[derive(Debug, Clone, PartialEq, Eq)]
pub struct MeldView {
    pub kind: MeldKind,
    pub tiles: Vec<u8>,
    pub opened: bool,
    pub from_who: i8,
    pub called_tile: Option<u8>,
}

/// The mathematical content of a meld.
pub open spec fn meld_model(m: MeldView) -> (MeldKind, Seq<u8>, bool, i8, Option<u8>) {
    (m.kind, m.tiles@, m.opened, m.from_who, m.called_tile)
}

/// [`meld_model`] of each meld.
pub open spec fn meld_models(s: Seq<MeldView>) -> Seq<(MeldKind, Seq<u8>, bool, i8, Option<u8>)> {
    s.map_values(|m: MeldView| meld_model(m))
}

/// What the engine is told about the circumstances of a win. Winds are
/// the seat and round numbers the engine turns into winds (`0` = East).
#[derive(Debug, Clone, Copy, PartialEq, Eq, Structural)]
pub struct WinConditions {
    pub tsumo: bool,
    pub riichi: bool,
    pub double_riichi: bool,
    pub ippatsu: bool,
    pub haitei: bool,
    pub houtei: bool,
    pub rinshan: bool,
    pub chankan: bool,
    pub tsumo_first_turn: bool,
    pub player_wind: u8,
    pub round_wind: u8,
    pub riichi_sticks: u32,
    pub honba: u32,
    pub kita_count: u8,
    pub is_sanma: bool,
    pub num_players: u8,
}

/// The engine's verdict on a hand: whether it is a scoring win, whether it
/// is a yakuman, the payments, and its han and fu.
#[derive(Debug, Clone, Copy, PartialEq, Eq, Structural)]
pub struct WinOutcome {
    pub is_win: bool,
    pub yakuman: bool,
    pub ron_agari: u32,
    pub tsumo_agari_oya: u32,
    pub tsumo_agari_ko: u32,
    pub han: u32,
    pub fu: u32,
}

/// What `HandEvaluator::new(hand, melds).calc(win_tile, dora, ura,
/// Some(conditions))` decides for these inputs.
pub uninterp spec fn hand_win(
    hand: Seq<u8>,
    melds: Seq<(MeldKind, Seq<u8>, bool, i8, Option<u8>)>,
    win_tile: u8,
    dora: Seq<u8>,
    ura: Seq<u8>,
    cond: WinConditions,
) -> WinOutcome;

/// Tiles the engine can index: 136-space ids.
pub open spec fn tiles_in_range(s: Seq<u8>) -> bool {
    forall|i: int| 0 <= i < s.len() ==> s[i] < 136
}

/// The tiles of `melds`, meld after meld.
pub open spec fn meld_tiles(melds: Seq<(MeldKind, Seq<u8>, bool, i8, Option<u8>)>) -> Seq<u8>
    decreases melds.len(),
{
    if melds.len() == 0 {
        Seq::empty()
    } else {
        meld_tiles(melds.drop_last()) + melds.last().1
    }
}

/// How many of `tiles` are of kind `k` (136-space id divided by four).
pub open spec fn kind_count(tiles: Seq<u8>, k: int) -> int
    decreases tiles.len(),
{
    if tiles.len() == 0 {
        0
    } else {
        kind_count(tiles.drop_last(), k) + if tiles.last() / 4 == k { 1int } else { 0int }
    }
}

/// No tile kind occurs more than four times, as in a real set of tiles.
pub open spec fn at_most_four_each(tiles: Seq<u8>) -> bool {
    forall|k: int| 0 <= k < 34 ==> #[trigger] kind_count(tiles, k) <= 4
}

/// A hand the engine evaluates without overflowing or indexing out of
/// range: at most fourteen tiles counting each meld as three, at most four
/// melds of three or four tiles, all tiles 136-space ids, no kind more
/// than four times over the hand and its melds.
pub open spec fn engine_hand_ok(hand: Seq<u8>, melds: Seq<(MeldKind, Seq<u8>, bool, i8, Option<u8>)>) -> bool {
    &&& tiles_in_range(hand)
    &&& melds.len() <= 4
    &&& hand.len() + 3 * melds.len() <= 14
    &&& forall|i: int| 0 <= i < melds.len() ==> 3 <= (#[trigger] melds[i]).1.len() <= 4 && tiles_in_range(melds[i].1)
    &&& at_most_four_each(hand + meld_tiles(melds))
}

/// A hand prepared for evaluation, with the tiles and melds it was built
/// from.
pub struct EngineHand {
    tiles: Vec<u8>,
    melds: Vec<MeldView>,
    evaluator: HandEvaluator,
}

impl EngineHand {
    pub closed spec fn tiles(&self) -> Seq<u8> {
        self.tiles@
    }

    pub closed spec fn melds(&self) -> Seq<(MeldKind, Seq<u8>, bool, i8, Option<u8>)> {
        meld_models(self.melds@)
    }
}

/// Calls `HandEvaluator::new` with the tiles and the melds converted to
/// the engine's `Meld`. Claimed: the prepared hand remembers both; the
/// constructor indexes by the first tile of a kan and by `tile / 4`, which
/// the precondition keeps in range.
#[verifier::external_body]
fn engine_hand(tiles: Vec<u8>, melds: &Vec<MeldView>) -> (r: EngineHand)
    requires
        engine_hand_ok(tiles@, meld_models(melds@)),
    ensures
        r.tiles() == tiles@,
        r.melds() == meld_models(melds@),
{
    let m = melds.iter().map(|x| Meld::new(match x.kind { MeldKind::Chi => MeldType::Chi, MeldKind::Pon => MeldType::Pon,
        MeldKind::Daiminkan => MeldType::Daiminkan, MeldKind::Ankan => MeldType::Ankan, MeldKind::Kakan => MeldType::Kakan },
        x.tiles.clone(), x.opened, x.from_who, x.called_tile)).collect();
    EngineHand { tiles: tiles.clone(), melds: melds.clone(), evaluator: HandEvaluator::new(tiles, m) }
}

/// Calls `HandEvaluator::calc` with the conditions converted to the
/// engine's `Conditions` (winds through `Wind::from`). Claimed: the verdict
/// is [`hand_win`] of the inputs. The precondition keeps the tile indices
/// in range, and the `u8` tile, dora, han and fu counters and the honba
/// payments from overflowing: at most four tiles of a kind, at most five
/// dora indicators, no ura indicators, a honba count that fits a `u8`.
#[verifier::external_body]
fn engine_calc(h: &EngineHand, win_tile: u8, dora: Vec<u8>, ura: Vec<u8>, cond: WinConditions) -> (r: WinOutcome)
    requires
        engine_hand_ok(h.tiles(), h.melds()),
        win_tile < 136,
        dora@.len() <= 5 && tiles_in_range(dora@),
        ura@.len() == 0,
        cond.honba <= 255,
    ensures
        r == hand_win(h.tiles(), h.melds(), win_tile, dora@, ura@, cond),
{
    let WinConditions { tsumo, riichi, double_riichi, ippatsu, haitei, houtei, rinshan, chankan, tsumo_first_turn,
        player_wind, round_wind, riichi_sticks, honba, kita_count, is_sanma, num_players } = cond;
    let c = Conditions { tsumo, riichi, double_riichi, ippatsu, haitei, houtei, rinshan, chankan, tsumo_first_turn,
        player_wind: Wind::from(player_wind), round_wind: Wind::from(round_wind), riichi_sticks, honba, kita_count,
        is_sanma, num_players };
    let w = h.evaluator.calc(win_tile, dora, ura, Some(c));
    WinOutcome { is_win: w.is_win, yakuman: w.yakuman, ron_agari: w.ron_agari, tsumo_agari_oya: w.tsumo_agari_oya,
        tsumo_agari_ko: w.tsumo_agari_ko, han: w.han, fu: w.fu }
}

/// One seat of the table as far as scoring a win reads it.
#[derive(Debug, Clone, PartialEq, Eq)]
pub struct SeatView {
    /// Closed hand, 136-space tile ids.
    pub hand: Vec<u8>,
    pub melds: Vec<MeldView>,
    pub riichi_declared: bool,
    pub double_riichi_declared: bool,
    pub ippatsu_cycle: bool,
    /// Number of set-aside north tiles (three-player only).
    pub kita_count: u8,
}

/// The table state that scoring a claimed win reads.
#[derive(Debug, Clone, PartialEq, Eq)]
pub struct TableView {
    pub players: Vec<SeatView>,
    /// The tile the current player just drew.
    pub drawn_tile: Option<u8>,
    /// The tile of the most recent discard.
    pub last_discard: Option<u8>,
    pub drawable_count: u8,
    pub is_rinshan_flag: bool,
    /// A kan is waiting for claims (robbing it is chankan).
    pub pending_kan: bool,
    pub is_first_turn: bool,
    pub oya: u8,
    pub round_wind: u8,
    pub riichi_sticks: u32,
    pub honba: u8,
    pub dora_indicators: Vec<u8>,
}

/// A table as the engine keeps one: three or four seats, a dealer among
/// them, each hand evaluable, drawn and discarded tiles and at most five
/// dora indicators all 136-space ids.
pub open spec fn table_wf(t: TableView, sanma: bool) -> bool {
    &&& t.players@.len() == (if sanma { 3int } else { 4int })
    &&& t.oya < t.players@.len()
    &&& forall|i: int| 0 <= i < t.players@.len() ==> engine_hand_ok(
        (#[trigger] t.players@[i]).hand@,
        meld_models(t.players@[i].melds@),
    )
    &&& (t.drawn_tile matches Some(x) ==> x < 136)
    &&& (t.last_discard matches Some(x) ==> x < 136)
    &&& t.dora_indicators@.len() <= 5 && tiles_in_range(t.dora_indicators@)
}

/// The conditions the engine is given for `actor` winning on the current
/// table: haitei/houtei on an empty wall outside a rinshan draw, rinshan
/// and first-turn tsumo only on a tsumo, chankan only on a ron against a
/// pending kan, and the seat wind counted from the dealer.
pub open spec fn hora_conditions(t: TableView, actor: u8, is_tsumo: bool, sanma: bool) -> WinConditions {
    let p = t.players@[actor as int];
    WinConditions {
        tsumo: is_tsumo,
        riichi: p.riichi_declared,
        double_riichi: p.double_riichi_declared,
        ippatsu: p.ippatsu_cycle,
        haitei: is_tsumo && t.drawable_count == 0 && !t.is_rinshan_flag,
        houtei: !is_tsumo && t.drawable_count == 0 && !t.is_rinshan_flag,
        rinshan: is_tsumo && t.is_rinshan_flag,
        chankan: !is_tsumo && t.pending_kan,
        tsumo_first_turn: is_tsumo && t.is_first_turn,
        player_wind: if sanma { ((actor + 3 - t.oya) % 3) as u8 } else { ((actor + 4 - t.oya) % 4) as u8 },
        round_wind: t.round_wind,
        riichi_sticks: t.riichi_sticks,
        honba: t.honba as u32,
        kita_count: if sanma { p.kita_count } else { 0 },
        is_sanma: sanma,
        num_players: if sanma { 3 } else { 4 },
    }
}

/// `x` clamped to `u32`.
pub open spec fn clamp_u32(x: int) -> u32 {
    if x > u32::MAX { u32::MAX } else { x as u32 }
}

/// Points a win collects: the ron payment, or on a tsumo what the other
/// seats pay together (the dealer is paid by every non-dealer; a non-dealer
/// by the dealer and the other non-dealers), each step saturating.
pub open spec fn hora_points(w: WinOutcome, is_tsumo: bool, dealer: bool, sanma: bool) -> u32 {
    if !is_tsumo {
        w.ron_agari
    } else if dealer {
        clamp_u32(w.tsumo_agari_ko * (if sanma { 2int } else { 3int }))
    } else if sanma {
        clamp_u32(w.tsumo_agari_oya + w.tsumo_agari_ko)
    } else {
        clamp_u32(w.tsumo_agari_oya + clamp_u32(w.tsumo_agari_ko * 2))
    }
}

/// Score of a claimed win as the table shows it.
#[derive(Debug, Clone, PartialEq, Eq)]
pub struct HoraScoreInfo {
    pub points: u32,
    pub han: u32,
    pub fu: u32,
    pub yakuman: bool,
    /// The winning tile's mjai name.
    pub win_tile: String,
}

/// The winning tile of a claim: the drawn tile on a tsumo, the last
/// discard on a ron.
pub open spec fn hora_win_tile(t: TableView, is_tsumo: bool) -> Option<u8> {
    if is_tsumo { t.drawn_tile } else { t.last_discard }
}

/// The engine's verdict on `actor` winning on the table's winning tile.
pub open spec fn hora_outcome(t: TableView, actor: u8, is_tsumo: bool, sanma: bool, win_tile: u8) -> WinOutcome {
    let p = t.players@[actor as int];
    hand_win(p.hand@, meld_models(p.melds@), win_tile, t.dora_indicators@, Seq::empty(), hora_conditions(t, actor, is_tsumo, sanma))
}

/// `None` when `actor` is no seat, when there is no winning tile, or when
/// the engine finds no scoring win; otherwise the points, han, fu, yakuman
/// flag and winning tile of the win.
pub open spec fn spec_evaluate_hora(t: TableView, actor: u8, is_tsumo: bool, sanma: bool) -> Option<(u32, u32, u32, bool, Seq<char>)> {
    if actor >= t.players@.len() {
        None
    } else {
        match hora_win_tile(t, is_tsumo) {
            None => None,
            Some(w) => {
                let o = hora_outcome(t, actor, is_tsumo, sanma, w);
                if !o.is_win {
                    None
                } else {
                    Some((hora_points(o, is_tsumo, actor == t.oya, sanma), o.han, o.fu, o.yakuman, spec_tid_to_mjai(w)))
                }
            },
        }
    }
}

/// A claim is judged by the engine on the winner's own hand and state: for
/// any conditions `c` that carry the winner's riichi, double riichi and
/// ippatsu, the kind of win (tsumo or ron), the table's haitei / houtei /
/// rinshan / chankan / first-turn situation, the seat wind counted from
/// the dealer, the round wind, sticks, honba, north count and table size,
/// the claim scores exactly when the engine finds the hand with the
/// winning tile a win under `c`, with the engine's han, fu and yakuman
/// flag. In particular a riichi winner's han include the riichi. A ron
/// collects the ron payment; a tsumo what the other seats pay: the dealer
/// is paid the non-dealer share by each other seat, a non-dealer the
/// dealer share plus the non-dealer share of each remaining seat.
pub proof fn lemma_win_judged_on_winners_state(t: TableView, actor: u8, is_tsumo: bool, sanma: bool, w: u8, c: WinConditions)
    requires
        t.players@.len() == (if sanma { 3int } else { 4int }),
        actor < t.players@.len(),
        hora_win_tile(t, is_tsumo) == Some(w),
        c.tsumo == is_tsumo,
        c.riichi == t.players@[actor as int].riichi_declared,
        c.double_riichi == t.players@[actor as int].double_riichi_declared,
        c.ippatsu == t.players@[actor as int].ippatsu_cycle,
        c.haitei == (is_tsumo && t.drawable_count == 0 && !t.is_rinshan_flag),
        c.houtei == (!is_tsumo && t.drawable_count == 0 && !t.is_rinshan_flag),
        c.rinshan == (is_tsumo && t.is_rinshan_flag),
        c.chankan == (!is_tsumo && t.pending_kan),
        c.tsumo_first_turn == (is_tsumo && t.is_first_turn),
        c.player_wind == (if sanma { (actor + 3 - t.oya) % 3 } else { (actor + 4 - t.oya) % 4 }),
        c.round_wind == t.round_wind,
        c.riichi_sticks == t.riichi_sticks,
        c.honba == t.honba,
        c.kita_count == (if sanma { t.players@[actor as int].kita_count } else { 0 }),
        c.is_sanma == sanma,
        c.num_players == (if sanma { 3u8 } else { 4u8 }),
    ensures
        ({
            let p = t.players@[actor as int];
            let o = hand_win(p.hand@, meld_models(p.melds@), w, t.dora_indicators@, Seq::empty(), c);
            &&& (spec_evaluate_hora(t, actor, is_tsumo, sanma) is Some <==> o.is_win)
            &&& (spec_evaluate_hora(t, actor, is_tsumo, sanma) matches Some((points, han, fu, yakuman, tile)) ==> han
                == o.han && fu == o.fu && yakuman == o.yakuman && tile == spec_tid_to_mjai(w))
            &&& !is_tsumo ==> (spec_evaluate_hora(t, actor, is_tsumo, sanma) matches Some((points, han, fu, yakuman, tile))
                ==> points == o.ron_agari)
            &&& (is_tsumo && o.tsumo_agari_oya < 0x1000_0000 && o.tsumo_agari_ko < 0x1000_0000) ==> (spec_evaluate_hora(
                t,
                actor,
                is_tsumo,
                sanma,
            ) matches Some((points, han, fu, yakuman, tile)) ==> points == if actor == t.oya {
                o.tsumo_agari_ko * (t.players@.len() - 1)
            } else {
                o.tsumo_agari_oya + o.tsumo_agari_ko * (t.players@.len() - 2)
            })
        }),
{
    assert(c == hora_conditions(t, actor, is_tsumo, sanma));
}

/// A claimed win is refused (no score) when the actor is no seat of the
/// table, when the claim has no winning tile (no drawn tile for a tsumo,
/// no last discard for a ron), or when the hand with that tile is no win.
pub proof fn lemma_hora_refusals(t: TableView, actor: u8, is_tsumo: bool, sanma: bool)
    ensures
        actor >= t.players@.len() ==> spec_evaluate_hora(t, actor, is_tsumo, sanma) is None,
        is_tsumo && t.drawn_tile is None ==> spec_evaluate_hora(t, actor, is_tsumo, sanma) is None,
        !is_tsumo && t.last_discard is None ==> spec_evaluate_hora(t, actor, is_tsumo, sanma) is None,
        actor < t.players@.len() ==> (hora_win_tile(t, is_tsumo) matches Some(w) ==> (!hora_outcome(
            t,
            actor,
            is_tsumo,
            sanma,
            w,
        ).is_win ==> spec_evaluate_hora(t, actor, is_tsumo, sanma) is None)),
{
}

/// The [`HoraScoreInfo`] a result of [`spec_evaluate_hora`] describes.
pub open spec fn hora_info_is(r: Option<HoraScoreInfo>, s: Option<(u32, u32, u32, bool, Seq<char>)>) -> bool {
    match s {
        None => r is None,
        Some((points, han, fu, yakuman, tile)) => r matches Some(i) && i.points == points && i.han == han && i.fu == fu
            && i.yakuman == yakuman && i.win_tile@ == tile,
    }
}

fn clamped_mul(x: u32, k: u32) -> (r: u32)
    requires
        k <= 3,
    ensures
        r == clamp_u32(x * k),
{
    assert(x as u64 * k as u64 <= 3 * 0xffff_ffff) by (nonlinear_arith)
        requires
            k <= 3,
            x <= 0xffff_ffff,
    ;
    let p: u64 = x as u64 * k as u64;
    if p > u32::MAX as u64 { u32::MAX } else { p as u32 }
}

fn clamped_add(x: u32, y: u32) -> (r: u32)
    ensures
        r == clamp_u32(x + y),
{
    x.saturating_add(y)
}

fn evaluate_hora(table: &TableView, actor: u8, is_tsumo: bool, sanma: bool) -> (r: Option<HoraScoreInfo>)
    requires
        table_wf(*table, sanma),
    ensures
        hora_info_is(r, spec_evaluate_hora(*table, actor, is_tsumo, sanma)),
{
    let n = table.players.len();
    if actor as usize >= n {
        return None;
    }
    let win_tile = if is_tsumo { table.drawn_tile } else { table.last_discard };
    let win_tile = match win_tile {
        Some(t) => t,
        None => return None,
    };
    let player = &table.players[actor as usize];
    proof {
        assert(engine_hand_ok(player.hand@, meld_models(player.melds@)));
    }
    let hand = engine_hand(player.hand.clone(), &player.melds);
    let player_wind: u8 = if sanma { (actor + 3 - table.oya) % 3 } else { (actor + 4 - table.oya) % 4 };
    let cond = WinConditions {
        tsumo: is_tsumo,
        riichi: player.riichi_declared,
        double_riichi: player.double_riichi_declared,
        ippatsu: player.ippatsu_cycle,
        haitei: is_tsumo && table.drawable_count == 0 && !table.is_rinshan_flag,
        houtei: !is_tsumo && table.drawable_count == 0 && !table.is_rinshan_flag,
        rinshan: is_tsumo && table.is_rinshan_flag,
        chankan: !is_tsumo && table.pending_kan,
        tsumo_first_turn: is_tsumo && table.is_first_turn,
        player_wind,
        round_wind: table.round_wind,
        riichi_sticks: table.riichi_sticks,
        honba: table.honba as u32,
        kita_count: if sanma { player.kita_count } else { 0 },
        is_sanma: sanma,
        num_players: if sanma { 3 } else { 4 },
    };
    assert(cond == hora_conditions(*table, actor, is_tsumo, sanma));
    let result = engine_calc(&hand, win_tile, table.dora_indicators.clone(), Vec::new(), cond);
    if !result.is_win {
        return None;
    }
    let points = if is_tsumo {
        if actor == table.oya {
            clamped_mul(result.tsumo_agari_ko, if sanma { 2 } else { 3 })
        } else if sanma {
            clamped_add(result.tsumo_agari_oya, result.tsumo_agari_ko)
        } else {
            clamped_add(result.tsumo_agari_oya, clamped_mul(result.tsumo_agari_ko, 2))
        }
    } else {
        result.ron_agari
    };
    Some(HoraScoreInfo { points, han: result.han, fu: result.fu, yakuman: result.yakuman, win_tile: tid_to_mjai(win_tile) })
}

/// Evaluate a four-player ron or tsumo claim by `actor` against the table:
/// the winning tile is the drawn tile on a tsumo and the last discard on a
/// ron, the dora are the table's indicators, no ura dora. `None` when
/// `actor` is no seat, there is no winning tile, or the hand is no scoring
/// win.
pub fn evaluate_hora_4p(table: &TableView, actor: u8, is_tsumo: bool) -> (r: Option<HoraScoreInfo>)
    requires
        table_wf(*table, false),
    ensures
        hora_info_is(r, spec_evaluate_hora(*table, actor, is_tsumo, false)),
{
    evaluate_hora(table, actor, is_tsumo, false)
}

/// Three-player form of [`evaluate_hora_4p`]: seat winds count over three
/// seats, set-aside north tiles are passed on, and a tsumo is paid by the
/// two other seats.
pub fn evaluate_hora_3p(table: &TableView, actor: u8, is_tsumo: bool) -> (r: Option<HoraScoreInfo>)
    requires
        table_wf(*table, true),
    ensures
        hora_info_is(r, spec_evaluate_hora(*table, actor, is_tsumo, true)),
{
    evaluate_hora(table, actor, is_tsumo, true)
}

fn all_tiles_in_range(s: &Vec<u8>) -> (r: bool)
    ensures
        r == tiles_in_range(s@),
{
    let mut i: usize = 0;
    while i < s.len()
        invariant
            i <= s@.len(),
            forall|k: int| 0 <= k < i ==> s@[k] < 136,
        decreases s@.len() - i,
    {
        if s[i] >= 136 {
            return false;
        }
        i += 1;
    }
    true
}

/// Counting `tiles` one more step keeps a kind count.
proof fn lemma_kind_count_step(tiles: Seq<u8>, j: int, k: int)
    requires
        0 <= j < tiles.len(),
    ensures
        kind_count(tiles.take(j + 1), k) == kind_count(tiles.take(j), k) + if tiles[j] / 4 == k { 1int } else { 0int },
{
    assert(tiles.take(j + 1).drop_last() =~= tiles.take(j));
}

/// Every kind count is at most the number of tiles.
proof fn lemma_kind_count_bound(tiles: Seq<u8>, k: int)
    ensures
        0 <= kind_count(tiles, k) <= tiles.len(),
    decreases tiles.len(),
{
    if tiles.len() > 0 {
        lemma_kind_count_bound(tiles.drop_last(), k);
    }
}

/// Whether no kind occurs more than four times among `tiles`, all of them
/// 136-space ids.
fn kinds_at_most_four(tiles: &Vec<u8>) -> (r: bool)
    requires
        tiles_in_range(tiles@),
        tiles@.len() <= 255,
    ensures
        r == at_most_four_each(tiles@),
{
    let mut counts: Vec<u8> = Vec::new();
    let mut k: usize = 0;
    while k < 34
        invariant
            k <= 34,
            counts@.len() == k,
            forall|m: int| 0 <= m < k ==> counts@[m] == 0,
        decreases 34 - k,
    {
        counts.push(0);
        k += 1;
    }
    let n = tiles.len();
    let mut j: usize = 0;
    assert(tiles@.take(0) =~= Seq::<u8>::empty());
    while j < n
        invariant
            n == tiles@.len(),
            n <= 255,
            tiles_in_range(tiles@),
            j <= n,
            counts@.len() == 34,
            forall|m: int| 0 <= m < 34 ==> #[trigger] counts@[m] == kind_count(tiles@.take(j as int), m),
        decreases n - j,
    {
        let t = tiles[j];
        let kind = (t / 4) as usize;
        proof {
            assert forall|m: int| 0 <= m < 34 implies kind_count(tiles@.take(j + 1), m) == kind_count(tiles@.take(j as int), m)
                + if tiles@[j as int] / 4 == m { 1int } else { 0int } by {
                lemma_kind_count_step(tiles@, j as int, m);
            }
            lemma_kind_count_bound(tiles@.take(j as int), kind as int);
        }
        let c = counts[kind];
        counts.set(kind, c + 1);
        j += 1;
    }
    assert(tiles@.take(n as int) =~= tiles@);
    let mut m: usize = 0;
    while m < 34
        invariant
            m <= 34,
            counts@.len() == 34,
            forall|x: int| 0 <= x < 34 ==> #[trigger] counts@[x] == kind_count(tiles@, x),
            forall|x: int| 0 <= x < m ==> kind_count(tiles@, x) <= 4,
        decreases 34 - m,
    {
        if counts[m] > 4 {
            return false;
        }
        m += 1;
    }
    true
}

/// Whether the engine can evaluate this closed hand with these melds.
pub fn hand_is_evaluable(hand: &Vec<u8>, melds: &Vec<MeldView>) -> (r: bool)
    ensures
        r == engine_hand_ok(hand@, meld_models(melds@)),
{
    if !all_tiles_in_range(hand) || melds.len() > 4 || hand.len() > 14 || hand.len() + 3 * melds.len() > 14 {
        return false;
    }
    let ghost ms = meld_models(melds@);
    let mut all: Vec<u8> = hand.clone();
    let mut i: usize = 0;
    assert(ms.take(0) =~= Seq::<(MeldKind, Seq<u8>, bool, i8, Option<u8>)>::empty());
    assert(all@ =~= hand@ + meld_tiles(ms.take(0)));
    while i < melds.len()
        invariant
            i <= melds@.len(),
            melds@.len() <= 4,
            hand@.len() <= 14,
            ms == meld_models(melds@),
            tiles_in_range(hand@),
            forall|k: int| 0 <= k < i ==> 3 <= (#[trigger] ms[k]).1.len() <= 4 && tiles_in_range(ms[k].1),
            all@ == hand@ + meld_tiles(ms.take(i as int)),
            all@.len() <= hand@.len() + 4 * i,
            tiles_in_range(all@),
        decreases melds@.len() - i,
    {
        let m = &melds[i];
        assert(ms[i as int] == meld_model(melds@[i as int]));
        if m.tiles.len() < 3 || m.tiles.len() > 4 || !all_tiles_in_range(&m.tiles) {
            return false;
        }
        let ghost before = all@;
        let mut j: usize = 0;
        while j < m.tiles.len()
            invariant
                j <= m.tiles@.len(),
                m.tiles@.len() <= 4,
                tiles_in_range(m.tiles@),
                tiles_in_range(before),
                all@ == before + m.tiles@.take(j as int),
            decreases m.tiles@.len() - j,
        {
            all.push(m.tiles[j]);
            assert(m.tiles@.take(j + 1) =~= m.tiles@.take(j as int).push(m.tiles@[j as int]));
            j += 1;
        }
        assert(m.tiles@.take(m.tiles@.len() as int) =~= m.tiles@);
        assert(ms.take(i + 1).drop_last() =~= ms.take(i as int));
        assert(ms.take(i + 1).last() == ms[i as int]);
        assert(all@ =~= hand@ + meld_tiles(ms.take(i + 1)));
        i += 1;
    }
    assert(ms.take(melds@.len() as int) =~= ms);
    kinds_at_most_four(&all)
}

/// Whether `t` is a table [`evaluate_hora_4p`] (or, with `sanma`,
/// [`evaluate_hora_3p`]) accepts.
pub fn table_is_wf(t: &TableView, sanma: bool) -> (r: bool)
    ensures
        r == table_wf(*t, sanma),
{
    let n: usize = if sanma { 3 } else { 4 };
    if t.players.len() != n || t.oya as usize >= n {
        return false;
    }
    let mut i: usize = 0;
    while i < n
        invariant
            n == t.players@.len(),
            i <= n,
            forall|k: int| 0 <= k < i ==> engine_hand_ok((#[trigger] t.players@[k]).hand@, meld_models(t.players@[k].melds@)),
        decreases n - i,
    {
        if !hand_is_evaluable(&t.players[i].hand, &t.players[i].melds) {
            return false;
        }
        i += 1;
    }
    let drawn_ok = match t.drawn_tile { Some(x) => x < 136, None => true };
    let discard_ok = match t.last_discard { Some(x) => x < 136, None => true };
    drawn_ok && discard_ok && t.dora_indicators.len() <= 5 && all_tiles_in_range(&t.dora_indicators)
}

} // verus!
