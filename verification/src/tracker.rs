//! Bookkeeping around the riichi engine that mirrors the live game: which
//! events start a fresh engine state, our seat, and the per-discard
//! markers (hand discard or draw discard, riichi declaration) the engine
//! leaves out when it records a discard.
use vstd::prelude::*;
use crate::mjai::MjaiEvent;

verus! {

/// What the tracker does with an event.
#[derive(Debug, Clone, Copy, PartialEq, Eq, Structural)]
pub enum TrackerStep {
    /// Build a fresh engine state, then feed it the event.
    NewGame,
    /// Feed the event to the engine state.
    Apply,
    /// No game is tracked yet: nothing to feed.
    Ignore,
}

/// The tracker's own state besides the engine: events seen since start,
/// our seat in the current game, and whether a game is tracked.
#[derive(Debug, Clone, Copy, PartialEq, Eq, Structural)]
pub struct TrackerBook {
    pub events_seen: u64,
    pub our_seat: Option<u8>,
    pub has_game: bool,
}

impl TrackerBook {
    /// Nothing seen, no game.
    pub fn new() -> (r: Self)
        ensures
            r.events_seen == 0,
            r.our_seat is None,
            !r.has_game,
    {
        TrackerBook { events_seen: 0, our_seat: None, has_game: false }
    }

    /// Count the event. Every `start_game` starts a fresh engine state and
    /// takes its seat (none in observer mode), never keeping the previous
    /// game's; other events go to the engine once a game is tracked.
    pub fn handle(&mut self, ev: &MjaiEvent) -> (r: TrackerStep)
        requires
            old(self).events_seen < u64::MAX,
        ensures
            final(self).events_seen == old(self).events_seen + 1,
            match *ev {
                MjaiEvent::StartGame { id, .. } => r == TrackerStep::NewGame && final(self).our_seat == id
                    && final(self).has_game,
                _ => final(self).our_seat == old(self).our_seat && final(self).has_game == old(self).has_game
                    && r == if old(self).has_game { TrackerStep::Apply } else { TrackerStep::Ignore },
            },
    {
        self.events_seen = self.events_seen + 1;
        match ev {
            MjaiEvent::StartGame { id, .. } => {
                self.our_seat = *id;
                self.has_game = true;
                TrackerStep::NewGame
            },
            _ => {
                if self.has_game {
                    TrackerStep::Apply
                } else {
                    TrackerStep::Ignore
                }
            },
        }
    }
}

/// A seat's discard markers, parallel to its river: whether each discard
/// came from the hand (not the fresh draw), whether it declared riichi, and
/// the index of the riichi declaration.
#[derive(Debug, Clone, PartialEq, Eq)]
pub struct DiscardMarkers {
    pub from_hand: Vec<bool>,
    pub is_riichi: Vec<bool>,
    pub riichi_declaration_index: Option<usize>,
}

/// `marks` extended to `n` entries by `mark` when it is shorter.
pub open spec fn filled(marks: Seq<bool>, n: int, mark: bool) -> Seq<bool> {
    if marks.len() < n {
        marks.push(mark)
    } else {
        marks
    }
}

impl DiscardMarkers {
    /// Complete the markers after the engine recorded a discard of this
    /// seat, its river now `river_len` long: a marker array that lags the
    /// river gets this discard's marker (from the hand unless it was a
    /// draw discard; riichi when the seat was declaring), and a declaring
    /// discard is remembered as the riichi declaration unless one is.
    pub fn record_discard(&mut self, river_len: usize, tsumogiri: bool, declaring_riichi: bool)
        requires
            declaring_riichi && old(self).riichi_declaration_index is None ==> river_len > 0,
        ensures
            final(self).from_hand@ == filled(old(self).from_hand@, river_len as int, !tsumogiri),
            final(self).is_riichi@ == filled(old(self).is_riichi@, river_len as int, declaring_riichi),
            final(self).riichi_declaration_index == if declaring_riichi && old(self).riichi_declaration_index is None {
                Some((river_len - 1) as usize)
            } else {
                old(self).riichi_declaration_index
            },
    {
        if self.from_hand.len() < river_len {
            self.from_hand.push(!tsumogiri);
        }
        if self.is_riichi.len() < river_len {
            self.is_riichi.push(declaring_riichi);
        }
        if declaring_riichi && self.riichi_declaration_index.is_none() {
            self.riichi_declaration_index = Some(river_len - 1);
        }
    }
}

/// Markers in step with a river one discard shorter stay in step once the
/// discard is recorded: each marker array is as long as the river, and the
/// new discard's markers are the last entries.
pub proof fn lemma_markers_stay_in_step(from_hand: Seq<bool>, is_riichi: Seq<bool>, river_len: int, tsumogiri: bool, declaring_riichi: bool)
    requires
        river_len >= 1,
        from_hand.len() == river_len - 1,
        is_riichi.len() == river_len - 1,
    ensures
        filled(from_hand, river_len, !tsumogiri).len() == river_len,
        filled(is_riichi, river_len, declaring_riichi).len() == river_len,
        filled(from_hand, river_len, !tsumogiri).last() == !tsumogiri,
        filled(is_riichi, river_len, declaring_riichi).last() == declaring_riichi,
        filled(from_hand, river_len, !tsumogiri).drop_last() == from_hand,
{
    assert(from_hand.push(!tsumogiri).drop_last() =~= from_hand);
}

} // verus!
