//! What every platform bridge shares: frame direction and the result of
//! parsing one frame.
use vstd::prelude::*;
use crate::inspector::ParsedFrame;
use crate::mjai::{MjaiEvent, ev_views};

verus! {

/// Direction of a parsed frame relative to the proxied client.
#[derive(Debug, Clone, Copy, PartialEq, Eq, Structural)]
pub enum Direction {
    /// Client → server.
    Up,
    /// Server → client.
    Down,
}

impl Direction {
    pub fn as_str(self) -> (r: &'static str)
        ensures
            r@ == match self {
                Direction::Up => "up"@,
                Direction::Down => "down"@,
            },
    {
        match self {
            Direction::Up => "up",
            Direction::Down => "down",
        }
    }
}

/// The mjai events one frame translated into, and the bridge's structured
/// view of the frame when it could decode it.
#[derive(Debug)]
pub struct ParseResult {
    pub events: Vec<MjaiEvent>,
    pub parsed: Option<ParsedFrame>,
}

impl ParseResult {
    /// No events, no structured view.
    pub fn empty() -> (r: Self)
        ensures
            r.events@.len() == 0,
            r.parsed is None,
    {
        ParseResult { events: Vec::new(), parsed: None }
    }

    /// The given events, no structured view.
    pub fn just_events(events: Vec<MjaiEvent>) -> (r: Self)
        ensures
            ev_views(r.events@) == ev_views(events@),
            r.events@ == events@,
            r.parsed is None,
    {
        ParseResult { events, parsed: None }
    }
}

} // verus!
