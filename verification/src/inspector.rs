//! Records of the inspector timeline: captured frames, translated events
//! and bot reactions.
use vstd::prelude::*;
use crate::json::JsonValue;
use crate::mjai::MjaiEvent;

verus! {

/// Direction of a captured frame relative to the proxied client.
#[derive(Debug, Clone, Copy, PartialEq, Eq, Structural)]
pub enum FrameDirection {
    Up,
    Down,
}

/// Raw wire bytes of a frame: text frames as their string, binary frames
/// as base64.
#[derive(Debug, Clone, PartialEq, Eq)]
pub enum FrameRaw {
    Text(String),
    Binary(String),
}

/// The bridge's structured view of a parsed frame.
#[derive(Debug, PartialEq)]
pub struct ParsedFrame {
    /// Platform-native message identifier.
    pub method: String,
    pub args: JsonValue,
}

/// The triggering event and the bot's response, with the reaction latency.
#[derive(Debug, PartialEq)]
pub struct BotReaction {
    pub bot: String,
    pub actor_id: u8,
    pub trigger: MjaiEvent,
    pub action: MjaiEvent,
    pub meta: Option<JsonValue>,
    /// React-call latency in milliseconds.
    pub reaction_ms: u64,
}

/// One row in the inspector timeline.
#[derive(Debug, PartialEq)]
pub enum InspectorEntry {
    /// A WebSocket frame seen by the capture backend.
    WsFrame {
        ts_ms: i64,
        direction: FrameDirection,
        flow_id: String,
        size: usize,
        raw: FrameRaw,
        parsed: Option<ParsedFrame>,
        /// Number of mjai events the bridge emitted from this frame.
        emitted: usize,
    },
    /// An mjai event observed on the event bus.
    MjaiEvent { ts_ms: i64, event: MjaiEvent },
    /// A bot reaction.
    BotReaction { ts_ms: i64, reaction: BotReaction },
}

} // verus!
