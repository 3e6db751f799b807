//! The market-data WebSocket's decisions: what each subscription asks for,
//! and what each frame read from the socket calls for.

use vstd::prelude::*;
use crate::text::str_eq;

verus! {

/// WebSocket subscription types
#[derive(Debug, Clone)]
pub enum WsSubscription {
    L2Book { coin: String },
    Trades { coin: String },
    AllMids,
}

impl WsSubscription {
    /// The "type" of the subscription message.
    pub open spec fn kind_spec(&self) -> Seq<char> {
        match self {
            WsSubscription::L2Book { .. } => "l2Book"@,
            WsSubscription::Trades { .. } => "trades"@,
            WsSubscription::AllMids => "allMids"@,
        }
    }

    /// The "type" of the subscription message.
    pub fn kind(&self) -> (k: &'static str)
        ensures
            k@ == self.kind_spec(),
    {
        match self {
            WsSubscription::L2Book { .. } => "l2Book",
            WsSubscription::Trades { .. } => "trades",
            WsSubscription::AllMids => "allMids",
        }
    }

    /// The "coin" of the subscription message, for the per-coin channels.
    pub fn coin(&self) -> (c: Option<&String>)
        ensures
            match self {
                WsSubscription::L2Book { coin } => c == Some(coin),
                WsSubscription::Trades { coin } => c == Some(coin),
                WsSubscription::AllMids => c is None,
            },
    {
        match self {
            WsSubscription::L2Book { coin } => Some(coin),
            WsSubscription::Trades { coin } => Some(coin),
            WsSubscription::AllMids => None,
        }
    }
}

/// A frame read from the socket, as plain values.
#[derive(Debug, Clone)]
pub enum WsFrame {
    /// a text frame: its "channel" when it is JSON with a string channel
    Text { channel: Option<String> },
    Binary,
    Ping,
    Pong,
    Close,
    /// reading failed
    ReadError,
}

/// What a frame calls for.
#[derive(Debug, Clone, PartialEq, Eq)]
pub enum FrameAction {
    /// hand the message on under this channel
    Forward(String),
    /// answer with a pong (a failed answer ends the connection)
    SendPong,
    /// nothing to do
    Ignore,
    /// the connection is over: reconnect
    Reconnect,
}

/// Subscription confirmations are not market data.
pub open spec fn is_confirmation(channel: Seq<char>) -> bool {
    channel == "subscriptionResponse"@
}

/// A text frame with a channel is forwarded unless it confirms a
/// subscription; pings are answered; a close or a read error ends the
/// connection; everything else is ignored.
pub open spec fn frame_action_matches(a: FrameAction, f: WsFrame) -> bool {
    match f {
        WsFrame::Text { channel: Some(c) } => if is_confirmation(c@) {
            a == FrameAction::Ignore
        } else {
            a matches FrameAction::Forward(x) && x@ == c@
        },
        WsFrame::Ping => a == FrameAction::SendPong,
        WsFrame::Close | WsFrame::ReadError => a == FrameAction::Reconnect,
        _ => a == FrameAction::Ignore,
    }
}

/// Decide what a frame calls for.
pub fn frame_action(f: WsFrame) -> (a: FrameAction)
    ensures
        frame_action_matches(a, f),
{
    match f {
        WsFrame::Text { channel: Some(c) } => if str_eq(c.as_str(), "subscriptionResponse") {
            FrameAction::Ignore
        } else {
            FrameAction::Forward(c)
        },
        WsFrame::Ping => FrameAction::SendPong,
        WsFrame::Close | WsFrame::ReadError => FrameAction::Reconnect,
        _ => FrameAction::Ignore,
    }
}

/// Whether a message of this channel carries all mid prices.
pub fn is_all_mids(channel: &str) -> (b: bool)
    ensures
        b == (channel@ == "allMids"@),
{
    str_eq(channel, "allMids")
}

} // verus!
