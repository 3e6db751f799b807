//! Errors of the bot.

use vstd::prelude::*;

verus! {

/// Bot error, each kind with its message.
///
/// The network, JSON and I/O kinds carry the text of the underlying error.
#[derive(Debug, Clone, PartialEq, Eq)]
pub enum BotError {
    Config(String),
    Api(String),
    WebSocket(String),
    Signing(String),
    Order(String),
    Network(String),
    Json(String),
    Io(String),
}

impl BotError {
    /// The message shown for the error: its kind's prefix and its text.
    pub fn message(&self) -> (s: String)
        ensures
            s@ == self.message_spec(),
    {
        let (prefix, text) = match self {
            BotError::Config(t) => ("Config error: ", t),
            BotError::Api(t) => ("API error: ", t),
            BotError::WebSocket(t) => ("WebSocket error: ", t),
            BotError::Signing(t) => ("Signing error: ", t),
            BotError::Order(t) => ("Order error: ", t),
            BotError::Network(t) => ("Network error: ", t),
            BotError::Json(t) => ("JSON error: ", t),
            BotError::Io(t) => ("IO error: ", t),
        };
        let mut s = String::new();
        s.append(prefix);
        s.append(text.as_str());
        s
    }

    pub open spec fn message_spec(&self) -> Seq<char> {
        match self {
            BotError::Config(t) => "Config error: "@ + t@,
            BotError::Api(t) => "API error: "@ + t@,
            BotError::WebSocket(t) => "WebSocket error: "@ + t@,
            BotError::Signing(t) => "Signing error: "@ + t@,
            BotError::Order(t) => "Order error: "@ + t@,
            BotError::Network(t) => "Network error: "@ + t@,
            BotError::Json(t) => "JSON error: "@ + t@,
            BotError::Io(t) => "IO error: "@ + t@,
        }
    }
}

} // verus!
