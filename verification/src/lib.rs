//! Trading-bot domain library: the rules a SignalFlow bot applies to
//! signals, lessons, market data, exchange replies and signing, each stated
//! as a contract and proved.

pub mod text;
pub mod error;
pub mod lesson;
pub mod macro_news;
pub mod backoff;
pub mod exchange;
pub mod rules;
pub mod execution;
pub mod order;
pub mod assets;
pub mod signing;
pub mod config;
pub mod market;
pub mod signal;
pub mod risk;
pub mod ws;
pub mod sync;
pub mod orderflow;
pub mod candles;
