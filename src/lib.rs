//! Live "now playing" state for an osu! stream: a record fed by partial
//! updates from real-time data sources, a per-command rate limiter, a
//! template renderer, and the decision logic of the reconnecting stream
//! consumers and of the chat command handler.

pub mod chat;
pub mod config;
pub mod data;
pub mod mode;
pub mod ratelimit;
pub mod render;
pub mod source;
pub mod stream;
pub mod text;
