//! Client-side runtime for the OKX WebSocket feed: subscription encoding,
//! login signing, authentication and connection state, the per-channel pump
//! decisions, and a two-lane priority channel.

pub mod json;
pub mod operation;
pub mod text;
pub mod candle;
pub mod args;
pub mod error;
pub mod request;
pub mod signer;
pub mod auth;
pub mod connection;
pub mod config;
pub mod response;
pub mod queue;
pub mod client;
pub mod priority;
pub mod order;
pub mod login;
