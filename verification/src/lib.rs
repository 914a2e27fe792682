//! A duplex byte-stream transport over a message-framed connection whose host
//! reports progress through registered callbacks.
//!
//! The host object itself is driven elsewhere; this crate holds the rules: which
//! callback is bound to which event, when an establishment attempt settles, in
//! what order arrived messages are handed on, when a write is accepted and when
//! the handle is closed.

pub mod state;
pub mod registry;
pub mod inbound;
pub mod outbound;
pub mod establish;
pub mod reader;
pub mod connection;
