//! Core of a conversational trading assistant: command parsing, trade and
//! watch-list parameter validation, and the per-chat confirmation state
//! machine. The chat transport and the crypto data provider are external
//! collaborators: the library turns incoming text and button callbacks into
//! a new per-chat state plus a list of outbound actions, and an unverified
//! driver performs those actions.

pub mod actions;
pub mod bot;
pub mod conversations;
pub mod laws;
pub mod order;
pub mod parse;
pub mod split;
pub mod tokens;
pub mod trade;
pub mod watch;
