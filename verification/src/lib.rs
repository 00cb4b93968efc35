//! Looking-for-group matchmaking sessions for a guild chat bot.
//!
//! The crate holds the session registry, the trigger parser, the rules that
//! decide when a session is created, joined and torn down, and the text of
//! every status message. Each function states its behaviour in a contract
//! that Verus proves; the transport that posts messages lives outside.

pub mod commands;
pub mod laws;
pub mod lfg;
pub mod limits;
pub mod models;
pub mod render;
pub mod session_id;
pub mod text;
pub mod timer;
pub mod trigger;
pub mod util;
