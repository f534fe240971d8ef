//! Authentication handshake and now-playing card logic for a chat bot that is
//! linked to a music-streaming account.
//!
//! The crate holds the decisions: how a span of time is written, which codes a
//! form accepts, how the interactive handshake moves from state to state, how a
//! playback report becomes a display record, and what the resulting card says.
//! The surrounding program performs the waiting and the network calls and hands
//! their outcomes to the functions here.

pub mod card;
pub mod commands;
pub mod delta;
pub mod flow;
pub mod form;
pub mod playback;
pub mod request;
pub mod store;
pub mod text;
