//! Core logic of a hands-free voice-interaction loop: bounded conversation
//! history with FIFO eviction, JSON-payload escaping, chat-request rendering,
//! inline style-directive parsing for expressive speech synthesis, HTTP status
//! checking with full-body diagnostics, response-field extraction, and the
//! pipeline state machine that drives one interaction cycle.
//!
//! Everything that talks to the outside world (keyboard hooks, audio capture
//! and playback processes, the HTTP transport) lives outside this crate; the
//! functions here take plain values in and hand plain values back.

pub mod commands;
pub mod escape;
pub mod chat;
pub mod history;
pub mod pipeline;
pub mod response;
pub mod status;
pub mod style;
pub mod text;
pub mod turn;
