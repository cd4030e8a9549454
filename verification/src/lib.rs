//! Transient side conversations.
//!
//! A side conversation is an ephemeral fork of a thread, opened for a quick question while the
//! main thread keeps its focus. This crate decides when such a fork may start, what it is told,
//! what the screen says while it is open, and how every trace of it is taken back. It holds the
//! state those decisions read and answers each event with the next state; whoever drives it does
//! the waiting, the network and the drawing.
//!
//! What holds across decisions is proved in [`laws`], and what a caller sees of each operation in the
//! modules whose names end in `_laws`.

pub mod app;
pub mod background_laws;
pub mod cleanup;
pub mod discard;
pub mod discard_laws;
pub mod ids;
pub mod laws;
mod maps;
pub mod navigate;
pub mod navigate_laws;
pub mod prepared;
pub mod prepared_laws;
pub mod prompts;
pub mod protocol;
pub mod report;
pub mod screen;
pub mod screen_laws;
pub mod server;
pub mod start;
pub mod start_laws;
pub mod status;
pub mod text;
pub mod text_laws;
