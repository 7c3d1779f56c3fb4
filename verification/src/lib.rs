//! Verified core of a one-shot serial status query tool.
//!
//! The library encodes a logical status query as its fixed wire request,
//! tracks the single write-pause-read exchange of a transport session as a
//! state machine, and renders the reply bytes as text and as a hex dump.
//! The serial I/O itself is performed by a thin unverified driver around
//! this crate.

pub mod command;
pub mod error;
pub mod render;
pub mod session;
