//! Core of a single-session terminal chat client: the session controller's
//! state machine, the connection listener's event translation, and the render
//! engine's scrollback, wrapping, input editing and history navigation.
//!
//! Everything here is plain data and verified logic; the surrounding process
//! (terminal handling, the network protocol library, the async runtime) feeds
//! these functions with plain values and carries out the actions they decide.

pub mod color;
pub mod command;
pub mod config;
pub mod history;
pub mod input;
pub mod listener;
pub mod scrollback;
pub mod session;
pub mod text;
pub mod ui;
pub mod wrap;
