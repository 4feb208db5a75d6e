//! Tab/dock management and terminal-output rendering core of a code-playground
//! application.
//!
//! The crate models the dock of scratch tabs, the per-frame command queue that
//! defers structural mutations until the render pass has finished, the
//! processor that applies those commands, the memoized ANSI-to-styled-text
//! pipeline for terminal output, and the drag state machine of the bottom
//! terminal panel. Everything here is plain data and decisions; the drawing
//! itself is left to the immediate-mode UI layer around the crate.

pub mod ansi;
pub mod cache;
pub mod commands;
pub mod events;
pub mod hashing;
pub mod tab;
pub mod terminal;
pub mod text;
pub mod tree;
pub mod viewer;
