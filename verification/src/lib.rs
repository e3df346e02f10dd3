//! Terminal emulation core for a script-launcher application.
//!
//! The heart of this crate is a VT-style terminal emulator: an escape
//! sequence parser that turns a raw byte stream into discrete actions
//! ([`action::Action`]), a cell grid that applies those actions
//! ([`grid::Grid`]), a bounded scrollback buffer, and a resize engine.
//! Around it sit the small pure pieces the surrounding application needs:
//! theme color schemes, the terminal theme adapter, built-in feature
//! entries, protocol choices, and text utilities.
//!
//! Everything here is deterministic and free of I/O; reading from the
//! pseudo-terminal, loading themes from disk and talking to script
//! processes happen in the surrounding application, which feeds plain
//! bytes and values into this crate.

pub mod action;
pub mod builtins;
pub mod color;
pub mod config;
pub mod grid;
pub mod grid_model;
pub mod parser;
pub mod protocol;
pub mod pty;
pub mod reflow;
pub mod terminal;
pub mod theme;
pub mod theme_adapter;
pub mod utils;

pub use color::Cell;
pub use color::ColorRef;
pub use color::StyleFlags;
pub use pty::PtyManager;
pub use terminal::TerminalHandle;
pub use theme_adapter::ThemeAdapter;
