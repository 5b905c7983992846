//! Rendering of an embedded interpreter configuration as Rust source, and the
//! build context that a configuration script shares with its extension
//! functions.

pub mod config;
pub mod context;
pub mod literal;
pub mod pyembed;
