//! Interaction engine of a terminal file browser: the paginated file list,
//! quick-jump hints, finder and omnibar overlays, clipboard, key bindings and
//! the mode controller that ties them together. Drawing, terminal handling and
//! file-system access are left to the program that embeds the engine.

use vstd::prelude::*;

pub mod browser;
pub mod commands;
pub mod components;
pub mod config;
pub mod hints;
pub mod listing;
pub mod paging;
pub mod text;

verus! {

/// Failures that the engine reports to its caller.
#[derive(Clone, Copy, Debug, PartialEq, Eq, Structural)]
pub enum Error {
    /// The list has no entry at the requested position.
    OutOfRange,
    /// A quick-jump code that names no visible row.
    UnknownHint,
    /// The target of a directory change does not exist.
    InvalidDirectory,
    /// The key-binding configuration is malformed.
    ConfigError,
}

} // verus!
