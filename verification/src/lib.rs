//! Interactive reordering of the lines of a text file.
//!
//! The heart of the crate is a small model: an ordered collection of lines,
//! each with a selection flag, together with a cursor and a cached count of
//! the selected lines. A mutation engine transforms that model in response to
//! abstract commands (reorder one line, gather the selected lines at the top,
//! toggle a selection, move the cursor), and a session layer tracks which
//! screen is shown and when the session ends. Every operation is verified:
//! the cursor stays in range, the cached count always matches the flags, and
//! each reordering is pinned down exactly.
//!
//! Terminal rendering, keyboard polling, argument parsing and file access are
//! left to the caller; the library exchanges plain values with them.

pub mod common;
pub mod item;
pub mod message;
pub mod model;
pub mod persist;
pub mod update;
