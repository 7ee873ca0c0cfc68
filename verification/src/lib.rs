//! Looks a word up in an online dictionary, decides whether the page holds a
//! direct definition, a list of related entries, or neither, and prepares the
//! outcome for a terminal.
//!
//! The crate is a library: fetching a page and asking the user to pick an
//! entry are left to the caller, which drives the [`lookup::Lookup`] state
//! machine and performs the actions it asks for.

pub mod lookup;
pub mod page;
pub mod render;
pub mod style;
pub mod text;
