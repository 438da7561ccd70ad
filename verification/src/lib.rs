//! Multi-pattern substring search with a pattern set that can change at
//! run time.
//!
//! An [`AhoCorasick`] value owns an ordered, duplicate-free list of patterns
//! and the automaton compiled from it.  Queries report matches as pattern
//! text, matched text and byte offsets; adding or removing patterns compiles
//! a fresh automaton and swaps it in together with the new pattern list.
//!
//! The automaton itself comes from the `aho-corasick` crate.  Everything
//! this crate assumes about it is stated in the module `automaton`; all
//! other code is verified against those statements.

pub mod automaton;
pub mod error;
pub mod laws;
pub mod matcher;
pub mod matches;
pub mod occurrence;
pub mod options;
pub mod store;
pub mod text;

pub use error::Error;
pub use matcher::AhoCorasick;
pub use matches::Match;
pub use occurrence::RawMatch;
pub use options::{AhoCorasickKind, BuilderOptions, MatchKind, StartKind};
