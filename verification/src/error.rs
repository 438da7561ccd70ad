//! The errors of a matcher.

use aho_corasick::{BuildError, MatchError, MatchErrorKind};
use crate::automaton::error_kind;
use vstd::prelude::*;

verus! {

/// Why a matcher could not be made or changed, or a search not run.
///
/// A search fails for the configuration of the matcher alone, never for
/// what the haystack holds, with one exception: `UnsupportedEmpty`.
#[derive(Debug, Clone, PartialEq, Eq)]
pub enum Error {
    /// The builder refused the pattern list; holds its message.
    Build(String),
    /// An anchored search on a matcher compiled without support for it.
    InvalidInputAnchored,
    /// An unanchored search on a matcher compiled for anchored searches
    /// only.
    InvalidInputUnanchored,
    /// A search of a stream with a match kind that does not allow it.
    UnsupportedStream,
    /// An overlapping search with a match kind other than the standard one.
    UnsupportedOverlapping,
    /// A search that has no defined answer where the empty pattern is in
    /// the list.
    UnsupportedEmpty,
    /// A search error of a kind that this crate does not know; holds its
    /// message.
    Other(String),
}

impl Error {
    /// This error is the one that stands for a search error of kind `kind`.
    pub open spec fn reports(self, kind: MatchErrorKind) -> bool {
        match kind {
            MatchErrorKind::InvalidInputAnchored => self is InvalidInputAnchored,
            MatchErrorKind::InvalidInputUnanchored => self is InvalidInputUnanchored,
            MatchErrorKind::UnsupportedStream { .. } => self is UnsupportedStream,
            MatchErrorKind::UnsupportedOverlapping { .. } => self is UnsupportedOverlapping,
            MatchErrorKind::UnsupportedEmpty => self is UnsupportedEmpty,
            _ => self is Other,
        }
    }

    /// The error for a refused pattern list; it holds what `error` displays.
    #[inline]
    pub fn from_build_error(error: BuildError) -> (out: Error)
        ensures
            out is Build,
            vstd::string::to_string_from_display_ensures::<BuildError>(&error, out->Build_0),
    {
        Error::Build(error.to_string())
    }

    /// The error for a search that the automaton refused.
    #[inline]
    pub fn from_match_error(error: MatchError) -> (out: Error)
        ensures
            out.reports(error_kind(error)),
    {
        match error.kind() {
            MatchErrorKind::InvalidInputAnchored => Error::InvalidInputAnchored,
            MatchErrorKind::InvalidInputUnanchored => Error::InvalidInputUnanchored,
            MatchErrorKind::UnsupportedStream { .. } => Error::UnsupportedStream,
            MatchErrorKind::UnsupportedOverlapping { .. } => Error::UnsupportedOverlapping,
            MatchErrorKind::UnsupportedEmpty => Error::UnsupportedEmpty,
            _ => Error::Other(error.to_string()),
        }
    }
}

} // verus!
