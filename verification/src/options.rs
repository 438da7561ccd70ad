//! The configuration record of a matcher, and how each of its enumerations
//! is handed to the automaton builder.

use crate::automaton::{
    build_accepts, compiled_options, compiled_patterns, new_automata_with_dense_depth,
    new_automata_without_dense_depth,
};
use crate::occurrence::pattern_bytes;
use aho_corasick::{
    AhoCorasick as AhoCorasickImpl, AhoCorasickKind as AhoCorasickKindImpl, BuildError,
    MatchKind as MatchKindImpl, StartKind as StartKindImpl,
};
use vstd::prelude::*;
use vstd::std_specs::convert::FromSpecImpl;

verus! {

/// `aho_corasick::AhoCorasickKind`, with its variants as that crate
/// declares them, so that the conversion below is verified code.
#[verifier::external_type_specification]
pub struct ExAhoCorasickKind(AhoCorasickKindImpl);

/// `aho_corasick::MatchKind`, with its variants.
#[verifier::external_type_specification]
pub struct ExMatchKind(MatchKindImpl);

/// `aho_corasick::StartKind`, with its variants.
#[verifier::external_type_specification]
pub struct ExStartKind(StartKindImpl);

/// The internal representation of the automaton; the choice trades memory
/// for speed.
#[derive(Debug, Clone, Copy, PartialEq, Eq, Structural)]
pub enum AhoCorasickKind {
    /// Sparse transitions with failure links: least memory, slowest.
    NoncontiguousNFA,
    /// The same automaton laid out in one allocation.
    ContiguousNFA,
    /// A full transition table: fastest, most memory.
    DFA,
}

/// Which match is reported where several patterns match.
#[derive(Debug, Clone, Copy, PartialEq, Eq, Structural)]
pub enum MatchKind {
    /// Matches are reported as the automaton sees them; the only kind that
    /// supports overlapping search.
    Standard,
    /// Among the matches that start leftmost, the pattern that comes first
    /// in the pattern list wins.
    LeftmostFirst,
    /// Among the matches that start leftmost, the longest wins.
    LeftmostLongest,
}

/// Which searches an automaton is compiled for.
#[derive(Debug, Clone, Copy, PartialEq, Eq, Structural)]
pub enum StartKind {
    /// Both anchored and unanchored searches.
    Both,
    /// Only searches that must match at the start of the haystack.
    Anchored,
    /// Only searches that may match anywhere.
    Unanchored,
}

/// The builder's name for a representation.
pub open spec fn kind_impl(kind: AhoCorasickKind) -> AhoCorasickKindImpl {
    match kind {
        AhoCorasickKind::NoncontiguousNFA => AhoCorasickKindImpl::NoncontiguousNFA,
        AhoCorasickKind::ContiguousNFA => AhoCorasickKindImpl::ContiguousNFA,
        AhoCorasickKind::DFA => AhoCorasickKindImpl::DFA,
    }
}

/// The builder's name for a representation, or for the lack of a choice.
pub open spec fn optional_kind_impl(kind: Option<AhoCorasickKind>) -> Option<AhoCorasickKindImpl> {
    match kind {
        Some(own) => Some(kind_impl(own)),
        None => None,
    }
}

impl From<AhoCorasickKind> for AhoCorasickKindImpl {
    #[inline]
    fn from(kind: AhoCorasickKind) -> (out: Self) {
        match kind {
            AhoCorasickKind::NoncontiguousNFA => AhoCorasickKindImpl::NoncontiguousNFA,
            AhoCorasickKind::ContiguousNFA => AhoCorasickKindImpl::ContiguousNFA,
            AhoCorasickKind::DFA => AhoCorasickKindImpl::DFA,
        }
    }
}

impl FromSpecImpl<AhoCorasickKind> for AhoCorasickKindImpl {
    open spec fn obeys_from_spec() -> bool {
        true
    }

    open spec fn from_spec(kind: AhoCorasickKind) -> Self {
        kind_impl(kind)
    }
}

/// The builder's name for a match kind.
pub open spec fn match_kind_impl(kind: MatchKind) -> MatchKindImpl {
    match kind {
        MatchKind::Standard => MatchKindImpl::Standard,
        MatchKind::LeftmostFirst => MatchKindImpl::LeftmostFirst,
        MatchKind::LeftmostLongest => MatchKindImpl::LeftmostLongest,
    }
}

impl From<MatchKind> for MatchKindImpl {
    #[inline]
    fn from(kind: MatchKind) -> (out: Self) {
        match kind {
            MatchKind::Standard => MatchKindImpl::Standard,
            MatchKind::LeftmostFirst => MatchKindImpl::LeftmostFirst,
            MatchKind::LeftmostLongest => MatchKindImpl::LeftmostLongest,
        }
    }
}

impl FromSpecImpl<MatchKind> for MatchKindImpl {
    open spec fn obeys_from_spec() -> bool {
        true
    }

    open spec fn from_spec(kind: MatchKind) -> Self {
        match_kind_impl(kind)
    }
}

/// The builder's name for a start kind.
pub open spec fn start_kind_impl(kind: StartKind) -> StartKindImpl {
    match kind {
        StartKind::Both => StartKindImpl::Both,
        StartKind::Anchored => StartKindImpl::Anchored,
        StartKind::Unanchored => StartKindImpl::Unanchored,
    }
}

impl From<StartKind> for StartKindImpl {
    #[inline]
    fn from(kind: StartKind) -> (out: Self) {
        match kind {
            StartKind::Both => StartKindImpl::Both,
            StartKind::Anchored => StartKindImpl::Anchored,
            StartKind::Unanchored => StartKindImpl::Unanchored,
        }
    }
}

impl FromSpecImpl<StartKind> for StartKindImpl {
    open spec fn obeys_from_spec() -> bool {
        true
    }

    open spec fn from_spec(kind: StartKind) -> Self {
        start_kind_impl(kind)
    }
}

/// The configuration of a matcher.  It is fixed when the matcher is made
/// and used again for every automaton compiled after a change of the
/// pattern list.
#[derive(Debug, Clone, Copy, PartialEq, Eq, Structural)]
pub struct BuilderOptions {
    /// Match the ASCII letters without regard to case.
    pub ascii_case_insensitive: bool,
    /// Compress the alphabet into byte classes (memory only).
    pub byte_classes: bool,
    /// Depth up to which states get a dense transition table; `None` leaves
    /// the choice to the builder.
    pub dense_depth: Option<usize>,
    /// The representation to compile; `None` leaves the choice to the
    /// builder.
    pub aho_corasick_kind: Option<AhoCorasickKind>,
    /// The match semantics.
    pub match_kind: MatchKind,
    /// Let the automaton skip ahead with a prefilter (speed only).
    pub prefilter: bool,
    /// The searches to compile for.
    pub start_kind: StartKind,
}

impl BuilderOptions {
    /// Compiles an automaton from `patterns` with these options.
    ///
    /// Whether the builder accepts the patterns is its own decision; an
    /// automaton that it hands out was compiled from exactly these patterns
    /// and options.
    #[inline]
    pub(crate) fn build(&self, patterns: &Vec<String>) -> (built: Result<
        AhoCorasickImpl,
        BuildError,
    >)
        ensures
            built is Ok <==> build_accepts(*self, pattern_bytes(patterns.deep_view())),
            built matches Ok(automaton) ==> compiled_patterns(automaton) == pattern_bytes(
                patterns.deep_view(),
            ) && compiled_options(automaton) == *self,
    {
        let kind = match self.aho_corasick_kind {
            Some(own) => Some(AhoCorasickKindImpl::from(own)),
            None => None,
        };
        let match_kind = MatchKindImpl::from(self.match_kind);
        let start_kind = StartKindImpl::from(self.start_kind);
        match self.dense_depth {
            Some(dense_depth) => new_automata_with_dense_depth(
                self,
                kind,
                match_kind,
                start_kind,
                patterns,
                dense_depth,
            ),
            None => new_automata_without_dense_depth(self, kind, match_kind, start_kind, patterns),
        }
    }
}

} // verus!
