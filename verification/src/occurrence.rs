//! What it means for a pattern to occur in a haystack, stated over bytes.
//!
//! Patterns and haystacks are strings; the automaton reads their UTF-8
//! bytes, and every offset in this crate counts bytes.

use crate::options::MatchKind;
use vstd::prelude::*;
use vstd::utf8::{encode_utf8, is_char_boundary};

verus! {

/// A match as the automaton reports it: the index of the pattern in the
/// pattern list and the byte range of the haystack that it covers.
#[derive(Debug, Clone, Copy, PartialEq, Eq, Structural)]
pub struct RawMatch {
    pub pattern: usize,
    pub start: usize,
    pub end: usize,
}

/// The byte with an ASCII capital letter replaced by its small letter.
pub open spec fn fold_ascii(byte: u8) -> u8 {
    if 0x41 <= byte <= 0x5a {
        (byte + 0x20) as u8
    } else {
        byte
    }
}

/// Two byte strings are equal, up to the case of ASCII letters if `fold`
/// is set.
pub open spec fn bytes_agree(left: Seq<u8>, right: Seq<u8>, fold: bool) -> bool {
    &&& left.len() == right.len()
    &&& forall|i: int|
        0 <= i < left.len() ==> if fold {
            fold_ascii(#[trigger] left[i]) == fold_ascii(right[i])
        } else {
            left[i] == right[i]
        }
}

/// The UTF-8 bytes of each pattern of a list.
pub open spec fn pattern_bytes(patterns: Seq<Seq<char>>) -> Seq<Seq<u8>> {
    patterns.map_values(|pattern: Seq<char>| encode_utf8(pattern))
}

/// Pattern `found.pattern` stands in the haystack at `found.start..found.end`.
pub open spec fn occurs(
    patterns: Seq<Seq<u8>>,
    fold: bool,
    haystack: Seq<u8>,
    found: RawMatch,
) -> bool {
    &&& found.pattern < patterns.len()
    &&& found.start <= found.end <= haystack.len()
    &&& bytes_agree(
        haystack.subrange(found.start as int, found.end as int),
        patterns[found.pattern as int],
        fold,
    )
}

/// Some pattern occurs somewhere in the haystack.
pub open spec fn occurs_anywhere(patterns: Seq<Seq<u8>>, fold: bool, haystack: Seq<u8>) -> bool {
    exists|found: RawMatch| occurs(patterns, fold, haystack, found)
}

/// Under `kind`, a search for one match reports `chosen` rather than
/// `other`, or the kind leaves the choice between the two open.
///
/// Standard semantics report the match that ends first.  The leftmost kinds
/// report a match that starts first; among those, leftmost-first takes the
/// pattern that stands first in the list, leftmost-longest the longest
/// match and, of two equally long, the pattern that stands first.
pub open spec fn preferred(kind: MatchKind, chosen: RawMatch, other: RawMatch) -> bool {
    match kind {
        MatchKind::Standard => chosen.end <= other.end,
        MatchKind::LeftmostFirst => chosen.start < other.start || (chosen.start == other.start
            && chosen.pattern <= other.pattern),
        MatchKind::LeftmostLongest => chosen.start < other.start || (chosen.start == other.start
            && (chosen.end > other.end || (chosen.end == other.end && chosen.pattern
            <= other.pattern))),
    }
}

/// The match kind settles which occurrence a search for one match
/// reports.  Under a leftmost kind it does so only where the empty pattern
/// is not in the list: the empty pattern matches at every offset, and the
/// automaton then passes over matches that start before the one it
/// reports.
pub open spec fn kind_settles(patterns: Seq<Seq<u8>>, kind: MatchKind) -> bool {
    kind is Standard || !patterns.contains(Seq::<u8>::empty())
}

/// `found` is a correct answer to a search for the first match: nothing if
/// no pattern occurs, else an occurrence and, where the match kind settles
/// the choice, one that it prefers to every other.
pub open spec fn is_first_match(
    patterns: Seq<Seq<u8>>,
    fold: bool,
    kind: MatchKind,
    haystack: Seq<u8>,
    found: Option<RawMatch>,
) -> bool {
    match found {
        Some(chosen) => {
            &&& occurs(patterns, fold, haystack, chosen)
            &&& kind_settles(patterns, kind) ==> forall|other: RawMatch| #[trigger]
                occurs(patterns, fold, haystack, other) ==> preferred(kind, chosen, other)
        },
        None => !occurs_anywhere(patterns, fold, haystack),
    }
}

/// Each match is an occurrence, and each begins after the start of the one
/// before it and not before its end.
pub open spec fn is_successive(
    patterns: Seq<Seq<u8>>,
    fold: bool,
    haystack: Seq<u8>,
    found: Seq<RawMatch>,
) -> bool {
    &&& forall|i: int| 0 <= i < found.len() ==> occurs(patterns, fold, haystack, #[trigger] found[i])
    &&& forall|i: int|
        0 <= i < found.len() - 1 ==> (#[trigger] found[i]).start < found[i + 1].start
            && found[i].end <= found[i + 1].start
}

/// The matches begin with `first`, or there is none if `first` is none.
pub open spec fn begins_with(found: Seq<RawMatch>, first: Option<RawMatch>) -> bool {
    match first {
        Some(first) => found.len() > 0 && found[0] == first,
        None => found.len() == 0,
    }
}

/// The matches are exactly the occurrences: each is one, and none is
/// missing.  (One may come twice.)
pub open spec fn is_every_occurrence(
    patterns: Seq<Seq<u8>>,
    fold: bool,
    haystack: Seq<u8>,
    found: Seq<RawMatch>,
) -> bool {
    &&& forall|i: int| 0 <= i < found.len() ==> occurs(patterns, fold, haystack, #[trigger] found[i])
    &&& forall|other: RawMatch| #[trigger]
        occurs(patterns, fold, haystack, other) ==> found.contains(other)
}

/// Both ends of the match fall between characters of the haystack, so
/// that the text around it and the text it covers are strings.
pub open spec fn on_char_boundaries(haystack: Seq<u8>, found: RawMatch) -> bool {
    &&& is_char_boundary(haystack, found.start as int)
    &&& is_char_boundary(haystack, found.end as int)
}

/// The haystack from byte `from` on, with each of the matches
/// `found[next..]` that lies on character boundaries replaced by the
/// replacement of its pattern, and everything else copied.
pub open spec fn substituted_from(
    haystack: Seq<u8>,
    found: Seq<RawMatch>,
    replacements: Seq<Seq<u8>>,
    next: int,
    from: int,
) -> Seq<u8>
    decreases found.len() - next,
{
    if next < 0 || next >= found.len() {
        haystack.subrange(from, haystack.len() as int)
    } else if !on_char_boundaries(haystack, found[next]) {
        substituted_from(haystack, found, replacements, next + 1, from)
    } else {
        haystack.subrange(from, found[next].start as int)
            + replacements[found[next].pattern as int]
            + substituted_from(haystack, found, replacements, next + 1, found[next].end as int)
    }
}

/// The haystack with the matches replaced, unmatched spans copied.
pub open spec fn substituted(
    haystack: Seq<u8>,
    found: Seq<RawMatch>,
    replacements: Seq<Seq<u8>>,
) -> Seq<u8> {
    substituted_from(haystack, found, replacements, 0, 0)
}

} // verus!
