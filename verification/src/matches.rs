//! Matches as a caller sees them: the text of the pattern, the text that
//! it matched and where, made from what the automaton reports.

use crate::occurrence::{bytes_agree, occurs, pattern_bytes, RawMatch};
use crate::text::{
    lemma_between_boundaries_valid, lemma_occurrence_on_char_boundaries, text_between,
};
use vstd::prelude::*;
use vstd::utf8::{
    decode_utf8, decode_utf8_encode_utf8, encode_utf8, encode_utf8_decode_utf8,
    encode_utf8_valid_utf8, is_char_boundary,
};

verus! {

/// One match of one pattern in a haystack.
#[derive(Debug, Clone, PartialEq, Eq)]
pub struct Match {
    /// The pattern, as it stands in the pattern list.
    pub pattern: String,
    /// The text of the haystack that matched.
    pub match_: String,
    /// The byte offset at which the matched text begins.
    pub start: usize,
    /// The byte offset behind the matched text.
    pub end: usize,
}

/// What a `Match` holds, as plain values.
pub ghost struct MatchModel {
    pub pattern: Seq<char>,
    pub text: Seq<char>,
    pub start: usize,
    pub end: usize,
}

impl View for Match {
    type V = MatchModel;

    open spec fn view(&self) -> MatchModel {
        MatchModel { pattern: self.pattern@, text: self.match_@, start: self.start, end: self.end }
    }
}

impl DeepView for Match {
    type V = MatchModel;

    open spec fn deep_view(&self) -> MatchModel {
        self.view()
    }
}

/// The match that `raw` reports: the pattern with its index, and the text
/// at its range of the haystack.
pub open spec fn described(patterns: Seq<Seq<char>>, haystack: Seq<char>, raw: RawMatch)
    -> MatchModel {
    MatchModel {
        pattern: patterns[raw.pattern as int],
        text: decode_utf8(encode_utf8(haystack).subrange(raw.start as int, raw.end as int)),
        start: raw.start,
        end: raw.end,
    }
}

/// The match that a search for one match reports, if any.
pub open spec fn described_first(
    patterns: Seq<Seq<char>>,
    haystack: Seq<char>,
    raw: Option<RawMatch>,
) -> Option<MatchModel> {
    match raw {
        Some(raw) => Some(described(patterns, haystack, raw)),
        None => None,
    }
}

/// The matches that a search for many reports, in its order.
pub open spec fn described_all(
    patterns: Seq<Seq<char>>,
    haystack: Seq<char>,
    raws: Seq<RawMatch>,
) -> Seq<MatchModel> {
    raws.map_values(|raw: RawMatch| described(patterns, haystack, raw))
}

/// `raw` can be turned into a `Match`: its pattern is in the list, its
/// range lies in the haystack and, unless it is empty, between two
/// character boundaries.
pub open spec fn describable(patterns: Seq<Seq<char>>, haystack: Seq<char>, raw: RawMatch) -> bool {
    &&& raw.pattern < patterns.len()
    &&& raw.start <= raw.end <= encode_utf8(haystack).len()
    &&& raw.start < raw.end ==> is_char_boundary(encode_utf8(haystack), raw.start as int)
        && is_char_boundary(encode_utf8(haystack), raw.end as int)
}

/// `found` is a true match in the haystack: its pattern is in the list,
/// its text is the text at `start..end`, and that text is the pattern, up
/// to the case of ASCII letters if `fold` is set.
pub open spec fn genuine(
    patterns: Seq<Seq<char>>,
    fold: bool,
    haystack: Seq<char>,
    found: MatchModel,
) -> bool {
    &&& patterns.contains(found.pattern)
    &&& found.start <= found.end <= encode_utf8(haystack).len()
    &&& encode_utf8(found.text) == encode_utf8(haystack).subrange(
        found.start as int,
        found.end as int,
    )
    &&& bytes_agree(encode_utf8(found.text), encode_utf8(found.pattern), fold)
}

/// An occurrence can be turned into a `Match`, and that match is genuine.
pub proof fn lemma_occurrence_describable(
    patterns: Seq<Seq<char>>,
    fold: bool,
    haystack: Seq<char>,
    raw: RawMatch,
)
    requires
        occurs(pattern_bytes(patterns), fold, encode_utf8(haystack), raw),
    ensures
        describable(patterns, haystack, raw),
        genuine(patterns, fold, haystack, described(patterns, haystack, raw)),
{
    let bytes = encode_utf8(haystack);
    let pattern = encode_utf8(patterns[raw.pattern as int]);
    let covered = bytes.subrange(raw.start as int, raw.end as int);
    encode_utf8_valid_utf8(haystack);
    encode_utf8_valid_utf8(patterns[raw.pattern as int]);
    assert(pattern_bytes(patterns)[raw.pattern as int] == pattern);
    if raw.start < raw.end {
        lemma_occurrence_on_char_boundaries(
            pattern,
            bytes,
            raw.start as int,
            raw.end as int,
            fold,
        );
        lemma_between_boundaries_valid(bytes, raw.start as int, raw.end as int);
    } else {
        assert(covered =~= Seq::<u8>::empty());
    }
    decode_utf8_encode_utf8(covered);
}

impl Match {
    /// The match that `raw` reports in `haystack` for a pattern of
    /// `patterns`.
    pub fn describe(patterns: &Vec<String>, haystack: &str, raw: RawMatch) -> (found: Match)
        requires
            describable(patterns.deep_view(), haystack@, raw),
        ensures
            found@ == described(patterns.deep_view(), haystack@, raw),
    {
        let text = text_between(haystack, raw.start, raw.end);
        proof {
            encode_utf8_decode_utf8(text@);
        }
        Match { pattern: patterns[raw.pattern].clone(), match_: text, start: raw.start, end: raw.end }
    }

    /// The matches that `raws` report, in their order.
    pub fn describe_all(patterns: &Vec<String>, haystack: &str, raws: &Vec<RawMatch>) -> (found:
        Vec<Match>)
        requires
            forall|i: int|
                0 <= i < raws.len() ==> describable(
                    patterns.deep_view(),
                    haystack@,
                    #[trigger] raws[i],
                ),
        ensures
            found.deep_view() == described_all(patterns.deep_view(), haystack@, raws@),
            found.len() == raws.len(),
            forall|i: int|
                0 <= i < raws.len() ==> (#[trigger] found[i])@ == described(
                    patterns.deep_view(),
                    haystack@,
                    raws[i],
                ),
    {
        let mut found: Vec<Match> = Vec::new();
        let mut at: usize = 0;
        while at < raws.len()
            invariant
                at <= raws.len(),
                forall|i: int|
                    0 <= i < raws.len() ==> describable(
                        patterns.deep_view(),
                        haystack@,
                        #[trigger] raws[i],
                    ),
                found.len() == at,
                forall|i: int|
                    0 <= i < at ==> (#[trigger] found[i])@ == described(
                        patterns.deep_view(),
                        haystack@,
                        raws[i],
                    ),
            decreases raws.len() - at,
        {
            found.push(Match::describe(patterns, haystack, raws[at]));
            at += 1;
        }
        assert(found.deep_view() =~= described_all(patterns.deep_view(), haystack@, raws@));
        found
    }
}

} // verus!
