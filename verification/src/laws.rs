//! Laws that relate the operations of a matcher to one another.
//!
//! Each law takes the results of the calls that it speaks of and asks only
//! that they are results of those calls, in the words of the predicates
//! that the operations ensure.

use crate::automaton::{overlapping_matches, successive_matches};
use crate::error::Error;
use crate::matcher::AhoCorasick;
use crate::matches::{described, described_all, Match};
use crate::occurrence::{
    bytes_agree, fold_ascii, is_first_match, is_successive, occurs, occurs_anywhere,
    on_char_boundaries, substituted_from, RawMatch,
};
use crate::options::MatchKind;
use crate::store::{lemma_united_same, lemma_without_same, united, without};
use vstd::prelude::*;
use vstd::utf8::{encode_utf8, encode_utf8_decode_utf8};

verus! {

/// The matches of `find_all` come from left to right and do not overlap:
/// each begins after the start of the one before it and not before its
/// end.
pub proof fn lemma_find_all_in_order(
    matcher: AhoCorasick,
    haystack: Seq<char>,
    found: Result<Vec<Match>, Error>,
)
    requires
        matcher.finds_all(haystack, found),
        found is Ok,
    ensures
        forall|i: int|
            0 <= i < found->Ok_0.len() - 1 ==> (#[trigger] found->Ok_0[i]).start < found->Ok_0[i
                + 1].start && found->Ok_0[i].end <= found->Ok_0[i + 1].start,
{
    let all = found->Ok_0;
    let raws = successive_matches(
        matcher.settings(),
        matcher.pattern_list_bytes(),
        encode_utf8(haystack),
    );
    let models = described_all(matcher.pattern_list(), haystack, raws);
    assert(all.deep_view().len() == all.len());
    assert(models.len() == raws.len());
    assert forall|i: int| 0 <= i < all.len() - 1 implies (#[trigger] all[i]).start < all[i
        + 1].start && all[i].end <= all[i + 1].start by {
        assert(all.deep_view()[i] == all[i]@);
        assert(all.deep_view()[i + 1] == all[i + 1]@);
        assert(models[i] == described(matcher.pattern_list(), haystack, raws[i]));
        assert(models[i + 1] == described(matcher.pattern_list(), haystack, raws[i + 1]));
        assert(raws[i].start < raws[i + 1].start);
    }
}

/// Under a leftmost match kind, and with no empty pattern in the list, the
/// first match is settled by the patterns, their order and the haystack
/// alone: there is one correct answer, whatever the representation of the
/// automaton.
pub proof fn lemma_leftmost_first_match_is_unique(
    patterns: Seq<Seq<u8>>,
    fold: bool,
    kind: MatchKind,
    haystack: Seq<u8>,
    one: Option<RawMatch>,
    other: Option<RawMatch>,
)
    requires
        !(kind is Standard),
        !patterns.contains(Seq::<u8>::empty()),
        is_first_match(patterns, fold, kind, haystack, one),
        is_first_match(patterns, fold, kind, haystack, other),
    ensures
        one == other,
{
    if one is Some && other is Some {
        let a = one->0;
        let b = other->0;
        assert(occurs(patterns, fold, haystack, a));
        assert(occurs(patterns, fold, haystack, b));
        assert(a.end - a.start == patterns[a.pattern as int].len());
        assert(b.end - b.start == patterns[b.pattern as int].len());
    }
}

/// `find_all` begins with the match of `find_first`, and finds nothing
/// exactly where `find_first` finds nothing.
pub proof fn lemma_find_all_begins_with_first_match(
    matcher: AhoCorasick,
    haystack: Seq<char>,
    first: Result<Option<Match>, Error>,
    found: Result<Vec<Match>, Error>,
)
    requires
        matcher.finds_first(haystack, first),
        matcher.finds_all(haystack, found),
    ensures
        first is Ok <==> found is Ok,
        first is Err ==> first->Err_0 == found->Err_0,
        first matches Ok(Some(one)) ==> found->Ok_0.len() > 0 && found->Ok_0[0]@ == one@,
        first matches Ok(None) ==> found->Ok_0.len() == 0,
{
    if first is Ok {
        let all = found->Ok_0;
        let raws = successive_matches(
            matcher.settings(),
            matcher.pattern_list_bytes(),
            encode_utf8(haystack),
        );
        let models = described_all(matcher.pattern_list(), haystack, raws);
        assert(all.deep_view().len() == all.len());
        assert(models.len() == raws.len());
        if all.len() > 0 {
            assert(all.deep_view()[0] == all[0]@);
            assert(models[0] == described(matcher.pattern_list(), haystack, raws[0]));
        }
    }
}

/// Every match of `find_all` is among the matches of
/// `find_all_overlapping`, where both searches succeed.
pub proof fn lemma_overlapping_holds_every_successive_match(
    matcher: AhoCorasick,
    haystack: Seq<char>,
    successive: Result<Vec<Match>, Error>,
    overlapping: Result<Vec<Match>, Error>,
)
    requires
        matcher.finds_all(haystack, successive),
        matcher.finds_all_overlapping(haystack, overlapping),
        successive is Ok,
        overlapping is Ok,
    ensures
        forall|i: int|
            0 <= i < successive->Ok_0.len() ==> overlapping->Ok_0.deep_view().contains(
                #[trigger] successive->Ok_0.deep_view()[i],
            ),
{
    let one = successive->Ok_0;
    let every = overlapping->Ok_0;
    let one_raw = successive_matches(
        matcher.settings(),
        matcher.pattern_list_bytes(),
        encode_utf8(haystack),
    );
    let every_raw = overlapping_matches(
        matcher.settings(),
        matcher.pattern_list_bytes(),
        encode_utf8(haystack),
    );
    let one_models = described_all(matcher.pattern_list(), haystack, one_raw);
    let every_models = described_all(matcher.pattern_list(), haystack, every_raw);
    assert(one.deep_view().len() == one.len());
    assert(every.deep_view().len() == every.len());
    assert(one_models.len() == one_raw.len());
    assert(every_models.len() == every_raw.len());
    assert forall|i: int| 0 <= i < one.len() implies every.deep_view().contains(
        #[trigger] one.deep_view()[i],
    ) by {
        assert(one_models[i] == described(matcher.pattern_list(), haystack, one_raw[i]));
        assert(occurs(
            matcher.pattern_list_bytes(),
            matcher.settings().ascii_case_insensitive,
            encode_utf8(haystack),
            one_raw[i],
        ));
        assert(every_raw.contains(one_raw[i]));
        let j = choose|j: int| 0 <= j < every_raw.len() && every_raw[j] == one_raw[i];
        assert(every_models[j] == described(matcher.pattern_list(), haystack, every_raw[j]));
        assert(every.deep_view()[j] == one.deep_view()[i]);
    }
}

/// `is_match` tells exactly whether `find_first` finds a match, and is
/// refused where `find_first` is.
pub proof fn lemma_is_match_iff_first_match(
    matcher: AhoCorasick,
    haystack: Seq<char>,
    first: Result<Option<Match>, Error>,
    hit: Result<bool, Error>,
)
    requires
        matcher.finds_first(haystack, first),
        matcher.tells_match(haystack, hit),
    ensures
        first is Ok <==> hit is Ok,
        first is Ok ==> hit->Ok_0 == (first->Ok_0 is Some),
        first is Err ==> first->Err_0 == hit->Err_0,
{
}

/// Adding patterns that are all in the list already succeeds and leaves
/// the matcher as it was.
pub proof fn lemma_adding_present_patterns_changes_nothing(
    matcher: AhoCorasick,
    patterns: Seq<Seq<char>>,
    after: AhoCorasick,
    done: Result<(), Error>,
)
    requires
        forall|i: int|
            0 <= i < patterns.len() ==> matcher.pattern_list().contains(#[trigger] patterns[i]),
        matcher.changes_to(united(matcher.pattern_list(), patterns), after, done),
    ensures
        done is Ok,
        after == matcher,
{
    lemma_united_same(matcher.pattern_list(), patterns);
}

/// Removing patterns of which none is in the list, and so removing no
/// patterns at all, succeeds and leaves the matcher as it was.
pub proof fn lemma_removing_absent_patterns_changes_nothing(
    matcher: AhoCorasick,
    patterns: Seq<Seq<char>>,
    after: AhoCorasick,
    done: Result<(), Error>,
)
    requires
        forall|i: int|
            0 <= i < patterns.len() ==> !matcher.pattern_list().contains(#[trigger] patterns[i]),
        matcher.changes_to(without(matcher.pattern_list(), patterns), after, done),
    ensures
        done is Ok,
        after == matcher,
{
    lemma_without_same(matcher.pattern_list(), patterns);
    assert forall|i: int| 0 <= i < matcher.pattern_list().len() implies !patterns.contains(
        #[trigger] matcher.pattern_list()[i],
    ) by {
        if patterns.contains(matcher.pattern_list()[i]) {
            let at = choose|k: int|
                0 <= k < patterns.len() && patterns[k] == matcher.pattern_list()[i];
            assert(matcher.pattern_list().contains(patterns[at]));
        }
    }
}

/// Writing for each match the very pattern that matched restores the
/// haystack, where case is not ignored.
pub proof fn lemma_substituting_patterns_restores(
    haystack: Seq<u8>,
    patterns: Seq<Seq<u8>>,
    found: Seq<RawMatch>,
    next: int,
    from: int,
)
    requires
        is_successive(patterns, false, haystack, found),
        0 <= next <= found.len(),
        0 <= from <= haystack.len(),
        next < found.len() ==> from <= found[next].start,
    ensures
        substituted_from(haystack, found, patterns, next, from) == haystack.subrange(
            from,
            haystack.len() as int,
        ),
    decreases found.len() - next,
{
    if next < found.len() {
        let current = found[next];
        assert(occurs(patterns, false, haystack, current));
        if !on_char_boundaries(haystack, current) {
            lemma_substituting_patterns_restores(haystack, patterns, found, next + 1, from);
        } else {
            lemma_substituting_patterns_restores(
                haystack,
                patterns,
                found,
                next + 1,
                current.end as int,
            );
            assert(patterns[current.pattern as int] =~= haystack.subrange(
                current.start as int,
                current.end as int,
            ));
            assert(haystack.subrange(from, current.start as int) + haystack.subrange(
                current.start as int,
                current.end as int,
            ) + haystack.subrange(current.end as int, haystack.len() as int)
                =~= haystack.subrange(from, haystack.len() as int));
        }
    }
}

/// `replace_all` with each pattern as its own replacement returns the
/// haystack unchanged, on a matcher that does not ignore case and does not
/// refuse the search.
pub proof fn lemma_replacing_by_patterns_restores(
    matcher: AhoCorasick,
    haystack: Seq<char>,
    replaced: Result<String, Error>,
)
    requires
        !matcher.settings().ascii_case_insensitive,
        !(matcher.settings().start_kind is Anchored),
        matcher.replaces(haystack, matcher.pattern_list(), replaced),
    ensures
        replaced is Ok,
        replaced->Ok_0@ == haystack,
{
    let bytes = encode_utf8(haystack);
    let raws = successive_matches(
        matcher.settings(),
        matcher.pattern_list_bytes(),
        bytes,
    );
    lemma_substituting_patterns_restores(bytes, matcher.pattern_list_bytes(), raws, 0, 0);
    assert(bytes.subrange(0, bytes.len() as int) =~= bytes);
    encode_utf8_decode_utf8(replaced->Ok_0@);
    encode_utf8_decode_utf8(haystack);
}

/// A pattern occurs in one of two haystacks that differ in the case of
/// ASCII letters only exactly where it occurs in the other, if case is
/// ignored.
pub proof fn lemma_occurrence_ignores_case(
    patterns: Seq<Seq<u8>>,
    left: Seq<u8>,
    right: Seq<u8>,
    found: RawMatch,
)
    requires
        bytes_agree(left, right, true),
        occurs(patterns, true, left, found),
    ensures
        occurs(patterns, true, right, found),
{
    let covered_left = left.subrange(found.start as int, found.end as int);
    let covered_right = right.subrange(found.start as int, found.end as int);
    assert forall|i: int| 0 <= i < covered_right.len() implies fold_ascii(
        #[trigger] covered_right[i],
    ) == fold_ascii(patterns[found.pattern as int][i]) by {
        assert(covered_left[i] == left[found.start + i]);
        assert(covered_right[i] == right[found.start + i]);
    }
}

/// On a matcher that ignores case, `is_match` gives the same answer for
/// two haystacks that differ in the case of ASCII letters only.
pub proof fn lemma_is_match_ignores_case(
    matcher: AhoCorasick,
    left: Seq<char>,
    right: Seq<char>,
    hit_left: Result<bool, Error>,
    hit_right: Result<bool, Error>,
)
    requires
        matcher.settings().ascii_case_insensitive,
        bytes_agree(encode_utf8(left), encode_utf8(right), true),
        matcher.tells_match(left, hit_left),
        matcher.tells_match(right, hit_right),
    ensures
        hit_left == hit_right,
{
    let patterns = matcher.pattern_list_bytes();
    if occurs_anywhere(patterns, true, encode_utf8(left)) {
        let found = choose|found: RawMatch| occurs(patterns, true, encode_utf8(left), found);
        lemma_occurrence_ignores_case(patterns, encode_utf8(left), encode_utf8(right), found);
    }
    if occurs_anywhere(patterns, true, encode_utf8(right)) {
        let found = choose|found: RawMatch| occurs(patterns, true, encode_utf8(right), found);
        assert(bytes_agree(encode_utf8(right), encode_utf8(left), true));
        lemma_occurrence_ignores_case(patterns, encode_utf8(right), encode_utf8(left), found);
    }
}

/// A search depends on the matcher and the haystack alone: two searches
/// for all matches, both overlapping or both not, in one haystack and with
/// no change of the matcher between them, report the same matches.
pub proof fn lemma_same_haystack_same_matches(
    matcher: AhoCorasick,
    haystack: Seq<char>,
    once: Result<Vec<Match>, Error>,
    again: Result<Vec<Match>, Error>,
)
    requires
        matcher.finds_all(haystack, once) && matcher.finds_all(haystack, again)
            || matcher.finds_all_overlapping(haystack, once) && matcher.finds_all_overlapping(
            haystack,
            again,
        ),
    ensures
        once is Ok <==> again is Ok,
        once is Ok ==> once->Ok_0.deep_view() == again->Ok_0.deep_view(),
        once is Err ==> once->Err_0 == again->Err_0,
{
}

/// Two searches for the first match in one haystack, with no change of the
/// matcher between them, report the same match, and `is_match` gives the
/// same answer twice.
pub proof fn lemma_same_haystack_same_first_match(
    matcher: AhoCorasick,
    haystack: Seq<char>,
    once: Result<Option<Match>, Error>,
    again: Result<Option<Match>, Error>,
    hit_once: Result<bool, Error>,
    hit_again: Result<bool, Error>,
)
    requires
        matcher.finds_first(haystack, once),
        matcher.finds_first(haystack, again),
        matcher.tells_match(haystack, hit_once),
        matcher.tells_match(haystack, hit_again),
    ensures
        once is Ok <==> again is Ok,
        once is Ok ==> once->Ok_0.deep_view() == again->Ok_0.deep_view(),
        once is Err ==> once->Err_0 == again->Err_0,
        hit_once == hit_again,
{
}

/// Two replacements in one haystack with the same replacements, with no
/// change of the matcher between them, give the same text.
pub proof fn lemma_same_haystack_same_replacement(
    matcher: AhoCorasick,
    haystack: Seq<char>,
    replacements: Seq<Seq<char>>,
    once: Result<String, Error>,
    again: Result<String, Error>,
)
    requires
        matcher.replaces(haystack, replacements, once),
        matcher.replaces(haystack, replacements, again),
    ensures
        once is Ok <==> again is Ok,
        once is Ok ==> once->Ok_0@ == again->Ok_0@,
        once is Err ==> once->Err_0 == again->Err_0,
{
    if once is Ok {
        encode_utf8_decode_utf8(once->Ok_0@);
        encode_utf8_decode_utf8(again->Ok_0@);
    }
}

} // verus!
