//! The automaton of the `aho-corasick` crate, and everything that this
//! crate takes on trust about it.
//!
//! Nothing in this module is proved.  Each contract below restates, over
//! the byte-level notions of the module `occurrence`, what the outside
//! crate documents for the function that the item calls.

use crate::occurrence::{
    begins_with, is_every_occurrence, is_first_match, is_successive, occurs_anywhere, pattern_bytes,
    substituted, RawMatch,
};
use crate::options::{match_kind_impl, optional_kind_impl, start_kind_impl, BuilderOptions};
use aho_corasick::{
    AhoCorasick as AhoCorasickImpl, AhoCorasickKind as AhoCorasickKindImpl, BuildError,
    MatchError, MatchErrorKind, MatchKind as MatchKindImpl, StartKind as StartKindImpl,
};
use vstd::prelude::*;
use vstd::utf8::encode_utf8;

verus! {

/// `aho_corasick::AhoCorasick`, the compiled automaton; nothing inside it
/// is visible here.
#[verifier::external_type_specification]
#[verifier::external_body]
pub struct ExAutomaton(AhoCorasickImpl);

/// `aho_corasick::BuildError`; nothing inside it is visible here.
#[verifier::external_type_specification]
#[verifier::external_body]
pub struct ExBuildError(BuildError);

/// `aho_corasick::MatchError`; nothing inside it is visible here.
#[verifier::external_type_specification]
#[verifier::external_body]
pub struct ExMatchError(MatchError);

/// `aho_corasick::MatchErrorKind`, with its variants as that crate
/// declares them.
#[verifier::external_type_specification]
pub struct ExMatchErrorKind(MatchErrorKind);

/// The byte strings that an automaton was compiled from, in the order in
/// which they were given; a match names a pattern by its index here.
pub uninterp spec fn compiled_patterns(automaton: AhoCorasickImpl) -> Seq<Seq<u8>>;

/// The configuration that an automaton was compiled with.
pub uninterp spec fn compiled_options(automaton: AhoCorasickImpl) -> BuilderOptions;

/// Whether the builder compiles these patterns under this configuration.
/// It refuses a pattern list that exceeds one of its size limits, which it
/// does not publish.
pub uninterp spec fn build_accepts(options: BuilderOptions, patterns: Seq<Seq<u8>>) -> bool;

/// The match that an unanchored search for one match reports.
pub uninterp spec fn first_match(
    options: BuilderOptions,
    patterns: Seq<Seq<u8>>,
    haystack: Seq<u8>,
) -> Option<RawMatch>;

/// The matches that the iterator over non-overlapping matches yields, in
/// the order in which it yields them.
pub uninterp spec fn successive_matches(
    options: BuilderOptions,
    patterns: Seq<Seq<u8>>,
    haystack: Seq<u8>,
) -> Seq<RawMatch>;

/// The matches that the iterator over overlapping matches yields, in the
/// order in which it yields them.
pub uninterp spec fn overlapping_matches(
    options: BuilderOptions,
    patterns: Seq<Seq<u8>>,
    haystack: Seq<u8>,
) -> Seq<RawMatch>;

/// The kind that a search error carries.
pub uninterp spec fn error_kind(error: MatchError) -> MatchErrorKind;

/// `MatchError::kind` hands out the kind that the error carries.
pub assume_specification[ MatchError::kind ](error: &MatchError) -> (kind: &MatchErrorKind)
    ensures
        *kind == error_kind(*error),
;

/// `AhoCorasickBuilder::build`, after every setting of `options` has been
/// handed to the builder, `dense_depth` among them.  The automaton that
/// comes back was compiled from the given patterns with the given options;
/// whether one comes back is up to the builder.
#[verifier::external_body]
pub(crate) fn new_automata_with_dense_depth(
    options: &BuilderOptions,
    kind: Option<AhoCorasickKindImpl>,
    match_kind: MatchKindImpl,
    start_kind: StartKindImpl,
    patterns: &Vec<String>,
    dense_depth: usize,
) -> (built: Result<AhoCorasickImpl, BuildError>)
    requires
        options.dense_depth == Some(dense_depth),
        kind == optional_kind_impl(options.aho_corasick_kind),
        match_kind == match_kind_impl(options.match_kind),
        start_kind == start_kind_impl(options.start_kind),
    ensures
        built is Ok <==> build_accepts(*options, pattern_bytes(patterns.deep_view())),
        built matches Ok(automaton) ==> compiled_patterns(automaton) == pattern_bytes(
            patterns.deep_view(),
        ) && compiled_options(automaton) == *options,
{
    AhoCorasickImpl::builder()
        .ascii_case_insensitive(options.ascii_case_insensitive)
        .byte_classes(options.byte_classes)
        .dense_depth(dense_depth)
        .kind(kind)
        .match_kind(match_kind)
        .prefilter(options.prefilter)
        .start_kind(start_kind)
        .build(patterns)
}

/// `AhoCorasickBuilder::build`, after every setting of `options` but the
/// dense depth has been handed to the builder, which then keeps its own
/// depth.  The claims are those of `new_automata_with_dense_depth`.
#[verifier::external_body]
pub(crate) fn new_automata_without_dense_depth(
    options: &BuilderOptions,
    kind: Option<AhoCorasickKindImpl>,
    match_kind: MatchKindImpl,
    start_kind: StartKindImpl,
    patterns: &Vec<String>,
) -> (built: Result<AhoCorasickImpl, BuildError>)
    requires
        options.dense_depth is None,
        kind == optional_kind_impl(options.aho_corasick_kind),
        match_kind == match_kind_impl(options.match_kind),
        start_kind == start_kind_impl(options.start_kind),
    ensures
        built is Ok <==> build_accepts(*options, pattern_bytes(patterns.deep_view())),
        built matches Ok(automaton) ==> compiled_patterns(automaton) == pattern_bytes(
            patterns.deep_view(),
        ) && compiled_options(automaton) == *options,
{
    AhoCorasickImpl::builder()
        .ascii_case_insensitive(options.ascii_case_insensitive)
        .byte_classes(options.byte_classes)
        .kind(kind)
        .match_kind(match_kind)
        .prefilter(options.prefilter)
        .start_kind(start_kind)
        .build(patterns)
}

/// `AhoCorasick::try_find` on the whole haystack, unanchored.  It fails
/// exactly on an automaton compiled for anchored searches only.  Otherwise
/// the match is an occurrence of its pattern, and there is none only if no
/// pattern occurs.  Under standard semantics it is an occurrence that ends
/// first.  Under a leftmost kind, and with no empty pattern in the list, it
/// is the occurrence that the kind prefers to every other; with the empty
/// pattern in the list the automaton may pass over earlier matches, and
/// nothing is claimed of the choice.
#[verifier::external_body]
pub(crate) fn try_find(automaton: &AhoCorasickImpl, haystack: &str) -> (found: Result<
    Option<RawMatch>,
    MatchError,
>)
    ensures
        found is Err <==> compiled_options(*automaton).start_kind is Anchored,
        found matches Err(error) ==> error_kind(error) is InvalidInputUnanchored,
        found matches Ok(first) ==> first == first_match(
            compiled_options(*automaton),
            compiled_patterns(*automaton),
            encode_utf8(haystack@),
        ) && is_first_match(
            compiled_patterns(*automaton),
            compiled_options(*automaton).ascii_case_insensitive,
            compiled_options(*automaton).match_kind,
            encode_utf8(haystack@),
            first,
        ),
{
    let found = automaton.try_find(haystack)?;
    Ok(found.map(|m| RawMatch { pattern: m.pattern().as_usize(), start: m.start(), end: m.end() }))
}

/// `AhoCorasick::try_find_iter` on the whole haystack, unanchored, run to
/// its end.  It fails exactly on an automaton compiled for anchored
/// searches only.  Otherwise its first match is the one that `try_find`
/// reports, each match is an occurrence of its pattern, and each begins
/// after the start of the one before it and not before its end.
#[verifier::external_body]
pub(crate) fn try_find_iter(automaton: &AhoCorasickImpl, haystack: &str) -> (found: Result<
    Vec<RawMatch>,
    MatchError,
>)
    ensures
        found is Err <==> compiled_options(*automaton).start_kind is Anchored,
        found matches Err(error) ==> error_kind(error) is InvalidInputUnanchored,
        found matches Ok(all) ==> all@ == successive_matches(
            compiled_options(*automaton),
            compiled_patterns(*automaton),
            encode_utf8(haystack@),
        ) && begins_with(
            all@,
            first_match(
                compiled_options(*automaton),
                compiled_patterns(*automaton),
                encode_utf8(haystack@),
            ),
        ) && is_successive(
            compiled_patterns(*automaton),
            compiled_options(*automaton).ascii_case_insensitive,
            encode_utf8(haystack@),
            all@,
        ),
{
    let found = automaton.try_find_iter(haystack)?;
    Ok(found.map(|m| RawMatch { pattern: m.pattern().as_usize(), start: m.start(), end: m.end() })
        .collect())
}

/// `AhoCorasick::try_find_overlapping_iter` on the whole haystack,
/// unanchored, run to its end.  It fails on an automaton compiled for
/// anchored searches only and, that checked, on one whose match kind is not
/// the standard one.  Otherwise it yields every occurrence of every pattern
/// and nothing else; with the empty pattern in the list it may yield one
/// twice.
#[verifier::external_body]
pub(crate) fn try_find_overlapping_iter(automaton: &AhoCorasickImpl, haystack: &str) -> (found:
    Result<Vec<RawMatch>, MatchError>)
    ensures
        found is Err <==> compiled_options(*automaton).start_kind is Anchored || !(
        compiled_options(*automaton).match_kind is Standard),
        found matches Err(error) ==> if compiled_options(*automaton).start_kind is Anchored {
            error_kind(error) is InvalidInputUnanchored
        } else {
            error_kind(error) is UnsupportedOverlapping
        },
        found matches Ok(all) ==> all@ == overlapping_matches(
            compiled_options(*automaton),
            compiled_patterns(*automaton),
            encode_utf8(haystack@),
        ) && is_every_occurrence(
            compiled_patterns(*automaton),
            compiled_options(*automaton).ascii_case_insensitive,
            encode_utf8(haystack@),
            all@,
        ),
{
    let found = automaton.try_find_overlapping_iter(haystack)?;
    Ok(found.map(|m| RawMatch { pattern: m.pattern().as_usize(), start: m.start(), end: m.end() })
        .collect())
}

/// `AhoCorasick::is_match` on the whole haystack.  It panics where an
/// unanchored search is not supported, so such an automaton is left out.
/// It tells whether any pattern occurs anywhere.
#[verifier::external_body]
pub(crate) fn is_match(automaton: &AhoCorasickImpl, haystack: &str) -> (hit: bool)
    requires
        !(compiled_options(*automaton).start_kind is Anchored),
    ensures
        hit == occurs_anywhere(
            compiled_patterns(*automaton),
            compiled_options(*automaton).ascii_case_insensitive,
            encode_utf8(haystack@),
        ),
{
    automaton.is_match(haystack)
}

/// `AhoCorasick::try_replace_all`.  It panics unless there is one
/// replacement for each pattern, and fails exactly on an automaton compiled
/// for anchored searches only.  Otherwise it walks the matches of
/// `try_find_iter`, passes over a match that does not lie on character
/// boundaries, and writes the replacement of its pattern for each other
/// match and the haystack's own text in between.
#[verifier::external_body]
pub(crate) fn try_replace_all(
    automaton: &AhoCorasickImpl,
    haystack: &str,
    replace_with: &Vec<String>,
) -> (replaced: Result<String, MatchError>)
    requires
        replace_with.len() == compiled_patterns(*automaton).len(),
    ensures
        replaced is Err <==> compiled_options(*automaton).start_kind is Anchored,
        replaced matches Err(error) ==> error_kind(error) is InvalidInputUnanchored,
        replaced matches Ok(text) ==> encode_utf8(text@) == substituted(
            encode_utf8(haystack@),
            successive_matches(
                compiled_options(*automaton),
                compiled_patterns(*automaton),
                encode_utf8(haystack@),
            ),
            pattern_bytes(replace_with.deep_view()),
        ) && is_successive(
            compiled_patterns(*automaton),
            compiled_options(*automaton).ascii_case_insensitive,
            encode_utf8(haystack@),
            successive_matches(
                compiled_options(*automaton),
                compiled_patterns(*automaton),
                encode_utf8(haystack@),
            ),
        ),
{
    automaton.try_replace_all(haystack, replace_with)
}

} // verus!
