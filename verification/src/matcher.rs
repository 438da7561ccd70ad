//! The matcher: a pattern list, the automaton compiled from it, and the
//! options that both were made with.

use crate::automaton::{
    build_accepts, compiled_options, compiled_patterns, first_match, is_match,
    overlapping_matches, successive_matches, try_find, try_find_iter, try_find_overlapping_iter,
    try_replace_all,
};
use crate::error::Error;
use crate::matches::{
    describable, described, described_all, described_first, genuine,
    lemma_occurrence_describable, Match,
};
use crate::occurrence::{
    begins_with, is_every_occurrence, is_first_match, is_successive, occurs_anywhere, pattern_bytes,
    substituted,
};
use crate::options::{BuilderOptions, StartKind};
use crate::store::{
    contains, dedup, difference, distinct, lemma_united_no_duplicates, lemma_united_same,
    lemma_without_no_duplicates, lemma_without_same, union, united, without,
};
use aho_corasick::AhoCorasick as AhoCorasickImpl;
use vstd::prelude::*;
use vstd::utf8::encode_utf8;

verus! {

/// A searcher for many patterns at once, whose pattern list can change.
///
/// The pattern list holds no pattern twice, and the automaton is always
/// the one compiled from the list as it stands: a change of the list
/// compiles a new automaton first and then replaces both together.
#[derive(Debug)]
pub struct AhoCorasick {
    options: BuilderOptions,
    patterns: Vec<String>,
    automata: AhoCorasickImpl,
}

impl AhoCorasick {
    #[verifier::type_invariant]
    spec fn well_formed(self) -> bool {
        &&& self.patterns.deep_view().no_duplicates()
        &&& compiled_patterns(self.automata) == pattern_bytes(self.patterns.deep_view())
        &&& compiled_options(self.automata) == self.options
    }

    /// The patterns of this matcher, in the order of their indices.
    pub closed spec fn pattern_list(&self) -> Seq<Seq<char>> {
        self.patterns.deep_view()
    }

    /// The options that this matcher was made with.
    pub closed spec fn settings(&self) -> BuilderOptions {
        self.options
    }

    /// The patterns of this matcher as the automaton reads them.
    pub open spec fn pattern_list_bytes(&self) -> Seq<Seq<u8>> {
        pattern_bytes(self.pattern_list())
    }

    /// The patterns of this matcher, none of them twice.
    pub fn patterns(&self) -> (patterns: &Vec<String>)
        ensures
            patterns.deep_view() == self.pattern_list(),
            patterns.deep_view().no_duplicates(),
    {
        proof {
            use_type_invariant(self);
        }
        &self.patterns
    }

    /// The options that this matcher was made with.
    pub fn options(&self) -> (options: BuilderOptions)
        ensures
            options == self.settings(),
    {
        self.options
    }

    /// Makes a matcher for `patterns`, each taken once.
    ///
    /// It fails exactly if the builder refuses the patterns.
    pub fn new(options: BuilderOptions, patterns: Vec<String>) -> (made: Result<Self, Error>)
        ensures
            made is Ok <==> build_accepts(options, pattern_bytes(distinct(patterns.deep_view()))),
            made matches Ok(matcher) ==> matcher.pattern_list() == distinct(patterns.deep_view())
                && matcher.settings() == options,
            made matches Err(error) ==> error is Build,
    {
        let patterns = dedup(&patterns);
        match options.build(&patterns) {
            Ok(automata) => Ok(AhoCorasick { options, patterns, automata }),
            Err(error) => Err(Error::from_build_error(error)),
        }
    }

    /// Holds if `after` is this matcher after its pattern list was to
    /// become `target`, and `done` what the change returned.
    ///
    /// Where the list stays as it is, nothing happens and the change
    /// succeeds.  Otherwise an automaton is compiled from `target`: if the
    /// builder accepts it, list and automaton are replaced together; if
    /// not, the change fails and the matcher is what it was.
    pub open spec fn changes_to(
        &self,
        target: Seq<Seq<char>>,
        after: Self,
        done: Result<(), Error>,
    ) -> bool {
        if target == self.pattern_list() {
            done is Ok && after == *self
        } else if build_accepts(self.settings(), pattern_bytes(target)) {
            done is Ok && after.pattern_list() == target && after.settings() == self.settings()
        } else {
            done is Err && done->Err_0 is Build && after == *self
        }
    }

    /// Adds to the pattern list those of `patterns` that are not in it.
    ///
    /// Adding only patterns that are there already changes nothing.
    #[inline]
    pub fn add_patterns(&mut self, patterns: Vec<String>) -> (done: Result<(), Error>)
        ensures
            old(self).changes_to(
                united(old(self).pattern_list(), patterns.deep_view()),
                *final(self),
                done,
            ),
    {
        proof {
            use_type_invariant(&*self);
            lemma_united_same(self.pattern_list(), patterns.deep_view());
            lemma_united_no_duplicates(self.pattern_list(), patterns.deep_view());
        }
        let all = union(&self.patterns, &patterns);
        if all.len() == self.patterns.len() {
            return Ok(());
        }
        self.rebuild_automata(all)
    }

    /// Removes from the pattern list those that are among `patterns`.
    ///
    /// Removing only patterns that are not there changes nothing.
    #[inline]
    pub fn remove_patterns(&mut self, patterns: Vec<String>) -> (done: Result<(), Error>)
        ensures
            old(self).changes_to(
                without(old(self).pattern_list(), patterns.deep_view()),
                *final(self),
                done,
            ),
    {
        proof {
            use_type_invariant(&*self);
            lemma_without_same(self.pattern_list(), patterns.deep_view());
            lemma_without_no_duplicates(self.pattern_list(), patterns.deep_view());
        }
        let rest = difference(&self.patterns, &patterns);
        if rest.len() == self.patterns.len() {
            return Ok(());
        }
        self.rebuild_automata(rest)
    }

    /// Compiles an automaton from `patterns` and, if that succeeds, puts
    /// both in the place of what this matcher holds.
    #[inline]
    fn rebuild_automata(&mut self, patterns: Vec<String>) -> (done: Result<(), Error>)
        requires
            patterns.deep_view().no_duplicates(),
            patterns.deep_view() != old(self).pattern_list(),
        ensures
            old(self).changes_to(patterns.deep_view(), *final(self), done),
    {
        proof {
            use_type_invariant(&*self);
        }
        match self.options.build(&patterns) {
            Ok(automata) => {
                *self = AhoCorasick { options: self.options, patterns, automata };
                Ok(())
            },
            Err(error) => Err(Error::from_build_error(error)),
        }
    }

    /// Holds of `found` exactly if it is what a search for the first match
    /// in `haystack` returns.
    ///
    /// A matcher compiled for anchored searches only refuses the search.
    /// Any other reports the match that the automaton finds: an
    /// occurrence, and none only if no pattern occurs.  It is one that the
    /// match kind prefers to every other occurrence, unless the kind is a
    /// leftmost one and the empty pattern is in the list.
    pub open spec fn finds_first(
        &self,
        haystack: Seq<char>,
        found: Result<Option<Match>, Error>,
    ) -> bool {
        let raw = first_match(self.settings(), self.pattern_list_bytes(), encode_utf8(haystack));
        if self.settings().start_kind is Anchored {
            found == Err::<Option<Match>, Error>(Error::InvalidInputUnanchored)
        } else {
            &&& found is Ok
            &&& found->Ok_0.deep_view() == described_first(self.pattern_list(), haystack, raw)
            &&& is_first_match(
                self.pattern_list_bytes(),
                self.settings().ascii_case_insensitive,
                self.settings().match_kind,
                encode_utf8(haystack),
                raw,
            )
        }
    }

    /// Holds of `found` exactly if it is what a search for all
    /// non-overlapping matches in `haystack` returns.
    ///
    /// A matcher compiled for anchored searches only refuses the search.
    /// Any other reports the matches that the automaton yields, in its
    /// order; the first is the one that a search for the first match
    /// reports, each is an occurrence, and each begins after the start of
    /// the one before it and not before its end.
    pub open spec fn finds_all(&self, haystack: Seq<char>, found: Result<Vec<Match>, Error>)
        -> bool {
        let raws = successive_matches(
            self.settings(),
            self.pattern_list_bytes(),
            encode_utf8(haystack),
        );
        if self.settings().start_kind is Anchored {
            found == Err::<Vec<Match>, Error>(Error::InvalidInputUnanchored)
        } else {
            &&& found is Ok
            &&& found->Ok_0.deep_view() == described_all(self.pattern_list(), haystack, raws)
            &&& begins_with(
                raws,
                first_match(self.settings(), self.pattern_list_bytes(), encode_utf8(haystack)),
            )
            &&& is_successive(
                self.pattern_list_bytes(),
                self.settings().ascii_case_insensitive,
                encode_utf8(haystack),
                raws,
            )
        }
    }

    /// Holds of `found` exactly if it is what a search for all matches in
    /// `haystack`, overlapping ones too, returns.
    ///
    /// The search is refused by a matcher compiled for anchored searches
    /// only; else by one whose match kind is not the standard one; else
    /// where the haystack is empty and the empty pattern is in the list.
    /// Otherwise it reports the matches that the automaton yields, in its
    /// order, and they are exactly the occurrences of the patterns.
    pub open spec fn finds_all_overlapping(
        &self,
        haystack: Seq<char>,
        found: Result<Vec<Match>, Error>,
    ) -> bool {
        let raws = overlapping_matches(
            self.settings(),
            self.pattern_list_bytes(),
            encode_utf8(haystack),
        );
        if self.settings().start_kind is Anchored {
            found == Err::<Vec<Match>, Error>(Error::InvalidInputUnanchored)
        } else if !(self.settings().match_kind is Standard) {
            found == Err::<Vec<Match>, Error>(Error::UnsupportedOverlapping)
        } else if haystack.len() == 0 && self.pattern_list().contains(Seq::<char>::empty()) {
            found == Err::<Vec<Match>, Error>(Error::UnsupportedEmpty)
        } else {
            &&& found is Ok
            &&& found->Ok_0.deep_view() == described_all(self.pattern_list(), haystack, raws)
            &&& is_every_occurrence(
                self.pattern_list_bytes(),
                self.settings().ascii_case_insensitive,
                encode_utf8(haystack),
                raws,
            )
        }
    }

    /// Holds of `hit` exactly if it is what `is_match` returns on
    /// `haystack`: a refusal from a matcher compiled for anchored searches
    /// only, else whether any pattern occurs anywhere.
    pub open spec fn tells_match(&self, haystack: Seq<char>, hit: Result<bool, Error>) -> bool {
        if self.settings().start_kind is Anchored {
            hit == Err::<bool, Error>(Error::InvalidInputUnanchored)
        } else {
            hit == Ok::<bool, Error>(
                occurs_anywhere(
                    self.pattern_list_bytes(),
                    self.settings().ascii_case_insensitive,
                    encode_utf8(haystack),
                ),
            )
        }
    }

    /// Holds of `replaced` exactly if it is what `replace_all` returns on
    /// `haystack` with `replacements`, one for each pattern.
    ///
    /// A matcher compiled for anchored searches only refuses.  Any other
    /// returns the haystack with each non-overlapping match replaced by
    /// the replacement of its pattern, a match that does not lie on
    /// character boundaries passed over, and the rest copied.
    pub open spec fn replaces(
        &self,
        haystack: Seq<char>,
        replacements: Seq<Seq<char>>,
        replaced: Result<String, Error>,
    ) -> bool {
        let raws = successive_matches(
            self.settings(),
            self.pattern_list_bytes(),
            encode_utf8(haystack),
        );
        if self.settings().start_kind is Anchored {
            replaced == Err::<String, Error>(Error::InvalidInputUnanchored)
        } else {
            &&& replaced is Ok
            &&& encode_utf8(replaced->Ok_0@) == substituted(
                encode_utf8(haystack),
                raws,
                pattern_bytes(replacements),
            )
            &&& is_successive(
                self.pattern_list_bytes(),
                self.settings().ascii_case_insensitive,
                encode_utf8(haystack),
                raws,
            )
        }
    }

    /// The first match in `haystack` under the match kind of this matcher,
    /// if there is one.
    #[inline]
    pub fn find_first(&self, haystack: &str) -> (found: Result<Option<Match>, Error>)
        ensures
            self.finds_first(haystack@, found),
            found matches Ok(Some(first)) ==> genuine(
                self.pattern_list(),
                self.settings().ascii_case_insensitive,
                haystack@,
                first@,
            ),
    {
        proof {
            use_type_invariant(self);
        }
        match try_find(&self.automata, haystack) {
            Ok(Some(raw)) => {
                proof {
                    lemma_occurrence_describable(
                        self.pattern_list(),
                        self.options.ascii_case_insensitive,
                        haystack@,
                        raw,
                    );
                }
                Ok(Some(Match::describe(&self.patterns, haystack, raw)))
            },
            Ok(None) => Ok(None),
            Err(error) => Err(Error::from_match_error(error)),
        }
    }

    /// The matches in `haystack` from left to right, none overlapping
    /// another.
    #[inline]
    pub fn find_all(&self, haystack: &str) -> (found: Result<Vec<Match>, Error>)
        ensures
            self.finds_all(haystack@, found),
            found matches Ok(all) ==> {
                &&& forall|i: int|
                    0 <= i < all.len() ==> genuine(
                        self.pattern_list(),
                        self.settings().ascii_case_insensitive,
                        haystack@,
                        (#[trigger] all[i])@,
                    )
                &&& forall|i: int|
                    0 <= i < all.len() - 1 ==> (#[trigger] all[i]).start < all[i + 1].start
                        && all[i].end <= all[i + 1].start
            },
    {
        proof {
            use_type_invariant(self);
        }
        match try_find_iter(&self.automata, haystack) {
            Ok(raws) => {
                assert forall|i: int| 0 <= i < raws.len() implies describable(
                    self.pattern_list(),
                    haystack@,
                    #[trigger] raws[i],
                ) && genuine(
                    self.pattern_list(),
                    self.options.ascii_case_insensitive,
                    haystack@,
                    described(self.pattern_list(), haystack@, raws[i]),
                ) by {
                    lemma_occurrence_describable(
                        self.pattern_list(),
                        self.options.ascii_case_insensitive,
                        haystack@,
                        raws[i],
                    );
                }
                let all = Match::describe_all(&self.patterns, haystack, &raws);
                Ok(all)
            },
            Err(error) => Err(Error::from_match_error(error)),
        }
    }

    /// Every match of every pattern in `haystack`, overlapping ones too.
    #[inline]
    pub fn find_all_overlapping(&self, haystack: &str) -> (found: Result<Vec<Match>, Error>)
        ensures
            self.finds_all_overlapping(haystack@, found),
            found matches Ok(all) ==> forall|i: int|
                0 <= i < all.len() ==> genuine(
                    self.pattern_list(),
                    self.settings().ascii_case_insensitive,
                    haystack@,
                    (#[trigger] all[i])@,
                ),
    {
        proof {
            use_type_invariant(self);
        }
        match try_find_overlapping_iter(&self.automata, haystack) {
            Ok(raws) => {
                let empty = String::new();
                if haystack.is_empty() && contains(&self.patterns, &empty) {
                    return Err(Error::UnsupportedEmpty);
                }
                assert forall|i: int| 0 <= i < raws.len() implies describable(
                    self.pattern_list(),
                    haystack@,
                    #[trigger] raws[i],
                ) && genuine(
                    self.pattern_list(),
                    self.options.ascii_case_insensitive,
                    haystack@,
                    described(self.pattern_list(), haystack@, raws[i]),
                ) by {
                    lemma_occurrence_describable(
                        self.pattern_list(),
                        self.options.ascii_case_insensitive,
                        haystack@,
                        raws[i],
                    );
                }
                let all = Match::describe_all(&self.patterns, haystack, &raws);
                Ok(all)
            },
            Err(error) => Err(Error::from_match_error(error)),
        }
    }

    /// Tells whether any pattern occurs anywhere in `haystack`.
    #[inline]
    pub fn is_match(&self, haystack: &str) -> (hit: Result<bool, Error>)
        ensures
            self.tells_match(haystack@, hit),
    {
        proof {
            use_type_invariant(self);
        }
        match self.options.start_kind {
            StartKind::Anchored => Err(Error::InvalidInputUnanchored),
            _ => Ok(is_match(&self.automata, haystack)),
        }
    }

    /// The haystack with every non-overlapping match replaced by the
    /// replacement of its pattern: `replace_with[i]` stands for pattern
    /// `i`, so there is to be one for each pattern.
    #[inline]
    pub fn replace_all(&self, haystack: &str, replace_with: &Vec<String>) -> (replaced: Result<
        String,
        Error,
    >)
        requires
            replace_with.len() == self.pattern_list().len(),
        ensures
            self.replaces(haystack@, replace_with.deep_view(), replaced),
    {
        proof {
            use_type_invariant(self);
        }
        match try_replace_all(&self.automata, haystack, replace_with) {
            Ok(text) => Ok(text),
            Err(error) => Err(Error::from_match_error(error)),
        }
    }
}

} // verus!
