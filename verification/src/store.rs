//! The pattern list of a matcher: ordered and free of duplicates.
//!
//! A pattern is identified by its text.  Adding keeps what is there in
//! place and appends what is new, in the order given; removing keeps the
//! order of what stays.

use vstd::prelude::*;

verus! {

/// `base` followed by those patterns of `extra` that are not in it yet,
/// each once, in the order of their first appearance.
pub open spec fn united(base: Seq<Seq<char>>, extra: Seq<Seq<char>>) -> Seq<Seq<char>>
    decreases extra.len(),
{
    if extra.len() == 0 {
        base
    } else {
        let before = united(base, extra.drop_last());
        if before.contains(extra.last()) {
            before
        } else {
            before.push(extra.last())
        }
    }
}

/// The patterns of a list, each once, in the order of their first
/// appearance.
pub open spec fn distinct(patterns: Seq<Seq<char>>) -> Seq<Seq<char>> {
    united(Seq::empty(), patterns)
}

/// The patterns of `base` that are not among `removed`, in their order.
pub open spec fn without(base: Seq<Seq<char>>, removed: Seq<Seq<char>>) -> Seq<Seq<char>> {
    base.filter(|pattern: Seq<char>| !removed.contains(pattern))
}

/// Adding patterns keeps the list as it was at the front.
pub proof fn lemma_united_extends(base: Seq<Seq<char>>, extra: Seq<Seq<char>>)
    ensures
        base.len() <= united(base, extra).len(),
        united(base, extra).subrange(0, base.len() as int) == base,
    decreases extra.len(),
{
    if extra.len() == 0 {
        assert(base.subrange(0, base.len() as int) =~= base);
    } else {
        lemma_united_extends(base, extra.drop_last());
        let before = united(base, extra.drop_last());
        assert(united(base, extra).subrange(0, base.len() as int) =~= before.subrange(
            0,
            base.len() as int,
        ));
    }
}

/// After adding, a pattern is in the list exactly if it was there before
/// or was among those added.
pub proof fn lemma_united_contains(
    base: Seq<Seq<char>>,
    extra: Seq<Seq<char>>,
    pattern: Seq<char>,
)
    ensures
        united(base, extra).contains(pattern) <==> base.contains(pattern) || extra.contains(
            pattern,
        ),
    decreases extra.len(),
{
    if extra.len() > 0 {
        let before = united(base, extra.drop_last());
        lemma_united_contains(base, extra.drop_last(), pattern);
        if extra.contains(pattern) {
            let at = choose|i: int| 0 <= i < extra.len() && extra[i] == pattern;
            if at < extra.len() - 1 {
                assert(extra.drop_last()[at] == pattern);
            }
        }
        if extra.drop_last().contains(pattern) {
            let at = choose|i: int| 0 <= i < extra.len() - 1 && extra.drop_last()[i] == pattern;
            assert(extra[at] == pattern);
        }
        if before.contains(extra.last()) {
        } else {
            let after = before.push(extra.last());
            assert(after[before.len() as int] == extra.last());
            if before.contains(pattern) {
                let at = choose|i: int| 0 <= i < before.len() && before[i] == pattern;
                assert(after[at] == pattern);
            }
            if after.contains(pattern) {
                let at = choose|i: int| 0 <= i < after.len() && after[i] == pattern;
                if at < before.len() {
                    assert(before[at] == pattern);
                }
            }
        }
        assert(extra.last() == extra[extra.len() - 1]);
    }
}

/// Adding patterns to a list without duplicates leaves it without
/// duplicates.
pub proof fn lemma_united_no_duplicates(base: Seq<Seq<char>>, extra: Seq<Seq<char>>)
    requires
        base.no_duplicates(),
    ensures
        united(base, extra).no_duplicates(),
    decreases extra.len(),
{
    if extra.len() > 0 {
        lemma_united_no_duplicates(base, extra.drop_last());
    }
}

/// Adding patterns changes the list exactly if one of them is new, and
/// then the list grows.
pub proof fn lemma_united_same(base: Seq<Seq<char>>, extra: Seq<Seq<char>>)
    ensures
        united(base, extra) == base <==> (forall|i: int|
            0 <= i < extra.len() ==> base.contains(#[trigger] extra[i])),
        united(base, extra) == base <==> united(base, extra).len() == base.len(),
    decreases extra.len(),
{
    lemma_united_extends(base, extra);
    if united(base, extra).len() == base.len() {
        assert(united(base, extra) =~= united(base, extra).subrange(0, base.len() as int));
    }
    if extra.len() > 0 {
        let shorter = extra.drop_last();
        let before = united(base, shorter);
        lemma_united_same(base, shorter);
        lemma_united_extends(base, shorter);
        lemma_united_contains(base, shorter, extra.last());
        if forall|i: int| 0 <= i < extra.len() ==> base.contains(#[trigger] extra[i]) {
            assert forall|i: int| 0 <= i < shorter.len() implies base.contains(
                #[trigger] shorter[i],
            ) by {
                assert(shorter[i] == extra[i]);
            }
            assert(base.contains(extra[extra.len() - 1]));
        }
        if united(base, extra) == base {
            assert(before.len() == base.len());
            assert forall|i: int| 0 <= i < extra.len() implies base.contains(
                #[trigger] extra[i],
            ) by {
                if i < extra.len() - 1 {
                    assert(shorter[i] == extra[i]);
                }
            }
        }
    }
}

/// After removing, a pattern is in the list exactly if it was there before
/// and was not among those removed.
pub proof fn lemma_without_contains(
    base: Seq<Seq<char>>,
    removed: Seq<Seq<char>>,
    pattern: Seq<char>,
)
    ensures
        without(base, removed).contains(pattern) <==> base.contains(pattern) && !removed.contains(
            pattern,
        ),
{
    let keep = |pattern: Seq<char>| !removed.contains(pattern);
    broadcast use Seq::lemma_filter_contains_rev;

    if base.contains(pattern) && keep(pattern) {
        let at = choose|i: int| 0 <= i < base.len() && base[i] == pattern;
        base.lemma_filter_contains(keep, at);
    }
    if base.filter(keep).contains(pattern) {
        base.lemma_filter_contains_rev(keep, pattern);
    }
}

/// Removing patterns from a list without duplicates leaves it without
/// duplicates.
pub proof fn lemma_without_no_duplicates(base: Seq<Seq<char>>, removed: Seq<Seq<char>>)
    requires
        base.no_duplicates(),
    ensures
        without(base, removed).no_duplicates(),
    decreases base.len(),
{
    reveal(Seq::filter);
    let keep = |pattern: Seq<char>| !removed.contains(pattern);
    if base.len() > 0 {
        let shorter = base.drop_last();
        lemma_without_no_duplicates(shorter, removed);
        if keep(base.last()) {
            let before = shorter.filter(keep);
            if before.contains(base.last()) {
                shorter.lemma_filter_contains_rev(keep, base.last());
                let at = choose|i: int| 0 <= i < shorter.len() && shorter[i] == base.last();
                assert(base[at] == base[base.len() - 1]);
            }
        }
    }
}

/// Removing patterns changes the list exactly if one of them is in it, and
/// then the list shrinks.
pub proof fn lemma_without_same(base: Seq<Seq<char>>, removed: Seq<Seq<char>>)
    ensures
        without(base, removed).len() <= base.len(),
        without(base, removed) == base <==> (forall|i: int|
            0 <= i < base.len() ==> !removed.contains(#[trigger] base[i])),
        without(base, removed) == base <==> without(base, removed).len() == base.len(),
    decreases base.len(),
{
    reveal(Seq::filter);
    let keep = |pattern: Seq<char>| !removed.contains(pattern);
    if base.len() > 0 {
        let shorter = base.drop_last();
        lemma_without_same(shorter, removed);
        assert(base =~= shorter.push(base.last()));
        if forall|i: int| 0 <= i < base.len() ==> !removed.contains(#[trigger] base[i]) {
            assert forall|i: int| 0 <= i < shorter.len() implies !removed.contains(
                #[trigger] shorter[i],
            ) by {
                assert(shorter[i] == base[i]);
            }
            assert(keep(base[base.len() - 1]));
        }
        if without(base, removed).len() == base.len() {
            assert(keep(base.last()));
            assert(shorter.filter(keep).len() == shorter.len());
            assert forall|i: int| 0 <= i < base.len() implies !removed.contains(
                #[trigger] base[i],
            ) by {
                if i < base.len() - 1 {
                    assert(shorter[i] == base[i]);
                }
            }
        }
    } else {
        assert(without(base, removed) =~= base);
    }
}

/// Tells whether `pattern` is in the list.
pub fn contains(patterns: &Vec<String>, pattern: &String) -> (found: bool)
    ensures
        found == patterns.deep_view().contains(pattern@),
{
    let mut at: usize = 0;
    while at < patterns.len()
        invariant
            at <= patterns.len(),
            forall|i: int| 0 <= i < at ==> patterns.deep_view()[i] != pattern@,
        decreases patterns.len() - at,
    {
        if patterns[at] == *pattern {
            assert(patterns.deep_view()[at as int] == pattern@);
            return true;
        }
        at += 1;
    }
    false
}

/// The list `base` with the patterns of `extra` added: those that are new,
/// each once, behind what is there.
pub fn union(base: &Vec<String>, extra: &Vec<String>) -> (all: Vec<String>)
    ensures
        all.deep_view() == united(base.deep_view(), extra.deep_view()),
{
    let mut all: Vec<String> = Vec::new();
    let mut at: usize = 0;
    while at < base.len()
        invariant
            at <= base.len(),
            all.deep_view() == base.deep_view().subrange(0, at as int),
        decreases base.len() - at,
    {
        let ghost before = all.deep_view();
        all.push(base[at].clone());
        assert(all.deep_view() =~= before.push(base[at as int]@));
        assert(all.deep_view() =~= base.deep_view().subrange(0, at + 1));
        at += 1;
    }
    assert(base.deep_view().subrange(0, base.len() as int) =~= base.deep_view());
    let mut at: usize = 0;
    while at < extra.len()
        invariant
            at <= extra.len(),
            all.deep_view() == united(base.deep_view(), extra.deep_view().subrange(0, at as int)),
        decreases extra.len() - at,
    {
        let ghost seen = extra.deep_view().subrange(0, at as int);
        let ghost next = extra.deep_view().subrange(0, at + 1);
        assert(next.drop_last() =~= seen);
        assert(next.last() == extra[at as int]@);
        let ghost before = all.deep_view();
        if !contains(&all, &extra[at]) {
            all.push(extra[at].clone());
            assert(all.deep_view() =~= before.push(extra[at as int]@));
        }
        at += 1;
    }
    assert(extra.deep_view().subrange(0, extra.len() as int) =~= extra.deep_view());
    all
}

/// The patterns of a list, each once, in the order of their first
/// appearance.
pub fn dedup(patterns: &Vec<String>) -> (all: Vec<String>)
    ensures
        all.deep_view() == distinct(patterns.deep_view()),
        all.deep_view().no_duplicates(),
{
    let none: Vec<String> = Vec::new();
    assert(none.deep_view() =~= Seq::<Seq<char>>::empty());
    proof {
        lemma_united_no_duplicates(none.deep_view(), patterns.deep_view());
    }
    union(&none, patterns)
}

/// The list `base` without the patterns that are among `removed`.
pub fn difference(base: &Vec<String>, removed: &Vec<String>) -> (rest: Vec<String>)
    ensures
        rest.deep_view() == without(base.deep_view(), removed.deep_view()),
{
    let ghost keep = |pattern: Seq<char>| !removed.deep_view().contains(pattern);
    let mut rest: Vec<String> = Vec::new();
    let mut at: usize = 0;
    assert(rest.deep_view() =~= base.deep_view().subrange(0, 0).filter(keep)) by {
        reveal(Seq::filter);
    }
    while at < base.len()
        invariant
            at <= base.len(),
            keep == |pattern: Seq<char>| !removed.deep_view().contains(pattern),
            rest.deep_view() == base.deep_view().subrange(0, at as int).filter(keep),
        decreases base.len() - at,
    {
        let ghost seen = base.deep_view().subrange(0, at as int);
        let ghost before = rest.deep_view();
        proof {
            assert(base.deep_view().subrange(0, at + 1) =~= seen.push(base[at as int]@));
            seen.lemma_filter_push(base[at as int]@, keep);
        }
        if !contains(removed, &base[at]) {
            rest.push(base[at].clone());
            assert(rest.deep_view() =~= before.push(base[at as int]@));
        }
        at += 1;
    }
    assert(base.deep_view().subrange(0, base.len() as int) =~= base.deep_view());
    rest
}

} // verus!
