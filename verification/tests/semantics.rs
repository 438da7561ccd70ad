use aho_corasick_nif::{AhoCorasick, AhoCorasickKind, BuilderOptions, Match, MatchKind, StartKind};

fn options(match_kind: MatchKind, kind: Option<AhoCorasickKind>, fold: bool) -> BuilderOptions {
    BuilderOptions {
        ascii_case_insensitive: fold,
        byte_classes: true,
        dense_depth: None,
        aho_corasick_kind: kind,
        match_kind,
        prefilter: true,
        start_kind: StartKind::Unanchored,
    }
}

fn kinds() -> Vec<Option<AhoCorasickKind>> {
    vec![
        None,
        Some(AhoCorasickKind::NoncontiguousNFA),
        Some(AhoCorasickKind::ContiguousNFA),
        Some(AhoCorasickKind::DFA),
    ]
}

fn match_kinds() -> Vec<MatchKind> {
    vec![MatchKind::Standard, MatchKind::LeftmostFirst, MatchKind::LeftmostLongest]
}

fn agree(left: &[u8], right: &[u8], fold: bool) -> bool {
    left.len() == right.len()
        && left.iter().zip(right.iter()).all(|(a, b)| {
            if fold {
                a.to_ascii_lowercase() == b.to_ascii_lowercase()
            } else {
                a == b
            }
        })
}

/// Every occurrence of every pattern, as (pattern index, start, end), found
/// by comparing at every offset.
fn occurrences(patterns: &[String], haystack: &str, fold: bool) -> Vec<(usize, usize, usize)> {
    let bytes = haystack.as_bytes();
    let mut all = Vec::new();
    for (index, pattern) in patterns.iter().enumerate() {
        let width = pattern.len();
        let mut start = 0;
        while start + width <= bytes.len() {
            if agree(&bytes[start..start + width], pattern.as_bytes(), fold) {
                all.push((index, start, start + width));
            }
            start += 1;
        }
    }
    all
}

fn raw(patterns: &[String], found: &Match) -> (usize, usize, usize) {
    let index = patterns.iter().position(|pattern| *pattern == found.pattern).unwrap();
    (index, found.start, found.end)
}

/// All strings of at most `longest` letters of `alphabet`.
fn words(alphabet: &[&str], longest: usize) -> Vec<String> {
    let mut all = vec![String::new()];
    let mut last = vec![String::new()];
    for _ in 0..longest {
        let mut next = Vec::new();
        for word in &last {
            for letter in alphabet {
                next.push(format!("{}{}", word, letter));
            }
        }
        all.extend(next.iter().cloned());
        last = next;
    }
    all
}

fn without_empty(words: Vec<String>) -> Vec<String> {
    words.into_iter().filter(|word| !word.is_empty()).collect()
}

/// Every list of at most `most` different words of `pool`.
fn lists_of(pool: &[String], most: usize) -> Vec<Vec<String>> {
    let mut lists: Vec<Vec<String>> = Vec::new();
    let mut last: Vec<Vec<String>> = vec![Vec::new()];
    for _ in 0..most {
        let mut next = Vec::new();
        for list in &last {
            for word in pool {
                if !list.contains(word) {
                    let mut longer = list.clone();
                    longer.push(word.clone());
                    next.push(longer);
                }
            }
        }
        lists.extend(next.iter().cloned());
        last = next;
    }
    lists
}

fn preferred(
    kind: MatchKind,
    chosen: (usize, usize, usize),
    other: (usize, usize, usize),
) -> bool {
    match kind {
        MatchKind::Standard => chosen.2 <= other.2,
        MatchKind::LeftmostFirst => {
            chosen.1 < other.1 || (chosen.1 == other.1 && chosen.0 <= other.0)
        }
        MatchKind::LeftmostLongest => {
            chosen.1 < other.1
                || (chosen.1 == other.1
                    && (chosen.2 > other.2 || (chosen.2 == other.2 && chosen.0 <= other.0)))
        }
    }
}

/// The haystack with those of the matches replaced that lie on character
/// boundaries.
fn spliced(haystack: &str, found: &[Match], patterns: &[String], replacements: &[String]) -> String {
    let mut out = String::new();
    let mut from = 0;
    for one in found {
        if !haystack.is_char_boundary(one.start) || !haystack.is_char_boundary(one.end) {
            continue;
        }
        out.push_str(&haystack[from..one.start]);
        out.push_str(&replacements[raw(patterns, one).0]);
        from = one.end;
    }
    out.push_str(&haystack[from..]);
    out
}

/// Holds what the searches return against all occurrences, for every
/// representation of the automaton, and returns what does not fit.
fn misfits(
    lists: &[Vec<String>],
    haystacks: &[String],
    match_kind: MatchKind,
    fold: bool,
) -> Vec<String> {
    let mut failed = Vec::new();
    for patterns in lists {
        let has_empty = patterns.contains(&String::new());
        let settled = match_kind == MatchKind::Standard || !has_empty;
        let replacements: Vec<String> =
            (0..patterns.len()).map(|index| format!("<{}>", index)).collect();
        for kind in kinds() {
            let matcher =
                AhoCorasick::new(options(match_kind, kind, fold), patterns.clone()).unwrap();
            for haystack in haystacks {
                let here = format!("{:?} {:?} {:?} in {:?}", match_kind, kind, patterns, haystack);
                let all = occurrences(patterns, haystack, fold);
                let first = matcher.find_first(haystack).unwrap();
                if first.is_some() == all.is_empty() {
                    failed.push(format!("a first match exists: {}", here));
                }
                if matcher.is_match(haystack).unwrap() == all.is_empty() {
                    failed.push(format!("is_match: {}", here));
                }
                if let Some(found) = &first {
                    let chosen = raw(patterns, found);
                    if !all.contains(&chosen) {
                        failed.push(format!("the first match occurs: {}", here));
                    }
                    if found.match_.as_bytes() != &haystack.as_bytes()[chosen.1..chosen.2] {
                        failed.push(format!("the text of the first match: {}", here));
                    }
                    if settled && !all.iter().all(|other| preferred(match_kind, chosen, *other)) {
                        failed.push(format!("the first match is preferred: {}", here));
                    }
                }
                let successive = matcher.find_all(haystack).unwrap();
                if successive.first().cloned() != first {
                    failed.push(format!("find_all begins with the first match: {}", here));
                }
                if !successive.iter().all(|one| {
                    all.contains(&raw(patterns, one))
                        && one.match_.as_bytes() == &haystack.as_bytes()[one.start..one.end]
                }) {
                    failed.push(format!("the matches of find_all occur: {}", here));
                }
                if !successive
                    .windows(2)
                    .all(|pair| pair[0].start < pair[1].start && pair[0].end <= pair[1].start)
                {
                    failed.push(format!("the matches of find_all are in order: {}", here));
                }
                if matcher.replace_all(haystack, &replacements).unwrap()
                    != spliced(haystack, &successive, patterns, &replacements)
                {
                    failed.push(format!("replace_all follows find_all: {}", here));
                }
                if !fold && matcher.replace_all(haystack, patterns).unwrap() != *haystack {
                    failed.push(format!("replacing by the patterns restores: {}", here));
                }
                if match_kind == MatchKind::Standard && !(haystack.is_empty() && has_empty) {
                    let mut every: Vec<(usize, usize, usize)> = matcher
                        .find_all_overlapping(haystack)
                        .unwrap()
                        .iter()
                        .map(|one| raw(patterns, one))
                        .collect();
                    every.sort();
                    every.dedup();
                    let mut sorted = all.clone();
                    sorted.sort();
                    if every != sorted {
                        failed.push(format!("find_all_overlapping finds all: {}", here));
                    }
                }
            }
        }
    }
    failed
}

fn assert_none(failed: Vec<String>) {
    assert!(failed.is_empty(), "{} misfits, the first: {}", failed.len(), failed[0]);
}

#[test]
fn words_of_two_letters_under_standard_semantics() {
    let lists = lists_of(&without_empty(words(&["a", "b"], 3)), 3);
    assert_none(misfits(&lists, &words(&["a", "b"], 5), MatchKind::Standard, false));
}

#[test]
fn words_of_two_letters_under_leftmost_first() {
    let lists = lists_of(&without_empty(words(&["a", "b"], 3)), 3);
    assert_none(misfits(&lists, &words(&["a", "b"], 5), MatchKind::LeftmostFirst, false));
}

#[test]
fn words_of_two_letters_under_leftmost_longest() {
    let lists = lists_of(&without_empty(words(&["a", "b"], 3)), 3);
    assert_none(misfits(&lists, &words(&["a", "b"], 5), MatchKind::LeftmostLongest, false));
}

#[test]
fn words_of_three_letters_under_standard_semantics() {
    let lists = lists_of(&without_empty(words(&["a", "b", "c"], 2)), 3);
    assert_none(misfits(&lists, &words(&["a", "b", "c"], 4), MatchKind::Standard, false));
}

#[test]
fn words_of_three_letters_under_leftmost_first() {
    let lists = lists_of(&without_empty(words(&["a", "b", "c"], 2)), 3);
    assert_none(misfits(&lists, &words(&["a", "b", "c"], 4), MatchKind::LeftmostFirst, false));
}

#[test]
fn words_of_three_letters_under_leftmost_longest() {
    let lists = lists_of(&without_empty(words(&["a", "b", "c"], 2)), 3);
    assert_none(misfits(&lists, &words(&["a", "b", "c"], 4), MatchKind::LeftmostLongest, false));
}

#[test]
fn words_in_both_cases_with_case_ignored() {
    let letters = ["a", "A", "b", "B"];
    let lists = lists_of(&without_empty(words(&letters, 2)), 2);
    for match_kind in match_kinds() {
        assert_none(misfits(&lists, &words(&letters, 4), match_kind, true));
    }
}

#[test]
fn lists_with_the_empty_pattern() {
    let lists: Vec<Vec<String>> = lists_of(&words(&["a", "b"], 2), 3)
        .into_iter()
        .filter(|list| list.contains(&String::new()))
        .collect();
    for match_kind in match_kinds() {
        assert_none(misfits(&lists, &words(&["a", "b"], 5), match_kind, false));
    }
}

#[test]
fn lists_with_the_empty_pattern_with_case_ignored() {
    let lists: Vec<Vec<String>> = lists_of(&words(&["a", "A", "b"], 2), 2)
        .into_iter()
        .filter(|list| list.contains(&String::new()))
        .collect();
    for match_kind in match_kinds() {
        assert_none(misfits(&lists, &words(&["a", "A", "b", "B"], 4), match_kind, true));
    }
}

#[test]
fn text_of_longer_characters() {
    let haystacks = words(&["é", "a", "ß", "€"], 3);
    let lists = lists_of(
        &["é", "", "a", "éa", "ß€", "€", "A€"].iter().map(|word| word.to_string()).collect::<Vec<_>>(),
        2,
    );
    for match_kind in match_kinds() {
        for fold in [false, true] {
            assert_none(misfits(&lists, &haystacks, match_kind, fold));
        }
    }
}

#[test]
fn leftmost_kinds_pass_over_matches_where_the_empty_pattern_is_listed() {
    let patterns = vec!["a".to_string(), "ba".to_string(), String::new()];
    let matcher =
        AhoCorasick::new(options(MatchKind::LeftmostFirst, None, false), patterns).unwrap();
    let first = matcher.find_first("bba").unwrap().unwrap();
    assert_eq!((first.pattern.as_str(), first.start, first.end), ("ba", 1, 3));
}

#[test]
fn overlapping_search_may_tell_the_empty_pattern_twice() {
    let patterns = vec![String::new(), "a".to_string(), "ab".to_string()];
    let matcher = AhoCorasick::new(options(MatchKind::Standard, None, false), patterns).unwrap();
    let every = matcher.find_all_overlapping("ab").unwrap();
    let at_the_end =
        every.iter().filter(|one| one.pattern.is_empty() && one.start == 2).count();
    assert_eq!(at_the_end, 2);
    assert_eq!(every.len(), 6);
}

/// A sequence of numbers that looks irregular and is the same on every
/// run.
fn numbers(seed: u64, count: usize) -> Vec<u64> {
    let mut state = seed;
    let mut all = Vec::new();
    for _ in 0..count {
        state = state.wrapping_mul(6364136223846793005).wrapping_add(1442695040888963407);
        all.push(state >> 33);
    }
    all
}

fn word_from(alphabet: &[&str], picks: &[u64]) -> String {
    picks.iter().map(|pick| alphabet[(*pick % alphabet.len() as u64) as usize]).collect()
}

fn long_cases(alphabet: &[&str], seed: u64) -> (Vec<Vec<String>>, Vec<String>) {
    let mut lists = Vec::new();
    let mut haystacks = Vec::new();
    for round in 0..12u64 {
        let picks = numbers(seed + round, 400);
        let mut list: Vec<String> = Vec::new();
        let mut at = 0;
        for size in 0..(1 + round as usize % 6) {
            let width = 1 + (picks[at] % (2 + 3 * size as u64)) as usize;
            let word = word_from(alphabet, &picks[at + 1..at + 1 + width]);
            at += 1 + width;
            if !list.contains(&word) {
                list.push(word);
            }
        }
        lists.push(list);
        haystacks.push(word_from(alphabet, &picks[100..100 + 40 + 20 * round as usize]));
    }
    (lists, haystacks)
}

#[test]
fn long_haystacks_of_few_letters() {
    let (lists, haystacks) = long_cases(&["a", "b", "c"], 7);
    for match_kind in match_kinds() {
        assert_none(misfits(&lists, &haystacks, match_kind, false));
    }
}

#[test]
fn long_haystacks_of_many_letters() {
    let letters = ["a", "b", "c", "d", "e", "f", "g", "h", "i", "j", "k", "l", "m", "n", "é", " "];
    let (lists, haystacks) = long_cases(&letters, 99);
    for match_kind in match_kinds() {
        assert_none(misfits(&lists, &haystacks, match_kind, false));
    }
}

#[test]
fn long_haystacks_in_both_cases_with_case_ignored() {
    let (lists, haystacks) = long_cases(&["a", "A", "b", "B", "c", "é"], 2024);
    for match_kind in match_kinds() {
        assert_none(misfits(&lists, &haystacks, match_kind, true));
    }
}
