use aho_corasick_nif::{AhoCorasick, BuilderOptions, Error, Match, MatchKind, StartKind};

fn options(match_kind: MatchKind) -> BuilderOptions {
    BuilderOptions {
        ascii_case_insensitive: false,
        byte_classes: true,
        dense_depth: None,
        aho_corasick_kind: None,
        match_kind,
        prefilter: true,
        start_kind: StartKind::Unanchored,
    }
}

fn strings(texts: &[&str]) -> Vec<String> {
    texts.iter().map(|text| text.to_string()).collect()
}

fn found(pattern: &str, text: &str, start: usize, end: usize) -> Match {
    Match { pattern: pattern.to_string(), match_: text.to_string(), start, end }
}

#[test]
fn overlapping_search_reports_nested_matches() {
    let matcher =
        AhoCorasick::new(options(MatchKind::Standard), strings(&["he", "she", "his", "hers"]))
            .unwrap();
    let all = matcher.find_all_overlapping("ushers").unwrap();
    assert!(all.contains(&found("she", "she", 1, 4)));
    assert!(all.contains(&found("he", "he", 2, 4)));
    assert!(all.contains(&found("hers", "hers", 2, 6)));
    assert_eq!(all.len(), 3);
}

#[test]
fn leftmost_longest_takes_the_longest_at_the_earliest_start() {
    let matcher = AhoCorasick::new(
        options(MatchKind::LeftmostLongest),
        strings(&["he", "she", "his", "hers"]),
    )
    .unwrap();
    let all = matcher.find_all("ushers").unwrap();
    assert_eq!(all, vec![found("she", "she", 1, 4)]);
}

#[test]
fn removed_pattern_is_not_reported() {
    let mut matcher =
        AhoCorasick::new(options(MatchKind::Standard), strings(&["he", "she"])).unwrap();
    matcher.remove_patterns(strings(&["he"])).unwrap();
    assert_eq!(matcher.patterns(), &strings(&["she"]));
    let all = matcher.find_all("she").unwrap();
    assert_eq!(all, vec![found("she", "she", 0, 3)]);
}

#[test]
fn replace_all_substitutes_the_match() {
    let matcher = AhoCorasick::new(options(MatchKind::Standard), strings(&["foo"])).unwrap();
    let replaced = matcher.replace_all("foobar", &strings(&["FOO"])).unwrap();
    assert_eq!(replaced, "FOObar");
}

#[test]
fn overlapping_search_needs_standard_semantics() {
    let matcher =
        AhoCorasick::new(options(MatchKind::LeftmostFirst), strings(&["a"])).unwrap();
    assert_eq!(matcher.find_all_overlapping("a"), Err(Error::UnsupportedOverlapping));
}
