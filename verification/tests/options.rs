use aho_corasick_nif::{AhoCorasickKind, MatchKind, StartKind};

#[test]
fn representations_keep_their_names() {
    assert_eq!(
        aho_corasick::AhoCorasickKind::from(AhoCorasickKind::NoncontiguousNFA),
        aho_corasick::AhoCorasickKind::NoncontiguousNFA
    );
    assert_eq!(
        aho_corasick::AhoCorasickKind::from(AhoCorasickKind::ContiguousNFA),
        aho_corasick::AhoCorasickKind::ContiguousNFA
    );
    assert_eq!(
        aho_corasick::AhoCorasickKind::from(AhoCorasickKind::DFA),
        aho_corasick::AhoCorasickKind::DFA
    );
}

#[test]
fn match_kinds_keep_their_names() {
    assert_eq!(
        aho_corasick::MatchKind::from(MatchKind::Standard),
        aho_corasick::MatchKind::Standard
    );
    assert_eq!(
        aho_corasick::MatchKind::from(MatchKind::LeftmostFirst),
        aho_corasick::MatchKind::LeftmostFirst
    );
    assert_eq!(
        aho_corasick::MatchKind::from(MatchKind::LeftmostLongest),
        aho_corasick::MatchKind::LeftmostLongest
    );
}

#[test]
fn start_kinds_keep_their_names() {
    assert_eq!(aho_corasick::StartKind::from(StartKind::Both), aho_corasick::StartKind::Both);
    assert_eq!(
        aho_corasick::StartKind::from(StartKind::Anchored),
        aho_corasick::StartKind::Anchored
    );
    assert_eq!(
        aho_corasick::StartKind::from(StartKind::Unanchored),
        aho_corasick::StartKind::Unanchored
    );
}
