use aho_corasick_nif::text::{slice, text_between};
use aho_corasick_nif::{Match, RawMatch};

fn strings(texts: &[&str]) -> Vec<String> {
    texts.iter().map(|text| text.to_string()).collect()
}

#[test]
fn slice_counts_bytes() {
    assert_eq!(slice("ushers", 1, 4), "she");
    assert_eq!(slice("ushers", 0, 6), "ushers");
    assert_eq!(slice("ushers", 6, 6), "");
    assert_eq!(slice("aé€b", 1, 3), "é");
    assert_eq!(slice("aé€b", 3, 6), "€");
    assert_eq!(slice("aé€b", 1, 7), "é€b");
}

#[test]
fn text_between_gives_the_empty_string_inside_a_character() {
    assert_eq!(text_between("é", 1, 1), "");
    assert_eq!(text_between("é", 0, 2), "é");
    assert_eq!(text_between("", 0, 0), "");
    assert_eq!(text_between("abc", 1, 2), "b");
}

#[test]
fn describe_names_the_pattern_and_cuts_the_text() {
    let patterns = strings(&["he", "she", "HERS"]);
    let found = Match::describe(&patterns, "usHers", RawMatch { pattern: 2, start: 2, end: 6 });
    assert_eq!(
        found,
        Match { pattern: "HERS".to_string(), match_: "Hers".to_string(), start: 2, end: 6 }
    );
}

#[test]
fn describe_all_keeps_the_order() {
    let patterns = strings(&["he", "she", ""]);
    let raws = vec![
        RawMatch { pattern: 1, start: 1, end: 4 },
        RawMatch { pattern: 0, start: 2, end: 4 },
        RawMatch { pattern: 2, start: 5, end: 5 },
    ];
    let found = Match::describe_all(&patterns, "ushers", &raws);
    assert_eq!(
        found,
        vec![
            Match { pattern: "she".to_string(), match_: "she".to_string(), start: 1, end: 4 },
            Match { pattern: "he".to_string(), match_: "he".to_string(), start: 2, end: 4 },
            Match { pattern: "".to_string(), match_: "".to_string(), start: 5, end: 5 },
        ]
    );
    assert_eq!(Match::describe_all(&patterns, "ushers", &Vec::new()), Vec::new());
}
