use aho_corasick_nif::store::{contains, dedup, difference, union};

fn strings(texts: &[&str]) -> Vec<String> {
    texts.iter().map(|text| text.to_string()).collect()
}

#[test]
fn contains_compares_by_text() {
    let list = strings(&["he", "she", ""]);
    assert!(contains(&list, &"she".to_string()));
    assert!(contains(&list, &String::new()));
    assert!(!contains(&list, &"her".to_string()));
    assert!(!contains(&Vec::new(), &"he".to_string()));
}

#[test]
fn dedup_keeps_first_appearances_in_order() {
    assert_eq!(dedup(&strings(&["he", "she", "he", "his", "she"])), strings(&["he", "she", "his"]));
    assert_eq!(dedup(&strings(&["b", "a", "b", "a"])), strings(&["b", "a"]));
    assert_eq!(dedup(&strings(&["", ""])), strings(&[""]));
    assert_eq!(dedup(&Vec::new()), Vec::<String>::new());
}

#[test]
fn union_appends_what_is_new() {
    let base = strings(&["he", "she"]);
    assert_eq!(union(&base, &strings(&["his", "he", "hers", "his"])), strings(&["he", "she", "his", "hers"]));
    assert_eq!(union(&base, &strings(&["she", "he", "he"])), base);
    assert_eq!(union(&base, &Vec::new()), base);
    assert_eq!(union(&Vec::new(), &strings(&["a", "a"])), strings(&["a"]));
}

#[test]
fn union_does_not_fold_case() {
    assert_eq!(union(&strings(&["he"]), &strings(&["He", "he"])), strings(&["he", "He"]));
}

#[test]
fn difference_keeps_the_order_of_what_stays() {
    let base = strings(&["he", "she", "his", "hers"]);
    assert_eq!(difference(&base, &strings(&["she", "x", "he"])), strings(&["his", "hers"]));
    assert_eq!(difference(&base, &strings(&["x"])), base);
    assert_eq!(difference(&base, &Vec::new()), base);
    assert_eq!(difference(&base, &base), Vec::<String>::new());
}
