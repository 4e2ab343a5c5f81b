use album_tagger::text::{concat2, copy_all, copy_opt, is_blank, join, or_empty, precedes};

fn strings(items: &[&str]) -> Vec<String> {
    items.iter().map(|s| s.to_string()).collect()
}

#[test]
fn join_puts_the_separator_between_neighbours() {
    assert_eq!(join(&strings(&[]), "; "), "");
    assert_eq!(join(&strings(&["Ann"]), "; "), "Ann");
    assert_eq!(join(&strings(&["Ann", "Bob"]), "; "), "Ann; Bob");
    assert_eq!(join(&strings(&["Ann", "", "Cy"]), "; "), "Ann; ; Cy");
}

#[test]
fn join_agrees_with_the_standard_library() {
    let parts = strings(&["a", "bc", "", "d e", "é"]);
    assert_eq!(join(&parts, "; "), parts.join("; "));
    assert_eq!(join(&parts, ""), parts.join(""));
}

#[test]
fn blank_answers_hold_white_space_only() {
    assert!(is_blank(""));
    assert!(is_blank(" "));
    assert!(is_blank(" \t\n"));
    assert!(is_blank("\u{a0}\u{2003}"));
}

#[test]
fn answers_with_a_letter_are_not_blank() {
    assert!(!is_blank("a"));
    assert!(!is_blank("  a  "));
    assert!(!is_blank("\t.\n"));
}

#[test]
fn concat2_appends() {
    assert_eq!(concat2("album=", ""), "album=");
    assert_eq!(concat2("album=", "Low"), "album=Low");
    assert_eq!(concat2("", ""), "");
}

#[test]
fn or_empty_and_copies_keep_what_they_get() {
    assert_eq!(or_empty(&None), "");
    assert_eq!(or_empty(&Some("x".to_string())), "x");
    assert_eq!(copy_opt(&None), None);
    assert_eq!(copy_opt(&Some("x".to_string())), Some("x".to_string()));
    let list = strings(&["b", "a", "b"]);
    assert_eq!(copy_all(&list), list);
}

#[test]
fn precedes_is_the_order_of_strings() {
    assert!(precedes("", ""));
    assert!(precedes("", "a"));
    assert!(!precedes("a", ""));
    assert!(precedes("a", "a"));
    assert!(precedes("a", "b"));
    assert!(!precedes("b", "a"));
    assert!(precedes("a", "ab"));
    assert!(!precedes("ab", "a"));
    assert!(precedes("B", "a"));
    assert!(precedes("a.mp3", "a/mp3"));
    assert!(precedes("z", "é"));
}

#[test]
fn precedes_agrees_with_the_standard_library() {
    let samples = ["", "a", "A", "ab", "b", "a.mp3", "a/b", "é", "z", "10", "9", "日本"];
    for a in samples {
        for b in samples {
            assert_eq!(precedes(a, b), a <= b, "{:?} {:?}", a, b);
        }
    }
}
