use lox::text::{push_decimal, same_text, slice_to_string};

#[test]
fn a_slice_of_characters_as_a_string() {
    let source: Vec<char> = "héllo wörld".chars().collect();
    assert_eq!(slice_to_string(&source, 0, source.len()), "héllo wörld");
    assert_eq!(slice_to_string(&source, 0, 5), "héllo");
    assert_eq!(slice_to_string(&source, 6, 11), "wörld");
    assert_eq!(slice_to_string(&source, 1, 2), "é");
    assert_eq!(slice_to_string(&source, 3, 3), "");
    assert_eq!(slice_to_string(&Vec::new(), 0, 0), "");
}

#[test]
fn decimal_numerals_are_appended() {
    let mut out = String::from("line ");
    push_decimal(&mut out, 0);
    assert_eq!(out, "line 0");
    push_decimal(&mut out, 7);
    assert_eq!(out, "line 07");
    push_decimal(&mut out, 10);
    assert_eq!(out, "line 0710");
    push_decimal(&mut out, 9876543210);
    assert_eq!(out, "line 07109876543210");
    let mut out = String::new();
    push_decimal(&mut out, usize::MAX);
    assert_eq!(out, usize::MAX.to_string());
    for n in [1usize, 9, 11, 99, 100, 101, 999, 1000, 123456] {
        let mut out = String::new();
        push_decimal(&mut out, n);
        assert_eq!(out, n.to_string());
    }
}

#[test]
fn texts_are_compared_character_by_character() {
    assert!(same_text("", ""));
    assert!(same_text("and", "and"));
    assert!(same_text("é✓", "é✓"));
    assert!(!same_text("and", "an"));
    assert!(!same_text("an", "and"));
    assert!(!same_text("and", "ant"));
    assert!(!same_text("", " "));
    assert!(!same_text("é", "e"));
}
