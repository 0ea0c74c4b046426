use diff_config::text::{same_label, same_text};

#[test]
fn equal_texts_are_the_same() {
    assert!(same_text("", ""));
    assert!(same_text("left", "left"));
    assert!(same_text(" ", " "));
    let built = String::from("ri") + "ght";
    assert!(same_text(&built, "right"));
}

#[test]
fn texts_of_different_length_differ() {
    assert!(!same_text("", " "));
    assert!(!same_text("left", "lef"));
    assert!(!same_text("lef", "left"));
}

#[test]
fn texts_of_equal_length_differ_where_a_byte_does() {
    assert!(!same_text("<", ">"));
    assert!(!same_text("-", "+"));
    assert!(!same_text("left", "lefT"));
    assert!(!same_text("left", "Left"));
    assert!(!same_text("abc", "abd"));
}

#[test]
fn texts_beyond_ascii_compare_by_character() {
    assert!(same_text("\u{2190}", "\u{2190}"));
    assert!(!same_text("\u{2190}", "\u{2192}"));
    assert!(!same_text("\u{e9}", "e\u{301}"));
    assert!(!same_text("\u{e9}", "\u{e8}"));
}

#[test]
fn same_text_is_symmetric() {
    let samples = ["", " ", "<", ">", "left", "right", "\u{2190}"];
    for a in samples {
        for b in samples {
            assert_eq!(same_text(a, b), same_text(b, a));
            assert_eq!(same_text(a, b), a == b);
        }
    }
}

#[test]
fn labels_compare_presence_then_text() {
    assert!(same_label(None, None));
    assert!(!same_label(None, Some("")));
    assert!(!same_label(Some(""), None));
    assert!(same_label(Some(""), Some("")));
    assert!(same_label(Some("x"), Some("x")));
    assert!(!same_label(Some("x"), Some("y")));
    assert!(!same_label(Some("x"), Some("xy")));
}
