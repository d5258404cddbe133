use check_qualys::text::{folds_to, same_text, to_upper};

#[test]
fn upper_case_of_letters() {
    assert_eq!(to_upper('a'), 'A');
    assert_eq!(to_upper('m'), 'M');
    assert_eq!(to_upper('z'), 'Z');
}

#[test]
fn upper_case_leaves_the_rest() {
    assert_eq!(to_upper('A'), 'A');
    assert_eq!(to_upper('Z'), 'Z');
    assert_eq!(to_upper('_'), '_');
    assert_eq!(to_upper(' '), ' ');
    assert_eq!(to_upper('0'), '0');
    assert_eq!(to_upper('`'), '`');
    assert_eq!(to_upper('{'), '{');
    assert_eq!(to_upper('ä'), 'ä');
    assert_eq!(to_upper('ß'), 'ß');
    assert_eq!(to_upper('\u{131}'), '\u{131}');
}

#[test]
fn same_text_on_equal_texts() {
    assert!(same_text("", ""));
    assert!(same_text("Ready", "Ready"));
    assert!(same_text("grüß", "grüß"));
}

#[test]
fn same_text_on_different_texts() {
    assert!(!same_text("Ready", "ready"));
    assert!(!same_text("Ready", "Read"));
    assert!(!same_text("Read", "Ready"));
    assert!(!same_text("", "A"));
    assert!(!same_text("Ready", "Reädy"));
    assert!(!same_text("ab", "ba"));
}

#[test]
fn same_text_counts_characters_not_bytes() {
    assert!(!same_text("é", "e\u{301}"));
    assert!(!same_text("é", "ab"));
}

#[test]
fn folds_to_ignores_letter_case() {
    assert!(folds_to("ready", "READY"));
    assert!(folds_to("Ready", "READY"));
    assert!(folds_to("READY", "READY"));
    assert!(folds_to("in_progress", "IN_PROGRESS"));
    assert!(folds_to("", ""));
}

#[test]
fn folds_to_takes_the_pattern_as_it_is() {
    assert!(!folds_to("ready", "ready"));
    assert!(!folds_to("READY", "Ready"));
}

#[test]
fn folds_to_tells_texts_apart() {
    assert!(!folds_to("read", "READY"));
    assert!(!folds_to("readyy", "READY"));
    assert!(!folds_to("reedy", "READY"));
    assert!(!folds_to("in progress", "IN_PROGRESS"));
    assert!(!folds_to("ｒeady", "READY"));
}
