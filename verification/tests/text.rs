use rusty_board::text::{blank, same_text, whitespace};

#[test]
fn blank_texts() {
    assert!(blank(""));
    assert!(blank(" "));
    assert!(blank("   "));
    assert!(blank("\t\n\r"));
    assert!(blank("\u{b}\u{c}"));
    assert!(blank("\u{85}\u{a0}\u{1680}\u{2000}\u{200a}\u{2028}\u{2029}\u{202f}\u{205f}\u{3000}"));
}

#[test]
fn texts_that_are_not_blank() {
    assert!(!blank("a"));
    assert!(!blank(" a "));
    assert!(!blank("\t.\n"));
    assert!(!blank("\u{200b}"));
    assert!(!blank("\u{feff}"));
    assert!(!blank("  \u{0}"));
}

#[test]
fn blank_agrees_with_trimming() {
    let samples = ["", " ", "x", " x", "x ", "\u{3000}", "\u{200b}", "\n\n", "a b", "\u{1680}z"];
    for sample in samples {
        assert_eq!(blank(sample), sample.trim().is_empty());
    }
}

#[test]
fn whitespace_agrees_with_the_standard_library() {
    let mut code: u32 = 0;
    while code <= 0x3100 {
        if let Some(c) = char::from_u32(code) {
            assert_eq!(whitespace(c), c.is_whitespace());
        }
        code += 1;
    }
}

#[test]
fn same_text_compares_characters() {
    assert!(same_text("", ""));
    assert!(same_text("user", "user"));
    assert!(!same_text("user", "users"));
    assert!(!same_text("users", "user"));
    assert!(!same_text("user", "usEr"));
    assert!(!same_text("", "a"));
    assert!(same_text("\u{3000}x", "\u{3000}x"));
}
