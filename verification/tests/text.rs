use agent_ui::text::{
    blank, concat2, concat3, decimal, join, replace_char, same_text, white_space,
};

#[test]
fn concat_joins_in_order() {
    assert_eq!(concat2("ab", "cd"), "abcd");
    assert_eq!(concat2("", "x"), "x");
    assert_eq!(concat3("a", "é", "😀"), "aé😀");
}

#[test]
fn same_text_compares_characters() {
    assert!(same_text("", ""));
    assert!(same_text("enter", "enter"));
    assert!(!same_text("enter", "enteR"));
    assert!(!same_text("enter", "ente"));
    assert!(same_text("é😀", "é😀"));
    assert!(!same_text("é", "e"));
}

#[test]
fn white_space_agrees_with_the_standard_library_on_every_character() {
    let mut code: u32 = 0;
    while code <= 0x10FFFF {
        if let Some(c) = char::from_u32(code) {
            assert_eq!(white_space(c), c.is_whitespace(), "U+{:04X}", code);
        }
        code += 1;
    }
}

#[test]
fn blank_is_what_trimming_leaves_empty() {
    let samples = [
        "",
        " ",
        "\t\n\r ",
        "\u{3000}\u{2003}\u{a0}",
        "a",
        "  a  ",
        " \u{200b} ",
        "\u{feff}",
        "你好",
        " \u{85}\u{1680}\u{2028}\u{2029}\u{202f}\u{205f}",
    ];
    for sample in samples {
        assert_eq!(blank(sample), sample.trim().is_empty(), "{:?}", sample);
    }
    assert!(blank("   "));
    assert!(!blank(" x "));
}

#[test]
fn decimal_writes_numbers_as_the_standard_library_does() {
    assert_eq!(decimal(0), "0");
    assert_eq!(decimal(7), "7");
    assert_eq!(decimal(10), "10");
    assert_eq!(decimal(105), "105");
    assert_eq!(decimal(9_999), "9999");
    assert_eq!(decimal(usize::MAX), usize::MAX.to_string());
    let mut n: usize = 0;
    while n < 2_000 {
        assert_eq!(decimal(n), n.to_string());
        n += 1;
    }
}

#[test]
fn join_puts_the_separator_between() {
    let none: Vec<String> = Vec::new();
    assert_eq!(join(&none, "\n"), "");
    assert_eq!(join(&vec!["a".to_string()], "\n"), "a");
    assert_eq!(join(&vec!["a".to_string(), "b".to_string(), "c".to_string()], "\n"), "a\nb\nc");
    assert_eq!(join(&vec!["".to_string(), "".to_string()], ", "), ", ");
    let lines = vec!["x".to_string(), "".to_string(), "z".to_string()];
    assert_eq!(join(&lines, "-"), lines.join("-"));
}

#[test]
fn replace_char_replaces_every_occurrence() {
    assert_eq!(replace_char("", '\n', " "), "");
    assert_eq!(replace_char("a\nb\n\nc", '\n', " "), "a b  c");
    assert_eq!(replace_char("\n", '\n', ""), "");
    assert_eq!(replace_char("aé😀é", 'é', "ee"), "aee😀ee");
    assert_eq!(replace_char("aé😀é", '😀', "é"), "aééé");
    assert_eq!(replace_char("abc", 'x', "y"), "abc");
    for sample in ["", "\n\n", "x\ny", "你\n好", "no break"] {
        assert_eq!(replace_char(sample, '\n', " "), sample.replace('\n', " "));
    }
}
