use goose_tools::text::{
    chars_of, decimal_text, is_white_space, join_from, join_text, last_line, parse_u64, same_text,
    signed_decimal_text, split_once_text, split_text, text_of, trim_text, with_cause,
};

#[test]
fn white_space_is_that_of_unicode() {
    for code in 0..=0x10ffffu32 {
        if let Some(c) = char::from_u32(code) {
            assert_eq!(is_white_space(c), c.is_whitespace(), "{:?}", c);
        }
    }
}

#[test]
fn numbers_are_written_in_decimal() {
    for n in [0, 9, 10, 99, 100, 12_345, u64::MAX] {
        assert_eq!(decimal_text(n), n.to_string());
    }
    for i in [0, 7, -1, 255, i32::MAX, i32::MIN] {
        assert_eq!(signed_decimal_text(i), i.to_string());
    }
}

#[test]
fn decimal_numbers_are_read_back() {
    for n in [0, 1, 10, 4_294_967_296, u64::MAX] {
        assert_eq!(parse_u64(&decimal_text(n)), Some(n));
    }
}

#[test]
fn numbers_are_read_as_std_reads_them() {
    let texts = [
        "",
        "+",
        "-",
        "+7",
        "-0",
        "007",
        " 7",
        "7 ",
        "1_000",
        "٣",
        "++1",
        "18446744073709551615",
        "18446744073709551616",
        "+18446744073709551615",
        "99999999999999999999999",
        "000000000000000000000000000001",
    ];
    for text in texts {
        assert_eq!(parse_u64(text), text.parse::<u64>().ok(), "{:?}", text);
    }
}

#[test]
fn texts_are_split_and_joined_back() {
    for text in ["", "\n", "a", "a\n", "\na", "a\n\nb", "é\nß"] {
        let parts = split_text(text, '\n');
        let expected: Vec<&str> = text.split('\n').collect();
        assert_eq!(parts, expected);
        assert_eq!(join_text(&parts, "\n"), text);
    }
    let parts = vec!["a".to_string(), "b".to_string(), "c".to_string()];
    assert_eq!(join_from(&parts, 1, ", "), "b, c");
    assert_eq!(join_from(&parts, 3, ", "), "");
    assert_eq!(join_text(&vec![], ", "), "");
}

#[test]
fn texts_are_trimmed_as_std_trims_them() {
    for text in ["", "  ", " a b ", "\u{3000}é\u{2028}\n", "x", "\ta", "a\r"] {
        assert_eq!(trim_text(text), text.trim());
    }
}

#[test]
fn the_last_line_with_text_is_found() {
    assert_eq!(last_line("a\n b \n\n \t\n"), Some("b".to_string()));
    assert_eq!(last_line("a\r\n"), Some("a".to_string()));
    assert_eq!(last_line(" \n\n"), None);
    assert_eq!(last_line(""), None);
}

#[test]
fn texts_are_split_once_as_std_splits_them() {
    for text in ["a__b", "__", "a_b", "a__b__c", "a___b", "", "_", "é__ü"] {
        let expected = text
            .split_once("__")
            .map(|(before, after)| (before.to_string(), after.to_string()));
        assert_eq!(split_once_text(text, "__"), expected);
    }
    assert_eq!(
        split_once_text("ab", ""),
        Some((String::new(), "ab".to_string()))
    );
}

#[test]
fn characters_are_taken_one_by_one() {
    assert_eq!(chars_of("aé🦢"), vec!['a', 'é', '🦢']);
    assert_eq!(text_of(&vec!['a', 'é', '🦢'], 1, 3), "é🦢");
    assert!(same_text("é", "é"));
    assert!(!same_text("e", "é"));
    assert_eq!(with_cause("Tool error: ", "x"), "Tool error: x");
}
