use papyru2::file_tree::{entry_precedes, label_precedes, HIDDEN_DIRECTORY, UNKNOWN_LABEL};
use papyru2::sl_editor_association::{
    detects_backspace_at_line_head, transfer_on_backspace, transfer_on_down, transfer_on_enter,
};
use papyru2::text::{eq_ignore_ascii_case, push_decimal, split_at_char_index, split_first_line};

#[test]
fn split_first_line_cuts_at_the_first_break_only() {
    assert_eq!(split_first_line(""), (String::new(), String::new()));
    assert_eq!(split_first_line("one"), ("one".to_string(), String::new()));
    assert_eq!(split_first_line("one\n"), ("one".to_string(), String::new()));
    assert_eq!(split_first_line("\n"), (String::new(), String::new()));
    assert_eq!(split_first_line("\ntwo"), (String::new(), "two".to_string()));
    assert_eq!(split_first_line("one\ntwo\nthree"), ("one".to_string(), "two\nthree".to_string()));
    assert_eq!(split_first_line("は世界\n大好き"), ("は世界".to_string(), "大好き".to_string()));
    assert_eq!(split_first_line("a\r\nb"), ("a\r".to_string(), "b".to_string()));
}

#[test]
fn split_at_char_index_counts_characters() {
    assert_eq!(split_at_char_index("", 0), Some((String::new(), String::new())));
    assert_eq!(split_at_char_index("", 1), None);
    assert_eq!(split_at_char_index("abc", 0), Some((String::new(), "abc".to_string())));
    assert_eq!(split_at_char_index("abc", 3), Some(("abc".to_string(), String::new())));
    assert_eq!(split_at_char_index("abc", 4), None);
    assert_eq!(
        split_at_char_index("こんにちは", 2),
        Some(("こん".to_string(), "にちは".to_string()))
    );
    assert_eq!(split_at_char_index("こんにちは", 6), None);
    assert_eq!(split_at_char_index("abc", usize::MAX), None);
}

#[test]
fn push_decimal_writes_every_digit() {
    for (number, text) in [
        (0u64, "0"),
        (7, "7"),
        (10, "10"),
        (99, "99"),
        (100, "100"),
        (1234567890, "1234567890"),
        (u64::MAX, "18446744073709551615"),
    ] {
        let mut out = "n=".to_string();
        push_decimal(&mut out, number);
        assert_eq!(out, format!("n={text}"));
        assert_eq!(out, format!("n={number}"));
    }
}

#[test]
fn ascii_case_is_ignored_for_ascii_letters_only() {
    assert!(eq_ignore_ascii_case("", ""));
    assert!(eq_ignore_ascii_case("bin", "BIN"));
    assert!(eq_ignore_ascii_case("Wayland", "wAYLAND"));
    assert!(!eq_ignore_ascii_case("bin", "bins"));
    assert!(!eq_ignore_ascii_case("bins", "bin"));
    assert!(!eq_ignore_ascii_case("bin", "bim"));
    assert!(!eq_ignore_ascii_case("@", "`"));
    assert!(!eq_ignore_ascii_case("[", "{"));
    assert!(!eq_ignore_ascii_case("é", "É"));
    assert!(eq_ignore_ascii_case("日本a", "日本A"));
    for (left, right) in [("Az", "aZ"), ("a1", "A1"), ("x", "y"), ("k", "K"), ("ı", "I")] {
        assert_eq!(eq_ignore_ascii_case(left, right), left.eq_ignore_ascii_case(right));
    }
}

#[test]
fn enter_with_empty_editor_moves_the_right_part_alone() {
    let result = transfer_on_enter("abcdef", 2, "").expect("transfer");
    assert_eq!(result.new_singleline_text, "ab");
    assert_eq!(result.new_editor_text, "cdef");
    let result = transfer_on_enter("", 0, "body").expect("transfer");
    assert_eq!(result.new_singleline_text, "");
    assert_eq!(result.new_editor_text, "\nbody");
}

#[test]
fn backspace_on_an_empty_editor_transfers_nothing() {
    assert!(transfer_on_backspace("abc", 1, "").is_none());
    assert!(transfer_on_backspace("abc", 1, "\n").is_none());
    assert!(transfer_on_backspace("abc", 100, "\nx").is_some());
    assert!(transfer_on_backspace("abc", 4, "x").is_none());
    let one_line_with_break = transfer_on_backspace("abc", 1, "xyz\n").expect("transfer");
    assert_eq!(one_line_with_break.new_singleline_text, "abcxyz");
    assert_eq!(one_line_with_break.new_singleline_cursor_char, 6);
    assert_eq!(one_line_with_break.new_editor_text, "");
    let inserted = transfer_on_backspace("abc", 1, "xyz\nrest").expect("transfer");
    assert_eq!(inserted.new_singleline_text, "axyzbc");
    assert_eq!(inserted.new_singleline_cursor_char, 1);
    assert_eq!(inserted.new_editor_text, "rest");
}

#[test]
fn down_clamps_to_the_first_line_in_characters() {
    assert_eq!(transfer_on_down(usize::MAX, "は世界\n大好き").new_editor_cursor_char, 3);
    assert_eq!(transfer_on_down(0, "abc").new_editor_cursor_char, 0);
    assert_eq!(transfer_on_down(2, "\nabc").new_editor_cursor_char, 0);
}

#[test]
fn backspace_at_line_head_is_told_from_other_changes() {
    let text = "first\nsecond".to_string();
    assert!(detects_backspace_at_line_head(&text, &text.clone(), 0, 0));
    assert!(!detects_backspace_at_line_head(&text, &text.clone(), 0, 1));
    assert!(!detects_backspace_at_line_head(&text, &text.clone(), 1, 0));
    assert!(!detects_backspace_at_line_head(&text, &"first\nsecond!".to_string(), 0, 0));
    let empty_head = "\nsecond".to_string();
    assert!(!detects_backspace_at_line_head(&empty_head, &empty_head.clone(), 0, 0));
    let empty = String::new();
    assert!(!detects_backspace_at_line_head(&empty, &empty.clone(), 0, 0));
}

#[test]
fn labels_are_ordered_as_the_standard_library_orders_strings() {
    let labels = ["", "a", "A", "ab", "abc", "abd", "b", "Z", "z", "世界", "日本", "é", "e", "10", "9"];
    for left in labels {
        for right in labels {
            assert_eq!(label_precedes(left, right), left < right);
        }
    }
}

#[test]
fn folders_come_before_files_and_labels_decide_within_a_kind() {
    assert!(entry_precedes(true, "zeta", false, "alpha"));
    assert!(!entry_precedes(false, "alpha", true, "zeta"));
    assert!(entry_precedes(true, "alpha", true, "beta"));
    assert!(!entry_precedes(true, "beta", true, "alpha"));
    assert!(entry_precedes(false, "a.txt", false, "b.txt"));
    assert!(!entry_precedes(false, "a.txt", false, "a.txt"));
    assert_eq!(HIDDEN_DIRECTORY, ".git");
    assert_eq!(UNKNOWN_LABEL, "Unknown");

    let mut items = vec![(false, "b"), (true, "y"), (false, "a"), (true, "x"), (false, "a")];
    items.sort_by(|l, r| {
        if entry_precedes(l.0, l.1, r.0, r.1) {
            std::cmp::Ordering::Less
        } else if entry_precedes(r.0, r.1, l.0, l.1) {
            std::cmp::Ordering::Greater
        } else {
            std::cmp::Ordering::Equal
        }
    });
    assert_eq!(items, vec![(true, "x"), (true, "y"), (false, "a"), (false, "a"), (false, "b")]);
}
