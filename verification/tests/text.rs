use pinboard::boundary::{floor_char_boundary, truncate_body, BODY_LIMIT};
use pinboard::text::{chars_of, contains, decimal_text, replace_all};

#[test]
fn floor_of_ascii_is_the_index_itself() {
    assert_eq!(floor_char_boundary("hello", 0), 0);
    assert_eq!(floor_char_boundary("hello", 2), 2);
    assert_eq!(floor_char_boundary("hello", 4), 4);
}

#[test]
fn floor_at_or_past_the_end_is_the_length() {
    assert_eq!(floor_char_boundary("hello", 5), 5);
    assert_eq!(floor_char_boundary("hello", 6), 5);
    assert_eq!(floor_char_boundary("hello", usize::MAX), 5);
    assert_eq!(floor_char_boundary("", 0), 0);
    assert_eq!(floor_char_boundary("", 700), 0);
}

#[test]
fn floor_steps_back_out_of_a_two_byte_character() {
    let s = "h\u{e9}llo";
    assert_eq!(s.len(), 6);
    assert_eq!(floor_char_boundary(s, 1), 1);
    assert_eq!(floor_char_boundary(s, 2), 1);
    assert_eq!(floor_char_boundary(s, 3), 3);
}

#[test]
fn floor_steps_back_out_of_a_three_byte_character() {
    let s = "a\u{20ac}b";
    assert_eq!(s.len(), 5);
    assert_eq!(floor_char_boundary(s, 1), 1);
    assert_eq!(floor_char_boundary(s, 2), 1);
    assert_eq!(floor_char_boundary(s, 3), 1);
    assert_eq!(floor_char_boundary(s, 4), 4);
}

#[test]
fn floor_steps_back_out_of_a_four_byte_character() {
    let s = "a\u{1f600}b";
    assert_eq!(s.len(), 6);
    assert_eq!(floor_char_boundary(s, 1), 1);
    assert_eq!(floor_char_boundary(s, 2), 1);
    assert_eq!(floor_char_boundary(s, 3), 1);
    assert_eq!(floor_char_boundary(s, 4), 1);
    assert_eq!(floor_char_boundary(s, 5), 5);
    assert_eq!(floor_char_boundary("\u{1f600}", 3), 0);
}

#[test]
fn floor_is_always_a_boundary_not_after_the_index() {
    let s = "a\u{e9}\u{20ac}\u{1f600}z\u{1f600}\u{1f600}\u{e9}";
    for index in 0..s.len() + 3 {
        let floor = floor_char_boundary(s, index);
        assert!(s.is_char_boundary(floor));
        if index >= s.len() {
            assert_eq!(floor, s.len());
        } else {
            assert!(floor <= index);
            for between in floor + 1..index + 1 {
                assert!(!s.is_char_boundary(between));
            }
        }
    }
}

#[test]
fn body_limit_is_seven_hundred() {
    assert_eq!(BODY_LIMIT, 700);
}

#[test]
fn body_of_exactly_700_characters_is_unmodified() {
    let content = "x".repeat(700);
    assert_eq!(truncate_body(&content), content);
}

#[test]
fn body_of_short_content_is_unmodified() {
    assert_eq!(truncate_body(""), "");
    assert_eq!(truncate_body("hello"), "hello");
    assert_eq!(truncate_body("h\u{e9}llo"), "h\u{e9}llo");
}

#[test]
fn body_of_701_characters_keeps_700_and_the_ellipsis() {
    let content = "x".repeat(701);
    let body = truncate_body(&content);
    assert_eq!(body, format!("{}...", "x".repeat(700)));
    assert_eq!(body.len(), 703);
}

#[test]
fn body_of_long_content_ends_in_the_ellipsis() {
    let content = "abc ".repeat(1000);
    let body = truncate_body(&content);
    assert!(body.ends_with("..."));
    assert_eq!(&body[..700], &content[..700]);
    assert_eq!(body.len(), 703);
}

#[test]
fn body_is_not_cut_inside_a_character() {
    // 699 units, then a character of two units that straddles the limit.
    let content = format!("{}\u{e9}{}", "x".repeat(699), "y".repeat(10));
    let body = truncate_body(&content);
    assert_eq!(body, format!("{}...", "x".repeat(699)));

    // 698 units, then a character of two units that just fits.
    let content = format!("{}\u{e9}{}", "x".repeat(698), "y".repeat(10));
    let body = truncate_body(&content);
    assert_eq!(body, format!("{}\u{e9}...", "x".repeat(698)));
}

#[test]
fn body_counts_units_not_characters() {
    // 700 characters of two units each are 1400 units: 350 of them fit.
    let content = "\u{e9}".repeat(700);
    let body = truncate_body(&content);
    assert_eq!(body, format!("{}...", "\u{e9}".repeat(350)));

    // Characters of four units: 175 of them fit exactly.
    let content = "\u{1f600}".repeat(200);
    let body = truncate_body(&content);
    assert_eq!(body, format!("{}...", "\u{1f600}".repeat(175)));

    // Characters of three units: 233 of them fit, which leaves one unit.
    let content = "\u{20ac}".repeat(300);
    let body = truncate_body(&content);
    assert_eq!(body, format!("{}...", "\u{20ac}".repeat(233)));
}

#[test]
fn chars_of_lists_the_characters() {
    assert_eq!(chars_of(""), Vec::<char>::new());
    assert_eq!(chars_of("a\u{e9}\u{1f600}"), vec!['a', '\u{e9}', '\u{1f600}']);
}

#[test]
fn contains_finds_a_text_anywhere() {
    assert!(contains("image/png", "image/"));
    assert!(contains("x-image/png", "image/"));
    assert!(contains("some image/", "image/"));
    assert!(contains("abc", ""));
    assert!(contains("", ""));
    assert!(contains("abc", "abc"));
    assert!(!contains("imag/e", "image/"));
    assert!(!contains("", "image/"));
    assert!(!contains("image", "image/"));
    assert!(!contains("IMAGE/png", "image/"));
    assert!(contains("aab", "ab"));
    assert!(contains("\u{e9}image/\u{e9}", "image/"));
}

#[test]
fn contains_agrees_with_std() {
    let hays = ["", "a", "ab", "aab", "abab", "image/png", "text/plain", "\u{e9}a\u{e9}"];
    let needles = ["", "a", "b", "ab", "ba", "image/", "\u{e9}", "a\u{e9}"];
    for hay in hays {
        for needle in needles {
            assert_eq!(contains(hay, needle), hay.contains(needle));
        }
    }
}

#[test]
fn replace_all_replaces_every_occurrence() {
    assert_eq!(replace_all("a%20b%20c", "%20", " "), "a b c");
    assert_eq!(replace_all("%20", "%20", " "), " ");
    assert_eq!(replace_all("%20%20", "%20", " "), "  ");
    assert_eq!(replace_all("abc", "%20", " "), "abc");
    assert_eq!(replace_all("", "%20", " "), "");
    assert_eq!(replace_all("%2", "%20", " "), "%2");
    assert_eq!(replace_all("%%20", "%20", " "), "% ");
    assert_eq!(replace_all("aaa", "aa", "b"), "ba");
    assert_eq!(replace_all("abc", "", "x"), "abc");
    assert_eq!(replace_all("h\u{e9}%20\u{e9}", "%20", "\u{1f600}"), "h\u{e9}\u{1f600}\u{e9}");
}

#[test]
fn replace_all_agrees_with_std() {
    let texts = ["", "a", "aa", "aaa", "aaaa", "abab", "a%20b", "%20%20x%2", "\u{e9}%20"];
    let patterns = ["a", "aa", "ab", "%20", "b", "\u{e9}"];
    let fills = ["", " ", "xy", "a"];
    for text in texts {
        for pattern in patterns {
            for fill in fills {
                assert_eq!(replace_all(text, pattern, fill), text.replace(pattern, fill));
            }
        }
    }
}

#[test]
fn decimal_text_writes_the_number() {
    assert_eq!(decimal_text(0), "0");
    assert_eq!(decimal_text(7), "7");
    assert_eq!(decimal_text(10), "10");
    assert_eq!(decimal_text(12345), "12345");
    assert_eq!(decimal_text(1091969030694375444), "1091969030694375444");
    assert_eq!(decimal_text(u64::MAX), "18446744073709551615");
    for n in 0..1200u64 {
        assert_eq!(decimal_text(n), n.to_string());
    }
}

#[test]
fn a_body_never_exceeds_the_limit_and_the_ellipsis() {
    let contents = [
        String::new(),
        "x".repeat(700),
        "x".repeat(701),
        "\u{e9}".repeat(351),
        "\u{20ac}".repeat(234),
        "\u{1f600}".repeat(176),
        format!("{}\u{1f600}", "x".repeat(697)),
        format!("{}\u{1f600}", "x".repeat(698)),
        format!("{}\u{1f600}", "x".repeat(699)),
    ];
    for content in contents {
        let body = truncate_body(&content);
        assert!(body.len() <= BODY_LIMIT + 3);
        if content.len() <= BODY_LIMIT {
            assert_eq!(body, content);
        } else {
            assert!(body.ends_with("..."));
            let kept = &body[..body.len() - 3];
            assert!(content.starts_with(kept));
            assert!(kept.len() <= BODY_LIMIT);
            let next = content[kept.len()..].chars().next().expect("something was cut off");
            assert!(kept.len() + next.len_utf8() > BODY_LIMIT);
        }
    }
}
