use ddns_updater::text::{char_is_white_space, chars_of, contains, contains_chars, trim};

#[test]
fn chars_of_keeps_every_character_in_order() {
    assert_eq!(chars_of("a.ü"), vec!['a', '.', 'ü']);
    assert_eq!(chars_of(""), Vec::<char>::new());
}

#[test]
fn contains_finds_a_run_anywhere() {
    assert!(contains("good 1.2.3.4", "good"));
    assert!(contains("xxgood", "good"));
    assert!(contains("xgoodx", "good"));
    assert!(contains("good", "good"));
}

#[test]
fn contains_wants_the_whole_run_unbroken() {
    assert!(!contains("goo", "good"));
    assert!(!contains("go od", "good"));
    assert!(!contains("doog", "good"));
    assert!(!contains("", "good"));
    assert!(!contains("Good", "good"));
}

#[test]
fn contains_finds_the_empty_run_everywhere() {
    assert!(contains("abc", ""));
    assert!(contains("", ""));
}

#[test]
fn contains_finds_a_run_after_a_false_start() {
    assert!(contains("gogood", "good"));
    assert!(contains("aab", "ab"));
    assert!(!contains("aaa", "ab"));
}

#[test]
fn contains_chars_agrees_with_contains() {
    let hay = chars_of("<ErrCount>0</ErrCount>");
    assert!(contains_chars(&hay, &chars_of("0</Err")));
    assert!(!contains_chars(&hay, &chars_of("1</Err")));
    assert!(!contains_chars(&chars_of("ab"), &chars_of("abc")));
}

#[test]
fn trim_takes_white_space_from_both_ends() {
    assert_eq!(trim("  203.0.113.7\n"), "203.0.113.7");
    assert_eq!(trim("\t\r\n 2001:db8::1 \u{3000}"), "2001:db8::1");
    assert_eq!(trim("203.0.113.7"), "203.0.113.7");
}

#[test]
fn trim_keeps_white_space_inside() {
    assert_eq!(trim(" a b "), "a b");
}

#[test]
fn trim_of_white_space_alone_is_empty() {
    assert_eq!(trim(" \n\t "), "");
    assert_eq!(trim(""), "");
}

#[test]
fn trim_agrees_with_the_standard_library() {
    for s in ["", " ", "a", " a", "a ", "\u{85}a\u{a0}", "\u{2003}x y\u{2028}", "ü ", "\u{200b}a"] {
        assert_eq!(trim(s), s.trim(), "for {:?}", s);
    }
}

#[test]
fn white_space_is_what_the_standard_library_says() {
    let mut n: u32 = 0;
    while n <= 0x10FFFF {
        if let Some(c) = char::from_u32(n) {
            assert_eq!(char_is_white_space(c), c.is_whitespace(), "for U+{:04X}", n);
        }
        n += 1;
    }
}
