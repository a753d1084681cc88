// SPDX-License-Identifier: GPL-3.0-or-later

use yeet_cli::text::{
    char_is_space, chars_of, contains_str, decimal_string, find_chars, lowercase_ascii,
    push_char, signed_decimal_string, str_equal, str_is_blank, string_of, sub_chars, trimmed,
};

#[test]
fn whitespace_follows_unicode() {
    for c in [' ', '\t', '\n', '\r', '\u{0B}', '\u{0C}', '\u{85}', '\u{A0}', '\u{2003}', '\u{3000}'] {
        assert!(char_is_space(c), "{c:?}");
        assert_eq!(char_is_space(c), c.is_whitespace());
    }
    for c in ['a', '\0', '\u{200B}', 'é'] {
        assert!(!char_is_space(c), "{c:?}");
    }
    assert_eq!(trimmed("\u{A0} x y \n"), "x y");
    assert_eq!(trimmed("   "), "");
    assert!(str_is_blank(" \t\n"));
    assert!(str_is_blank(""));
    assert!(!str_is_blank(" a "));
}

#[test]
fn numbers_render_in_decimal() {
    assert_eq!(decimal_string(0), "0");
    assert_eq!(decimal_string(1_000_000), "1000000");
    assert_eq!(decimal_string(u64::MAX), u64::MAX.to_string());
    assert_eq!(signed_decimal_string(-128), "-128");
    assert_eq!(signed_decimal_string(i32::MIN), i32::MIN.to_string());
    assert_eq!(signed_decimal_string(7), "7");
}

#[test]
fn character_helpers() {
    let text = chars_of("Hello, World");
    assert_eq!(string_of(&text), "Hello, World");
    assert_eq!(find_chars(&text, &chars_of("o"), 0), Some(4));
    assert_eq!(find_chars(&text, &chars_of("o"), 5), Some(8));
    assert_eq!(find_chars(&text, &chars_of("xyz"), 0), None);
    assert_eq!(string_of(&lowercase_ascii(&chars_of("ÀBc"))), "Àbc");
    assert!(contains_str(&text, "World"));
    assert!(!contains_str(&text, "world"));
    assert_eq!(string_of(&sub_chars(&text, 7, 12)), "World");
    assert!(str_equal("abc", "abc"));
    assert!(!str_equal("abc", "abd"));
    let mut s = String::from("ab");
    push_char(&mut s, 'é');
    assert_eq!(s, "abé");
}
