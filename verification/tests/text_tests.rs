use shielddesk_agent::text::{
    chars_of, contains_chars, ends_with_chars, has_prefix, has_substring, has_suffix, matches_at,
    starts_with_chars,
};

#[test]
fn chars_of_keeps_every_character() {
    assert_eq!(chars_of("a.b"), vec!['a', '.', 'b']);
    assert_eq!(chars_of(""), Vec::<char>::new());
    assert_eq!(chars_of("é√"), vec!['é', '√']);
}

#[test]
fn substring_agrees_with_std() {
    let texts = ["", "a", "ab", "abcabc", "xx--yy", "launchd", "/tmp/evil.exe", "ééé"];
    let parts = ["", "a", "b", "bc", "cab", "--", "abcabcd", "é", "/tmp", ".exe"];
    for text in texts {
        for part in parts {
            assert_eq!(has_substring(text, part), text.contains(part), "{text:?} {part:?}");
            assert_eq!(has_prefix(text, part), text.starts_with(part), "{text:?} {part:?}");
            assert_eq!(has_suffix(text, part), text.ends_with(part), "{text:?} {part:?}");
        }
    }
}

#[test]
fn empty_part_is_everywhere() {
    assert!(has_substring("", ""));
    assert!(has_prefix("abc", ""));
    assert!(has_suffix("abc", ""));
}

#[test]
fn matches_at_checks_bounds() {
    let text = chars_of("abc");
    let part = chars_of("bc");
    assert!(matches_at(&text, &part, 1));
    assert!(!matches_at(&text, &part, 0));
    assert!(!matches_at(&text, &part, 2));
    assert!(!matches_at(&text, &part, usize::MAX));
    assert!(starts_with_chars(&text, &chars_of("ab")));
    assert!(ends_with_chars(&text, &part));
    assert!(contains_chars(&text, &chars_of("b")));
    assert!(!contains_chars(&part, &text));
}
