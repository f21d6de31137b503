use chat_core::{is_valid_username, NAME_ALLOWED_CHARS};

#[test]
fn valid_username_check() {
    assert!(is_valid_username("a"));
    assert!(is_valid_username("Test_test tHAt-tester."));
    assert!(is_valid_username("1234567890"));
    assert!(is_valid_username("l33t 5p34k"));
    assert!(!is_valid_username(""));
    assert!(!is_valid_username("Test! @thing"));
    assert!(!is_valid_username("123456789111315171921232527293133"));
}

#[test]
fn username_length_bounds() {
    let longest = "a".repeat(31);
    let too_long = "a".repeat(32);
    assert!(is_valid_username(&longest));
    assert!(!is_valid_username(&too_long));
    assert!(is_valid_username("z"));
}

#[test]
fn every_listed_character_is_allowed() {
    for c in NAME_ALLOWED_CHARS.chars() {
        assert!(is_valid_username(&c.to_string()), "{:?} is in the list", c);
    }
    assert!(is_valid_username(NAME_ALLOWED_CHARS.get(0..31).unwrap()));
}

#[test]
fn unlisted_characters_are_refused() {
    for c in (0u8..128).map(char::from) {
        let listed = NAME_ALLOWED_CHARS.contains(c);
        assert_eq!(is_valid_username(&c.to_string()), listed, "{:?}", c);
    }
    assert!(!is_valid_username("caf\u{e9}"));
    assert!(!is_valid_username("tab\there"));
    assert!(!is_valid_username("line\nbreak"));
}

#[test]
fn long_names_of_wide_characters_are_refused() {
    // 16 characters, 32 bytes: refused for the characters, not for the length.
    assert!(!is_valid_username(&"\u{e9}".repeat(16)));
    assert!(!is_valid_username(&"\u{e9}".repeat(40)));
}
