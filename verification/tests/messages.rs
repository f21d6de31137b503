use chat_core::types::Message;
use chat_core::uuid_from_num_string;

fn message(id: u128, sender: u128, created: u128, content: &str) -> Message {
    Message { id, sender, created, content: content.to_string() }
}

#[test]
fn encodes_newlines_as_escapes() {
    let m = message(1, 2, 1000, "hi\nthere");
    assert_eq!(m.to_string(), "1,2,1000,hi\\nthere");
}

#[test]
fn decodes_escapes_as_newlines() {
    let m = Message::from_str("1,2,1000,hi\\nthere").unwrap();
    assert_eq!(m, message(1, 2, 1000, "hi\nthere"));
    assert!(m.content.contains('\n'));
}

#[test]
fn round_trip_of_plain_messages() {
    let cases = [
        message(0, 0, 0, ""),
        message(1, 2, 3, "hello"),
        message(u128::MAX, u128::MAX, u128::MAX, "a,b,,c"),
        message(10, 100, 1000, "\n\n\n"),
        message(7, 8, 9, "trailing backslash\\"),
        message(7, 8, 9, "backslash then newline\\\nend"),
        message(7, 8, 9, "\\\\ n \\t n\\"),
        message(42, 43, 1_600_000_000_000, "caf\u{e9} \u{1f600}\nsecond line, with commas"),
    ];
    for m in cases.iter() {
        let line = m.to_string();
        assert!(!line.contains('\n'));
        assert_eq!(&Message::from_str(&line).unwrap(), m);
    }
}

#[test]
fn content_with_a_literal_escape_reads_back_as_a_newline() {
    let m = message(1, 2, 3, "a\\nb");
    let line = m.to_string();
    assert_eq!(line, "1,2,3,a\\nb");
    assert_eq!(Message::from_str(&line).unwrap(), message(1, 2, 3, "a\nb"));
}

#[test]
fn encoding_has_no_leading_zeros_and_exact_digits() {
    assert_eq!(message(0, 10, 105, "x").to_string(), "0,10,105,x");
    assert_eq!(
        message(u128::MAX, 1, 2, "").to_string(),
        "340282366920938463463374607431768211455,1,2,"
    );
}

#[test]
fn content_keeps_its_commas() {
    let m = Message::from_str("5,6,7,a,b,c").unwrap();
    assert_eq!(m, message(5, 6, 7, "a,b,c"));
    let empty = Message::from_str("5,6,7,").unwrap();
    assert_eq!(empty, message(5, 6, 7, ""));
}

#[test]
fn too_few_fields_is_an_error() {
    assert_eq!(Message::from_str(""), Err(()));
    assert_eq!(Message::from_str("1"), Err(()));
    assert_eq!(Message::from_str("1,2"), Err(()));
    assert_eq!(Message::from_str("1,2,3"), Err(()));
}

#[test]
fn fields_that_are_no_numbers_are_errors() {
    assert_eq!(Message::from_str("x,2,3,c"), Err(()));
    assert_eq!(Message::from_str("1,x,3,c"), Err(()));
    assert_eq!(Message::from_str("1,2,x,c"), Err(()));
    assert_eq!(Message::from_str(",2,3,c"), Err(()));
    assert_eq!(Message::from_str("1,,3,c"), Err(()));
    assert_eq!(Message::from_str("1,2,,c"), Err(()));
    assert_eq!(Message::from_str("-1,2,3,c"), Err(()));
    assert_eq!(Message::from_str("1, 2,3,c"), Err(()));
    assert_eq!(Message::from_str("1,2,3.5,c"), Err(()));
    assert_eq!(Message::from_str("340282366920938463463374607431768211456,2,3,c"), Err(()));
}

#[test]
fn numbers_may_carry_a_plus_sign_and_leading_zeros() {
    assert_eq!(Message::from_str("+1,002,+0003,c").unwrap(), message(1, 2, 3, "c"));
}

#[test]
fn parse_goes_through_the_trait_too() {
    let m: Message = "9,8,7,six".parse().unwrap();
    assert_eq!(m, message(9, 8, 7, "six"));
    assert!("9,8".parse::<Message>().is_err());
}

#[test]
fn identifiers_from_decimal_text() {
    assert_eq!(uuid_from_num_string("0"), Ok(0));
    assert_eq!(uuid_from_num_string("12345"), Ok(12345));
    assert_eq!(uuid_from_num_string("+7"), Ok(7));
    assert_eq!(uuid_from_num_string("0007"), Ok(7));
    assert_eq!(
        uuid_from_num_string("340282366920938463463374607431768211455"),
        Ok(u128::MAX)
    );
    assert_eq!(
        uuid_from_num_string("0340282366920938463463374607431768211455"),
        Ok(u128::MAX)
    );
}

#[test]
fn identifiers_from_bad_text() {
    assert_eq!(uuid_from_num_string(""), Err(()));
    assert_eq!(uuid_from_num_string("+"), Err(()));
    assert_eq!(uuid_from_num_string("-"), Err(()));
    assert_eq!(uuid_from_num_string("++1"), Err(()));
    assert_eq!(uuid_from_num_string("-1"), Err(()));
    assert_eq!(uuid_from_num_string("1 "), Err(()));
    assert_eq!(uuid_from_num_string("12a"), Err(()));
    assert_eq!(uuid_from_num_string("\u{661}"), Err(()));
    assert_eq!(uuid_from_num_string("340282366920938463463374607431768211456"), Err(()));
    assert_eq!(uuid_from_num_string("3402823669209384634633746074317682114550"), Err(()));
}

#[test]
fn identifiers_agree_with_std() {
    for text in ["0", "+0", "18446744073709551616", "99999999999999999999999999999999999999", "1e3", " 1"] {
        assert_eq!(uuid_from_num_string(text).ok(), text.parse::<u128>().ok(), "{:?}", text);
    }
}

#[test]
fn text_helpers() {
    assert_eq!(chat_core::text::chars_of("a\u{e9}\n"), vec!['a', '\u{e9}', '\n']);
    let mut out = String::from("n=");
    chat_core::decimal::push_decimal(&mut out, 0);
    chat_core::decimal::push_decimal(&mut out, 9);
    chat_core::decimal::push_decimal(&mut out, 10);
    chat_core::decimal::push_decimal(&mut out, 1_000_000_007);
    assert_eq!(out, "n=09101000000007");
    let mut escaped = String::from(">");
    chat_core::escape::push_escaped(&mut escaped, "a\nb\\n\n");
    assert_eq!(escaped, ">a\\nb\\n\\n");
}
