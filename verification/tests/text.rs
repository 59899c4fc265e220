use nv_getter::lookup::copy_texts;
use nv_getter::text::{
    bytes_eq, chars_of, decimal_text, digits_only, parse_digits, read_number, str_eq, text_of,
    to_ascii_lower, to_lower_char,
};

#[test]
fn chars_and_text_convert_into_each_other() {
    let chars = chars_of("aé𝄞z");
    assert_eq!(chars, vec!['a', 'é', '𝄞', 'z']);
    assert_eq!(text_of(&chars, 0, 4), "aé𝄞z");
    assert_eq!(text_of(&chars, 1, 3), "é𝄞");
    assert_eq!(text_of(&chars, 2, 2), "");
}

#[test]
fn texts_are_equal_when_their_characters_are() {
    assert!(str_eq("", ""));
    assert!(str_eq("etag", "etag"));
    assert!(!str_eq("etag", "etaG"));
    assert!(!str_eq("etag", "etag "));
    assert!(bytes_eq(&[1, 2, 3], &[1, 2, 3]));
    assert!(!bytes_eq(&[1, 2, 3], &[1, 2, 4]));
    assert!(!bytes_eq(&[1, 2, 3], &[1, 2]));
}

#[test]
fn lower_casing_touches_ascii_letters_only() {
    assert_eq!(to_lower_char('A'), 'a');
    assert_eq!(to_lower_char('Z'), 'z');
    assert_eq!(to_lower_char('@'), '@');
    assert_eq!(to_lower_char('['), '[');
    assert_eq!(to_lower_char('É'), 'É');
    assert_eq!(to_ascii_lower("Content-TYPE: É 9"), "content-type: É 9");
    assert_eq!(to_ascii_lower(&to_ascii_lower("ETag")), to_ascii_lower("ETag"));
}

#[test]
fn numbers_are_written_in_decimal() {
    assert_eq!(decimal_text(0), "0");
    assert_eq!(decimal_text(9), "9");
    assert_eq!(decimal_text(10), "10");
    assert_eq!(decimal_text(404), "404");
    assert_eq!(decimal_text(u64::MAX), "18446744073709551615");
}

#[test]
fn copying_texts_keeps_them() {
    let texts = vec!["a".to_string(), String::new(), "b c".to_string()];
    assert_eq!(copy_texts(&texts), texts);
}

#[test]
fn numbers_are_read_from_decimal_digits() {
    assert_eq!(read_number("0", 10), Some(0));
    assert_eq!(read_number("10", 10), Some(10));
    assert_eq!(read_number("11", 10), None);
    assert_eq!(read_number("0042", 100), Some(42));
    assert_eq!(read_number("18446744073709551615", u64::MAX), Some(u64::MAX));
    assert_eq!(read_number("18446744073709551616", u64::MAX), None);
    assert_eq!(read_number("99999999999999999999999999999999999999999", u64::MAX), None);
    for text in ["", " 1", "1 ", "+1", "-1", "1.0", "1e3", "0x10", "１２"] {
        assert_eq!(read_number(text, u64::MAX), None, "{:?}", text);
    }
}

#[test]
fn digits_are_told_from_other_characters() {
    let chars = chars_of("ab123c");
    assert!(digits_only(&chars, 2, 5));
    assert!(digits_only(&chars, 3, 3));
    assert!(!digits_only(&chars, 1, 5));
    assert!(!digits_only(&chars, 2, 6));
    assert_eq!(parse_digits(&chars, 2, 5, 123), Some(123));
    assert_eq!(parse_digits(&chars, 2, 5, 122), None);
    assert_eq!(parse_digits(&chars, 2, 2, 0), Some(0));
}
