use doubao_voice_input::text::{contains_chars, decimal_string, hex_string, push_decimal_u64, chars_of};

#[test]
fn decimal_of_zero_positive_negative() {
    assert_eq!(decimal_string(0), "0");
    assert_eq!(decimal_string(1719000000123), "1719000000123");
    assert_eq!(decimal_string(-42), "-42");
    assert_eq!(decimal_string(i64::MIN), i64::MIN.to_string());
    assert_eq!(decimal_string(i64::MAX), i64::MAX.to_string());
}

#[test]
fn decimal_unsigned_appends() {
    let mut s = String::from("frame ");
    push_decimal_u64(&mut s, 550);
    assert_eq!(s, "frame 550");
}

#[test]
fn hex_bytes_upper_and_lower() {
    assert_eq!(hex_string(&[0xbe, 0xef, 0x00, 0x0a], true), "BEEF000A");
    assert_eq!(hex_string(&[0xbe, 0xef, 0x00, 0x0a], false), "beef000a");
    assert_eq!(hex_string(&[], true), "");
}

#[test]
fn substring_search() {
    let hay = chars_of("error 50700000 happened");
    assert!(contains_chars(&hay, &chars_of("50700000")));
    assert!(!contains_chars(&hay, &chars_of("50700001")));
    assert!(contains_chars(&hay, &chars_of("")));
    assert!(!contains_chars(&chars_of("ab"), &chars_of("abc")));
    assert!(contains_chars(&chars_of("ab"), &chars_of("ab")));
}

#[test]
fn chars_of_keeps_unicode() {
    assert_eq!(chars_of("录音ab"), vec!['录', '音', 'a', 'b']);
}
