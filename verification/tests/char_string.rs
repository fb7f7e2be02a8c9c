use rrdbc::char_string::{parser_char_string, CharString};

#[test]
fn test_char_string_to_string_01() {
    assert_eq!(
        CharString("hello".to_string()).to_text(),
        "hello".to_string()
    );
}

#[test]
fn test_char_string_to_string_02() {
    assert_eq!(
        CharString("hello\\Iworld".to_string()).to_text(),
        r#"hello\Iworld"#
    );
}

#[test]
fn test_char_string_to_string_03() {
    assert_eq!(
        CharString("hello\nworld".to_string()).to_text(),
        r#"hello
world"#
    );
}

#[test]
fn test_char_string_01() {
    let s = "\"hello\"";
    assert_eq!(
        parser_char_string(s, 0),
        Ok((CharString("hello".to_string()), s.chars().count()))
    );
}

#[test]
fn test_char_string_02() {
    let s = r#""hello
world""#;
    assert_eq!(
        parser_char_string(s, 0),
        Ok((CharString("hello\nworld".to_string()), s.chars().count()))
    );
}

#[test]
fn test_char_string_03() {
    let s = r#""hello \I world""#;
    assert_eq!(
        parser_char_string(s, 0),
        Ok((CharString("hello \\I world".to_string()), s.chars().count()))
    );
}

#[test]
fn test_char_string_unterminated_is_bad_escape() {
    let s = "\"hello";
    assert_eq!(
        parser_char_string(s, 0),
        Err(rrdbc::error::DbcParseError::BadEscape)
    );
}

#[test]
fn test_char_string_trailing_backslash_is_bad_escape() {
    let s = "\"hello\\";
    assert_eq!(
        parser_char_string(s, 0),
        Err(rrdbc::error::DbcParseError::BadEscape)
    );
}
