use rrdbc::error::DbcParseError;
use rrdbc::lexer::{dbc_ident, parse_hex_u16, parse_number, parse_u32};

#[test]
fn test_float_value_01() {
    let s = "0.0";
    match parse_number(s, 0) {
        Ok((t, end)) => {
            assert_eq!(end, s.chars().count());
            assert_eq!(t.parse::<f64>().unwrap(), 0.0);
        }
        Err(err) => panic!("err = {:?}", err),
    }
}

#[test]
fn test_float_value_02() {
    let s = "1.52588e-05";
    match parse_number(s, 0) {
        Ok((t, end)) => {
            assert_eq!(end, s.chars().count());
            assert_eq!(t.parse::<f64>().unwrap(), 1.52588e-05);
        }
        Err(err) => panic!("err = {:?}", err),
    }
}

#[test]
fn test_float_value_03() {
    let s = "1.52588E-05";
    match parse_number(s, 0) {
        Ok((t, end)) => {
            assert_eq!(end, s.chars().count());
            assert_eq!(t.parse::<f64>().unwrap(), 1.52588e-05);
        }
        Err(err) => panic!("err = {:?}", err),
    }
}

#[test]
fn test_dbc_identifier_01() {
    assert_eq!(dbc_ident("a", 0), Ok(("a".to_string(), 1)));
}

#[test]
fn test_dbc_identifier_02() {
    assert_eq!(dbc_ident("BS_", 0), Err(DbcParseError::UseKeywordAsIdentifier));
}

#[test]
fn test_dbc_identifier_03() {
    assert_eq!(dbc_ident("hello_world", 0), Ok(("hello_world".to_string(), 11)));
}

#[test]
fn test_dbc_identifier_04() {
    assert_eq!(dbc_ident("_HelloWorld", 0), Ok(("_HelloWorld".to_string(), 11)));
}

#[test]
fn test_exact_keyword_rejected() {
    // Only an identifier that is exactly a reserved keyword is rejected;
    // a longer identifier that merely starts with one is a plain name.
    assert_eq!(dbc_ident("VAL_TABLE_", 0), Err(DbcParseError::UseKeywordAsIdentifier));
    assert_eq!(dbc_ident("VERSIONS", 0), Ok(("VERSIONS".to_string(), 8)));
    assert_eq!(dbc_ident("BS_x", 0), Ok(("BS_x".to_string(), 4)));
}

#[test]
fn test_hyphen_ends_identifier() {
    assert_eq!(dbc_ident("a-b", 0), Ok(("a".to_string(), 1)));
}

#[test]
fn test_number_integer_overflow_is_bad_int() {
    assert_eq!(
        parse_number("99999999999999999999", 0),
        Err(DbcParseError::BadInt)
    );
}

#[test]
fn test_number_keeps_leading_zero_rule() {
    // An integer body starting with `0` consumes only that digit.
    assert_eq!(parse_number("007", 0), Ok(("0".to_string(), 1)));
}

#[test]
fn test_u32_overflow_fails() {
    assert_eq!(parse_u32("4294967296", 0), None);
    assert_eq!(parse_u32("4294967295", 0), Some((4294967295, 10)));
}

#[test]
fn test_hex_u16() {
    assert_eq!(parse_hex_u16("8000", 0), Some((0x8000, 4)));
    assert_eq!(parse_hex_u16("8abc", 0), Some((0x8ABC, 4)));
    assert_eq!(parse_hex_u16("10000", 0), None);
}

#[test]
fn test_c_identifier_01() {
    assert_eq!(rrdbc::lexer::c_identifier("a", 0), Some(("a".to_string(), 1)));
}

#[test]
fn test_c_identifier_02() {
    assert_eq!(rrdbc::lexer::c_identifier("abc", 0), Some(("abc".to_string(), 3)));
}

#[test]
fn test_c_identifier_03() {
    assert_eq!(
        rrdbc::lexer::c_identifier("hello_world", 0),
        Some(("hello_world".to_string(), 11))
    );
}

#[test]
fn test_c_identifier_04() {
    assert_eq!(
        rrdbc::lexer::c_identifier("_hello_world", 0),
        Some(("_hello_world".to_string(), 12))
    );
}

#[test]
fn test_c_identifier_05() {
    assert_eq!(
        rrdbc::lexer::c_identifier("_hello_world_123zzz", 0),
        Some(("_hello_world_123zzz".to_string(), 19))
    );
}

#[test]
fn test_c_identifier_06() {
    assert_eq!(
        rrdbc::lexer::c_identifier("BigData", 0),
        Some(("BigData".to_string(), 7))
    );
}

#[test]
fn test_c_identifier_07() {
    // A hyphen ends a plain C identifier.
    assert_eq!(
        rrdbc::lexer::c_identifier("Big-Data", 0),
        Some(("Big".to_string(), 3))
    );
}
