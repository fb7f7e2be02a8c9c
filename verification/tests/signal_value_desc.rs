use rrdbc::char_string::CharString;
use rrdbc::signal_value_descriptions::{parser_signal_value_descriptions, SignalValueDescriptions};
use rrdbc::value_descriptions::{ValueDescriptionItem, ValueDescriptions};

#[test]
fn test_parser_signal_value_descriptions_01() {
    let s = r#"VAL_ 2147487969 Value1 3 "Three" 2 "Two" 1 "One" 0 "Zero" ;"#;
    assert_eq!(
        parser_signal_value_descriptions(s, 0),
        Ok((
            SignalValueDescriptions {
                message_id: 2147487969,
                signal_name: "Value1".to_string(),
                value_descriptions: ValueDescriptions {
                    values: vec![
                        ValueDescriptionItem {
                            num: 3,
                            str: CharString("Three".to_string())
                        },
                        ValueDescriptionItem {
                            num: 2,
                            str: CharString("Two".to_string())
                        },
                        ValueDescriptionItem {
                            num: 1,
                            str: CharString("One".to_string())
                        },
                        ValueDescriptionItem {
                            num: 0,
                            str: CharString("Zero".to_string())
                        }
                    ]
                }
            },
            s.chars().count()
        ))
    );
}

#[test]
fn test_signal_value_descriptions_string_01() {
    assert_eq!(
        SignalValueDescriptions {
            message_id: 2147487969,
            signal_name: "Value0".to_string(),
            value_descriptions: ValueDescriptions {
                values: vec![
                    ValueDescriptionItem {
                        num: 2,
                        str: CharString("Value2".to_string())
                    },
                    ValueDescriptionItem {
                        num: 1,
                        str: CharString("Value1".to_string())
                    },
                    ValueDescriptionItem {
                        num: 0,
                        str: CharString("Value0".to_string())
                    }
                ]
            }
        }
        .to_text(),
        r#"VAL_ 2147487969 Value0 2 "Value2" 1 "Value1" 0 "Value0";"#,
    );
}

#[test]
fn test_signal_value_descriptions_string_02() {
    assert_eq!(
        SignalValueDescriptions {
            message_id: 12345,
            signal_name: "signal_name".to_string(),
            value_descriptions: ValueDescriptions { values: vec![] }
        }
        .to_text(),
        r#"VAL_ 12345 signal_name;"#,
    );
}
