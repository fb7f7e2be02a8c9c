use rrdbc::char_string::CharString;
use rrdbc::message::{parser_message_header, MessageHeader};
use rrdbc::number::Number;
use rrdbc::signal::{
    parser_signal, parser_signal_multiplexer, ByteOrder, MultiplexerIndicator, Signal, ValueType,
};

#[test]
fn test_dbc_message_header_01() {
    let s = "BO_ 2348941054 Normal: 8 Vector__XXX";
    assert_eq!(
        parser_message_header(s, 0),
        Ok((
            MessageHeader {
                id: 2_348_941_054,
                name: "Normal".into(),
                size: 8,
                transmitter: "Vector__XXX".into(),
            },
            s.chars().count()
        ))
    );
}

#[test]
fn test_dbc_message_header_02() {
    let s = "BO_ 2147487969 CANMultiplexed: 2 Node0";
    assert_eq!(
        parser_message_header(s, 0),
        Ok((
            MessageHeader {
                id: 2_147_487_969,
                name: "CANMultiplexed".into(),
                size: 2,
                transmitter: "Node0".into(),
            },
            s.chars().count()
        ))
    );
}

#[test]
fn test_dbc_message_header_03() {
    let s = "BO_ 1234 CANMessage: 8 Node0";
    assert_eq!(
        parser_message_header(s, 0),
        Ok((
            MessageHeader {
                id: 1234,
                name: "CANMessage".into(),
                size: 8,
                transmitter: "Node0".into(),
            },
            s.chars().count()
        ))
    );
}

#[test]
fn test_dbc_message_header_04() {
    let s = "BO_ 835 BREMSE_33: 8 ABS";
    assert_eq!(
        parser_message_header(s, 0),
        Ok((
            MessageHeader {
                id: 835,
                name: "BREMSE_33".into(),
                size: 8,
                transmitter: "ABS".into(),
            },
            s.chars().count()
        ))
    );
}

#[test]
fn test_dbc_message_header_05() {
    let s = "BO_ 117 DRS_RX_ID0: 8 ABS";
    assert_eq!(
        parser_message_header(s, 0),
        Ok((
            MessageHeader {
                id: 117,
                name: "DRS_RX_ID0".into(),
                size: 8,
                transmitter: "ABS".into(),
            },
            s.chars().count()
        ))
    );
}

#[test]
fn test_dbc_message_header_06() {
    let s = "BO_ 1 M1: 8 FOO";
    assert_eq!(
        parser_message_header(s, 0),
        Ok((
            MessageHeader {
                id: 1,
                name: "M1".into(),
                size: 8,
                transmitter: "FOO".into(),
            },
            s.chars().count()
        ))
    );
}

#[test]
fn test_dbc_message_header_07() {
    let s = "BO_ 1234 INV2EventMsg1: 8 Inv2";
    assert_eq!(
        parser_message_header(s, 0),
        Ok((
            MessageHeader {
                id: 1234,
                name: "INV2EventMsg1".into(),
                size: 8,
                transmitter: "Inv2".into(),
            },
            s.chars().count()
        ))
    );
}

#[test]
fn test_dbc_message_header_08() {
    let s = "BO_ 83 Message_2: 8 ECU2";
    assert_eq!(
        parser_message_header(s, 0),
        Ok((
            MessageHeader {
                id: 83,
                name: "Message_2".into(),
                size: 8,
                transmitter: "ECU2".into(),
            },
            s.chars().count()
        ))
    );
}

#[test]
fn test_dbc_message_header_09() {
    let s = "BO_ 2147483705 TheMessage: 8 Vector__XXX";
    assert_eq!(
        parser_message_header(s, 0),
        Ok((
            MessageHeader {
                id: 2_147_483_705,
                name: "TheMessage".into(),
                size: 8,
                transmitter: "Vector__XXX".into(),
            },
            s.chars().count()
        ))
    );
}

#[test]
fn test_dbc_message_header_10() {
    let s = "BO_ 1 Message1: 1 Vector__XXX";
    assert_eq!(
        parser_message_header(s, 0),
        Ok((
            MessageHeader {
                id: 1,
                name: "Message1".into(),
                size: 1,
                transmitter: "Vector__XXX".into(),
            },
            s.chars().count()
        ))
    );
}

#[test]
fn test_dbc_signal_multiplexer_01() {
    assert_eq!(
        parser_signal_multiplexer("M", 0),
        (
            Some(MultiplexerIndicator {
                multiplexer_signal: None,
                multiplexer_switch: Some(())
            }),
            1
        )
    );
}

#[test]
fn test_dbc_signal_multiplexer_02() {
    assert_eq!(
        parser_signal_multiplexer("m0", 0),
        (
            Some(MultiplexerIndicator {
                multiplexer_signal: Some(0),
                multiplexer_switch: None
            }),
            2
        )
    );
}

#[test]
fn test_dbc_signal_multiplexer_03() {
    assert_eq!(
        parser_signal_multiplexer("m123", 0),
        (
            Some(MultiplexerIndicator {
                multiplexer_signal: Some(123),
                multiplexer_switch: None
            }),
            4
        )
    );
}

#[test]
fn test_dbc_signal_multiplexer_04() {
    assert_eq!(
        parser_signal_multiplexer("m3M", 0),
        (
            Some(MultiplexerIndicator {
                multiplexer_signal: Some(3),
                multiplexer_switch: Some(())
            }),
            3
        )
    );
}

#[test]
fn test_dbc_signal_01() {
    let s = " SG_ AY1 : 32|16@1+ (0.000127465,-4.1768) [-4.1768|4.1765] \"g\"  ABS\n\n";
    let ret = parser_signal(s, 0);
    match ret {
        Ok((signal, _end)) => {
            assert_eq!(
                signal,
                Signal {
                    name: "AY1".into(),
                    multiplexer: None,
                    start_bit: 32,
                    size: 16,
                    byte_order: ByteOrder::LittleEndian,
                    value_type: ValueType::Unsigned,
                    factor: Number("0.000127465".to_string()),
                    offset: Number("-4.1768".to_string()),
                    min: Some(Number("-4.1768".to_string())),
                    max: Some(Number("4.1765".to_string())),
                    unit: Some(CharString("g".into())),
                    receivers: Some(vec!["ABS".into()]),
                }
            );
        }
        Err(err) => panic!("err = {:?}", err),
    }
}

#[test]
fn test_dbc_signal_02() {
    let s = " SG_ S2 m0 : 8|8@1- (1.0,0.0) [0.0|0.0] \"\" Vector__XXX\n\n";
    let ret = parser_signal(s, 0);
    match ret {
        Ok((signal, _end)) => {
            assert_eq!(
                signal,
                Signal {
                    name: "S2".into(),
                    multiplexer: Some(MultiplexerIndicator {
                        multiplexer_signal: Some(0),
                        multiplexer_switch: None
                    }),
                    start_bit: 8,
                    size: 8,
                    byte_order: ByteOrder::LittleEndian,
                    value_type: ValueType::Signed,
                    factor: Number("1.0".to_string()),
                    offset: Number("0.0".to_string()),
                    min: Some(Number("0.0".to_string())),
                    max: Some(Number("0.0".to_string())),
                    unit: Some(CharString("".into())),
                    receivers: Some(vec!["Vector__XXX".into()]),
                }
            );
        }
        Err(err) => panic!("err = {:?}", err),
    }
}

#[test]
fn test_dbc_signal_03() {
    let s = " SG_ S2 m0 : 8|8@1- (1,0) [0|0] \"\" Vector__XXX\n\n";
    let ret = parser_signal(s, 0);
    match ret {
        Ok((signal, _end)) => {
            assert_eq!(
                signal,
                Signal {
                    name: "S2".into(),
                    multiplexer: Some(MultiplexerIndicator {
                        multiplexer_signal: Some(0),
                        multiplexer_switch: None
                    }),
                    start_bit: 8,
                    size: 8,
                    byte_order: ByteOrder::LittleEndian,
                    value_type: ValueType::Signed,
                    factor: Number("1".to_string()),
                    offset: Number("0".to_string()),
                    min: Some(Number("0".to_string())),
                    max: Some(Number("0".to_string())),
                    unit: Some(CharString("".into())),
                    receivers: Some(vec!["Vector__XXX".into()]),
                }
            );
        }
        Err(err) => panic!("err = {:?}", err),
    }
}

#[test]
fn test_dbc_signal_04() {
    let s = "  SG_ Signal1 : 32|32@1+ (100,0) [0|100] \"%\"  Node1,Node2\n\n";
    let ret = parser_signal(s, 0);
    match ret {
        Ok((signal, _end)) => {
            assert_eq!(
                signal,
                Signal {
                    name: "Signal1".into(),
                    multiplexer: None,
                    start_bit: 32,
                    size: 32,
                    byte_order: ByteOrder::LittleEndian,
                    value_type: ValueType::Unsigned,
                    factor: Number("100".to_string()),
                    offset: Number("0".to_string()),
                    min: Some(Number("0".to_string())),
                    max: Some(Number("100".to_string())),
                    unit: Some(CharString("%".into())),
                    receivers: Some(vec!["Node1".into(), "Node2".into()]),
                }
            );
        }
        Err(err) => panic!("err = {:?}", err),
    }
}
