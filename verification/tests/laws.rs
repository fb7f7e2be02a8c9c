//! Concrete checks of the library's stated properties: the parse/render
//! round trip, quoted-string round trips, the access-type encoding law,
//! order preservation, and the all-or-nothing full-input rule.

use rrdbc::char_string::CharString;
use rrdbc::env_var::{decode_env_var_type, encode_access, EnvVarType};
use rrdbc::error::DbcParseError;
use rrdbc::message::parser_dbc_message;
use rrdbc::network_ast::parse_dbc;
use rrdbc::signal::parser_signal;
use rrdbc::version::{parser_version, Version};

const DOC: &str = r#"VERSION "1.0"


NS_:
    BS_
    CM_

BS_:
BU_: ABS DRS_MM5_10

BO_ 117 DRS_RX_ID0: 8 ABS

BO_ 112 MM5_10_TX1: 8 DRS_MM5_10
 SG_ Yaw_Rate : 0|16@1+ (0.005,-163.84) [-163.84|163.83] "deg/s"  ABS
 SG_ AY1 : 32|16@1+ (0.000127465,-4.1768) [-4.1768|4.1765] "g"  ABS

EV_ UnrestrictedEnvVar: 0 [0|0] "Nm" 0 1 DUMMY_NODE_VECTOR8000  Node0;

ENVVAR_DATA_ RWEnvVar_wData: 10;

CM_ BU_ ABS "brakes";

BA_DEF_ SG_  "SGEnumAttribute" ENUM  "Val0","Val1","Val2";

BA_DEF_DEF_  "SGEnumAttribute" "Val0";

BA_ "SGEnumAttribute" SG_ 112 Yaw_Rate 2;

VAL_ 112 Yaw_Rate 1 "one" 0 "zero" ;

VAL_ UnrestrictedEnvVar 1 "on" 0 "off" ;
"#;

#[test]
fn law_parse_render_parse_idempotent() {
    let first = parse_dbc(DOC).expect("the document parses");
    let rendered = first.to_text();
    let second = parse_dbc(&rendered).expect("the rendered document parses");
    assert_eq!(first, second);
    // The render is a fixed point from the second round on.
    assert_eq!(second.to_text(), rendered);
}

const DOC2: &str = "VERSION \"2\"\r\n\r\nNS_ :\r\n\tNS_DESC_\r\n\tCM_\r\n\r\nBS_: 500 : 1 : 2 ;\r\nBU_: Node0 Node1\r\n\r\nVAL_TABLE_ vt_states 1 \"on\" 0 \"off\" ;\r\nVAL_TABLE_ vt_empty ;\r\n\r\nBO_ 100 MuxMsg: 1 Node0\r\n SG_ Mux_2 m3M : 2|2@1+ (1,0) [0|0] \"\" Node1\r\n SG_ Mux_1 M : 0|2@0- (1.5e1,-2) \"unit \\q here\" Node0,Node1\r\n SG_ Bare : 4|4@1+ (1,0)  \r\n\r\nBA_DEF_REL_ BU_BO_REL_  \"TxAttr\" INT -5 5;\r\nBA_DEF_DEF_REL_ \"TxAttr\" -1;\r\nBA_ \"TxAttr\" BU_ Node0 3;\r\n";

#[test]
fn law_parse_render_parse_idempotent_dialects() {
    // Carriage-return line endings, a valued bit timing line, multiplexed
    // signals, an empty value table, a signal without range and unit, and
    // relation attributes.
    let first = parse_dbc(DOC2).expect("the document parses");
    assert_eq!(
        first.messages[0].signals[0].multiplexer,
        Some(rrdbc::signal::MultiplexerIndicator {
            multiplexer_signal: Some(3),
            multiplexer_switch: Some(())
        })
    );
    assert_eq!(first.messages[0].signals[2].min, None);
    assert_eq!(first.messages[0].signals[2].unit, None);
    assert_eq!(first.messages[0].signals[2].receivers, Some(vec![]));
    let rendered = first.to_text();
    let second = parse_dbc(&rendered).expect("the rendered document parses");
    assert_eq!(first, second);
    assert_eq!(second.to_text(), rendered);
}

#[test]
fn law_quoted_string_round_trip() {
    // Plain characters, recognized escapes, and unrecognized backslash
    // sequences all survive a render/parse round trip unchanged.
    let content = r#"plain \n \" \\ \q end"#;
    let v = Version(CharString(content.to_string()));
    let text = v.to_text();
    let n = text.chars().count();
    assert_eq!(parser_version(&text, 0), Ok((v, n)));
}

#[test]
fn law_access_type_round_trip() {
    // decode(encode(kind, bits)) reproduces the pair for every stored pair.
    for (kind, bits) in [
        (EnvVarType::Integer, 0u16),
        (EnvVarType::Integer, 1),
        (EnvVarType::Integer, 2),
        (EnvVarType::Float, 3),
        (EnvVarType::String, 0x8000),
        (EnvVarType::String, 0x8003),
    ] {
        let encoded = encode_access(kind, bits);
        let digit: u32 = match kind {
            EnvVarType::Float => 1,
            _ => 0,
        };
        assert_eq!(decode_env_var_type(digit, encoded), kind);
        assert_eq!(encoded, bits);
    }
}

#[test]
fn law_access_type_string_override() {
    // Setting bit 0x8000 always decodes to the string kind.
    assert_eq!(decode_env_var_type(0, 0x8000), EnvVarType::String);
    assert_eq!(decode_env_var_type(1, 0x8001), EnvVarType::String);
    assert_eq!(decode_env_var_type(7, 0x8002), EnvVarType::String);
    assert_eq!(decode_env_var_type(0, 0), EnvVarType::Integer);
    assert_eq!(decode_env_var_type(1, 3), EnvVarType::Float);
}

#[test]
fn law_order_preserved() {
    let ast = parse_dbc(DOC).expect("the document parses");
    assert_eq!(ast.messages[0].header.name, "DRS_RX_ID0");
    assert_eq!(ast.messages[1].header.name, "MM5_10_TX1");
    assert_eq!(ast.messages[1].signals[0].name, "Yaw_Rate");
    assert_eq!(ast.messages[1].signals[1].name, "AY1");
    let rendered = ast.to_text();
    let p0 = rendered.find("BO_ 117 DRS_RX_ID0").unwrap();
    let p1 = rendered.find("BO_ 112 MM5_10_TX1").unwrap();
    let s0 = rendered.find("SG_ Yaw_Rate").unwrap();
    let s1 = rendered.find("SG_ AY1").unwrap();
    assert!(p0 < p1);
    assert!(p1 < s0);
    assert!(s0 < s1);
}

#[test]
fn law_all_or_nothing() {
    // One extra unparseable trailing character fails the whole parse.
    assert!(parse_dbc(DOC).is_ok());
    let mut broken = DOC.to_string();
    broken.push('~');
    assert_eq!(parse_dbc(&broken), Err(DbcParseError::Unparseable));
}

#[test]
fn scenario_version_line() {
    let s = "VERSION \"1.0\"";
    let (v, end) = parser_version(s, 0).expect("the version line parses");
    assert_eq!(end, s.chars().count());
    assert_eq!(v, Version(CharString("1.0".into())));
    assert_eq!(v.to_text(), "VERSION \"1.0\"");
}

#[test]
fn scenario_message_without_signals() {
    let s = "BO_ 117 DRS_RX_ID0: 8 ABS";
    let (m, end) = parser_dbc_message(s, 0).expect("the message parses");
    assert_eq!(end, s.chars().count());
    assert_eq!(m.header.id, 117);
    assert_eq!(m.header.name, "DRS_RX_ID0");
    assert_eq!(m.header.size, 8);
    assert_eq!(m.header.transmitter, "ABS");
    assert_eq!(m.signals, vec![]);
}

#[test]
fn scenario_signal_line() {
    let s = "SG_ Yaw_Rate : 0|16@1+ (0.005,-163.84) [-163.84|163.83] \"°/s\"  ABS";
    let (sig, end) = parser_signal(s, 0).expect("the signal line parses");
    assert_eq!(end, s.chars().count());
    assert_eq!(sig.name, "Yaw_Rate");
    assert_eq!(sig.multiplexer, None);
    assert_eq!(sig.start_bit, 0);
    assert_eq!(sig.size, 16);
    assert_eq!(sig.byte_order, rrdbc::signal::ByteOrder::LittleEndian);
    assert_eq!(sig.value_type, rrdbc::signal::ValueType::Unsigned);
    assert_eq!(sig.factor.0, "0.005");
    assert_eq!(sig.offset.0, "-163.84");
    assert_eq!(sig.min.as_ref().unwrap().0, "-163.84");
    assert_eq!(sig.max.as_ref().unwrap().0, "163.83");
    assert_eq!(sig.unit, Some(CharString("°/s".into())));
    assert_eq!(sig.receivers, Some(vec!["ABS".to_string()]));
}

#[test]
fn scenario_env_var_string_kind() {
    let s = r#"EV_ UnrestrictedEnvVar: 0 [0|0] "Nm" 0 1 DUMMY_NODE_VECTOR8000  Node0;"#;
    let (ev, end) = rrdbc::env_var::parser_env_var(s, 0).expect("the declaration parses");
    assert_eq!(end, s.chars().count());
    assert_eq!(ev.env_var_type, EnvVarType::String);
    assert_eq!(ev.minimum.0, "0");
    assert_eq!(ev.maximum.0, "0");
    assert_eq!(ev.unit, "Nm");
    assert_eq!(ev.initial_value.0, "0");
    assert_eq!(ev.ev_id, 1);
    assert_eq!(ev.access_type, 0x8000);
    assert_eq!(ev.access_nodes, vec!["Node0".to_string()]);
    assert_eq!(
        ev.to_text(),
        r#"EV_ UnrestrictedEnvVar: 0 [0|0] "Nm" 0 1 DUMMY_NODE_VECTOR8000 Node0;"#
    );
}

#[test]
fn scenario_bit_timing_presence() {
    // The keyword with a value and the bare keyword parse to different
    // values.
    let (with_value, _) = rrdbc::bit_timing::parser_bit_timing("BS_: 12:123:456", 0).unwrap();
    let (without_value, _) = rrdbc::bit_timing::parser_bit_timing("BS_:", 0).unwrap();
    assert_ne!(with_value, without_value);
    assert_eq!(
        with_value.value,
        Some(rrdbc::bit_timing::BitTimingValue {
            baudrate: 12,
            btr1: 123,
            btr2: 456
        })
    );
    assert_eq!(without_value.value, None);
}

#[test]
fn scenario_signal_enum_attribute() {
    let s = r#"BA_DEF_ SG_  "SGEnumAttribute" ENUM  "Val0","Val1","Val2";"#;
    let (def, end) =
        rrdbc::attribute_definition::parser_attribute_definition(s, 0).expect("parses");
    assert_eq!(end, s.chars().count());
    match def {
        rrdbc::attribute_definition::AttributeDefinition::Signal(v) => {
            assert_eq!(v.attribute_name, "SGEnumAttribute");
            match v.attribute_value_type {
                rrdbc::attribute_definition::AttributeValueType::Enum(e) => {
                    assert_eq!(
                        e.values,
                        vec![
                            CharString("Val0".to_string()),
                            CharString("Val1".to_string()),
                            CharString("Val2".to_string())
                        ]
                    );
                }
                other => panic!("unexpected value type {:?}", other),
            }
        }
        other => panic!("unexpected scope {:?}", other),
    }
}

#[test]
fn error_bad_version() {
    assert_eq!(parse_dbc("XERSION \"1\""), Err(DbcParseError::BadVersion));
}

#[test]
fn error_bad_names() {
    assert_eq!(
        parse_dbc("VERSION \"1\"\nXS_:\n"),
        Err(DbcParseError::BadNames)
    );
}

#[test]
fn error_bad_bit_timing() {
    assert_eq!(
        parse_dbc("VERSION \"1\"\nNS_:\nXS_:\n"),
        Err(DbcParseError::BadBitTiming)
    );
}

#[test]
fn error_bad_can_nodes() {
    assert_eq!(
        parse_dbc("VERSION \"1\"\nNS_:\nBS_:\nXU_:\n"),
        Err(DbcParseError::BadCanNodes)
    );
}

#[test]
fn error_message_text() {
    assert_eq!(DbcParseError::BadVersion.message(), "bad version");
    assert_eq!(
        DbcParseError::UseKeywordAsIdentifier.message(),
        "invalid dbc identifier"
    );
}
