use rrdbc::attribute_default::AttributeValue;
use rrdbc::attribute_value::{
    parser_environment_variable_attribute_value, parser_message_attribute_value,
    parser_network_attribute_value, parser_node_attribute_value, parser_object_attribute_value,
    parser_signal_attribute_value, EnvironmentVariableAttributeValue, MessageAttributeValue,
    NetworkAttributeValue, NodeAttributeValue, ObjectAttributeValue, SignalAttributeValue,
};
use rrdbc::char_string::CharString;
use rrdbc::number::Number;

#[test]
fn test_object_attribute_value_string_01() {
    assert_eq!(
        ObjectAttributeValue::Network(NetworkAttributeValue {
            attribute_name: "FloatAttribute".to_string(),
            attribute_value: AttributeValue::Double(Number("45.9".to_string()))
        })
        .to_text(),
        r#"BA_ "FloatAttribute" 45.9;"#
    );
}

#[test]
fn test_object_attribute_value_string_02() {
    assert_eq!(
        ObjectAttributeValue::Node(NodeAttributeValue {
            attribute_name: "BUIntAttribute".to_string(),
            node_name: "Node0".to_string(),
            attribute_value: AttributeValue::Double(Number("100".to_string()))
        })
        .to_text(),
        r#"BA_ "BUIntAttribute" BU_ Node0 100;"#
    );
}

#[test]
fn test_object_attribute_value_string_03() {
    assert_eq!(
        ObjectAttributeValue::Message(MessageAttributeValue {
            attribute_name: "BOStringAttribute".to_string(),
            message_id: 1234,
            attribute_value: AttributeValue::String(CharString("MessageAttribute".to_string()))
        })
        .to_text(),
        r#"BA_ "BOStringAttribute" BO_ 1234 "MessageAttribute";"#
    );
}

#[test]
fn test_object_attribute_value_string_04() {
    assert_eq!(
        ObjectAttributeValue::Signal(SignalAttributeValue {
            attribute_name: "SGEnumAttribute".to_string(),
            message_id: 1234,
            signal_name: "Signal0".to_string(),
            attribute_value: AttributeValue::Double(Number("2".to_string()))
        })
        .to_text(),
        r#"BA_ "SGEnumAttribute" SG_ 1234 Signal0 2;"#
    );
}

#[test]
fn test_object_attribute_value_string_05() {
    assert_eq!(
        ObjectAttributeValue::EnvironmentVariable(EnvironmentVariableAttributeValue {
            attribute_name: "RWEnvVar_wData_Val".to_string(),
            env_var_name: "RWEnvVar_wData".to_string(),
            attribute_value: AttributeValue::Double(Number("3".to_string()))
        })
        .to_text(),
        r#"BA_ "RWEnvVar_wData_Val" EV_ RWEnvVar_wData 3;"#
    );
}

#[test]
fn test_parser_network_attribute_value_01() {
    let s = r#"BA_ "FloatAttribute" 45.9;"#;
    assert_eq!(
        parser_network_attribute_value(s, 0),
        Ok((
            ObjectAttributeValue::Network(NetworkAttributeValue {
                attribute_name: "FloatAttribute".to_string(),
                attribute_value: AttributeValue::Double(Number("45.9".to_string()))
            }),
            s.chars().count()
        ))
    );
}

#[test]
fn test_parser_node_attribute_value_01() {
    let s = r#"BA_ "BUIntAttribute" BU_ Node0 100;"#;
    assert_eq!(
        parser_node_attribute_value(s, 0),
        Ok((
            ObjectAttributeValue::Node(NodeAttributeValue {
                attribute_name: "BUIntAttribute".to_string(),
                node_name: "Node0".to_string(),
                attribute_value: AttributeValue::Double(Number("100".to_string()))
            }),
            s.chars().count()
        ))
    );
}

#[test]
fn test_parser_message_attribute_value_01() {
    let s = r#"BA_ "BOStringAttribute" BO_ 1234 "MessageAttribute";"#;
    assert_eq!(
        parser_message_attribute_value(s, 0),
        Ok((
            ObjectAttributeValue::Message(MessageAttributeValue {
                attribute_name: "BOStringAttribute".to_string(),
                message_id: 1234,
                attribute_value: AttributeValue::String(CharString("MessageAttribute".to_string()))
            }),
            s.chars().count()
        ))
    );
}

#[test]
fn test_parser_signal_attribute_value_01() {
    let s = r#"BA_ "SGEnumAttribute" SG_ 1234 Signal0 2;"#;
    assert_eq!(
        parser_signal_attribute_value(s, 0),
        Ok((
            ObjectAttributeValue::Signal(SignalAttributeValue {
                attribute_name: "SGEnumAttribute".to_string(),
                message_id: 1234,
                signal_name: "Signal0".to_string(),
                attribute_value: AttributeValue::Double(Number("2".to_string()))
            }),
            s.chars().count()
        ))
    );
}

#[test]
fn test_parser_environment_variable_attribute_value_01() {
    let s = r#"BA_ "RWEnvVar_wData_Val" EV_ RWEnvVar_wData 3;"#;
    assert_eq!(
        parser_environment_variable_attribute_value(s, 0),
        Ok((
            ObjectAttributeValue::EnvironmentVariable(EnvironmentVariableAttributeValue {
                attribute_name: "RWEnvVar_wData_Val".to_string(),
                env_var_name: "RWEnvVar_wData".to_string(),
                attribute_value: AttributeValue::Double(Number("3".to_string()))
            }),
            s.chars().count()
        ))
    );
}

#[test]
fn test_parser_object_attribute_value_01() {
    let s = r#"BA_ "FloatAttribute" 45.9;"#;
    assert_eq!(
        parser_object_attribute_value(s, 0),
        Ok((
            ObjectAttributeValue::Network(NetworkAttributeValue {
                attribute_name: "FloatAttribute".to_string(),
                attribute_value: AttributeValue::Double(Number("45.9".to_string()))
            }),
            s.chars().count()
        ))
    );
}

#[test]
fn test_parser_object_attribute_value_02() {
    let s = r#"BA_ "BUIntAttribute" BU_ Node0 100;"#;
    assert_eq!(
        parser_object_attribute_value(s, 0),
        Ok((
            ObjectAttributeValue::Node(NodeAttributeValue {
                attribute_name: "BUIntAttribute".to_string(),
                node_name: "Node0".to_string(),
                attribute_value: AttributeValue::Double(Number("100".to_string()))
            }),
            s.chars().count()
        ))
    );
}

#[test]
fn test_parser_object_attribute_value_03() {
    let s = r#"BA_ "BOStringAttribute" BO_ 1234 "MessageAttribute";"#;
    assert_eq!(
        parser_object_attribute_value(s, 0),
        Ok((
            ObjectAttributeValue::Message(MessageAttributeValue {
                attribute_name: "BOStringAttribute".to_string(),
                message_id: 1234,
                attribute_value: AttributeValue::String(CharString("MessageAttribute".to_string()))
            }),
            s.chars().count()
        ))
    );
}

#[test]
fn test_parser_object_attribute_value_04() {
    let s = r#"BA_ "SGEnumAttribute" SG_ 1234 Signal0 2;"#;
    assert_eq!(
        parser_object_attribute_value(s, 0),
        Ok((
            ObjectAttributeValue::Signal(SignalAttributeValue {
                attribute_name: "SGEnumAttribute".to_string(),
                message_id: 1234,
                signal_name: "Signal0".to_string(),
                attribute_value: AttributeValue::Double(Number("2".to_string()))
            }),
            s.chars().count()
        ))
    );
}

#[test]
fn test_parser_object_attribute_value_05() {
    let s = r#"BA_ "RWEnvVar_wData_Val" EV_ RWEnvVar_wData 3;"#;
    assert_eq!(
        parser_object_attribute_value(s, 0),
        Ok((
            ObjectAttributeValue::EnvironmentVariable(EnvironmentVariableAttributeValue {
                attribute_name: "RWEnvVar_wData_Val".to_string(),
                env_var_name: "RWEnvVar_wData".to_string(),
                attribute_value: AttributeValue::Double(Number("3".to_string()))
            }),
            s.chars().count()
        ))
    );
}
