use rrdbc::attribute_definition::{
    parser_attribute_definition, parser_attribute_enum_value_type,
    parser_attribute_float_value_type, parser_attribute_hex_value_type,
    parser_attribute_integer_value_type, parser_attribute_string_value_type,
    parser_attribute_value_type, parser_control_unit_environment_variable_attribute,
    parser_environment_variable_attribute, parser_message_attribute, parser_network_attribute,
    parser_node_attribute, parser_node_mapped_rx_signal_attribute,
    parser_node_tx_message_attribute, parser_signal_attribute, AttributeDefinition,
    AttributeEnumValueType, AttributeFloatValueType, AttributeHexValueType,
    AttributeIntegerValueType, AttributeStringValueType, AttributeValueType,
    ControlUnitEnvironmentVariableAttribute, EnvironmentVariableAttribute, MessageAttribute,
    NetworkAttribute, NodeAttribute, NodeMappedRxSignalAttribute, NodeTxMessageAttribute,
    SignalAttribute,
};
use rrdbc::char_string::CharString;
use rrdbc::number::Number;

#[test]
fn test_attribute_definition_string_01() {
    assert_eq!(
        AttributeDefinition::Network(NetworkAttribute {
            attribute_name: "attribute_name".to_string(),
            attribute_value_type: AttributeValueType::Integer(AttributeIntegerValueType {
                minimum: 0,
                maximum: 100
            })
        })
        .to_text(),
        r#"BA_DEF_ "attribute_name" INT 0 100;"#
    );
}

#[test]
fn test_attribute_definition_string_02() {
    assert_eq!(
        AttributeDefinition::Network(NetworkAttribute {
            attribute_name: "FloatAttribute".to_string(),
            attribute_value_type: AttributeValueType::Float(AttributeFloatValueType {
                minimum: Number("0".to_string()),
                maximum: Number("50.5".to_string())
            })
        })
        .to_text(),
        r#"BA_DEF_ "FloatAttribute" FLOAT 0 50.5;"#
    );
}

#[test]
fn test_attribute_definition_string_03() {
    assert_eq!(
        AttributeDefinition::Node(NodeAttribute {
            attribute_name: "BUIntAttribute".to_string(),
            attribute_value_type: AttributeValueType::Integer(AttributeIntegerValueType {
                minimum: 0,
                maximum: 100
            })
        })
        .to_text(),
        r#"BA_DEF_ BU_ "BUIntAttribute" INT 0 100;"#
    );
}

#[test]
fn test_attribute_definition_string_04() {
    assert_eq!(
        AttributeDefinition::Message(MessageAttribute {
            attribute_name: "BOStringAttribute".to_string(),
            attribute_value_type: AttributeValueType::String(AttributeStringValueType {})
        })
        .to_text(),
        r#"BA_DEF_ BO_ "BOStringAttribute" STRING;"#
    );
}

#[test]
fn test_attribute_definition_string_05() {
    assert_eq!(
        AttributeDefinition::Signal(SignalAttribute {
            attribute_name: "SGEnumAttribute".to_string(),
            attribute_value_type: AttributeValueType::Enum(AttributeEnumValueType {
                values: vec![
                    CharString("Val0".to_string()),
                    CharString("Val1".to_string()),
                    CharString("Val2".to_string())
                ]
            })
        })
        .to_text(),
        r#"BA_DEF_ SG_ "SGEnumAttribute" ENUM "Val0","Val1","Val2";"#
    );
}

#[test]
fn test_attribute_definition_string_06() {
    assert_eq!(
        AttributeDefinition::EnvironmentVariable(EnvironmentVariableAttribute {
            attribute_name: "GlobalEnvVar_Val".to_string(),
            attribute_value_type: AttributeValueType::Hex(AttributeHexValueType {
                minimum: 256,
                maximum: 320
            })
        })
        .to_text(),
        r#"BA_DEF_ EV_ "GlobalEnvVar_Val" HEX 256 320;"#
    );
}

#[test]
fn test_attribute_definition_string_07() {
    assert_eq!(
        AttributeDefinition::EnvironmentVariable(EnvironmentVariableAttribute {
            attribute_name: "RWEnvVar_wData_Val".to_string(),
            attribute_value_type: AttributeValueType::Integer(AttributeIntegerValueType {
                minimum: 0,
                maximum: 10
            })
        })
        .to_text(),
        r#"BA_DEF_ EV_ "RWEnvVar_wData_Val" INT 0 10;"#
    );
}

#[test]
fn test_attribute_definition_string_08() {
    assert_eq!(
        AttributeDefinition::ControlUnitEnvironmentVariable(
            ControlUnitEnvironmentVariableAttribute {
                attribute_name: "ControlUnitEnvVarAttr".to_string(),
                attribute_value_type: AttributeValueType::String(AttributeStringValueType {})
            }
        )
        .to_text(),
        r#"BA_DEF_REL_ BU_EV_REL_ "ControlUnitEnvVarAttr" STRING;"#
    );
}

#[test]
fn test_parser_attribute_integer_value_type_01() {
    let s = "INT 0 100";
    assert_eq!(
        parser_attribute_integer_value_type(s, 0),
        Ok((
            AttributeValueType::Integer(AttributeIntegerValueType {
                minimum: 0,
                maximum: 100
            }),
            s.chars().count()
        ))
    );
}

#[test]
fn test_parser_attribute_hex_value_type_01() {
    let s = "HEX 256 320";
    assert_eq!(
        parser_attribute_hex_value_type(s, 0),
        Ok((
            AttributeValueType::Hex(AttributeHexValueType {
                minimum: 256,
                maximum: 320
            }),
            s.chars().count()
        ))
    );
}

#[test]
fn test_parser_attribute_float_value_type_01() {
    let s = "FLOAT 0 50.5";
    assert_eq!(
        parser_attribute_float_value_type(s, 0),
        Ok((
            AttributeValueType::Float(AttributeFloatValueType {
                minimum: Number("0".to_string()),
                maximum: Number("50.5".to_string())
            }),
            s.chars().count()
        ))
    );
}

#[test]
fn test_parser_attribute_string_value_type_01() {
    let s = "STRING";
    assert_eq!(
        parser_attribute_string_value_type(s, 0),
        Ok((
            AttributeValueType::String(AttributeStringValueType {}),
            s.chars().count()
        ))
    );
}

#[test]
fn test_parser_attribute_enum_value_type_01() {
    let s = r#"ENUM  "Val0","Val1","Val2""#;
    assert_eq!(
        parser_attribute_enum_value_type(s, 0),
        Ok((
            AttributeValueType::Enum(AttributeEnumValueType {
                values: vec![
                    CharString("Val0".to_string()),
                    CharString("Val1".to_string()),
                    CharString("Val2".to_string())
                ]
            }),
            s.chars().count()
        ))
    );
}

#[test]
fn test_parser_attribute_value_type_01() {
    let s = "INT 0 100";
    assert_eq!(
        parser_attribute_value_type(s, 0),
        Ok((
            AttributeValueType::Integer(AttributeIntegerValueType {
                minimum: 0,
                maximum: 100
            }),
            s.chars().count()
        ))
    );
}

#[test]
fn test_parser_attribute_value_type_02() {
    let s = "HEX 256 320";
    assert_eq!(
        parser_attribute_value_type(s, 0),
        Ok((
            AttributeValueType::Hex(AttributeHexValueType {
                minimum: 256,
                maximum: 320
            }),
            s.chars().count()
        ))
    );
}

#[test]
fn test_parser_attribute_value_type_03() {
    let s = "FLOAT 0 50.5";
    assert_eq!(
        parser_attribute_value_type(s, 0),
        Ok((
            AttributeValueType::Float(AttributeFloatValueType {
                minimum: Number("0".to_string()),
                maximum: Number("50.5".to_string())
            }),
            s.chars().count()
        ))
    );
}

#[test]
fn test_parser_attribute_value_type_04() {
    let s = "STRING";
    assert_eq!(
        parser_attribute_value_type(s, 0),
        Ok((
            AttributeValueType::String(AttributeStringValueType {}),
            s.chars().count()
        ))
    );
}

#[test]
fn test_parser_attribute_value_type_05() {
    let s = r#"ENUM  "Val0","Val1","Val2""#;
    assert_eq!(
        parser_attribute_value_type(s, 0),
        Ok((
            AttributeValueType::Enum(AttributeEnumValueType {
                values: vec![
                    CharString("Val0".to_string()),
                    CharString("Val1".to_string()),
                    CharString("Val2".to_string())
                ]
            }),
            s.chars().count()
        ))
    );
}

#[test]
fn test_parser_network_attribute_01() {
    let s = r#"BA_DEF_  "FloatAttribute" FLOAT 0 50.5;"#;
    assert_eq!(
        parser_network_attribute(s, 0),
        Ok((
            AttributeDefinition::Network(NetworkAttribute {
                attribute_name: "FloatAttribute".to_string(),
                attribute_value_type: AttributeValueType::Float(AttributeFloatValueType {
                    minimum: Number("0".to_string()),
                    maximum: Number("50.5".to_string())
                })
            }),
            s.chars().count()
        ))
    );
}

#[test]
fn test_parser_node_attribute_01() {
    let s = r#"BA_DEF_ BU_  "BUIntAttribute" INT 0 100;"#;
    assert_eq!(
        parser_node_attribute(s, 0),
        Ok((
            AttributeDefinition::Node(NodeAttribute {
                attribute_name: "BUIntAttribute".to_string(),
                attribute_value_type: AttributeValueType::Integer(AttributeIntegerValueType {
                    minimum: 0,
                    maximum: 100
                })
            }),
            s.chars().count()
        ))
    );
}

#[test]
fn test_parser_message_attribute_01() {
    let s = r#"BA_DEF_ BO_  "BOStringAttribute" STRING ;"#;
    assert_eq!(
        parser_message_attribute(s, 0),
        Ok((
            AttributeDefinition::Message(MessageAttribute {
                attribute_name: "BOStringAttribute".to_string(),
                attribute_value_type: AttributeValueType::String(AttributeStringValueType {})
            }),
            s.chars().count()
        ))
    );
}

#[test]
fn test_parser_signal_attribute_01() {
    let s = r#"BA_DEF_ SG_  "SGEnumAttribute" ENUM  "Val0","Val1","Val2";"#;
    assert_eq!(
        parser_signal_attribute(s, 0),
        Ok((
            AttributeDefinition::Signal(SignalAttribute {
                attribute_name: "SGEnumAttribute".to_string(),
                attribute_value_type: AttributeValueType::Enum(AttributeEnumValueType {
                    values: vec![
                        CharString("Val0".to_string()),
                        CharString("Val1".to_string()),
                        CharString("Val2".to_string())
                    ]
                })
            }),
            s.chars().count()
        ))
    );
}

#[test]
fn test_parser_environment_variable_attribute_01() {
    let s = r#"BA_DEF_ EV_  "RWEnvVar_wData_Val" INT 0 10;"#;
    assert_eq!(
        parser_environment_variable_attribute(s, 0),
        Ok((
            AttributeDefinition::EnvironmentVariable(EnvironmentVariableAttribute {
                attribute_name: "RWEnvVar_wData_Val".to_string(),
                attribute_value_type: AttributeValueType::Integer(AttributeIntegerValueType {
                    minimum: 0,
                    maximum: 10
                })
            }),
            s.chars().count()
        ))
    );
}

#[test]
fn test_parser_environment_variable_attribute_02() {
    let s = r#"BA_DEF_ EV_  "GlobalEnvVar_Val" HEX 256 320;"#;
    assert_eq!(
        parser_environment_variable_attribute(s, 0),
        Ok((
            AttributeDefinition::EnvironmentVariable(EnvironmentVariableAttribute {
                attribute_name: "GlobalEnvVar_Val".to_string(),
                attribute_value_type: AttributeValueType::Hex(AttributeHexValueType {
                    minimum: 256,
                    maximum: 320
                })
            }),
            s.chars().count()
        ))
    );
}

#[test]
fn test_parser_control_unit_environment_variable_attribute_01() {
    let s = r#"BA_DEF_REL_ BU_EV_REL_  "ControlUnitEnvVarAttr" STRING ;"#;
    assert_eq!(
        parser_control_unit_environment_variable_attribute(s, 0),
        Ok((
            AttributeDefinition::ControlUnitEnvironmentVariable(
                ControlUnitEnvironmentVariableAttribute {
                    attribute_name: "ControlUnitEnvVarAttr".to_string(),
                    attribute_value_type: AttributeValueType::String(AttributeStringValueType {})
                }
            ),
            s.chars().count()
        ))
    );
}

#[test]
fn test_parser_node_tx_message_attribute_01() {
    let s = r#"BA_DEF_REL_ BU_BO_REL_  "attribute_name" STRING ;"#;
    assert_eq!(
        parser_node_tx_message_attribute(s, 0),
        Ok((
            AttributeDefinition::NodeTxMessage(NodeTxMessageAttribute {
                attribute_name: "attribute_name".to_string(),
                attribute_value_type: AttributeValueType::String(AttributeStringValueType {})
            }),
            s.chars().count()
        ))
    );
}

#[test]
fn test_parser_node_mapped_rx_signal_attribute_01() {
    let s = r#"BA_DEF_REL_ BU_SG_REL_  "attribute_name" STRING ;"#;
    assert_eq!(
        parser_node_mapped_rx_signal_attribute(s, 0),
        Ok((
            AttributeDefinition::NodeMappedRxSignal(NodeMappedRxSignalAttribute {
                attribute_name: "attribute_name".to_string(),
                attribute_value_type: AttributeValueType::String(AttributeStringValueType {})
            }),
            s.chars().count()
        ))
    );
}

#[test]
fn test_parser_attribute_definition_01() {
    let s = r#"BA_DEF_  "FloatAttribute" FLOAT 0 50.5;"#;
    assert_eq!(
        parser_attribute_definition(s, 0),
        Ok((
            AttributeDefinition::Network(NetworkAttribute {
                attribute_name: "FloatAttribute".to_string(),
                attribute_value_type: AttributeValueType::Float(AttributeFloatValueType {
                    minimum: Number("0".to_string()),
                    maximum: Number("50.5".to_string())
                })
            }),
            s.chars().count()
        ))
    );
}

#[test]
fn test_parser_attribute_definition_02() {
    let s = r#"BA_DEF_ BU_  "BUIntAttribute" INT 0 100;"#;
    assert_eq!(
        parser_attribute_definition(s, 0),
        Ok((
            AttributeDefinition::Node(NodeAttribute {
                attribute_name: "BUIntAttribute".to_string(),
                attribute_value_type: AttributeValueType::Integer(AttributeIntegerValueType {
                    minimum: 0,
                    maximum: 100
                })
            }),
            s.chars().count()
        ))
    );
}

#[test]
fn test_parser_attribute_definition_03() {
    let s = r#"BA_DEF_ BO_  "BOStringAttribute" STRING ;"#;
    assert_eq!(
        parser_attribute_definition(s, 0),
        Ok((
            AttributeDefinition::Message(MessageAttribute {
                attribute_name: "BOStringAttribute".to_string(),
                attribute_value_type: AttributeValueType::String(AttributeStringValueType {})
            }),
            s.chars().count()
        ))
    );
}

#[test]
fn test_parser_attribute_definition_04() {
    let s = r#"BA_DEF_ SG_  "SGEnumAttribute" ENUM  "Val0","Val1","Val2";"#;
    assert_eq!(
        parser_attribute_definition(s, 0),
        Ok((
            AttributeDefinition::Signal(SignalAttribute {
                attribute_name: "SGEnumAttribute".to_string(),
                attribute_value_type: AttributeValueType::Enum(AttributeEnumValueType {
                    values: vec![
                        CharString("Val0".to_string()),
                        CharString("Val1".to_string()),
                        CharString("Val2".to_string())
                    ]
                })
            }),
            s.chars().count()
        ))
    );
}

#[test]
fn test_parser_attribute_definition_05() {
    let s = r#"BA_DEF_ EV_  "RWEnvVar_wData_Val" INT 0 10;"#;
    assert_eq!(
        parser_attribute_definition(s, 0),
        Ok((
            AttributeDefinition::EnvironmentVariable(EnvironmentVariableAttribute {
                attribute_name: "RWEnvVar_wData_Val".to_string(),
                attribute_value_type: AttributeValueType::Integer(AttributeIntegerValueType {
                    minimum: 0,
                    maximum: 10
                })
            }),
            s.chars().count()
        ))
    );
}

#[test]
fn test_parser_attribute_definition_06() {
    let s = r#"BA_DEF_ EV_  "GlobalEnvVar_Val" HEX 256 320;"#;
    assert_eq!(
        parser_attribute_definition(s, 0),
        Ok((
            AttributeDefinition::EnvironmentVariable(EnvironmentVariableAttribute {
                attribute_name: "GlobalEnvVar_Val".to_string(),
                attribute_value_type: AttributeValueType::Hex(AttributeHexValueType {
                    minimum: 256,
                    maximum: 320
                })
            }),
            s.chars().count()
        ))
    );
}

#[test]
fn test_parser_attribute_definition_07() {
    let s = r#"BA_DEF_REL_ BU_EV_REL_  "ControlUnitEnvVarAttr" STRING ;"#;
    assert_eq!(
        parser_attribute_definition(s, 0),
        Ok((
            AttributeDefinition::ControlUnitEnvironmentVariable(
                ControlUnitEnvironmentVariableAttribute {
                    attribute_name: "ControlUnitEnvVarAttr".to_string(),
                    attribute_value_type: AttributeValueType::String(AttributeStringValueType {})
                }
            ),
            s.chars().count()
        ))
    );
}

#[test]
fn test_parser_attribute_definition_08() {
    let s = r#"BA_DEF_REL_ BU_BO_REL_  "attribute_name" STRING ;"#;
    assert_eq!(
        parser_attribute_definition(s, 0),
        Ok((
            AttributeDefinition::NodeTxMessage(NodeTxMessageAttribute {
                attribute_name: "attribute_name".to_string(),
                attribute_value_type: AttributeValueType::String(AttributeStringValueType {})
            }),
            s.chars().count()
        ))
    );
}

#[test]
fn test_parser_attribute_definition_09() {
    let s = r#"BA_DEF_REL_ BU_SG_REL_  "attribute_name" STRING ;"#;
    assert_eq!(
        parser_attribute_definition(s, 0),
        Ok((
            AttributeDefinition::NodeMappedRxSignal(NodeMappedRxSignalAttribute {
                attribute_name: "attribute_name".to_string(),
                attribute_value_type: AttributeValueType::String(AttributeStringValueType {})
            }),
            s.chars().count()
        ))
    );
}

#[test]
fn test_attribute_definition_empty_enum() {
    let s = r#"BA_DEF_ "E" ENUM ;"#;
    assert_eq!(
        parser_attribute_definition(s, 0),
        Ok((
            AttributeDefinition::Network(NetworkAttribute {
                attribute_name: "E".to_string(),
                attribute_value_type: AttributeValueType::Enum(AttributeEnumValueType {
                    values: vec![]
                })
            }),
            s.chars().count()
        ))
    );
}
