use rrdbc::bit_timing::BitTiming;
use rrdbc::char_string::CharString;
use rrdbc::attribute_definition::{
    AttributeDefinition, AttributeEnumValueType, AttributeFloatValueType, AttributeHexValueType,
    AttributeIntegerValueType, AttributeStringValueType, AttributeValueType,
    ControlUnitEnvironmentVariableAttribute, EnvironmentVariableAttribute, MessageAttribute,
    NetworkAttribute, NodeAttribute, SignalAttribute,
};
use rrdbc::env_var::{EnvVarType, EnvironmentVariable};
use rrdbc::env_var_data::EnvironmentVariableData;
use rrdbc::env_var_value_descriptions::EnvironmentVariableValueDescriptions;
use rrdbc::message::{Message, MessageHeader};
use rrdbc::network_ast::{parse_dbc, NetworkAst};
use rrdbc::new_symbols::NewSymbols;
use rrdbc::nodes::Nodes;
use rrdbc::number::Number;
use rrdbc::signal::{ByteOrder, Signal, ValueType};
use rrdbc::signal_value_descriptions::SignalValueDescriptions;
use rrdbc::value_descriptions::{ValueDescriptionItem, ValueDescriptions};
use rrdbc::value_tables::ValueTable;
use rrdbc::version::Version;

fn item(num: i64, label: &str) -> ValueDescriptionItem {
    ValueDescriptionItem {
        num,
        str: CharString(label.to_string()),
    }
}

fn yaw_rate_signal() -> Signal {
    Signal {
        name: "Yaw_Rate".into(),
        multiplexer: None,
        start_bit: 0,
        size: 16,
        byte_order: ByteOrder::LittleEndian,
        value_type: ValueType::Unsigned,
        factor: Number("0.005".to_string()),
        offset: Number("-163.84".to_string()),
        min: Some(Number("-163.84".to_string())),
        max: Some(Number("163.83".to_string())),
        unit: Some(CharString("째/s".into())),
        receivers: Some(vec!["ABS".into()]),
    }
}

fn ay1_signal() -> Signal {
    Signal {
        name: "AY1".into(),
        multiplexer: None,
        start_bit: 32,
        size: 16,
        byte_order: ByteOrder::LittleEndian,
        value_type: ValueType::Unsigned,
        factor: Number("0.000127465".to_string()),
        offset: Number("-4.1768".to_string()),
        min: Some(Number("-4.1768".to_string())),
        max: Some(Number("4.1765".to_string())),
        unit: Some(CharString("g".into())),
        receivers: Some(vec!["ABS".into()]),
    }
}

#[test]
fn test_dbc_01() {
    assert_eq!(
        parse_dbc(
            r#"VERSION "1.0"


NS_:
    BS_
    CM_

BS_:
BU_: ABS DRS_MM5_10

BO_ 117 DRS_RX_ID0: 8 ABS

BO_ 112 MM5_10_TX1: 8 DRS_MM5_10
 SG_ Yaw_Rate : 0|16@1+ (0.005,-163.84) [-163.84|163.83] "째/s"  ABS
 SG_ AY1 : 32|16@1+ (0.000127465,-4.1768) [-4.1768|4.1765] "g"  ABS

"#
        ),
        Ok(NetworkAst {
            version: Version(CharString("1.0".into())),
            new_symbols: NewSymbols(vec!["BS_".into(), "CM_".into()]),
            bit_timing: Some(BitTiming { value: None }),
            nodes: Nodes(vec!["ABS".into(), "DRS_MM5_10".into()]),
            value_tables: None,
            messages: vec![
                Message {
                    header: MessageHeader {
                        id: 117,
                        name: "DRS_RX_ID0".into(),
                        size: 8,
                        transmitter: "ABS".into(),
                    },
                    signals: vec![],
                },
                Message {
                    header: MessageHeader {
                        id: 112,
                        name: "MM5_10_TX1".into(),
                        size: 8,
                        transmitter: "DRS_MM5_10".into(),
                    },
                    signals: vec![yaw_rate_signal(), ay1_signal()],
                },
            ],
            env_vars: vec![],
            env_vars_data: vec![],
            comments: vec![],
            attribute_definitions: vec![],
            attribute_defaults: vec![],
            attribute_values: vec![],
            signal_value_descriptions: vec![],
            env_var_value_descriptions: vec![],
        }),
    );
}

#[test]
fn test_dbc_02() {
    assert_eq!(
        parse_dbc(
            r#"VERSION "1.0"


NS_:
    BS_
    CM_

BS_:
BU_: ABS DRS_MM5_10

VAL_TABLE_ ABS_fault_info 2 "active faults stored" 1 "inactive faults stored" 0 "no faults stored" ;
VAL_TABLE_ vt_WheelSpeedQualifier 5 "InvalidUnderVoltage" 4 "NotCalculated" 3 "ReducedMonitored" 2 "Faulty" 1 "Normal" 0 "NotInitialized" ;


BO_ 117 DRS_RX_ID0: 8 ABS

BO_ 112 MM5_10_TX1: 8 DRS_MM5_10
 SG_ Yaw_Rate : 0|16@1+ (0.005,-163.84) [-163.84|163.83] "째/s"  ABS
 SG_ AY1 : 32|16@1+ (0.000127465,-4.1768) [-4.1768|4.1765] "g"  ABS

EV_ UnrestrictedEnvVar: 0 [0|0] "Nm" 0 1 DUMMY_NODE_VECTOR8000  Node0;
EV_ RWEnvVar_wData: 0 [0|1234] "" 60 2 DUMMY_NODE_VECTOR3  Node2;
EV_ WriteOnlyEnvVar: 1 [0|1234] "" 60 3 DUMMY_NODE_VECTOR2  Node2;
EV_ ReadOnlyEnvVar: 0 [0|100] "MPH" 20 4 DUMMY_NODE_VECTOR1  Node2;

ENVVAR_DATA_ RWEnvVar_wData: 10;

BA_DEF_ EV_  "RWEnvVar_wData_Val" INT 0 10;
BA_DEF_ EV_  "GlobalEnvVar_Val" HEX 256 320;
BA_DEF_ SG_  "SGEnumAttribute" ENUM  "Val0","Val1","Val2";
BA_DEF_ BU_  "BUIntAttribute" INT 0 100;
BA_DEF_ BO_  "BOStringAttribute" STRING ;
BA_DEF_  "FloatAttribute" FLOAT 0 50.5;
BA_DEF_REL_ BU_EV_REL_  "ControlUnitEnvVarAttr" STRING ;

VAL_ 2147487969 Value1 3 "Three" 2 "Two" 1 "One" 0 "Zero" ;
VAL_ 2147487969 Value0 2 "Value2" 1 "Value1" 0 "Value0" ;

VAL_ RWEnvVar_wData 2 "Value2" 1 "Value1" 0 "Value0" ;
VAL_ WriteOnlyEnvVar 2 "Value2" 1 "Value1" 0 "Value0" ;
VAL_ ReadOnlyEnvVar 2 "Value2" 1 "Value1" 0 "Value0" ;
"#
        ),
        Ok(NetworkAst {
            version: Version(CharString("1.0".into())),
            new_symbols: NewSymbols(vec!["BS_".into(), "CM_".into()]),
            bit_timing: Some(BitTiming { value: None }),
            nodes: Nodes(vec!["ABS".into(), "DRS_MM5_10".into()]),
            value_tables: Some(vec![
                ValueTable {
                    name: "ABS_fault_info".to_string(),
                    value_descriptions: ValueDescriptions {
                        values: vec![
                            item(2, "active faults stored"),
                            item(1, "inactive faults stored"),
                            item(0, "no faults stored"),
                        ]
                    }
                },
                ValueTable {
                    name: "vt_WheelSpeedQualifier".to_string(),
                    value_descriptions: ValueDescriptions {
                        values: vec![
                            item(5, "InvalidUnderVoltage"),
                            item(4, "NotCalculated"),
                            item(3, "ReducedMonitored"),
                            item(2, "Faulty"),
                            item(1, "Normal"),
                            item(0, "NotInitialized"),
                        ]
                    }
                }
            ]),
            messages: vec![
                Message {
                    header: MessageHeader {
                        id: 117,
                        name: "DRS_RX_ID0".into(),
                        size: 8,
                        transmitter: "ABS".into(),
                    },
                    signals: vec![],
                },
                Message {
                    header: MessageHeader {
                        id: 112,
                        name: "MM5_10_TX1".into(),
                        size: 8,
                        transmitter: "DRS_MM5_10".into(),
                    },
                    signals: vec![yaw_rate_signal(), ay1_signal()],
                },
            ],
            env_vars: vec![
                EnvironmentVariable {
                    env_var_name: "UnrestrictedEnvVar".to_string(),
                    env_var_type: EnvVarType::String,
                    minimum: Number("0".to_string()),
                    maximum: Number("0".to_string()),
                    unit: "Nm".to_string(),
                    initial_value: Number("0".to_string()),
                    ev_id: 1,
                    access_type: 0x8000,
                    access_nodes: vec!["Node0".to_string()],
                },
                EnvironmentVariable {
                    env_var_name: "RWEnvVar_wData".to_string(),
                    env_var_type: EnvVarType::Integer,
                    minimum: Number("0".to_string()),
                    maximum: Number("1234".to_string()),
                    unit: "".to_string(),
                    initial_value: Number("60".to_string()),
                    ev_id: 2,
                    access_type: 0x0003,
                    access_nodes: vec!["Node2".to_string()],
                },
                EnvironmentVariable {
                    env_var_name: "WriteOnlyEnvVar".to_string(),
                    env_var_type: EnvVarType::Float,
                    minimum: Number("0".to_string()),
                    maximum: Number("1234".to_string()),
                    unit: "".to_string(),
                    initial_value: Number("60".to_string()),
                    ev_id: 3,
                    access_type: 0x0002,
                    access_nodes: vec!["Node2".to_string()],
                },
                EnvironmentVariable {
                    env_var_name: "ReadOnlyEnvVar".to_string(),
                    env_var_type: EnvVarType::Integer,
                    minimum: Number("0".to_string()),
                    maximum: Number("100".to_string()),
                    unit: "MPH".to_string(),
                    initial_value: Number("20".to_string()),
                    ev_id: 4,
                    access_type: 0x0001,
                    access_nodes: vec!["Node2".to_string()],
                }
            ],
            env_vars_data: vec![EnvironmentVariableData {
                env_var_name: "RWEnvVar_wData".to_string(),
                data_size: 10
            }],
            comments: vec![],
            attribute_definitions: vec![
                AttributeDefinition::EnvironmentVariable(EnvironmentVariableAttribute {
                    attribute_name: "RWEnvVar_wData_Val".to_string(),
                    attribute_value_type: AttributeValueType::Integer(AttributeIntegerValueType {
                        minimum: 0,
                        maximum: 10
                    })
                }),
                AttributeDefinition::EnvironmentVariable(EnvironmentVariableAttribute {
                    attribute_name: "GlobalEnvVar_Val".to_string(),
                    attribute_value_type: AttributeValueType::Hex(AttributeHexValueType {
                        minimum: 256,
                        maximum: 320
                    })
                }),
                AttributeDefinition::Signal(SignalAttribute {
                    attribute_name: "SGEnumAttribute".to_string(),
                    attribute_value_type: AttributeValueType::Enum(AttributeEnumValueType {
                        values: vec![
                            CharString("Val0".to_string()),
                            CharString("Val1".to_string()),
                            CharString("Val2".to_string())
                        ]
                    })
                }),
                AttributeDefinition::Node(NodeAttribute {
                    attribute_name: "BUIntAttribute".to_string(),
                    attribute_value_type: AttributeValueType::Integer(AttributeIntegerValueType {
                        minimum: 0,
                        maximum: 100
                    })
                }),
                AttributeDefinition::Message(MessageAttribute {
                    attribute_name: "BOStringAttribute".to_string(),
                    attribute_value_type: AttributeValueType::String(AttributeStringValueType {})
                }),
                AttributeDefinition::Network(NetworkAttribute {
                    attribute_name: "FloatAttribute".to_string(),
                    attribute_value_type: AttributeValueType::Float(AttributeFloatValueType {
                        minimum: Number("0".to_string()),
                        maximum: Number("50.5".to_string())
                    })
                }),
                AttributeDefinition::ControlUnitEnvironmentVariable(
                    ControlUnitEnvironmentVariableAttribute {
                        attribute_name: "ControlUnitEnvVarAttr".to_string(),
                        attribute_value_type: AttributeValueType::String(
                            AttributeStringValueType {}
                        )
                    }
                )
            ],
            attribute_defaults: vec![],
            attribute_values: vec![],
            signal_value_descriptions: vec![
                SignalValueDescriptions {
                    message_id: 2147487969,
                    signal_name: "Value1".to_string(),
                    value_descriptions: ValueDescriptions {
                        values: vec![
                            item(3, "Three"),
                            item(2, "Two"),
                            item(1, "One"),
                            item(0, "Zero"),
                        ]
                    }
                },
                SignalValueDescriptions {
                    message_id: 2147487969,
                    signal_name: "Value0".to_string(),
                    value_descriptions: ValueDescriptions {
                        values: vec![item(2, "Value2"), item(1, "Value1"), item(0, "Value0")]
                    }
                },
            ],
            env_var_value_descriptions: vec![
                EnvironmentVariableValueDescriptions {
                    env_var_name: "RWEnvVar_wData".to_string(),
                    value_descriptions: ValueDescriptions {
                        values: vec![item(2, "Value2"), item(1, "Value1"), item(0, "Value0")]
                    }
                },
                EnvironmentVariableValueDescriptions {
                    env_var_name: "WriteOnlyEnvVar".to_string(),
                    value_descriptions: ValueDescriptions {
                        values: vec![item(2, "Value2"), item(1, "Value1"), item(0, "Value0")]
                    }
                },
                EnvironmentVariableValueDescriptions {
                    env_var_name: "ReadOnlyEnvVar".to_string(),
                    value_descriptions: ValueDescriptions {
                        values: vec![item(2, "Value2"), item(1, "Value1"), item(0, "Value0")]
                    }
                },
            ],
        }),
    );
}
