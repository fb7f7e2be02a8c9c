use rrdbc::env_var::{parser_env_var, EnvVarType, EnvironmentVariable};
use rrdbc::env_var_data::{parser_env_var_data, EnvironmentVariableData};
use rrdbc::env_var_value_descriptions::{
    parser_env_var_value_descriptions, EnvironmentVariableValueDescriptions,
};
use rrdbc::char_string::CharString;
use rrdbc::number::Number;
use rrdbc::value_descriptions::{ValueDescriptionItem, ValueDescriptions};

#[test]
fn test_parser_env_var_01() {
    let s = r#"EV_ RWEnvVar_wData: 0 [0|1234] "" 60 2 DUMMY_NODE_VECTOR3  Node2;"#;
    assert_eq!(
        parser_env_var(s, 0),
        Ok((
            EnvironmentVariable {
                env_var_name: "RWEnvVar_wData".to_string(),
                env_var_type: EnvVarType::Integer,
                minimum: Number("0".to_string()),
                maximum: Number("1234".to_string()),
                unit: "".to_string(),
                initial_value: Number("60".to_string()),
                ev_id: 2,
                access_type: 3,
                access_nodes: vec!["Node2".to_string()],
            },
            s.chars().count()
        ))
    )
}

#[test]
fn test_parser_env_var_02() {
    let s = r#"EV_ WriteOnlyEnvVar: 1 [0|1234] "" 60 3 DUMMY_NODE_VECTOR2  Node2;"#;
    assert_eq!(
        parser_env_var(s, 0),
        Ok((
            EnvironmentVariable {
                env_var_name: "WriteOnlyEnvVar".to_string(),
                env_var_type: EnvVarType::Float,
                minimum: Number("0".to_string()),
                maximum: Number("1234".to_string()),
                unit: "".to_string(),
                initial_value: Number("60".to_string()),
                ev_id: 3,
                access_type: 2,
                access_nodes: vec!["Node2".to_string()],
            },
            s.chars().count()
        ))
    )
}

#[test]
fn test_parser_env_var_03() {
    let s = r#"EV_ UnrestrictedEnvVar: 0 [0|0] "Nm" 0 1 DUMMY_NODE_VECTOR8000  Node0;"#;
    assert_eq!(
        parser_env_var(s, 0),
        Ok((
            EnvironmentVariable {
                env_var_name: "UnrestrictedEnvVar".to_string(),
                env_var_type: EnvVarType::String,
                minimum: Number("0".to_string()),
                maximum: Number("0".to_string()),
                unit: "Nm".to_string(),
                initial_value: Number("0".to_string()),
                ev_id: 1,
                access_type: 0x8000,
                access_nodes: vec!["Node0".to_string()],
            },
            s.chars().count()
        ))
    )
}

#[test]
fn test_environment_variable_string_01() {
    assert_eq!(
        EnvironmentVariable {
            env_var_name: "RWEnvVar_wData".to_string(),
            env_var_type: EnvVarType::Integer,
            minimum: Number("0".to_string()),
            maximum: Number("1234".to_string()),
            unit: "".to_string(),
            initial_value: Number("60".to_string()),
            ev_id: 2,
            access_type: 3,
            access_nodes: vec!["Node2".to_string()],
        }
        .to_text(),
        r#"EV_ RWEnvVar_wData: 0 [0|1234] "" 60 2 DUMMY_NODE_VECTOR3 Node2;"#
    );
}

#[test]
fn test_environment_variable_string_02() {
    assert_eq!(
        EnvironmentVariable {
            env_var_name: "UnrestrictedEnvVar".to_string(),
            env_var_type: EnvVarType::String,
            minimum: Number("0".to_string()),
            maximum: Number("0".to_string()),
            unit: "Nm".to_string(),
            initial_value: Number("0".to_string()),
            ev_id: 1,
            access_type: 0x8000,
            access_nodes: vec!["Node0".to_string()],
        }
        .to_text(),
        r#"EV_ UnrestrictedEnvVar: 0 [0|0] "Nm" 0 1 DUMMY_NODE_VECTOR8000 Node0;"#
    );
}

#[test]
fn test_environment_variable_string_03() {
    assert_eq!(
        EnvironmentVariable {
            env_var_name: "WriteOnlyEnvVar".to_string(),
            env_var_type: EnvVarType::Float,
            minimum: Number("0".to_string()),
            maximum: Number("1234".to_string()),
            unit: "".to_string(),
            initial_value: Number("60".to_string()),
            ev_id: 3,
            access_type: 2,
            access_nodes: vec!["Node2".to_string()],
        }
        .to_text(),
        r#"EV_ WriteOnlyEnvVar: 1 [0|1234] "" 60 3 DUMMY_NODE_VECTOR2 Node2;"#
    );
}

#[test]
fn test_environment_variable_string_04() {
    assert_eq!(
        EnvironmentVariable {
            env_var_name: "WriteOnlyEnvVar".to_string(),
            env_var_type: EnvVarType::Float,
            minimum: Number("0".to_string()),
            maximum: Number("1234".to_string()),
            unit: "".to_string(),
            initial_value: Number("60".to_string()),
            ev_id: 3,
            access_type: 2,
            access_nodes: vec!["Node2".to_string(), "Node3".to_string()],
        }
        .to_text(),
        r#"EV_ WriteOnlyEnvVar: 1 [0|1234] "" 60 3 DUMMY_NODE_VECTOR2 Node2,Node3;"#
    );
}

#[test]
fn test_environment_variable_string_no_nodes_sentinel() {
    assert_eq!(
        EnvironmentVariable {
            env_var_name: "Var0".to_string(),
            env_var_type: EnvVarType::Integer,
            minimum: Number("0".to_string()),
            maximum: Number("1".to_string()),
            unit: "".to_string(),
            initial_value: Number("0".to_string()),
            ev_id: 9,
            access_type: 0,
            access_nodes: vec![],
        }
        .to_text(),
        r#"EV_ Var0: 0 [0|1] "" 0 9 DUMMY_NODE_VECTOR0 Vector__XXX;"#
    );
}

#[test]
fn test_env_var_type_chars() {
    assert_eq!(EnvVarType::from_char('0'), Some(EnvVarType::Integer));
    assert_eq!(EnvVarType::from_char('1'), Some(EnvVarType::Float));
    assert_eq!(EnvVarType::from_char('s'), Some(EnvVarType::String));
    assert_eq!(EnvVarType::from_char('d'), Some(EnvVarType::Data));
    assert_eq!(EnvVarType::from_char('x'), None);
    assert_eq!(EnvVarType::Integer.as_char(), '0');
    assert_eq!(EnvVarType::Float.as_char(), '1');
    assert_eq!(EnvVarType::String.as_char(), 's');
    assert_eq!(EnvVarType::Data.as_char(), 'd');
}

#[test]
fn test_environment_variable_data_string_01() {
    assert_eq!(
        EnvironmentVariableData {
            env_var_name: "RWEnvVar_wData".to_string(),
            data_size: 10
        }
        .to_text(),
        "ENVVAR_DATA_ RWEnvVar_wData: 10;"
    );
}

#[test]
fn test_parser_environment_variable_data_01() {
    let s = "ENVVAR_DATA_ RWEnvVar_wData: 10;";
    assert_eq!(
        parser_env_var_data(s, 0),
        Ok((
            EnvironmentVariableData {
                env_var_name: "RWEnvVar_wData".to_string(),
                data_size: 10
            },
            s.chars().count()
        ))
    );
}

#[test]
fn test_parser_environment_variable_value_descriptions_01() {
    let s = r#"VAL_ RWEnvVar_wData 2 "Value2" 1 "Value1" 0 "Value0" ;"#;
    assert_eq!(
        parser_env_var_value_descriptions(s, 0),
        Ok((
            EnvironmentVariableValueDescriptions {
                env_var_name: "RWEnvVar_wData".to_string(),
                value_descriptions: ValueDescriptions {
                    values: vec![
                        ValueDescriptionItem {
                            num: 2,
                            str: CharString("Value2".to_string())
                        },
                        ValueDescriptionItem {
                            num: 1,
                            str: CharString("Value1".to_string())
                        },
                        ValueDescriptionItem {
                            num: 0,
                            str: CharString("Value0".to_string())
                        }
                    ]
                }
            },
            s.chars().count()
        ))
    );
}

#[test]
fn test_environment_variable_value_descriptions_string_01() {
    assert_eq!(
        EnvironmentVariableValueDescriptions {
            env_var_name: "RWEnvVar_wData".to_string(),
            value_descriptions: ValueDescriptions {
                values: vec![
                    ValueDescriptionItem {
                        num: 2,
                        str: CharString("Value2".to_string())
                    },
                    ValueDescriptionItem {
                        num: 1,
                        str: CharString("Value1".to_string())
                    },
                    ValueDescriptionItem {
                        num: 0,
                        str: CharString("Value0".to_string())
                    }
                ]
            }
        }
        .to_text(),
        r#"VAL_ RWEnvVar_wData 2 "Value2" 1 "Value1" 0 "Value0";"#,
    );
}
