use rrdbc::attribute_default::{
    parser_attribute_default, parser_attribute_definition_default, AttributeDefault,
    AttributeDefinitionDefault, AttributeValue, RelationAttributeDefinitionDefault,
};
use rrdbc::attribute_definition::parser_attribute_name;
use rrdbc::char_string::CharString;
use rrdbc::number::Number;

#[test]
fn test_attribute_name_01() {
    let s = r#""hello""#;
    assert_eq!(
        parser_attribute_name(s, 0),
        Some(("hello".to_string(), s.chars().count()))
    );
}

#[test]
fn test_attribute_name_02() {
    let s = r#""RWEnvVar_wData_Val""#;
    assert_eq!(
        parser_attribute_name(s, 0),
        Some(("RWEnvVar_wData_Val".to_string(), s.chars().count()))
    );
}

#[test]
fn test_attribute_default_string_01() {
    assert_eq!(
        AttributeDefault::Attribute(AttributeDefinitionDefault {
            attribute_name: "attribute_name".to_string(),
            attribute_value: AttributeValue::Double(Number("0".to_string()))
        })
        .to_text(),
        r#"BA_DEF_DEF_ "attribute_name" 0;"#
    );
}

#[test]
fn test_attribute_default_string_02() {
    assert_eq!(
        AttributeDefault::Attribute(AttributeDefinitionDefault {
            attribute_name: "SGEnumAttribute".to_string(),
            attribute_value: AttributeValue::String(CharString("Val0".to_string()))
        })
        .to_text(),
        r#"BA_DEF_DEF_ "SGEnumAttribute" "Val0";"#
    );
}

#[test]
fn test_attribute_default_string_03() {
    assert_eq!(
        AttributeDefault::Attribute(AttributeDefinitionDefault {
            attribute_name: "GlobalEnvVar_Val".to_string(),
            attribute_value: AttributeValue::Double(Number("288".to_string()))
        })
        .to_text(),
        r#"BA_DEF_DEF_ "GlobalEnvVar_Val" 288;"#
    );
}

#[test]
fn test_attribute_default_string_04() {
    assert_eq!(
        AttributeDefault::Attribute(AttributeDefinitionDefault {
            attribute_name: "FloatAttribute".to_string(),
            attribute_value: AttributeValue::Double(Number("25.25".to_string()))
        })
        .to_text(),
        r#"BA_DEF_DEF_ "FloatAttribute" 25.25;"#
    );
}

#[test]
fn test_attribute_default_string_05() {
    assert_eq!(
        AttributeDefault::RelationAttribute(RelationAttributeDefinitionDefault {
            attribute_name: "ControlUnitEnvVarAttr".to_string(),
            attribute_value: AttributeValue::String(CharString("MyVar".to_string()))
        })
        .to_text(),
        r#"BA_DEF_DEF_REL_ "ControlUnitEnvVarAttr" "MyVar";"#
    );
}

#[test]
fn test_parser_attribute_definition_default_01() {
    let s = r#"BA_DEF_DEF_ "attribute_name" 0;"#;
    assert_eq!(
        parser_attribute_definition_default(s, 0),
        Ok((
            AttributeDefault::Attribute(AttributeDefinitionDefault {
                attribute_name: "attribute_name".to_string(),
                attribute_value: AttributeValue::Double(Number("0".to_string()))
            }),
            s.chars().count()
        ))
    );
}

#[test]
fn test_parser_attribute_default_01() {
    let s = r#"BA_DEF_DEF_ "attribute_name" 0;"#;
    assert_eq!(
        parser_attribute_default(s, 0),
        Ok((
            AttributeDefault::Attribute(AttributeDefinitionDefault {
                attribute_name: "attribute_name".to_string(),
                attribute_value: AttributeValue::Double(Number("0".to_string()))
            }),
            s.chars().count()
        ))
    );
}

#[test]
fn test_parser_attribute_default_02() {
    let s = r#"BA_DEF_DEF_REL_ "ControlUnitEnvVarAttr" "MyVar";"#;
    assert_eq!(
        parser_attribute_default(s, 0),
        Ok((
            AttributeDefault::RelationAttribute(RelationAttributeDefinitionDefault {
                attribute_name: "ControlUnitEnvVarAttr".to_string(),
                attribute_value: AttributeValue::String(CharString("MyVar".to_string()))
            }),
            s.chars().count()
        ))
    );
}

#[test]
fn test_parser_attribute_default_03() {
    let s = r#"BA_DEF_DEF_  "RWEnvVar_wData_Val" 5;"#;
    assert_eq!(
        parser_attribute_default(s, 0),
        Ok((
            AttributeDefault::Attribute(AttributeDefinitionDefault {
                attribute_name: "RWEnvVar_wData_Val".to_string(),
                attribute_value: AttributeValue::Double(Number("5".to_string()))
            }),
            s.chars().count()
        ))
    );
}

#[test]
fn test_parser_attribute_default_04() {
    let s = r#"BA_DEF_DEF_  "GlobalEnvVar_Val" 288;"#;
    assert_eq!(
        parser_attribute_default(s, 0),
        Ok((
            AttributeDefault::Attribute(AttributeDefinitionDefault {
                attribute_name: "GlobalEnvVar_Val".to_string(),
                attribute_value: AttributeValue::Double(Number("288".to_string()))
            }),
            s.chars().count()
        ))
    );
}

#[test]
fn test_parser_attribute_default_05() {
    let s = r#"BA_DEF_DEF_  "SGEnumAttribute" "Val0";"#;
    assert_eq!(
        parser_attribute_default(s, 0),
        Ok((
            AttributeDefault::Attribute(AttributeDefinitionDefault {
                attribute_name: "SGEnumAttribute".to_string(),
                attribute_value: AttributeValue::String(CharString("Val0".to_string()))
            }),
            s.chars().count()
        ))
    );
}

#[test]
fn test_parser_attribute_default_06() {
    let s = r#"BA_DEF_DEF_  "FloatAttribute" 25.25;"#;
    assert_eq!(
        parser_attribute_default(s, 0),
        Ok((
            AttributeDefault::Attribute(AttributeDefinitionDefault {
                attribute_name: "FloatAttribute".to_string(),
                attribute_value: AttributeValue::Double(Number("25.25".to_string()))
            }),
            s.chars().count()
        ))
    );
}
