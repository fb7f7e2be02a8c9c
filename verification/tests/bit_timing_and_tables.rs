use rrdbc::bit_timing::{parser_bit_timing, BitTiming, BitTimingValue};
use rrdbc::char_string::CharString;
use rrdbc::value_descriptions::{
    parser_value_description_item, parser_value_descriptions, ValueDescriptionItem,
    ValueDescriptions,
};
use rrdbc::value_tables::{parser_value_table, ValueTable};

#[test]
fn test_parser_bit_timing_01() {
    let ret = parser_bit_timing("BS_: 12:123:456\n\n", 0);
    match ret {
        Ok((bus_config, _end)) => {
            assert_eq!(
                bus_config,
                BitTiming {
                    value: Some(BitTimingValue {
                        baudrate: 12,
                        btr1: 123,
                        btr2: 456,
                    })
                }
            );
        }
        Err(err) => panic!("err = {:?}", err),
    }
}

#[test]
fn test_parser_bit_timing_02() {
    let ret = parser_bit_timing("BS_:\n\n", 0);
    match ret {
        Ok((bus_config, _end)) => {
            assert_eq!(bus_config, BitTiming { value: None });
        }
        Err(err) => panic!("err = {:?}", err),
    }
}

#[test]
fn test_parser_bit_timing_03() {
    let ret = parser_bit_timing("BS_: ;\n\n", 0);
    match ret {
        Ok((bus_config, _end)) => {
            assert_eq!(bus_config, BitTiming { value: None });
        }
        Err(err) => panic!("err = {:?}", err),
    }
}

#[test]
fn test_parser_bit_timing_04() {
    let ret = parser_bit_timing("BS_: 12:123:456 ;\n\n", 0);
    match ret {
        Ok((bus_config, _end)) => {
            assert_eq!(
                bus_config,
                BitTiming {
                    value: Some(BitTimingValue {
                        baudrate: 12,
                        btr1: 123,
                        btr2: 456,
                    })
                }
            );
        }
        Err(err) => panic!("err = {:?}", err),
    }
}

#[test]
fn test_bit_timing_string_01() {
    let bit_timing = BitTiming {
        value: Some(BitTimingValue {
            baudrate: 12,
            btr1: 123,
            btr2: 456,
        }),
    };
    assert_eq!(bit_timing.to_text(), "BS_: 12:123:456\n");
}

#[test]
fn test_bit_timing_string_02() {
    let bit_timing = BitTiming { value: None };
    assert_eq!(bit_timing.to_text(), "BS_:\n");
}

#[test]
fn test_parser_value_description_item_01() {
    let s = r#"2 "active faults stored""#;
    assert_eq!(
        parser_value_description_item(s, 0),
        Ok((
            ValueDescriptionItem {
                num: 2,
                str: CharString("active faults stored".to_string())
            },
            s.chars().count()
        ))
    );
}

#[test]
fn test_parser_value_descriptions_01() {
    let s = r#"2 "active faults stored""#;
    let (descs, end) = parser_value_descriptions(s, 0);
    assert_eq!(end, s.chars().count());
    assert_eq!(
        descs,
        ValueDescriptions {
            values: vec![ValueDescriptionItem {
                num: 2,
                str: CharString("active faults stored".to_string())
            }]
        }
    );
}

#[test]
fn test_parser_value_descriptions_02() {
    let s = r#" 2 "active faults stored" 1 "inactive faults stored" 0 "no faults stored" "#;
    let (descs, end) = parser_value_descriptions(s, 0);
    assert_eq!(end, s.chars().count());
    assert_eq!(
        descs,
        ValueDescriptions {
            values: vec![
                ValueDescriptionItem {
                    num: 2,
                    str: CharString("active faults stored".to_string())
                },
                ValueDescriptionItem {
                    num: 1,
                    str: CharString("inactive faults stored".to_string())
                },
                ValueDescriptionItem {
                    num: 0,
                    str: CharString("no faults stored".to_string())
                }
            ]
        }
    );
}

#[test]
fn test_value_description_string_01() {
    assert_eq!(
        ValueDescriptionItem {
            num: 2,
            str: CharString("active faults stored".to_string())
        }
        .to_text(),
        r#"2 "active faults stored""#
    );
}

#[test]
fn test_value_descriptions_string_01() {
    assert_eq!(
        ValueDescriptions {
            values: vec![
                ValueDescriptionItem {
                    num: 2,
                    str: CharString("active faults stored".to_string())
                },
                ValueDescriptionItem {
                    num: 1,
                    str: CharString("inactive faults stored".to_string())
                },
                ValueDescriptionItem {
                    num: 0,
                    str: CharString("no faults stored".to_string())
                }
            ]
        }
        .to_text(),
        r#"2 "active faults stored" 1 "inactive faults stored" 0 "no faults stored""#
    );
}

#[test]
fn test_value_descriptions_string_02() {
    assert_eq!(ValueDescriptions { values: vec![] }.to_text(), "");
}

#[test]
fn test_parser_value_table_01() {
    let s = r#" VAL_TABLE_ ABS_fault_info 2 "active faults stored" 1 "inactive faults stored" 0 "no faults stored" ; "#;
    assert_eq!(
        parser_value_table(s, 0),
        Ok((
            ValueTable {
                name: "ABS_fault_info".to_string(),
                value_descriptions: ValueDescriptions {
                    values: vec![
                        ValueDescriptionItem {
                            num: 2,
                            str: CharString("active faults stored".to_string())
                        },
                        ValueDescriptionItem {
                            num: 1,
                            str: CharString("inactive faults stored".to_string())
                        },
                        ValueDescriptionItem {
                            num: 0,
                            str: CharString("no faults stored".to_string())
                        }
                    ]
                }
            },
            s.chars().count()
        ))
    );
}

#[test]
fn test_value_table_string_01() {
    assert_eq!(
        ValueTable {
            name: "ABS_fault_info".to_string(),
            value_descriptions: ValueDescriptions {
                values: vec![
                    ValueDescriptionItem {
                        num: 2,
                        str: CharString("active faults stored".to_string())
                    },
                    ValueDescriptionItem {
                        num: 1,
                        str: CharString("inactive faults stored".to_string())
                    },
                    ValueDescriptionItem {
                        num: 0,
                        str: CharString("no faults stored".to_string())
                    }
                ]
            }
        }
        .to_text(),
        "VAL_TABLE_ ABS_fault_info 2 \"active faults stored\" 1 \"inactive faults stored\" 0 \"no faults stored\";"
    );
}

#[test]
fn test_value_table_string_02() {
    assert_eq!(
        ValueTable {
            name: "name".to_string(),
            value_descriptions: ValueDescriptions { values: vec![] }
        }
        .to_text(),
        "VAL_TABLE_ name;"
    );
}
