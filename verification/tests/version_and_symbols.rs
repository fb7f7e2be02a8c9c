use rrdbc::char_string::CharString;
use rrdbc::new_symbols::{parser_new_symbols, parser_one_line_new_symbols, NewSymbols};
use rrdbc::nodes::{parser_nodes, Nodes};
use rrdbc::version::{parser_version, Version};

#[test]
fn test_dbc_version_01() {
    let s = "VERSION \"1.0.0\"";
    assert_eq!(
        parser_version(s, 0),
        Ok((Version(CharString("1.0.0".into())), s.chars().count()))
    );
}

#[test]
fn test_dbc_version_02() {
    let s = "VERSION  \"3.0.1\"";
    assert_eq!(
        parser_version(s, 0),
        Ok((Version(CharString("3.0.1".into())), s.chars().count()))
    );
}

#[test]
fn test_dbc_version_03() {
    let s = "VERSION        \"9\"";
    assert_eq!(
        parser_version(s, 0),
        Ok((Version(CharString("9".into())), s.chars().count()))
    );
}

#[test]
fn test_version_string_01() {
    let version = Version(CharString("9".into()));
    assert_eq!(version.to_text(), "VERSION \"9\"");
}

#[test]
fn test_version_string_02() {
    let version = Version(CharString("0.0.1".into()));
    assert_eq!(version.to_text(), "VERSION \"0.0.1\"");
}

#[test]
fn test_parser_one_line_new_symbols_01() {
    let ret = parser_one_line_new_symbols("  BS_\n  ", 0);
    match ret {
        Some((name, end)) => {
            assert_eq!(name, "BS_".to_string());
            assert_eq!(end, 6);
        }
        None => panic!("expected a symbol line"),
    }
}

#[test]
fn test_parser_one_line_new_symbols_02() {
    let ret = parser_one_line_new_symbols("  CM_\n    ", 0);
    match ret {
        Some((name, end)) => {
            assert_eq!(name, "CM_".to_string());
            assert_eq!(end, 6);
        }
        None => panic!("expected a symbol line"),
    }
}

#[test]
fn test_parser_new_symbols_01() {
    let ret = parser_new_symbols("NS_:\n    BS_\n    CM_\n\n\n", 0);
    match ret {
        Ok((names, _end)) => {
            assert_eq!(names, NewSymbols(vec!["BS_".into(), "CM_".into()]));
        }
        Err(err) => panic!("err = {:?}", err),
    }
}

#[test]
fn test_parser_new_symbols_02() {
    let ret = parser_new_symbols("\n\nNS_ :\n    NS_DESC_\n    CM_\n    BA_DEF_\n    BA_\n\n\n", 0);
    match ret {
        Ok((names, _end)) => {
            assert_eq!(
                names,
                NewSymbols(vec![
                    "NS_DESC_".into(),
                    "CM_".into(),
                    "BA_DEF_".into(),
                    "BA_".into()
                ])
            );
        }
        Err(err) => panic!("err = {:?}", err),
    }
}

#[test]
fn test_new_symbol_string_01() {
    let names = NewSymbols(vec!["NS_DESC_".into(), "CM_".into()]);
    assert_eq!(names.to_text(), "NS_:\n\tNS_DESC_\n\tCM_\n");
}

#[test]
fn test_new_symbol_string_02() {
    let names = NewSymbols(vec![]);
    assert_eq!(names.to_text(), "NS_:\n");
}

#[test]
fn test_dbc_can_nodes_01() {
    let s = "BU_: ABS DRS_MM5_10\n\n";
    assert_eq!(
        parser_nodes(s, 0),
        Ok((
            Nodes(vec!["ABS".into(), "DRS_MM5_10".into()]),
            s.chars().count()
        ))
    );
}

#[test]
fn test_dbc_can_nodes_02() {
    let s = "BU_:Matrix";
    assert_eq!(
        parser_nodes(s, 0),
        Ok((Nodes(vec!["Matrix".into()]), s.chars().count()))
    );
}

#[test]
fn test_dbc_can_nodes_03() {
    let s = "BU_: Node2 Node1 Node0";
    assert_eq!(
        parser_nodes(s, 0),
        Ok((
            Nodes(vec!["Node2".into(), "Node1".into(), "Node0".into()]),
            s.chars().count()
        ))
    );
}

#[test]
fn test_nodes_string_01() {
    assert_eq!(
        Nodes(vec!["ABS".into(), "DRS_MM5_10".into()]).to_text(),
        "BU_: ABS DRS_MM5_10\n",
    );
}

#[test]
fn test_nodes_string_02() {
    assert_eq!(Nodes(vec![]).to_text(), "BU_:\n",);
}

#[test]
fn test_object_name_unicode_alphanumeric() {
    // A non-ASCII letter continues an object name; a non-alphanumeric
    // character such as a degree sign does not start or continue one.
    let s = "Täble";
    assert_eq!(
        rrdbc::lexer::object_name(s, 0),
        Some(("Täble".to_string(), s.chars().count()))
    );
    assert_eq!(rrdbc::lexer::object_name("°", 0), None);
    assert_eq!(
        parser_one_line_new_symbols("Täble\n", 0),
        Some(("Täble".to_string(), 6))
    );
}
