use rrdbc::char_string::CharString;
use rrdbc::comment::{
    parser_comment, parser_environment_variable_comment, parser_message_comment,
    parser_network_comment, parser_node_comment, parser_signal_comment, Comment,
    EnvironmentVariableComment, MessageComment, NetworkComment, NodeComment, SignalComment,
};

#[test]
fn test_parser_comment_01() {
    let s = r#"CM_ "comment";"#;
    assert_eq!(
        parser_comment(s, 0),
        Ok((
            Comment::Network(NetworkComment {
                comment: CharString("comment".into())
            }),
            s.chars().count()
        ))
    );
}

#[test]
fn test_parser_comment_02() {
    let s = r#"CM_ BU_ Node0 "The 0th Node";"#;
    assert_eq!(
        parser_comment(s, 0),
        Ok((
            Comment::Node(NodeComment {
                node_name: "Node0".into(),
                comment: CharString("The 0th Node".into())
            }),
            s.chars().count()
        ))
    );
}

#[test]
fn test_parser_network_comment_01() {
    let s = r#"CM_ "comment";"#;
    assert_eq!(
        parser_network_comment(s, 0),
        Ok((
            Comment::Network(NetworkComment {
                comment: CharString("comment".into())
            }),
            s.chars().count()
        ))
    );
}

#[test]
fn test_parser_network_comment_02() {
    let s = r#"CM_ "DBC Template with single line description";"#;
    assert_eq!(
        parser_network_comment(s, 0),
        Ok((
            Comment::Network(NetworkComment {
                comment: CharString("DBC Template with single line description".into())
            }),
            s.chars().count()
        ))
    );
}

#[test]
fn test_parser_node_comment_01() {
    let s = r#"CM_ BU_ Node0 "The 0th Node";"#;
    assert_eq!(
        parser_node_comment(s, 0),
        Ok((
            Comment::Node(NodeComment {
                node_name: "Node0".into(),
                comment: CharString("The 0th Node".into())
            }),
            s.chars().count()
        ))
    );
}

#[test]
fn test_parser_node_comment_02() {
    let s = r#"CM_ BU_ TestNode "";"#;
    assert_eq!(
        parser_node_comment(s, 0),
        Ok((
            Comment::Node(NodeComment {
                node_name: "TestNode".into(),
                comment: CharString(String::new())
            }),
            s.chars().count()
        ))
    );
}

#[test]
fn test_parser_node_comment_03() {
    let s = r#"CM_ BU_ BAR "fam \"1\"";"#;
    assert_eq!(
        parser_node_comment(s, 0),
        Ok((
            Comment::Node(NodeComment {
                node_name: "BAR".into(),
                comment: CharString(r#"fam \"1\""#.into())
            }),
            s.chars().count()
        ))
    );
}

#[test]
fn test_parser_node_comment_04() {
    let s = r#"CM_ BU_ DRIVER "// The driver controller driving the car //";"#;
    assert_eq!(
        parser_node_comment(s, 0),
        Ok((
            Comment::Node(NodeComment {
                node_name: "DRIVER".into(),
                comment: CharString("// The driver controller driving the car //".into())
            }),
            s.chars().count()
        ))
    );
}

#[test]
fn test_parser_message_comment_01() {
    let s = r#"CM_ BO_ 496 "Example message used as template in MotoHawk models.";"#;
    assert_eq!(
        parser_message_comment(s, 0),
        Ok((
            Comment::Message(MessageComment {
                message_id: 496,
                comment: CharString("Example message used as template in MotoHawk models.".into())
            }),
            s.chars().count()
        ))
    );
}

#[test]
fn test_parser_message_comment_02() {
    let s = r#"CM_ BO_ 472 "No sender message.";"#;
    assert_eq!(
        parser_message_comment(s, 0),
        Ok((
            Comment::Message(MessageComment {
                message_id: 472,
                comment: CharString("No sender message.".into())
            }),
            s.chars().count()
        ))
    );
}

#[test]
fn test_parser_message_comment_03() {
    let s = r#"CM_ BO_ 2303364386 "This cumulative distance calculation is updated when the trigger is active.";"#;
    assert_eq!(
        parser_message_comment(s, 0),
        Ok((
            Comment::Message(MessageComment {
                message_id: 2_303_364_386,
                comment: CharString(
                    "This cumulative distance calculation is updated when the trigger is active."
                        .into()
                )
            }),
            s.chars().count()
        ))
    );
}

#[test]
fn test_parser_signal_comment_01() {
    let s = r#"CM_ SG_ 586 whlspeed_RL_Bremse2 "Radgeschwindigkeit / wheel speed direct RL";"#;
    assert_eq!(
        parser_signal_comment(s, 0),
        Ok((
            Comment::Signal(SignalComment {
                message_id: 586,
                signal_name: "whlspeed_RL_Bremse2".into(),
                comment: CharString("Radgeschwindigkeit / wheel speed direct RL".into())
            }),
            s.chars().count()
        ))
    );
}

#[test]
fn test_parser_signal_comment_02() {
    let s = "CM_ SG_ 834 WheelQuality_FL \"Bit matrix
Bit0 ( 1) Signal Reduced Monitored
Bit1 ( 2) Reduced Accuracy
Bit2 ( 4) Interfered
Bit3 ( 8) Suspicious Plausibility
Bit4 (16) Suspicious Lost
Bit5 (32) Not Initialized
Bit6 (64) Invalid Generic
Bit7 (128) Invalid Individual\";";
    assert_eq!(
        parser_signal_comment(s, 0),
        Ok((
            Comment::Signal(SignalComment {
                message_id: 834,
                signal_name: "WheelQuality_FL".into(),
                comment: CharString(
                    "Bit matrix
Bit0 ( 1) Signal Reduced Monitored
Bit1 ( 2) Reduced Accuracy
Bit2 ( 4) Interfered
Bit3 ( 8) Suspicious Plausibility
Bit4 (16) Suspicious Lost
Bit5 (32) Not Initialized
Bit6 (64) Invalid Generic
Bit7 (128) Invalid Individual"
                        .into()
                )
            }),
            s.chars().count()
        ))
    );
}

#[test]
fn test_parser_environmental_variable_comment_01() {
    let s = r#"CM_ EV_ EMC_Azimuth "Elevation Head";"#;
    assert_eq!(
        parser_environment_variable_comment(s, 0),
        Ok((
            Comment::EnvironmentVariable(EnvironmentVariableComment {
                environment_variable_name: "EMC_Azimuth".into(),
                comment: CharString("Elevation Head".into())
            }),
            s.chars().count()
        ))
    );
}

#[test]
fn test_parser_environmental_variable_comment_02() {
    let s = r#"CM_ EV_ RWEnvVar_wData "This a comment for an environment variable";"#;
    assert_eq!(
        parser_environment_variable_comment(s, 0),
        Ok((
            Comment::EnvironmentVariable(EnvironmentVariableComment {
                environment_variable_name: "RWEnvVar_wData".into(),
                comment: CharString("This a comment for an environment variable".into())
            }),
            s.chars().count()
        ))
    );
}

#[test]
fn test_comment_render_round() {
    let c = Comment::Signal(SignalComment {
        message_id: 12,
        signal_name: "S".into(),
        comment: CharString("hello".into()),
    });
    assert_eq!(c.to_text(), r#"CM_ SG_ 12 S "hello";"#);
}
