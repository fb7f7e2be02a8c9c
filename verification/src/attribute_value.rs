//! Attribute values.
//!
//! Format: `BA_ "<name>" [BU_ <node> | BO_ <id> | SG_ <id> <signal> |
//! EV_ <var>] <value>;`.  The scope shapes are tried in the fixed order
//! network, node, message, signal, environment variable, and the first
//! structural match wins.

use vstd::prelude::*;

use crate::attribute_default::{sp_attribute_value, sp_render_attribute_value, AttributeValue,
    AttributeValueView, parser_attribute_value};
use crate::attribute_definition::{sp_attribute_name, parser_attribute_name};
use crate::error::DbcParseError;
use crate::lexer::{dbc_ident, parse_u32, skip_multispaces, sp_dbc_ident, sp_skip_multispaces,
    sp_tag_end, sp_u32, tag};
use crate::char_string::quote_seq;
use crate::text::{dec_digits, append_u32};

verus! {

/// A network-scoped attribute value.
#[derive(Clone, Debug, PartialEq, Eq)]
pub struct NetworkAttributeValue {
    pub attribute_name: String,
    pub attribute_value: AttributeValue,
}

/// A node-scoped attribute value.
#[derive(Clone, Debug, PartialEq, Eq)]
pub struct NodeAttributeValue {
    pub attribute_name: String,
    pub node_name: String,
    pub attribute_value: AttributeValue,
}

/// A message-scoped attribute value.
#[derive(Clone, Debug, PartialEq, Eq)]
pub struct MessageAttributeValue {
    pub attribute_name: String,
    pub message_id: u32,
    pub attribute_value: AttributeValue,
}

/// A signal-scoped attribute value.
#[derive(Clone, Debug, PartialEq, Eq)]
pub struct SignalAttributeValue {
    pub attribute_name: String,
    pub message_id: u32,
    pub signal_name: String,
    pub attribute_value: AttributeValue,
}

/// An environment-variable-scoped attribute value.
#[derive(Clone, Debug, PartialEq, Eq)]
pub struct EnvironmentVariableAttributeValue {
    pub attribute_name: String,
    pub env_var_name: String,
    pub attribute_value: AttributeValue,
}

/// One attribute value, tagged by the object it binds to.
#[derive(Clone, Debug, PartialEq, Eq)]
pub enum ObjectAttributeValue {
    Network(NetworkAttributeValue),
    Node(NodeAttributeValue),
    Message(MessageAttributeValue),
    Signal(SignalAttributeValue),
    EnvironmentVariable(EnvironmentVariableAttributeValue),
}

/// The mathematical value of one attribute value.
pub ghost enum ObjectAttributeValueView {
    Network { attribute_name: Seq<char>, attribute_value: AttributeValueView },
    Node { attribute_name: Seq<char>, node_name: Seq<char>, attribute_value: AttributeValueView },
    Message { attribute_name: Seq<char>, message_id: u32, attribute_value: AttributeValueView },
    Signal {
        attribute_name: Seq<char>,
        message_id: u32,
        signal_name: Seq<char>,
        attribute_value: AttributeValueView,
    },
    EnvironmentVariable {
        attribute_name: Seq<char>,
        env_var_name: Seq<char>,
        attribute_value: AttributeValueView,
    },
}

impl View for ObjectAttributeValue {
    type V = ObjectAttributeValueView;

    open spec fn view(&self) -> ObjectAttributeValueView {
        match self {
            ObjectAttributeValue::Network(v) => ObjectAttributeValueView::Network {
                attribute_name: v.attribute_name@,
                attribute_value: v.attribute_value@,
            },
            ObjectAttributeValue::Node(v) => ObjectAttributeValueView::Node {
                attribute_name: v.attribute_name@,
                node_name: v.node_name@,
                attribute_value: v.attribute_value@,
            },
            ObjectAttributeValue::Message(v) => ObjectAttributeValueView::Message {
                attribute_name: v.attribute_name@,
                message_id: v.message_id,
                attribute_value: v.attribute_value@,
            },
            ObjectAttributeValue::Signal(v) => ObjectAttributeValueView::Signal {
                attribute_name: v.attribute_name@,
                message_id: v.message_id,
                signal_name: v.signal_name@,
                attribute_value: v.attribute_value@,
            },
            ObjectAttributeValue::EnvironmentVariable(
                v,
            ) => ObjectAttributeValueView::EnvironmentVariable {
                attribute_name: v.attribute_name@,
                env_var_name: v.env_var_name@,
                attribute_value: v.attribute_value@,
            },
        }
    }
}

impl DeepView for ObjectAttributeValue {
    type V = ObjectAttributeValueView;

    open spec fn deep_view(&self) -> ObjectAttributeValueView {
        self.view()
    }
}

// ---------------------------------------------------------------------------
// Parsing
// ---------------------------------------------------------------------------

/// The common head of an attribute value at `i`: the keyword and the quoted
/// name; on a match, the name and the position after it.
pub open spec fn sp_ba_head(s: Seq<char>, i: int) -> Option<(Seq<char>, int)> {
    let i1 = sp_skip_multispaces(s, i);
    match sp_tag_end(s, i1, "BA_"@) {
        None => None,
        Some(i2) => {
            let i3 = sp_skip_multispaces(s, i2);
            sp_attribute_name(s, i3)
        },
    }
}

/// The common tail of an attribute value at `i`: the scalar value and the
/// closing semicolon.
pub open spec fn sp_ba_tail(s: Seq<char>, i: int) -> Option<(AttributeValueView, int)> {
    let i1 = sp_skip_multispaces(s, i);
    match sp_attribute_value(s, i1) {
        None => None,
        Some((value, j)) => {
            let i2 = sp_skip_multispaces(s, j);
            match sp_tag_end(s, i2, ";"@) {
                None => None,
                Some(i3) => Some((value, sp_skip_multispaces(s, i3))),
            }
        },
    }
}

/// A network-scoped attribute value at `i`.
pub open spec fn sp_network_attribute_value(s: Seq<char>, i: int) -> Option<
    (ObjectAttributeValueView, int),
> {
    match sp_ba_head(s, i) {
        None => None,
        Some((name, j1)) => match sp_ba_tail(s, j1) {
            None => None,
            Some((value, j2)) => Some(
                (ObjectAttributeValueView::Network { attribute_name: name, attribute_value: value },
                j2),
            ),
        },
    }
}

/// A node-scoped attribute value at `i`.
pub open spec fn sp_node_attribute_value(s: Seq<char>, i: int) -> Option<
    (ObjectAttributeValueView, int),
> {
    match sp_ba_head(s, i) {
        None => None,
        Some((name, j1)) => {
            let i1 = sp_skip_multispaces(s, j1);
            match sp_tag_end(s, i1, "BU_"@) {
                None => None,
                Some(i2) => {
                    let i3 = sp_skip_multispaces(s, i2);
                    match sp_dbc_ident(s, i3) {
                        None => None,
                        Some(jn) => match sp_ba_tail(s, jn) {
                            None => None,
                            Some((value, j2)) => Some(
                                (ObjectAttributeValueView::Node {
                                    attribute_name: name,
                                    node_name: s.subrange(i3, jn),
                                    attribute_value: value,
                                }, j2),
                            ),
                        },
                    }
                },
            }
        },
    }
}

/// A message-scoped attribute value at `i`.
pub open spec fn sp_message_attribute_value(s: Seq<char>, i: int) -> Option<
    (ObjectAttributeValueView, int),
> {
    match sp_ba_head(s, i) {
        None => None,
        Some((name, j1)) => {
            let i1 = sp_skip_multispaces(s, j1);
            match sp_tag_end(s, i1, "BO_"@) {
                None => None,
                Some(i2) => {
                    let i3 = sp_skip_multispaces(s, i2);
                    match sp_u32(s, i3) {
                        None => None,
                        Some((id, jn)) => match sp_ba_tail(s, jn) {
                            None => None,
                            Some((value, j2)) => Some(
                                (ObjectAttributeValueView::Message {
                                    attribute_name: name,
                                    message_id: id,
                                    attribute_value: value,
                                }, j2),
                            ),
                        },
                    }
                },
            }
        },
    }
}

/// A signal-scoped attribute value at `i`.
pub open spec fn sp_signal_attribute_value(s: Seq<char>, i: int) -> Option<
    (ObjectAttributeValueView, int),
> {
    match sp_ba_head(s, i) {
        None => None,
        Some((name, j1)) => {
            let i1 = sp_skip_multispaces(s, j1);
            match sp_tag_end(s, i1, "SG_"@) {
                None => None,
                Some(i2) => {
                    let i3 = sp_skip_multispaces(s, i2);
                    match sp_u32(s, i3) {
                        None => None,
                        Some((id, jn)) => {
                            let i4 = sp_skip_multispaces(s, jn);
                            match sp_dbc_ident(s, i4) {
                                None => None,
                                Some(js) => match sp_ba_tail(s, js) {
                                    None => None,
                                    Some((value, j2)) => Some(
                                        (ObjectAttributeValueView::Signal {
                                            attribute_name: name,
                                            message_id: id,
                                            signal_name: s.subrange(i4, js),
                                            attribute_value: value,
                                        }, j2),
                                    ),
                                },
                            }
                        },
                    }
                },
            }
        },
    }
}

/// An environment-variable-scoped attribute value at `i`.
pub open spec fn sp_env_var_attribute_value(s: Seq<char>, i: int) -> Option<
    (ObjectAttributeValueView, int),
> {
    match sp_ba_head(s, i) {
        None => None,
        Some((name, j1)) => {
            let i1 = sp_skip_multispaces(s, j1);
            match sp_tag_end(s, i1, "EV_"@) {
                None => None,
                Some(i2) => {
                    let i3 = sp_skip_multispaces(s, i2);
                    match sp_dbc_ident(s, i3) {
                        None => None,
                        Some(jn) => match sp_ba_tail(s, jn) {
                            None => None,
                            Some((value, j2)) => Some(
                                (ObjectAttributeValueView::EnvironmentVariable {
                                    attribute_name: name,
                                    env_var_name: s.subrange(i3, jn),
                                    attribute_value: value,
                                }, j2),
                            ),
                        },
                    }
                },
            }
        },
    }
}

/// One attribute value at `i`: the scope shapes tried in fixed order,
/// first structural match wins.
pub open spec fn sp_object_attribute_value(s: Seq<char>, i: int) -> Option<
    (ObjectAttributeValueView, int),
> {
    match sp_network_attribute_value(s, i) {
        Some(r) => Some(r),
        None => match sp_node_attribute_value(s, i) {
            Some(r) => Some(r),
            None => match sp_message_attribute_value(s, i) {
                Some(r) => Some(r),
                None => match sp_signal_attribute_value(s, i) {
                    Some(r) => Some(r),
                    None => sp_env_var_attribute_value(s, i),
                },
            },
        },
    }
}

/// Match the common head: the keyword and the quoted name.
fn parse_ba_head(s: &str, i: usize) -> (r: Option<(String, usize)>)
    requires
        i <= s@.len(),
    ensures
        match r {
            Some((t, j)) => sp_ba_head(s@, i as int) == Some((t@, j as int)) && i <= j
                <= s@.len(),
            None => sp_ba_head(s@, i as int) is None,
        },
{
    let i1: usize = skip_multispaces(s, i);
    match tag(s, i1, "BA_") {
        None => None,
        Some(i2) => {
            let i3: usize = skip_multispaces(s, i2);
            parser_attribute_name(s, i3)
        },
    }
}

/// Match the common tail: the scalar value and the semicolon.
fn parse_ba_tail(s: &str, i: usize) -> (r: Option<(AttributeValue, usize)>)
    requires
        i <= s@.len(),
    ensures
        match r {
            Some((v, j)) => sp_ba_tail(s@, i as int) == Some((v@, j as int)) && i <= j
                <= s@.len(),
            None => sp_ba_tail(s@, i as int) is None,
        },
{
    let i1: usize = skip_multispaces(s, i);
    match parser_attribute_value(s, i1) {
        Err(_) => None,
        Ok((value, j)) => {
            let i2: usize = skip_multispaces(s, j);
            match tag(s, i2, ";") {
                None => None,
                Some(i3) => {
                    let j2: usize = skip_multispaces(s, i3);
                    Some((value, j2))
                },
            }
        },
    }
}

/// Match a network-scoped attribute value.
pub fn parser_network_attribute_value(s: &str, i: usize) -> (r: Result<
    (ObjectAttributeValue, usize),
    DbcParseError,
>)
    requires
        i <= s@.len(),
    ensures
        match r {
            Ok((v, j)) => sp_network_attribute_value(s@, i as int) == Some((v@, j as int)) && i
                <= j <= s@.len(),
            Err(e) => sp_network_attribute_value(s@, i as int) is None && e
                == DbcParseError::BadNetworkAttributeValue,
        },
{
    match parse_ba_head(s, i) {
        None => Err(DbcParseError::BadNetworkAttributeValue),
        Some((name, j1)) => match parse_ba_tail(s, j1) {
            None => Err(DbcParseError::BadNetworkAttributeValue),
            Some((value, j2)) => Ok(
                (ObjectAttributeValue::Network(
                    NetworkAttributeValue { attribute_name: name, attribute_value: value },
                ), j2),
            ),
        },
    }
}

/// Match a node-scoped attribute value.
pub fn parser_node_attribute_value(s: &str, i: usize) -> (r: Result<
    (ObjectAttributeValue, usize),
    DbcParseError,
>)
    requires
        i <= s@.len(),
    ensures
        match r {
            Ok((v, j)) => sp_node_attribute_value(s@, i as int) == Some((v@, j as int)) && i <= j
                <= s@.len(),
            Err(e) => sp_node_attribute_value(s@, i as int) is None && e
                == DbcParseError::BadNodeAttributeValue,
        },
{
    match parse_ba_head(s, i) {
        None => Err(DbcParseError::BadNodeAttributeValue),
        Some((name, j1)) => {
            let i1: usize = skip_multispaces(s, j1);
            match tag(s, i1, "BU_") {
                None => Err(DbcParseError::BadNodeAttributeValue),
                Some(i2) => {
                    let i3: usize = skip_multispaces(s, i2);
                    match dbc_ident(s, i3) {
                        Err(_) => Err(DbcParseError::BadNodeAttributeValue),
                        Ok((node, jn)) => match parse_ba_tail(s, jn) {
                            None => Err(DbcParseError::BadNodeAttributeValue),
                            Some((value, j2)) => Ok(
                                (ObjectAttributeValue::Node(
                                    NodeAttributeValue {
                                        attribute_name: name,
                                        node_name: node,
                                        attribute_value: value,
                                    },
                                ), j2),
                            ),
                        },
                    }
                },
            }
        },
    }
}

/// Match a message-scoped attribute value.
pub fn parser_message_attribute_value(s: &str, i: usize) -> (r: Result<
    (ObjectAttributeValue, usize),
    DbcParseError,
>)
    requires
        i <= s@.len(),
    ensures
        match r {
            Ok((v, j)) => sp_message_attribute_value(s@, i as int) == Some((v@, j as int)) && i
                <= j <= s@.len(),
            Err(e) => sp_message_attribute_value(s@, i as int) is None && e
                == DbcParseError::BadMessageAttributeValue,
        },
{
    match parse_ba_head(s, i) {
        None => Err(DbcParseError::BadMessageAttributeValue),
        Some((name, j1)) => {
            let i1: usize = skip_multispaces(s, j1);
            match tag(s, i1, "BO_") {
                None => Err(DbcParseError::BadMessageAttributeValue),
                Some(i2) => {
                    let i3: usize = skip_multispaces(s, i2);
                    match parse_u32(s, i3) {
                        None => Err(DbcParseError::BadMessageAttributeValue),
                        Some((id, jn)) => match parse_ba_tail(s, jn) {
                            None => Err(DbcParseError::BadMessageAttributeValue),
                            Some((value, j2)) => Ok(
                                (ObjectAttributeValue::Message(
                                    MessageAttributeValue {
                                        attribute_name: name,
                                        message_id: id,
                                        attribute_value: value,
                                    },
                                ), j2),
                            ),
                        },
                    }
                },
            }
        },
    }
}

/// Match a signal-scoped attribute value.
pub fn parser_signal_attribute_value(s: &str, i: usize) -> (r: Result<
    (ObjectAttributeValue, usize),
    DbcParseError,
>)
    requires
        i <= s@.len(),
    ensures
        match r {
            Ok((v, j)) => sp_signal_attribute_value(s@, i as int) == Some((v@, j as int)) && i
                <= j <= s@.len(),
            Err(e) => sp_signal_attribute_value(s@, i as int) is None && e
                == DbcParseError::BadSignalAttributeValue,
        },
{
    match parse_ba_head(s, i) {
        None => Err(DbcParseError::BadSignalAttributeValue),
        Some((name, j1)) => {
            let i1: usize = skip_multispaces(s, j1);
            match tag(s, i1, "SG_") {
                None => Err(DbcParseError::BadSignalAttributeValue),
                Some(i2) => {
                    let i3: usize = skip_multispaces(s, i2);
                    match parse_u32(s, i3) {
                        None => Err(DbcParseError::BadSignalAttributeValue),
                        Some((id, jn)) => {
                            let i4: usize = skip_multispaces(s, jn);
                            match dbc_ident(s, i4) {
                                Err(_) => Err(DbcParseError::BadSignalAttributeValue),
                                Ok((signal, js)) => match parse_ba_tail(s, js) {
                                    None => Err(DbcParseError::BadSignalAttributeValue),
                                    Some((value, j2)) => Ok(
                                        (ObjectAttributeValue::Signal(
                                            SignalAttributeValue {
                                                attribute_name: name,
                                                message_id: id,
                                                signal_name: signal,
                                                attribute_value: value,
                                            },
                                        ), j2),
                                    ),
                                },
                            }
                        },
                    }
                },
            }
        },
    }
}

/// Match an environment-variable-scoped attribute value.
pub fn parser_environment_variable_attribute_value(s: &str, i: usize) -> (r: Result<
    (ObjectAttributeValue, usize),
    DbcParseError,
>)
    requires
        i <= s@.len(),
    ensures
        match r {
            Ok((v, j)) => sp_env_var_attribute_value(s@, i as int) == Some((v@, j as int)) && i
                <= j <= s@.len(),
            Err(e) => sp_env_var_attribute_value(s@, i as int) is None && e
                == DbcParseError::BadEnvironmentVariableAttributeValue,
        },
{
    match parse_ba_head(s, i) {
        None => Err(DbcParseError::BadEnvironmentVariableAttributeValue),
        Some((name, j1)) => {
            let i1: usize = skip_multispaces(s, j1);
            match tag(s, i1, "EV_") {
                None => Err(DbcParseError::BadEnvironmentVariableAttributeValue),
                Some(i2) => {
                    let i3: usize = skip_multispaces(s, i2);
                    match dbc_ident(s, i3) {
                        Err(_) => Err(DbcParseError::BadEnvironmentVariableAttributeValue),
                        Ok((var, jn)) => match parse_ba_tail(s, jn) {
                            None => Err(DbcParseError::BadEnvironmentVariableAttributeValue),
                            Some((value, j2)) => Ok(
                                (ObjectAttributeValue::EnvironmentVariable(
                                    EnvironmentVariableAttributeValue {
                                        attribute_name: name,
                                        env_var_name: var,
                                        attribute_value: value,
                                    },
                                ), j2),
                            ),
                        },
                    }
                },
            }
        },
    }
}

/// Match one attribute value of any scope.
pub fn parser_object_attribute_value(s: &str, i: usize) -> (r: Result<
    (ObjectAttributeValue, usize),
    DbcParseError,
>)
    requires
        i <= s@.len(),
    ensures
        match r {
            Ok((v, j)) => sp_object_attribute_value(s@, i as int) == Some((v@, j as int)) && i
                <= j <= s@.len(),
            Err(_) => sp_object_attribute_value(s@, i as int) is None,
        },
{
    match parser_network_attribute_value(s, i) {
        Ok(v) => Ok(v),
        Err(_) => match parser_node_attribute_value(s, i) {
            Ok(v) => Ok(v),
            Err(_) => match parser_message_attribute_value(s, i) {
                Ok(v) => Ok(v),
                Err(_) => match parser_signal_attribute_value(s, i) {
                    Ok(v) => Ok(v),
                    Err(_) => match parser_environment_variable_attribute_value(s, i) {
                        Ok(v) => Ok(v),
                        Err(e) => Err(e),
                    },
                },
            },
        },
    }
}

// ---------------------------------------------------------------------------
// Rendering
// ---------------------------------------------------------------------------

/// The rendered attribute value line.
pub open spec fn sp_render_object_attribute_value(v: ObjectAttributeValueView) -> Seq<char> {
    match v {
        ObjectAttributeValueView::Network { attribute_name, attribute_value } => "BA_ "@
            + quote_seq(attribute_name) + seq![' '] + sp_render_attribute_value(attribute_value)
            + seq![';'],
        ObjectAttributeValueView::Node { attribute_name, node_name, attribute_value } => "BA_ "@
            + quote_seq(attribute_name) + " BU_ "@ + node_name + seq![' ']
            + sp_render_attribute_value(attribute_value) + seq![';'],
        ObjectAttributeValueView::Message { attribute_name, message_id, attribute_value } => "BA_ "@
            + quote_seq(attribute_name) + " BO_ "@ + dec_digits(message_id as nat) + seq![' ']
            + sp_render_attribute_value(attribute_value) + seq![';'],
        ObjectAttributeValueView::Signal {
            attribute_name,
            message_id,
            signal_name,
            attribute_value,
        } => "BA_ "@ + quote_seq(attribute_name) + " SG_ "@ + dec_digits(message_id as nat)
            + seq![' '] + signal_name + seq![' '] + sp_render_attribute_value(attribute_value)
            + seq![';'],
        ObjectAttributeValueView::EnvironmentVariable {
            attribute_name,
            env_var_name,
            attribute_value,
        } => "BA_ "@ + quote_seq(attribute_name) + " EV_ "@ + env_var_name + seq![' ']
            + sp_render_attribute_value(attribute_value) + seq![';'],
    }
}

impl ObjectAttributeValue {
    /// Render the attribute value line.
    pub fn to_text(&self) -> (r: String)
        ensures
            r@ == sp_render_object_attribute_value(self@),
    {
        let mut out: String = String::from_str("BA_ \"");
        match self {
            ObjectAttributeValue::Network(v) => {
                out.append(v.attribute_name.as_str());
                out.append("\" ");
                let t: String = v.attribute_value.to_text();
                out.append(t.as_str());
            },
            ObjectAttributeValue::Node(v) => {
                out.append(v.attribute_name.as_str());
                out.append("\" BU_ ");
                out.append(v.node_name.as_str());
                out.append(" ");
                let t: String = v.attribute_value.to_text();
                out.append(t.as_str());
            },
            ObjectAttributeValue::Message(v) => {
                out.append(v.attribute_name.as_str());
                out.append("\" BO_ ");
                append_u32(&mut out, v.message_id);
                out.append(" ");
                let t: String = v.attribute_value.to_text();
                out.append(t.as_str());
            },
            ObjectAttributeValue::Signal(v) => {
                out.append(v.attribute_name.as_str());
                out.append("\" SG_ ");
                append_u32(&mut out, v.message_id);
                out.append(" ");
                out.append(v.signal_name.as_str());
                out.append(" ");
                let t: String = v.attribute_value.to_text();
                out.append(t.as_str());
            },
            ObjectAttributeValue::EnvironmentVariable(v) => {
                out.append(v.attribute_name.as_str());
                out.append("\" EV_ ");
                out.append(v.env_var_name.as_str());
                out.append(" ");
                let t: String = v.attribute_value.to_text();
                out.append(t.as_str());
            },
        }
        out.append(";");
        proof {
            reveal_strlit("BA_ \"");
            reveal_strlit("BA_ ");
            reveal_strlit("\" ");
            reveal_strlit("\" BU_ ");
            reveal_strlit("\" BO_ ");
            reveal_strlit("\" SG_ ");
            reveal_strlit("\" EV_ ");
            reveal_strlit(" BU_ ");
            reveal_strlit(" BO_ ");
            reveal_strlit(" SG_ ");
            reveal_strlit(" EV_ ");
            reveal_strlit(" ");
            reveal_strlit(";");
            assert(out@ =~= sp_render_object_attribute_value(self@));
        }
        out
    }
}

} // verus!
