//! The whole document: assembly, full-input check, and rendering.
//!
//! A document is a strict linear sequence of sections: version, symbol
//! list, bit timing, node list, global value tables, messages, environment
//! variables, their data sizes, comments, attribute definitions, attribute
//! defaults, attribute values, signal value descriptions, environment
//! variable value descriptions.  The whole input must be consumed: any
//! trailing text after a structurally valid parse fails the parse.

use vstd::prelude::*;

use crate::attribute_default::{sp_attr_default, sp_render_attr_default, AttributeDefault,
    AttributeDefaultView, parser_attribute_default};
use crate::attribute_definition::{sp_attr_definition, sp_render_attr_definition,
    AttributeDefinition, AttributeDefinitionView, parser_attribute_definition};
use crate::attribute_value::{sp_object_attribute_value, sp_render_object_attribute_value,
    ObjectAttributeValue, ObjectAttributeValueView, parser_object_attribute_value};
use crate::bit_timing::{sp_bit_timing, sp_render_bit_timing, BitTiming, parser_bit_timing};
use crate::comment::{sp_comment, sp_render_comment, Comment, CommentView, parser_comment};
use crate::env_var::{sp_env_var, sp_render_env_var, EnvironmentVariable, EnvironmentVariableView,
    parser_env_var};
use crate::env_var_data::{sp_env_var_data, sp_render_env_var_data, EnvironmentVariableData,
    EnvironmentVariableDataView, parser_env_var_data};
use crate::env_var_value_descriptions::{sp_env_var_value_descriptions,
    sp_render_env_var_value_descriptions, EnvironmentVariableValueDescriptions,
    EnvironmentVariableValueDescriptionsView, parser_env_var_value_descriptions};
use crate::error::DbcParseError;
use crate::lexer::{skip_multispaces, sp_many0, sp_skip_multispaces};
use crate::message::{sp_message, sp_render_message, Message, MessageView, parser_dbc_message};
use crate::new_symbols::{sp_new_symbols, sp_render_new_symbols, NewSymbols, parser_new_symbols};
use crate::nodes::{sp_nodes, sp_render_nodes, Nodes, parser_nodes};
use crate::signal_value_descriptions::{sp_signal_value_descriptions,
    sp_render_signal_value_descriptions, SignalValueDescriptions, SignalValueDescriptionsView,
    parser_signal_value_descriptions};
use crate::value_tables::{sp_render_value_table, sp_value_tables, ValueTable, ValueTableView,
    parser_value_tables};
use crate::version::{sp_render_version, sp_version, Version, parser_version};

verus! {

/// One whole document.
#[derive(Clone, Debug, PartialEq, Eq)]
pub struct NetworkAst {
    pub version: Version,
    pub new_symbols: NewSymbols,
    pub bit_timing: Option<BitTiming>,
    pub nodes: Nodes,
    pub value_tables: Option<Vec<ValueTable>>,
    pub messages: Vec<Message>,
    pub env_vars: Vec<EnvironmentVariable>,
    pub env_vars_data: Vec<EnvironmentVariableData>,
    pub comments: Vec<Comment>,
    pub attribute_definitions: Vec<AttributeDefinition>,
    pub attribute_defaults: Vec<AttributeDefault>,
    pub attribute_values: Vec<ObjectAttributeValue>,
    pub signal_value_descriptions: Vec<SignalValueDescriptions>,
    pub env_var_value_descriptions: Vec<EnvironmentVariableValueDescriptions>,
}

/// The mathematical value of one document.
pub ghost struct NetworkAstView {
    pub version: Seq<char>,
    pub new_symbols: Seq<Seq<char>>,
    pub bit_timing: Option<BitTiming>,
    pub nodes: Seq<Seq<char>>,
    pub value_tables: Option<Seq<ValueTableView>>,
    pub messages: Seq<MessageView>,
    pub env_vars: Seq<EnvironmentVariableView>,
    pub env_vars_data: Seq<EnvironmentVariableDataView>,
    pub comments: Seq<CommentView>,
    pub attribute_definitions: Seq<AttributeDefinitionView>,
    pub attribute_defaults: Seq<AttributeDefaultView>,
    pub attribute_values: Seq<ObjectAttributeValueView>,
    pub signal_value_descriptions: Seq<SignalValueDescriptionsView>,
    pub env_var_value_descriptions: Seq<EnvironmentVariableValueDescriptionsView>,
}

impl View for NetworkAst {
    type V = NetworkAstView;

    open spec fn view(&self) -> NetworkAstView {
        NetworkAstView {
            version: self.version@,
            new_symbols: self.new_symbols@,
            bit_timing: self.bit_timing,
            nodes: self.nodes@,
            value_tables: match self.value_tables {
                Some(ref v) => Some(v.deep_view()),
                None => None,
            },
            messages: self.messages.deep_view(),
            env_vars: self.env_vars.deep_view(),
            env_vars_data: self.env_vars_data.deep_view(),
            comments: self.comments.deep_view(),
            attribute_definitions: self.attribute_definitions.deep_view(),
            attribute_defaults: self.attribute_defaults.deep_view(),
            attribute_values: self.attribute_values.deep_view(),
            signal_value_descriptions: self.signal_value_descriptions.deep_view(),
            env_var_value_descriptions: self.env_var_value_descriptions.deep_view(),
        }
    }
}

// ---------------------------------------------------------------------------
// The section repetitions
// ---------------------------------------------------------------------------

/// Zero or more messages.
pub open spec fn sp_message_items(s: Seq<char>, i: int) -> (Seq<MessageView>, int) {
    sp_many0(|s2: Seq<char>, i2: int| sp_message(s2, i2), s, i)
}

/// Zero or more environment variables.
pub open spec fn sp_env_var_items(s: Seq<char>, i: int) -> (Seq<EnvironmentVariableView>, int) {
    sp_many0(|s2: Seq<char>, i2: int| sp_env_var(s2, i2), s, i)
}

/// Zero or more data-size declarations.
pub open spec fn sp_env_var_data_items(s: Seq<char>, i: int) -> (
    Seq<EnvironmentVariableDataView>,
    int,
) {
    sp_many0(|s2: Seq<char>, i2: int| sp_env_var_data(s2, i2), s, i)
}

/// Zero or more comments.
pub open spec fn sp_comment_items(s: Seq<char>, i: int) -> (Seq<CommentView>, int) {
    sp_many0(|s2: Seq<char>, i2: int| sp_comment(s2, i2), s, i)
}

/// Zero or more attribute definitions.
pub open spec fn sp_attr_definition_items(s: Seq<char>, i: int) -> (
    Seq<AttributeDefinitionView>,
    int,
) {
    sp_many0(|s2: Seq<char>, i2: int| sp_attr_definition(s2, i2), s, i)
}

/// Zero or more attribute defaults.
pub open spec fn sp_attr_default_items(s: Seq<char>, i: int) -> (Seq<AttributeDefaultView>, int) {
    sp_many0(|s2: Seq<char>, i2: int| sp_attr_default(s2, i2), s, i)
}

/// Zero or more attribute values.
pub open spec fn sp_attr_value_items(s: Seq<char>, i: int) -> (
    Seq<ObjectAttributeValueView>,
    int,
) {
    sp_many0(|s2: Seq<char>, i2: int| sp_object_attribute_value(s2, i2), s, i)
}

/// Zero or more signal value description attachments.
pub open spec fn sp_signal_value_desc_items(s: Seq<char>, i: int) -> (
    Seq<SignalValueDescriptionsView>,
    int,
) {
    sp_many0(|s2: Seq<char>, i2: int| sp_signal_value_descriptions(s2, i2), s, i)
}

/// Zero or more environment variable value description attachments.
pub open spec fn sp_env_var_value_desc_items(s: Seq<char>, i: int) -> (
    Seq<EnvironmentVariableValueDescriptionsView>,
    int,
) {
    sp_many0(|s2: Seq<char>, i2: int| sp_env_var_value_descriptions(s2, i2), s, i)
}

/// The whole document grammar at `i`: the fixed linear sequence of
/// sections, whitespace tolerated between them.
pub open spec fn sp_dbc(s: Seq<char>, i: int) -> Option<(NetworkAstView, int)> {
    let i0 = sp_skip_multispaces(s, i);
    match sp_version(s, i0) {
        None => None,
        Some((version, p1)) => {
            let i1 = sp_skip_multispaces(s, p1);
            match sp_new_symbols(s, i1) {
                None => None,
                Some((new_symbols, p2)) => {
                    let i2 = sp_skip_multispaces(s, p2);
                    match sp_bit_timing(s, i2) {
                        None => None,
                        Some((bit_timing, p3)) => {
                            let i3 = sp_skip_multispaces(s, p3);
                            match sp_nodes(s, i3) {
                                None => None,
                                Some((nodes, p4)) => {
                                    let i4 = sp_skip_multispaces(s, p4);
                                    let (tables, p5) = sp_value_tables(s, i4);
                                    let i5 = sp_skip_multispaces(s, p5);
                                    let (messages, p6) = sp_message_items(s, i5);
                                    let i6 = sp_skip_multispaces(s, p6);
                                    let (env_vars, p7) = sp_env_var_items(s, i6);
                                    let i7 = sp_skip_multispaces(s, p7);
                                    let (env_vars_data, p8) = sp_env_var_data_items(s, i7);
                                    let i8 = sp_skip_multispaces(s, p8);
                                    let (comments, p9) = sp_comment_items(s, i8);
                                    let i9 = sp_skip_multispaces(s, p9);
                                    let (attribute_definitions, p10) = sp_attr_definition_items(
                                        s,
                                        i9,
                                    );
                                    let i10 = sp_skip_multispaces(s, p10);
                                    let (attribute_defaults, p11) = sp_attr_default_items(s, i10);
                                    let i11 = sp_skip_multispaces(s, p11);
                                    let (attribute_values, p12) = sp_attr_value_items(s, i11);
                                    let i12 = sp_skip_multispaces(s, p12);
                                    let (signal_value_descriptions, p13) =
                                        sp_signal_value_desc_items(s, i12);
                                    let i13 = sp_skip_multispaces(s, p13);
                                    let (env_var_value_descriptions, p14) =
                                        sp_env_var_value_desc_items(s, i13);
                                    let end = sp_skip_multispaces(s, p14);
                                    Some(
                                        (NetworkAstView {
                                            version,
                                            new_symbols,
                                            bit_timing: Some(bit_timing),
                                            nodes,
                                            value_tables: if tables.len() == 0 {
                                                None
                                            } else {
                                                Some(tables)
                                            },
                                            messages,
                                            env_vars,
                                            env_vars_data,
                                            comments,
                                            attribute_definitions,
                                            attribute_defaults,
                                            attribute_values,
                                            signal_value_descriptions,
                                            env_var_value_descriptions,
                                        }, end),
                                    )
                                },
                            }
                        },
                    }
                },
            }
        },
    }
}

/// The error kind of a document that fails the grammar: the kind of the
/// first section in the fixed order that fails.  Together with `sp_dbc`
/// this makes the whole parse a function of the input text alone.
pub open spec fn sp_dbc_err(s: Seq<char>, i: int) -> DbcParseError {
    let i0 = sp_skip_multispaces(s, i);
    match sp_version(s, i0) {
        None => DbcParseError::BadVersion,
        Some((version, p1)) => {
            let i1 = sp_skip_multispaces(s, p1);
            match sp_new_symbols(s, i1) {
                None => DbcParseError::BadNames,
                Some((new_symbols, p2)) => {
                    let i2 = sp_skip_multispaces(s, p2);
                    match sp_bit_timing(s, i2) {
                        None => DbcParseError::BadBitTiming,
                        Some(_) => DbcParseError::BadCanNodes,
                    }
                },
            }
        },
    }
}

/// Match zero or more messages.
fn parse_message_items(s: &str, i: usize) -> (r: (Vec<Message>, usize))
    requires
        i <= s@.len(),
    ensures
        sp_message_items(s@, i as int) == (r.0.deep_view(), r.1 as int),
        i <= r.1 <= s@.len(),
{
    let mut items: Vec<Message> = Vec::new();
    let mut cur: usize = i;
    loop
        invariant
            i <= cur <= s@.len(),
            sp_message_items(s@, i as int).0 == items.deep_view() + sp_message_items(
                s@,
                cur as int,
            ).0,
            sp_message_items(s@, i as int).1 == sp_message_items(s@, cur as int).1,
        ensures
            cur <= s@.len(),
            sp_message_items(s@, i as int) == (items.deep_view(), cur as int),
        decreases s@.len() - cur,
    {
        let ghost prev = items.deep_view();
        let next: Option<(Message, usize)> = match parser_dbc_message(s, cur) {
            Ok((v, j)) => if j > cur {
                Some((v, j))
            } else {
                None
            },
            Err(_) => None,
        };
        match next {
            None => {
                proof {
                    assert(sp_message_items(s@, cur as int) == (Seq::<MessageView>::empty(),
                    cur as int));
                    assert(items.deep_view() + Seq::<MessageView>::empty() =~= items.deep_view());
                }
                break ;
            },
            Some((item, j2)) => {
                proof {
                    assert(sp_message_items(s@, cur as int).0 == seq![item@] + sp_message_items(
                        s@,
                        j2 as int,
                    ).0);
                    assert(sp_message_items(s@, cur as int).1 == sp_message_items(
                        s@,
                        j2 as int,
                    ).1);
                }
                items.push(item);
                proof {
                    assert(items.deep_view() =~= prev + seq![item@]);
                    assert(prev + (seq![item@] + sp_message_items(s@, j2 as int).0) =~= (prev
                        + seq![item@]) + sp_message_items(s@, j2 as int).0);
                }
                cur = j2;
            },
        }
    }
    (items, cur)
}

/// Match zero or more environment variables.
fn parse_env_var_items(s: &str, i: usize) -> (r: (Vec<EnvironmentVariable>, usize))
    requires
        i <= s@.len(),
    ensures
        sp_env_var_items(s@, i as int) == (r.0.deep_view(), r.1 as int),
        i <= r.1 <= s@.len(),
{
    let mut items: Vec<EnvironmentVariable> = Vec::new();
    let mut cur: usize = i;
    loop
        invariant
            i <= cur <= s@.len(),
            sp_env_var_items(s@, i as int).0 == items.deep_view() + sp_env_var_items(
                s@,
                cur as int,
            ).0,
            sp_env_var_items(s@, i as int).1 == sp_env_var_items(s@, cur as int).1,
        ensures
            cur <= s@.len(),
            sp_env_var_items(s@, i as int) == (items.deep_view(), cur as int),
        decreases s@.len() - cur,
    {
        let ghost prev = items.deep_view();
        let next: Option<(EnvironmentVariable, usize)> = match parser_env_var(s, cur) {
            Ok((v, j)) => if j > cur {
                Some((v, j))
            } else {
                None
            },
            Err(_) => None,
        };
        match next {
            None => {
                proof {
                    assert(sp_env_var_items(s@, cur as int) == (Seq::<
                        EnvironmentVariableView,
                    >::empty(), cur as int));
                    assert(items.deep_view() + Seq::<EnvironmentVariableView>::empty()
                        =~= items.deep_view());
                }
                break ;
            },
            Some((item, j2)) => {
                proof {
                    assert(sp_env_var_items(s@, cur as int).0 == seq![item@] + sp_env_var_items(
                        s@,
                        j2 as int,
                    ).0);
                    assert(sp_env_var_items(s@, cur as int).1 == sp_env_var_items(
                        s@,
                        j2 as int,
                    ).1);
                }
                items.push(item);
                proof {
                    assert(items.deep_view() =~= prev + seq![item@]);
                    assert(prev + (seq![item@] + sp_env_var_items(s@, j2 as int).0) =~= (prev
                        + seq![item@]) + sp_env_var_items(s@, j2 as int).0);
                }
                cur = j2;
            },
        }
    }
    (items, cur)
}

/// Match zero or more data-size declarations.
fn parse_env_var_data_items(s: &str, i: usize) -> (r: (Vec<EnvironmentVariableData>, usize))
    requires
        i <= s@.len(),
    ensures
        sp_env_var_data_items(s@, i as int) == (r.0.deep_view(), r.1 as int),
        i <= r.1 <= s@.len(),
{
    let mut items: Vec<EnvironmentVariableData> = Vec::new();
    let mut cur: usize = i;
    loop
        invariant
            i <= cur <= s@.len(),
            sp_env_var_data_items(s@, i as int).0 == items.deep_view() + sp_env_var_data_items(
                s@,
                cur as int,
            ).0,
            sp_env_var_data_items(s@, i as int).1 == sp_env_var_data_items(s@, cur as int).1,
        ensures
            cur <= s@.len(),
            sp_env_var_data_items(s@, i as int) == (items.deep_view(), cur as int),
        decreases s@.len() - cur,
    {
        let ghost prev = items.deep_view();
        let next: Option<(EnvironmentVariableData, usize)> = match parser_env_var_data(s, cur) {
            Ok((v, j)) => if j > cur {
                Some((v, j))
            } else {
                None
            },
            Err(_) => None,
        };
        match next {
            None => {
                proof {
                    assert(sp_env_var_data_items(s@, cur as int) == (Seq::<
                        EnvironmentVariableDataView,
                    >::empty(), cur as int));
                    assert(items.deep_view() + Seq::<EnvironmentVariableDataView>::empty()
                        =~= items.deep_view());
                }
                break ;
            },
            Some((item, j2)) => {
                proof {
                    assert(sp_env_var_data_items(s@, cur as int).0 == seq![item@]
                        + sp_env_var_data_items(s@, j2 as int).0);
                    assert(sp_env_var_data_items(s@, cur as int).1 == sp_env_var_data_items(
                        s@,
                        j2 as int,
                    ).1);
                }
                items.push(item);
                proof {
                    assert(items.deep_view() =~= prev + seq![item@]);
                    assert(prev + (seq![item@] + sp_env_var_data_items(s@, j2 as int).0) =~= (prev
                        + seq![item@]) + sp_env_var_data_items(s@, j2 as int).0);
                }
                cur = j2;
            },
        }
    }
    (items, cur)
}

/// Match zero or more comments.
fn parse_comment_items(s: &str, i: usize) -> (r: (Vec<Comment>, usize))
    requires
        i <= s@.len(),
    ensures
        sp_comment_items(s@, i as int) == (r.0.deep_view(), r.1 as int),
        i <= r.1 <= s@.len(),
{
    let mut items: Vec<Comment> = Vec::new();
    let mut cur: usize = i;
    loop
        invariant
            i <= cur <= s@.len(),
            sp_comment_items(s@, i as int).0 == items.deep_view() + sp_comment_items(
                s@,
                cur as int,
            ).0,
            sp_comment_items(s@, i as int).1 == sp_comment_items(s@, cur as int).1,
        ensures
            cur <= s@.len(),
            sp_comment_items(s@, i as int) == (items.deep_view(), cur as int),
        decreases s@.len() - cur,
    {
        let ghost prev = items.deep_view();
        let next: Option<(Comment, usize)> = match parser_comment(s, cur) {
            Ok((v, j)) => if j > cur {
                Some((v, j))
            } else {
                None
            },
            Err(_) => None,
        };
        match next {
            None => {
                proof {
                    assert(sp_comment_items(s@, cur as int) == (Seq::<CommentView>::empty(),
                    cur as int));
                    assert(items.deep_view() + Seq::<CommentView>::empty() =~= items.deep_view());
                }
                break ;
            },
            Some((item, j2)) => {
                proof {
                    assert(sp_comment_items(s@, cur as int).0 == seq![item@] + sp_comment_items(
                        s@,
                        j2 as int,
                    ).0);
                    assert(sp_comment_items(s@, cur as int).1 == sp_comment_items(
                        s@,
                        j2 as int,
                    ).1);
                }
                items.push(item);
                proof {
                    assert(items.deep_view() =~= prev + seq![item@]);
                    assert(prev + (seq![item@] + sp_comment_items(s@, j2 as int).0) =~= (prev
                        + seq![item@]) + sp_comment_items(s@, j2 as int).0);
                }
                cur = j2;
            },
        }
    }
    (items, cur)
}

/// Match zero or more attribute definitions.
fn parse_attr_definition_items(s: &str, i: usize) -> (r: (Vec<AttributeDefinition>, usize))
    requires
        i <= s@.len(),
    ensures
        sp_attr_definition_items(s@, i as int) == (r.0.deep_view(), r.1 as int),
        i <= r.1 <= s@.len(),
{
    let mut items: Vec<AttributeDefinition> = Vec::new();
    let mut cur: usize = i;
    loop
        invariant
            i <= cur <= s@.len(),
            sp_attr_definition_items(s@, i as int).0 == items.deep_view()
                + sp_attr_definition_items(s@, cur as int).0,
            sp_attr_definition_items(s@, i as int).1 == sp_attr_definition_items(
                s@,
                cur as int,
            ).1,
        ensures
            cur <= s@.len(),
            sp_attr_definition_items(s@, i as int) == (items.deep_view(), cur as int),
        decreases s@.len() - cur,
    {
        let ghost prev = items.deep_view();
        let next: Option<(AttributeDefinition, usize)> = match parser_attribute_definition(s, cur) {
            Ok((v, j)) => if j > cur {
                Some((v, j))
            } else {
                None
            },
            Err(_) => None,
        };
        match next {
            None => {
                proof {
                    assert(sp_attr_definition_items(s@, cur as int) == (Seq::<
                        AttributeDefinitionView,
                    >::empty(), cur as int));
                    assert(items.deep_view() + Seq::<AttributeDefinitionView>::empty()
                        =~= items.deep_view());
                }
                break ;
            },
            Some((item, j2)) => {
                proof {
                    assert(sp_attr_definition_items(s@, cur as int).0 == seq![item@]
                        + sp_attr_definition_items(s@, j2 as int).0);
                    assert(sp_attr_definition_items(s@, cur as int).1 == sp_attr_definition_items(
                        s@,
                        j2 as int,
                    ).1);
                }
                items.push(item);
                proof {
                    assert(items.deep_view() =~= prev + seq![item@]);
                    assert(prev + (seq![item@] + sp_attr_definition_items(s@, j2 as int).0) =~= (
                    prev + seq![item@]) + sp_attr_definition_items(s@, j2 as int).0);
                }
                cur = j2;
            },
        }
    }
    (items, cur)
}

/// Match zero or more attribute defaults.
fn parse_attr_default_items(s: &str, i: usize) -> (r: (Vec<AttributeDefault>, usize))
    requires
        i <= s@.len(),
    ensures
        sp_attr_default_items(s@, i as int) == (r.0.deep_view(), r.1 as int),
        i <= r.1 <= s@.len(),
{
    let mut items: Vec<AttributeDefault> = Vec::new();
    let mut cur: usize = i;
    loop
        invariant
            i <= cur <= s@.len(),
            sp_attr_default_items(s@, i as int).0 == items.deep_view() + sp_attr_default_items(
                s@,
                cur as int,
            ).0,
            sp_attr_default_items(s@, i as int).1 == sp_attr_default_items(s@, cur as int).1,
        ensures
            cur <= s@.len(),
            sp_attr_default_items(s@, i as int) == (items.deep_view(), cur as int),
        decreases s@.len() - cur,
    {
        let ghost prev = items.deep_view();
        let next: Option<(AttributeDefault, usize)> = match parser_attribute_default(s, cur) {
            Ok((v, j)) => if j > cur {
                Some((v, j))
            } else {
                None
            },
            Err(_) => None,
        };
        match next {
            None => {
                proof {
                    assert(sp_attr_default_items(s@, cur as int) == (Seq::<
                        AttributeDefaultView,
                    >::empty(), cur as int));
                    assert(items.deep_view() + Seq::<AttributeDefaultView>::empty()
                        =~= items.deep_view());
                }
                break ;
            },
            Some((item, j2)) => {
                proof {
                    assert(sp_attr_default_items(s@, cur as int).0 == seq![item@]
                        + sp_attr_default_items(s@, j2 as int).0);
                    assert(sp_attr_default_items(s@, cur as int).1 == sp_attr_default_items(
                        s@,
                        j2 as int,
                    ).1);
                }
                items.push(item);
                proof {
                    assert(items.deep_view() =~= prev + seq![item@]);
                    assert(prev + (seq![item@] + sp_attr_default_items(s@, j2 as int).0) =~= (prev
                        + seq![item@]) + sp_attr_default_items(s@, j2 as int).0);
                }
                cur = j2;
            },
        }
    }
    (items, cur)
}

/// Match zero or more attribute values.
fn parse_attr_value_items(s: &str, i: usize) -> (r: (Vec<ObjectAttributeValue>, usize))
    requires
        i <= s@.len(),
    ensures
        sp_attr_value_items(s@, i as int) == (r.0.deep_view(), r.1 as int),
        i <= r.1 <= s@.len(),
{
    let mut items: Vec<ObjectAttributeValue> = Vec::new();
    let mut cur: usize = i;
    loop
        invariant
            i <= cur <= s@.len(),
            sp_attr_value_items(s@, i as int).0 == items.deep_view() + sp_attr_value_items(
                s@,
                cur as int,
            ).0,
            sp_attr_value_items(s@, i as int).1 == sp_attr_value_items(s@, cur as int).1,
        ensures
            cur <= s@.len(),
            sp_attr_value_items(s@, i as int) == (items.deep_view(), cur as int),
        decreases s@.len() - cur,
    {
        let ghost prev = items.deep_view();
        let next: Option<(ObjectAttributeValue, usize)> = match parser_object_attribute_value(
            s,
            cur,
        ) {
            Ok((v, j)) => if j > cur {
                Some((v, j))
            } else {
                None
            },
            Err(_) => None,
        };
        match next {
            None => {
                proof {
                    assert(sp_attr_value_items(s@, cur as int) == (Seq::<
                        ObjectAttributeValueView,
                    >::empty(), cur as int));
                    assert(items.deep_view() + Seq::<ObjectAttributeValueView>::empty()
                        =~= items.deep_view());
                }
                break ;
            },
            Some((item, j2)) => {
                proof {
                    assert(sp_attr_value_items(s@, cur as int).0 == seq![item@]
                        + sp_attr_value_items(s@, j2 as int).0);
                    assert(sp_attr_value_items(s@, cur as int).1 == sp_attr_value_items(
                        s@,
                        j2 as int,
                    ).1);
                }
                items.push(item);
                proof {
                    assert(items.deep_view() =~= prev + seq![item@]);
                    assert(prev + (seq![item@] + sp_attr_value_items(s@, j2 as int).0) =~= (prev
                        + seq![item@]) + sp_attr_value_items(s@, j2 as int).0);
                }
                cur = j2;
            },
        }
    }
    (items, cur)
}

/// Match zero or more signal value description attachments.
fn parse_signal_value_desc_items(s: &str, i: usize) -> (r: (Vec<SignalValueDescriptions>, usize))
    requires
        i <= s@.len(),
    ensures
        sp_signal_value_desc_items(s@, i as int) == (r.0.deep_view(), r.1 as int),
        i <= r.1 <= s@.len(),
{
    let mut items: Vec<SignalValueDescriptions> = Vec::new();
    let mut cur: usize = i;
    loop
        invariant
            i <= cur <= s@.len(),
            sp_signal_value_desc_items(s@, i as int).0 == items.deep_view()
                + sp_signal_value_desc_items(s@, cur as int).0,
            sp_signal_value_desc_items(s@, i as int).1 == sp_signal_value_desc_items(
                s@,
                cur as int,
            ).1,
        ensures
            cur <= s@.len(),
            sp_signal_value_desc_items(s@, i as int) == (items.deep_view(), cur as int),
        decreases s@.len() - cur,
    {
        let ghost prev = items.deep_view();
        let next: Option<(SignalValueDescriptions, usize)> = match parser_signal_value_descriptions(
            s,
            cur,
        ) {
            Ok((v, j)) => if j > cur {
                Some((v, j))
            } else {
                None
            },
            Err(_) => None,
        };
        match next {
            None => {
                proof {
                    assert(sp_signal_value_desc_items(s@, cur as int) == (Seq::<
                        SignalValueDescriptionsView,
                    >::empty(), cur as int));
                    assert(items.deep_view() + Seq::<SignalValueDescriptionsView>::empty()
                        =~= items.deep_view());
                }
                break ;
            },
            Some((item, j2)) => {
                proof {
                    assert(sp_signal_value_desc_items(s@, cur as int).0 == seq![item@]
                        + sp_signal_value_desc_items(s@, j2 as int).0);
                    assert(sp_signal_value_desc_items(s@, cur as int).1
                        == sp_signal_value_desc_items(s@, j2 as int).1);
                }
                items.push(item);
                proof {
                    assert(items.deep_view() =~= prev + seq![item@]);
                    assert(prev + (seq![item@] + sp_signal_value_desc_items(s@, j2 as int).0)
                        =~= (prev + seq![item@]) + sp_signal_value_desc_items(s@, j2 as int).0);
                }
                cur = j2;
            },
        }
    }
    (items, cur)
}

/// Match zero or more environment variable value description attachments.
fn parse_env_var_value_desc_items(s: &str, i: usize) -> (r: (
    Vec<EnvironmentVariableValueDescriptions>,
    usize,
))
    requires
        i <= s@.len(),
    ensures
        sp_env_var_value_desc_items(s@, i as int) == (r.0.deep_view(), r.1 as int),
        i <= r.1 <= s@.len(),
{
    let mut items: Vec<EnvironmentVariableValueDescriptions> = Vec::new();
    let mut cur: usize = i;
    loop
        invariant
            i <= cur <= s@.len(),
            sp_env_var_value_desc_items(s@, i as int).0 == items.deep_view()
                + sp_env_var_value_desc_items(s@, cur as int).0,
            sp_env_var_value_desc_items(s@, i as int).1 == sp_env_var_value_desc_items(
                s@,
                cur as int,
            ).1,
        ensures
            cur <= s@.len(),
            sp_env_var_value_desc_items(s@, i as int) == (items.deep_view(), cur as int),
        decreases s@.len() - cur,
    {
        let ghost prev = items.deep_view();
        let next: Option<(EnvironmentVariableValueDescriptions, usize)> = match
            parser_env_var_value_descriptions(s, cur) {
            Ok((v, j)) => if j > cur {
                Some((v, j))
            } else {
                None
            },
            Err(_) => None,
        };
        match next {
            None => {
                proof {
                    assert(sp_env_var_value_desc_items(s@, cur as int) == (Seq::<
                        EnvironmentVariableValueDescriptionsView,
                    >::empty(), cur as int));
                    assert(items.deep_view() + Seq::<
                        EnvironmentVariableValueDescriptionsView,
                    >::empty() =~= items.deep_view());
                }
                break ;
            },
            Some((item, j2)) => {
                proof {
                    assert(sp_env_var_value_desc_items(s@, cur as int).0 == seq![item@]
                        + sp_env_var_value_desc_items(s@, j2 as int).0);
                    assert(sp_env_var_value_desc_items(s@, cur as int).1
                        == sp_env_var_value_desc_items(s@, j2 as int).1);
                }
                items.push(item);
                proof {
                    assert(items.deep_view() =~= prev + seq![item@]);
                    assert(prev + (seq![item@] + sp_env_var_value_desc_items(s@, j2 as int).0)
                        =~= (prev + seq![item@]) + sp_env_var_value_desc_items(s@, j2 as int).0);
                }
                cur = j2;
            },
        }
    }
    (items, cur)
}

/// Match the whole document grammar; return the tree and the position
/// after the last section.
pub fn dbc_value(s: &str, i: usize) -> (r: Result<(NetworkAst, usize), DbcParseError>)
    requires
        i <= s@.len(),
    ensures
        match r {
            Ok((v, j)) => sp_dbc(s@, i as int) == Some((v@, j as int)) && i <= j <= s@.len(),
            Err(e) => sp_dbc(s@, i as int) is None && e == sp_dbc_err(s@, i as int),
        },
{
    let i0: usize = skip_multispaces(s, i);
    let (version, p1): (Version, usize) = match parser_version(s, i0) {
        Err(e) => {
            return Err(e);
        },
        Ok(v) => v,
    };
    let i1: usize = skip_multispaces(s, p1);
    let (new_symbols, p2): (NewSymbols, usize) = match parser_new_symbols(s, i1) {
        Err(e) => {
            return Err(e);
        },
        Ok(v) => v,
    };
    let i2: usize = skip_multispaces(s, p2);
    let (bit_timing, p3): (BitTiming, usize) = match parser_bit_timing(s, i2) {
        Err(e) => {
            return Err(e);
        },
        Ok(v) => v,
    };
    let i3: usize = skip_multispaces(s, p3);
    let (nodes, p4): (Nodes, usize) = match parser_nodes(s, i3) {
        Err(e) => {
            return Err(e);
        },
        Ok(v) => v,
    };
    let i4: usize = skip_multispaces(s, p4);
    let (tables, p5) = parser_value_tables(s, i4);
    let i5: usize = skip_multispaces(s, p5);
    let (messages, p6) = parse_message_items(s, i5);
    let i6: usize = skip_multispaces(s, p6);
    let (env_vars, p7) = parse_env_var_items(s, i6);
    let i7: usize = skip_multispaces(s, p7);
    let (env_vars_data, p8) = parse_env_var_data_items(s, i7);
    let i8: usize = skip_multispaces(s, p8);
    let (comments, p9) = parse_comment_items(s, i8);
    let i9: usize = skip_multispaces(s, p9);
    let (attribute_definitions, p10) = parse_attr_definition_items(s, i9);
    let i10: usize = skip_multispaces(s, p10);
    let (attribute_defaults, p11) = parse_attr_default_items(s, i10);
    let i11: usize = skip_multispaces(s, p11);
    let (attribute_values, p12) = parse_attr_value_items(s, i11);
    let i12: usize = skip_multispaces(s, p12);
    let (signal_value_descriptions, p13) = parse_signal_value_desc_items(s, i12);
    let i13: usize = skip_multispaces(s, p13);
    let (env_var_value_descriptions, p14) = parse_env_var_value_desc_items(s, i13);
    let end: usize = skip_multispaces(s, p14);
    let value_tables: Option<Vec<ValueTable>> = if tables.len() == 0 {
        None
    } else {
        Some(tables)
    };
    Ok(
        (NetworkAst {
            version,
            new_symbols,
            bit_timing: Some(bit_timing),
            nodes,
            value_tables,
            messages,
            env_vars,
            env_vars_data,
            comments,
            attribute_definitions,
            attribute_defaults,
            attribute_values,
            signal_value_descriptions,
            env_var_value_descriptions,
        }, end),
    )
}

/// Parse one whole document.  The parse succeeds exactly when the document
/// grammar matches and consumes the entire input: a document with any
/// unparseable trailing text fails as a whole.
pub fn parse_dbc(s: &str) -> (r: Result<NetworkAst, DbcParseError>)
    ensures
        match r {
            Ok(v) => sp_dbc(s@, 0) == Some((v@, s@.len() as int)),
            Err(e) => match sp_dbc(s@, 0) {
                Some((d, j)) => j < s@.len() && e == DbcParseError::Unparseable,
                None => e == sp_dbc_err(s@, 0),
            },
        },
{
    match dbc_value(s, 0) {
        Err(e) => Err(e),
        Ok((ast, j)) => {
            if j == s.unicode_len() {
                Ok(ast)
            } else {
                Err(DbcParseError::Unparseable)
            }
        },
    }
}

// ---------------------------------------------------------------------------
// Rendering
// ---------------------------------------------------------------------------

/// Each item rendered by `f` on a line of its own.
pub open spec fn sp_render_lines<A>(f: spec_fn(A) -> Seq<char>, items: Seq<A>) -> Seq<char>
    decreases items.len(),
{
    if items.len() == 0 {
        Seq::<char>::empty()
    } else {
        sp_render_lines(f, items.drop_last()) + f(items.last()) + seq!['\n']
    }
}

/// A block of item lines followed by one blank line, nothing when the list
/// is empty.
pub open spec fn sp_render_block<A>(f: spec_fn(A) -> Seq<char>, items: Seq<A>) -> Seq<char> {
    if items.len() == 0 {
        Seq::<char>::empty()
    } else {
        sp_render_lines(f, items) + seq!['\n']
    }
}

/// The rendered value table lines.
pub open spec fn sp_render_table_lines(items: Seq<ValueTableView>) -> Seq<char> {
    sp_render_lines(|t: ValueTableView| sp_render_value_table(t), items)
}

/// The rendered message blocks.
pub open spec fn sp_render_message_lines(items: Seq<MessageView>) -> Seq<char> {
    sp_render_lines(|m: MessageView| sp_render_message(m), items)
}

/// The rendered environment variable block.
pub open spec fn sp_render_env_var_block(items: Seq<EnvironmentVariableView>) -> Seq<char> {
    sp_render_block(|v: EnvironmentVariableView| sp_render_env_var(v), items)
}

/// The rendered data-size block.
pub open spec fn sp_render_env_var_data_block(items: Seq<EnvironmentVariableDataView>) -> Seq<
    char,
> {
    sp_render_block(|v: EnvironmentVariableDataView| sp_render_env_var_data(v), items)
}

/// The rendered comment block.
pub open spec fn sp_render_comment_block(items: Seq<CommentView>) -> Seq<char> {
    sp_render_block(|v: CommentView| sp_render_comment(v), items)
}

/// The rendered attribute definition block.
pub open spec fn sp_render_attr_definition_block(items: Seq<AttributeDefinitionView>) -> Seq<
    char,
> {
    sp_render_block(|v: AttributeDefinitionView| sp_render_attr_definition(v), items)
}

/// The rendered attribute default block.
pub open spec fn sp_render_attr_default_block(items: Seq<AttributeDefaultView>) -> Seq<char> {
    sp_render_block(|v: AttributeDefaultView| sp_render_attr_default(v), items)
}

/// The rendered attribute value block.
pub open spec fn sp_render_attr_value_block(items: Seq<ObjectAttributeValueView>) -> Seq<char> {
    sp_render_block(|v: ObjectAttributeValueView| sp_render_object_attribute_value(v), items)
}

/// The rendered signal value description block.
pub open spec fn sp_render_signal_value_desc_block(items: Seq<SignalValueDescriptionsView>) -> Seq<
    char,
> {
    sp_render_block(|v: SignalValueDescriptionsView| sp_render_signal_value_descriptions(v), items)
}

/// The rendered environment variable value description lines.
pub open spec fn sp_render_env_var_value_desc_lines(
    items: Seq<EnvironmentVariableValueDescriptionsView>,
) -> Seq<char> {
    sp_render_lines(
        |v: EnvironmentVariableValueDescriptionsView| sp_render_env_var_value_descriptions(v),
        items,
    )
}

/// The rendered document: every present section in the fixed order.
pub open spec fn sp_render_dbc(d: NetworkAstView) -> Seq<char> {
    sp_render_version(d.version) + seq!['\n', '\n'] + sp_render_new_symbols(d.new_symbols) + seq![
        '\n',
    ] + (match d.bit_timing {
        Some(b) => sp_render_bit_timing(b) + seq!['\n'],
        None => Seq::<char>::empty(),
    }) + sp_render_nodes(d.nodes) + seq!['\n'] + (match d.value_tables {
        Some(ts) => sp_render_table_lines(ts) + seq!['\n'],
        None => Seq::<char>::empty(),
    }) + sp_render_message_lines(d.messages) + sp_render_env_var_block(d.env_vars)
        + sp_render_env_var_data_block(d.env_vars_data) + sp_render_comment_block(d.comments)
        + sp_render_attr_definition_block(d.attribute_definitions) + sp_render_attr_default_block(
        d.attribute_defaults,
    ) + sp_render_attr_value_block(d.attribute_values) + sp_render_signal_value_desc_block(
        d.signal_value_descriptions,
    ) + sp_render_env_var_value_desc_lines(d.env_var_value_descriptions)
}

/// Append the rendered value table lines.
fn append_table_lines(out: &mut String, items: &Vec<ValueTable>)
    ensures
        final (out)@ == old(out)@ + sp_render_table_lines(items.deep_view()),
{
    let ghost base = out@;
    let n: usize = items.len();
    let mut k: usize = 0;
    proof {
        assert(items.deep_view().take(0) =~= Seq::<ValueTableView>::empty());
    }
    while k < n
        invariant
            k <= n,
            n == items.len(),
            out@ == base + sp_render_lines(
                |v: ValueTableView| sp_render_value_table(v),
                items.deep_view().take(k as int),
            ),
        decreases n - k,
    {
        let item: &ValueTable = &items[k];
        let t: String = item.to_text();
        out.append(t.as_str());
        out.append("\n");
        proof {
            reveal_strlit("\n");
            let dv = items.deep_view();
            let tk = dv.take(k + 1);
            assert(tk.drop_last() =~= dv.take(k as int));
            assert(tk.last() == dv[k as int]);
            assert(out@ =~= base + sp_render_lines(|v: ValueTableView| sp_render_value_table(v), dv.take(k + 1)));
        }
        k = k + 1;
    }
    
    proof {
        reveal_strlit("\n");
        assert(items.deep_view().take(n as int) =~= items.deep_view());
        assert(out@ =~= base + sp_render_table_lines(items.deep_view()));
    }
}

/// Append the rendered message blocks.
fn append_message_lines(out: &mut String, items: &Vec<Message>)
    ensures
        final (out)@ == old(out)@ + sp_render_message_lines(items.deep_view()),
{
    let ghost base = out@;
    let n: usize = items.len();
    let mut k: usize = 0;
    proof {
        assert(items.deep_view().take(0) =~= Seq::<MessageView>::empty());
    }
    while k < n
        invariant
            k <= n,
            n == items.len(),
            out@ == base + sp_render_lines(
                |v: MessageView| sp_render_message(v),
                items.deep_view().take(k as int),
            ),
        decreases n - k,
    {
        let item: &Message = &items[k];
        let t: String = item.to_text();
        out.append(t.as_str());
        out.append("\n");
        proof {
            reveal_strlit("\n");
            let dv = items.deep_view();
            let tk = dv.take(k + 1);
            assert(tk.drop_last() =~= dv.take(k as int));
            assert(tk.last() == dv[k as int]);
            assert(out@ =~= base + sp_render_lines(|v: MessageView| sp_render_message(v), dv.take(k + 1)));
        }
        k = k + 1;
    }
    
    proof {
        reveal_strlit("\n");
        assert(items.deep_view().take(n as int) =~= items.deep_view());
        assert(out@ =~= base + sp_render_message_lines(items.deep_view()));
    }
}

/// Append the rendered environment variable block.
fn append_env_var_block(out: &mut String, items: &Vec<EnvironmentVariable>)
    ensures
        final (out)@ == old(out)@ + sp_render_env_var_block(items.deep_view()),
{
    let ghost base = out@;
    let n: usize = items.len();
    let mut k: usize = 0;
    proof {
        assert(items.deep_view().take(0) =~= Seq::<EnvironmentVariableView>::empty());
    }
    while k < n
        invariant
            k <= n,
            n == items.len(),
            out@ == base + sp_render_lines(
                |v: EnvironmentVariableView| sp_render_env_var(v),
                items.deep_view().take(k as int),
            ),
        decreases n - k,
    {
        let item: &EnvironmentVariable = &items[k];
        let t: String = item.to_text();
        out.append(t.as_str());
        out.append("\n");
        proof {
            reveal_strlit("\n");
            let dv = items.deep_view();
            let tk = dv.take(k + 1);
            assert(tk.drop_last() =~= dv.take(k as int));
            assert(tk.last() == dv[k as int]);
            assert(out@ =~= base + sp_render_lines(|v: EnvironmentVariableView| sp_render_env_var(v), dv.take(k + 1)));
        }
        k = k + 1;
    }
    if items.len() > 0 {
        out.append("\n");
    }
    proof {
        reveal_strlit("\n");
        assert(items.deep_view().take(n as int) =~= items.deep_view());
        assert(out@ =~= base + sp_render_env_var_block(items.deep_view()));
    }
}

/// Append the rendered data-size block.
fn append_env_var_data_block(out: &mut String, items: &Vec<EnvironmentVariableData>)
    ensures
        final (out)@ == old(out)@ + sp_render_env_var_data_block(items.deep_view()),
{
    let ghost base = out@;
    let n: usize = items.len();
    let mut k: usize = 0;
    proof {
        assert(items.deep_view().take(0) =~= Seq::<EnvironmentVariableDataView>::empty());
    }
    while k < n
        invariant
            k <= n,
            n == items.len(),
            out@ == base + sp_render_lines(
                |v: EnvironmentVariableDataView| sp_render_env_var_data(v),
                items.deep_view().take(k as int),
            ),
        decreases n - k,
    {
        let item: &EnvironmentVariableData = &items[k];
        let t: String = item.to_text();
        out.append(t.as_str());
        out.append("\n");
        proof {
            reveal_strlit("\n");
            let dv = items.deep_view();
            let tk = dv.take(k + 1);
            assert(tk.drop_last() =~= dv.take(k as int));
            assert(tk.last() == dv[k as int]);
            assert(out@ =~= base + sp_render_lines(|v: EnvironmentVariableDataView| sp_render_env_var_data(v), dv.take(k + 1)));
        }
        k = k + 1;
    }
    if items.len() > 0 {
        out.append("\n");
    }
    proof {
        reveal_strlit("\n");
        assert(items.deep_view().take(n as int) =~= items.deep_view());
        assert(out@ =~= base + sp_render_env_var_data_block(items.deep_view()));
    }
}

/// Append the rendered comment block.
fn append_comment_block(out: &mut String, items: &Vec<Comment>)
    ensures
        final (out)@ == old(out)@ + sp_render_comment_block(items.deep_view()),
{
    let ghost base = out@;
    let n: usize = items.len();
    let mut k: usize = 0;
    proof {
        assert(items.deep_view().take(0) =~= Seq::<CommentView>::empty());
    }
    while k < n
        invariant
            k <= n,
            n == items.len(),
            out@ == base + sp_render_lines(
                |v: CommentView| sp_render_comment(v),
                items.deep_view().take(k as int),
            ),
        decreases n - k,
    {
        let item: &Comment = &items[k];
        let t: String = item.to_text();
        out.append(t.as_str());
        out.append("\n");
        proof {
            reveal_strlit("\n");
            let dv = items.deep_view();
            let tk = dv.take(k + 1);
            assert(tk.drop_last() =~= dv.take(k as int));
            assert(tk.last() == dv[k as int]);
            assert(out@ =~= base + sp_render_lines(|v: CommentView| sp_render_comment(v), dv.take(k + 1)));
        }
        k = k + 1;
    }
    if items.len() > 0 {
        out.append("\n");
    }
    proof {
        reveal_strlit("\n");
        assert(items.deep_view().take(n as int) =~= items.deep_view());
        assert(out@ =~= base + sp_render_comment_block(items.deep_view()));
    }
}

/// Append the rendered attribute definition block.
fn append_attr_definition_block(out: &mut String, items: &Vec<AttributeDefinition>)
    ensures
        final (out)@ == old(out)@ + sp_render_attr_definition_block(items.deep_view()),
{
    let ghost base = out@;
    let n: usize = items.len();
    let mut k: usize = 0;
    proof {
        assert(items.deep_view().take(0) =~= Seq::<AttributeDefinitionView>::empty());
    }
    while k < n
        invariant
            k <= n,
            n == items.len(),
            out@ == base + sp_render_lines(
                |v: AttributeDefinitionView| sp_render_attr_definition(v),
                items.deep_view().take(k as int),
            ),
        decreases n - k,
    {
        let item: &AttributeDefinition = &items[k];
        let t: String = item.to_text();
        out.append(t.as_str());
        out.append("\n");
        proof {
            reveal_strlit("\n");
            let dv = items.deep_view();
            let tk = dv.take(k + 1);
            assert(tk.drop_last() =~= dv.take(k as int));
            assert(tk.last() == dv[k as int]);
            assert(out@ =~= base + sp_render_lines(|v: AttributeDefinitionView| sp_render_attr_definition(v), dv.take(k + 1)));
        }
        k = k + 1;
    }
    if items.len() > 0 {
        out.append("\n");
    }
    proof {
        reveal_strlit("\n");
        assert(items.deep_view().take(n as int) =~= items.deep_view());
        assert(out@ =~= base + sp_render_attr_definition_block(items.deep_view()));
    }
}

/// Append the rendered attribute default block.
fn append_attr_default_block(out: &mut String, items: &Vec<AttributeDefault>)
    ensures
        final (out)@ == old(out)@ + sp_render_attr_default_block(items.deep_view()),
{
    let ghost base = out@;
    let n: usize = items.len();
    let mut k: usize = 0;
    proof {
        assert(items.deep_view().take(0) =~= Seq::<AttributeDefaultView>::empty());
    }
    while k < n
        invariant
            k <= n,
            n == items.len(),
            out@ == base + sp_render_lines(
                |v: AttributeDefaultView| sp_render_attr_default(v),
                items.deep_view().take(k as int),
            ),
        decreases n - k,
    {
        let item: &AttributeDefault = &items[k];
        let t: String = item.to_text();
        out.append(t.as_str());
        out.append("\n");
        proof {
            reveal_strlit("\n");
            let dv = items.deep_view();
            let tk = dv.take(k + 1);
            assert(tk.drop_last() =~= dv.take(k as int));
            assert(tk.last() == dv[k as int]);
            assert(out@ =~= base + sp_render_lines(|v: AttributeDefaultView| sp_render_attr_default(v), dv.take(k + 1)));
        }
        k = k + 1;
    }
    if items.len() > 0 {
        out.append("\n");
    }
    proof {
        reveal_strlit("\n");
        assert(items.deep_view().take(n as int) =~= items.deep_view());
        assert(out@ =~= base + sp_render_attr_default_block(items.deep_view()));
    }
}

/// Append the rendered attribute value block.
fn append_attr_value_block(out: &mut String, items: &Vec<ObjectAttributeValue>)
    ensures
        final (out)@ == old(out)@ + sp_render_attr_value_block(items.deep_view()),
{
    let ghost base = out@;
    let n: usize = items.len();
    let mut k: usize = 0;
    proof {
        assert(items.deep_view().take(0) =~= Seq::<ObjectAttributeValueView>::empty());
    }
    while k < n
        invariant
            k <= n,
            n == items.len(),
            out@ == base + sp_render_lines(
                |v: ObjectAttributeValueView| sp_render_object_attribute_value(v),
                items.deep_view().take(k as int),
            ),
        decreases n - k,
    {
        let item: &ObjectAttributeValue = &items[k];
        let t: String = item.to_text();
        out.append(t.as_str());
        out.append("\n");
        proof {
            reveal_strlit("\n");
            let dv = items.deep_view();
            let tk = dv.take(k + 1);
            assert(tk.drop_last() =~= dv.take(k as int));
            assert(tk.last() == dv[k as int]);
            assert(out@ =~= base + sp_render_lines(|v: ObjectAttributeValueView| sp_render_object_attribute_value(v), dv.take(k + 1)));
        }
        k = k + 1;
    }
    if items.len() > 0 {
        out.append("\n");
    }
    proof {
        reveal_strlit("\n");
        assert(items.deep_view().take(n as int) =~= items.deep_view());
        assert(out@ =~= base + sp_render_attr_value_block(items.deep_view()));
    }
}

/// Append the rendered signal value description block.
#[verifier::rlimit(60)]
fn append_signal_value_desc_block(out: &mut String, items: &Vec<SignalValueDescriptions>)
    ensures
        final (out)@ == old(out)@ + sp_render_signal_value_desc_block(items.deep_view()),
{
    let ghost base = out@;
    let n: usize = items.len();
    let mut k: usize = 0;
    proof {
        assert(items.deep_view().take(0) =~= Seq::<SignalValueDescriptionsView>::empty());
    }
    while k < n
        invariant
            k <= n,
            n == items.len(),
            out@ == base + sp_render_lines(
                |v: SignalValueDescriptionsView| sp_render_signal_value_descriptions(v),
                items.deep_view().take(k as int),
            ),
        decreases n - k,
    {
        let item: &SignalValueDescriptions = &items[k];
        let t: String = item.to_text();
        out.append(t.as_str());
        out.append("\n");
        proof {
            reveal_strlit("\n");
            let dv = items.deep_view();
            let tk = dv.take(k + 1);
            assert(tk.drop_last() =~= dv.take(k as int));
            assert(tk.last() == dv[k as int]);
            assert(out@ =~= base + sp_render_lines(|v: SignalValueDescriptionsView| sp_render_signal_value_descriptions(v), dv.take(k + 1)));
        }
        k = k + 1;
    }
    if items.len() > 0 {
        out.append("\n");
    }
    proof {
        reveal_strlit("\n");
        assert(items.deep_view().take(n as int) =~= items.deep_view());
        assert(out@ =~= base + sp_render_signal_value_desc_block(items.deep_view()));
    }
}

/// Append the rendered environment variable value description lines.
fn append_env_var_value_desc_lines(out: &mut String, items: &Vec<EnvironmentVariableValueDescriptions>)
    ensures
        final (out)@ == old(out)@ + sp_render_env_var_value_desc_lines(items.deep_view()),
{
    let ghost base = out@;
    let n: usize = items.len();
    let mut k: usize = 0;
    proof {
        assert(items.deep_view().take(0) =~= Seq::<EnvironmentVariableValueDescriptionsView>::empty());
    }
    while k < n
        invariant
            k <= n,
            n == items.len(),
            out@ == base + sp_render_lines(
                |v: EnvironmentVariableValueDescriptionsView| sp_render_env_var_value_descriptions(v),
                items.deep_view().take(k as int),
            ),
        decreases n - k,
    {
        let item: &EnvironmentVariableValueDescriptions = &items[k];
        let t: String = item.to_text();
        out.append(t.as_str());
        out.append("\n");
        proof {
            reveal_strlit("\n");
            let dv = items.deep_view();
            let tk = dv.take(k + 1);
            assert(tk.drop_last() =~= dv.take(k as int));
            assert(tk.last() == dv[k as int]);
            assert(out@ =~= base + sp_render_lines(|v: EnvironmentVariableValueDescriptionsView| sp_render_env_var_value_descriptions(v), dv.take(k + 1)));
        }
        k = k + 1;
    }
    
    proof {
        reveal_strlit("\n");
        assert(items.deep_view().take(n as int) =~= items.deep_view());
        assert(out@ =~= base + sp_render_env_var_value_desc_lines(items.deep_view()));
    }
}

impl NetworkAst {
    /// Render the whole document.
    pub fn to_text(&self) -> (r: String)
        ensures
            r@ == sp_render_dbc(self@),
    {
        let ghost d = self@;
        let mut out: String = self.version.to_text();
        out.append("\n\n");
        let t_ns: String = self.new_symbols.to_text();
        out.append(t_ns.as_str());
        out.append("\n");
        match &self.bit_timing {
            Some(b) => {
                let t: String = b.to_text();
                out.append(t.as_str());
                out.append("\n");
            },
            None => {},
        }
        let t_nodes: String = self.nodes.to_text();
        out.append(t_nodes.as_str());
        out.append("\n");
        let ghost h0 = sp_render_version(d.version) + seq!['\n', '\n'] + sp_render_new_symbols(
            d.new_symbols,
        ) + seq!['\n'] + (match d.bit_timing {
            Some(b) => sp_render_bit_timing(b) + seq!['\n'],
            None => Seq::<char>::empty(),
        }) + sp_render_nodes(d.nodes) + seq!['\n'];
        proof {
            reveal_strlit("\n\n");
            reveal_strlit("\n");
            assert(out@ =~= h0);
        }
        match &self.value_tables {
            Some(ts) => {
                append_table_lines(&mut out, ts);
                out.append("\n");
                proof {
                    reveal_strlit("\n");
                }
            },
            None => {},
        }
        let ghost h1 = h0 + (match d.value_tables {
            Some(ts) => sp_render_table_lines(ts) + seq!['\n'],
            None => Seq::<char>::empty(),
        });
        proof {
            assert(out@ =~= h1);
        }
        append_message_lines(&mut out, &self.messages);
        let ghost h2 = h1 + sp_render_message_lines(d.messages);
        proof {
            assert(out@ =~= h2);
        }
        append_env_var_block(&mut out, &self.env_vars);
        let ghost h3 = h2 + sp_render_env_var_block(d.env_vars);
        proof {
            assert(out@ =~= h3);
        }
        append_env_var_data_block(&mut out, &self.env_vars_data);
        let ghost h4 = h3 + sp_render_env_var_data_block(d.env_vars_data);
        proof {
            assert(out@ =~= h4);
        }
        append_comment_block(&mut out, &self.comments);
        let ghost h5 = h4 + sp_render_comment_block(d.comments);
        proof {
            assert(out@ =~= h5);
        }
        append_attr_definition_block(&mut out, &self.attribute_definitions);
        let ghost h6 = h5 + sp_render_attr_definition_block(d.attribute_definitions);
        proof {
            assert(out@ =~= h6);
        }
        append_attr_default_block(&mut out, &self.attribute_defaults);
        let ghost h7 = h6 + sp_render_attr_default_block(d.attribute_defaults);
        proof {
            assert(out@ =~= h7);
        }
        append_attr_value_block(&mut out, &self.attribute_values);
        let ghost h8 = h7 + sp_render_attr_value_block(d.attribute_values);
        proof {
            assert(out@ =~= h8);
        }
        append_signal_value_desc_block(&mut out, &self.signal_value_descriptions);
        let ghost h9 = h8 + sp_render_signal_value_desc_block(d.signal_value_descriptions);
        proof {
            assert(out@ =~= h9);
        }
        append_env_var_value_desc_lines(&mut out, &self.env_var_value_descriptions);
        let ghost h10 = h9 + sp_render_env_var_value_desc_lines(d.env_var_value_descriptions);
        proof {
            assert(out@ =~= h10);
            assert(h10 =~= sp_render_dbc(d));
        }
        out
    }
}

// ---------------------------------------------------------------------------
// Order preservation
// ---------------------------------------------------------------------------

/// Order preservation on parse, for the message list: the `k`-th message
/// of the parsed list is exactly the message matched at the `k`-th
/// position of the text, and those positions strictly increase, so the
/// list keeps source order with nothing sorted or deduplicated.
pub proof fn lemma_message_parse_order(s: Seq<char>, i: int, k: int)
    requires
        0 <= i <= s.len(),
        0 <= k < sp_message_items(s, i).0.len(),
    ensures
        ({
            let f = |s2: Seq<char>, i2: int| sp_message(s2, i2);
            let p = crate::lexer::sp_many0_pos(f, s, i, k);
            &&& i <= p < crate::lexer::sp_many0_pos(f, s, i, k + 1) <= s.len()
            &&& sp_message(s, p) is Some
            &&& sp_message(s, p)->Some_0.0 == sp_message_items(s, i).0[k]
            &&& sp_message(s, p)->Some_0.1 == crate::lexer::sp_many0_pos(f, s, i, k + 1)
        }),
{
    crate::lexer::lemma_many0_order(|s2: Seq<char>, i2: int| sp_message(s2, i2), s, i, k);
}



/// Order preservation on render: the rendered message list writes message
/// `k` exactly between the renderings of its predecessors and those of its
/// successors, so the source order of the tree is kept on the way out.
#[verifier::rlimit(100)]
pub proof fn lemma_message_render_order(msgs: Seq<MessageView>, k: int)
    requires
        0 <= k < msgs.len(),
    ensures
        sp_render_message_lines(msgs) == sp_render_message_lines(msgs.take(k))
            + sp_render_message(msgs[k]) + seq!['\n'] + sp_render_message_lines(msgs.skip(k + 1)),
    decreases msgs.len(),
{
    if k == msgs.len() - 1 {
        assert(msgs.drop_last() =~= msgs.take(k));
        assert(msgs.skip(k + 1) =~= Seq::<MessageView>::empty());
        assert(msgs.last() == msgs[k]);
        assert(sp_render_message_lines(msgs.take(k)) + sp_render_message(msgs[k]) + seq!['\n']
            + Seq::<char>::empty() =~= sp_render_message_lines(msgs.drop_last())
            + sp_render_message(msgs.last()) + seq!['\n']);
    } else {
        lemma_message_render_order(msgs.drop_last(), k);
        assert(msgs.drop_last().take(k) =~= msgs.take(k));
        assert(msgs.drop_last()[k] == msgs[k]);
        assert(msgs.skip(k + 1).drop_last() =~= msgs.drop_last().skip(k + 1));
        assert(msgs.skip(k + 1).last() == msgs.last());
        assert((sp_render_message_lines(msgs.take(k)) + sp_render_message(msgs[k]) + seq!['\n']
            + sp_render_message_lines(msgs.drop_last().skip(k + 1))) + sp_render_message(
            msgs.last(),
        ) + seq!['\n'] =~= sp_render_message_lines(msgs.take(k)) + sp_render_message(msgs[k])
            + seq!['\n'] + (sp_render_message_lines(msgs.drop_last().skip(k + 1))
            + sp_render_message(msgs.last()) + seq!['\n']));
        assert(sp_render_message_lines(msgs.skip(k + 1)) == sp_render_message_lines(
            msgs.skip(k + 1).drop_last(),
        ) + sp_render_message(msgs.skip(k + 1).last()) + seq!['\n']);
    }
}

/// Order preservation inside one message: the rendered signal list writes
/// signal `k` exactly between its predecessors and its successors.
#[verifier::rlimit(100)]
pub proof fn lemma_signal_render_order(sigs: Seq<crate::signal::SignalView>, k: int)
    requires
        0 <= k < sigs.len(),
    ensures
        crate::message::sp_render_signal_lines(sigs) == crate::message::sp_render_signal_lines(
            sigs.take(k),
        ) + seq!['\t'] + crate::signal::sp_render_signal(sigs[k]) + seq!['\n']
            + crate::message::sp_render_signal_lines(sigs.skip(k + 1)),
    decreases sigs.len(),
{
    if k == sigs.len() - 1 {
        assert(sigs.drop_last() =~= sigs.take(k));
        assert(sigs.skip(k + 1) =~= Seq::<crate::signal::SignalView>::empty());
        assert(crate::message::sp_render_signal_lines(sigs.take(k)) + seq!['\t']
            + crate::signal::sp_render_signal(sigs[k]) + seq!['\n'] + Seq::<char>::empty()
            =~= crate::message::sp_render_signal_lines(sigs.take(k)) + seq!['\t']
            + crate::signal::sp_render_signal(sigs.last()) + seq!['\n']);
    } else {
        lemma_signal_render_order(sigs.drop_last(), k);
        assert(sigs.drop_last().take(k) =~= sigs.take(k));
        assert(sigs.drop_last()[k] == sigs[k]);
        assert(sigs.skip(k + 1).drop_last() =~= sigs.drop_last().skip(k + 1));
        assert(sigs.skip(k + 1).last() == sigs.last());
        assert((crate::message::sp_render_signal_lines(sigs.take(k)) + seq!['\t']
            + crate::signal::sp_render_signal(sigs[k]) + seq!['\n']
            + crate::message::sp_render_signal_lines(sigs.drop_last().skip(k + 1))) + seq!['\t']
            + crate::signal::sp_render_signal(sigs.last()) + seq!['\n']
            =~= crate::message::sp_render_signal_lines(sigs.take(k)) + seq!['\t']
            + crate::signal::sp_render_signal(sigs[k]) + seq!['\n'] + (
        crate::message::sp_render_signal_lines(sigs.drop_last().skip(k + 1)) + seq!['\t']
            + crate::signal::sp_render_signal(sigs.last()) + seq!['\n']));
    }
}

} // verus!
