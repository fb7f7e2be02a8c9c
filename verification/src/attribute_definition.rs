//! Attribute definitions.
//!
//! Format: `BA_DEF_ [<scope>] "<name>" <value type>;` and
//! `BA_DEF_REL_ <relation scope> "<name>" <value type>;`.  The value type
//! shapes are tried in the fixed order integer, hex, float, string,
//! enumeration; the scope shapes in the fixed order network, node,
//! message, signal, environment variable, then the three relation scopes.

use vstd::prelude::*;

use crate::char_string::{quote_seq, CharString, parser_char_string};
use crate::error::DbcParseError;
use crate::lexer::{dbc_ident, parse_i32, skip_multispaces, skip_spaces, sp_dbc_ident, sp_i32,
    sp_many0, sp_quoted, sp_skip_multispaces, sp_skip_spaces, sp_tag_end, tag};
use crate::number::{Number, parser_number};
use crate::text::{dec_int, append_i64};

verus! {

/// A bounded integer value type.
#[derive(Clone, Copy, Debug, PartialEq, Eq, Structural)]
pub struct AttributeIntegerValueType {
    pub minimum: i32,
    pub maximum: i32,
}

/// A bounded integer value type displayed in hexadecimal.
#[derive(Clone, Copy, Debug, PartialEq, Eq, Structural)]
pub struct AttributeHexValueType {
    pub minimum: i32,
    pub maximum: i32,
}

/// A bounded floating value type.
#[derive(Clone, Debug, PartialEq, Eq)]
pub struct AttributeFloatValueType {
    pub minimum: Number,
    pub maximum: Number,
}

/// A free string value type.
#[derive(Clone, Copy, Debug, PartialEq, Eq, Structural)]
pub struct AttributeStringValueType {}

/// A fixed enumeration of string labels.
#[derive(Clone, Debug, PartialEq, Eq)]
pub struct AttributeEnumValueType {
    pub values: Vec<CharString>,
}

/// One of the five value type shapes.
#[derive(Clone, Debug, PartialEq, Eq)]
pub enum AttributeValueType {
    Integer(AttributeIntegerValueType),
    Hex(AttributeHexValueType),
    Float(AttributeFloatValueType),
    String(AttributeStringValueType),
    Enum(AttributeEnumValueType),
}

/// The mathematical value of a value type shape.
pub ghost enum AttributeValueTypeView {
    Integer { minimum: i32, maximum: i32 },
    Hex { minimum: i32, maximum: i32 },
    Float { minimum: Seq<char>, maximum: Seq<char> },
    String,
    Enum { values: Seq<Seq<char>> },
}

impl View for AttributeValueType {
    type V = AttributeValueTypeView;

    open spec fn view(&self) -> AttributeValueTypeView {
        match self {
            AttributeValueType::Integer(v) => AttributeValueTypeView::Integer {
                minimum: v.minimum,
                maximum: v.maximum,
            },
            AttributeValueType::Hex(v) => AttributeValueTypeView::Hex {
                minimum: v.minimum,
                maximum: v.maximum,
            },
            AttributeValueType::Float(v) => AttributeValueTypeView::Float {
                minimum: v.minimum@,
                maximum: v.maximum@,
            },
            AttributeValueType::String(_) => AttributeValueTypeView::String,
            AttributeValueType::Enum(v) => AttributeValueTypeView::Enum {
                values: v.values.deep_view(),
            },
        }
    }
}

/// The scope of an attribute definition.
#[derive(Clone, Copy, Debug, PartialEq, Eq, Structural)]
pub enum AttributeScope {
    Network,
    Node,
    Message,
    Signal,
    EnvironmentVariable,
    ControlUnitEnvironmentVariable,
    NodeTxMessage,
    NodeMappedRxSignal,
}

/// A network-scoped attribute definition.
#[derive(Clone, Debug, PartialEq, Eq)]
pub struct NetworkAttribute {
    pub attribute_name: String,
    pub attribute_value_type: AttributeValueType,
}

/// A node-scoped attribute definition.
#[derive(Clone, Debug, PartialEq, Eq)]
pub struct NodeAttribute {
    pub attribute_name: String,
    pub attribute_value_type: AttributeValueType,
}

/// A message-scoped attribute definition.
#[derive(Clone, Debug, PartialEq, Eq)]
pub struct MessageAttribute {
    pub attribute_name: String,
    pub attribute_value_type: AttributeValueType,
}

/// A signal-scoped attribute definition.
#[derive(Clone, Debug, PartialEq, Eq)]
pub struct SignalAttribute {
    pub attribute_name: String,
    pub attribute_value_type: AttributeValueType,
}

/// An environment-variable-scoped attribute definition.
#[derive(Clone, Debug, PartialEq, Eq)]
pub struct EnvironmentVariableAttribute {
    pub attribute_name: String,
    pub attribute_value_type: AttributeValueType,
}

/// A definition scoped to the node/environment-variable relation.
#[derive(Clone, Debug, PartialEq, Eq)]
pub struct ControlUnitEnvironmentVariableAttribute {
    pub attribute_name: String,
    pub attribute_value_type: AttributeValueType,
}

/// A definition scoped to the node/tx-message relation.
#[derive(Clone, Debug, PartialEq, Eq)]
pub struct NodeTxMessageAttribute {
    pub attribute_name: String,
    pub attribute_value_type: AttributeValueType,
}

/// A definition scoped to the node/rx-signal relation.
#[derive(Clone, Debug, PartialEq, Eq)]
pub struct NodeMappedRxSignalAttribute {
    pub attribute_name: String,
    pub attribute_value_type: AttributeValueType,
}

/// One attribute definition, tagged by its scope.
#[derive(Clone, Debug, PartialEq, Eq)]
pub enum AttributeDefinition {
    Network(NetworkAttribute),
    Node(NodeAttribute),
    Message(MessageAttribute),
    Signal(SignalAttribute),
    EnvironmentVariable(EnvironmentVariableAttribute),
    ControlUnitEnvironmentVariable(ControlUnitEnvironmentVariableAttribute),
    NodeTxMessage(NodeTxMessageAttribute),
    NodeMappedRxSignal(NodeMappedRxSignalAttribute),
}

/// The mathematical value of one attribute definition.
pub ghost struct AttributeDefinitionView {
    pub scope: AttributeScope,
    pub attribute_name: Seq<char>,
    pub attribute_value_type: AttributeValueTypeView,
}

impl View for AttributeDefinition {
    type V = AttributeDefinitionView;

    open spec fn view(&self) -> AttributeDefinitionView {
        match self {
            AttributeDefinition::Network(v) => AttributeDefinitionView {
                scope: AttributeScope::Network,
                attribute_name: v.attribute_name@,
                attribute_value_type: v.attribute_value_type@,
            },
            AttributeDefinition::Node(v) => AttributeDefinitionView {
                scope: AttributeScope::Node,
                attribute_name: v.attribute_name@,
                attribute_value_type: v.attribute_value_type@,
            },
            AttributeDefinition::Message(v) => AttributeDefinitionView {
                scope: AttributeScope::Message,
                attribute_name: v.attribute_name@,
                attribute_value_type: v.attribute_value_type@,
            },
            AttributeDefinition::Signal(v) => AttributeDefinitionView {
                scope: AttributeScope::Signal,
                attribute_name: v.attribute_name@,
                attribute_value_type: v.attribute_value_type@,
            },
            AttributeDefinition::EnvironmentVariable(v) => AttributeDefinitionView {
                scope: AttributeScope::EnvironmentVariable,
                attribute_name: v.attribute_name@,
                attribute_value_type: v.attribute_value_type@,
            },
            AttributeDefinition::ControlUnitEnvironmentVariable(v) => AttributeDefinitionView {
                scope: AttributeScope::ControlUnitEnvironmentVariable,
                attribute_name: v.attribute_name@,
                attribute_value_type: v.attribute_value_type@,
            },
            AttributeDefinition::NodeTxMessage(v) => AttributeDefinitionView {
                scope: AttributeScope::NodeTxMessage,
                attribute_name: v.attribute_name@,
                attribute_value_type: v.attribute_value_type@,
            },
            AttributeDefinition::NodeMappedRxSignal(v) => AttributeDefinitionView {
                scope: AttributeScope::NodeMappedRxSignal,
                attribute_name: v.attribute_name@,
                attribute_value_type: v.attribute_value_type@,
            },
        }
    }
}

impl DeepView for AttributeDefinition {
    type V = AttributeDefinitionView;

    open spec fn deep_view(&self) -> AttributeDefinitionView {
        self.view()
    }
}

// ---------------------------------------------------------------------------
// The attribute name
// ---------------------------------------------------------------------------

/// A quoted attribute name at `i`: an identifier between two quotes.
pub open spec fn sp_attribute_name(s: Seq<char>, i: int) -> Option<(Seq<char>, int)> {
    match sp_tag_end(s, i, "\""@) {
        None => None,
        Some(i1) => match sp_dbc_ident(s, i1) {
            None => None,
            Some(j) => match sp_tag_end(s, j, "\""@) {
                None => None,
                Some(i2) => Some((s.subrange(i1, j), i2)),
            },
        },
    }
}

/// Match a quoted attribute name.
pub fn parser_attribute_name(s: &str, i: usize) -> (r: Option<(String, usize)>)
    requires
        i <= s@.len(),
    ensures
        match r {
            Some((t, j)) => sp_attribute_name(s@, i as int) == Some((t@, j as int)) && i < j
                <= s@.len(),
            None => sp_attribute_name(s@, i as int) is None,
        },
{
    match tag(s, i, "\"") {
        None => None,
        Some(i1) => match dbc_ident(s, i1) {
            Err(_) => None,
            Ok((t, j)) => match tag(s, j, "\"") {
                None => None,
                Some(i2) => Some((t, i2)),
            },
        },
    }
}

// ---------------------------------------------------------------------------
// Value types
// ---------------------------------------------------------------------------

/// The bounded integer shape at `i`: `INT <min> <max>`.
pub open spec fn sp_attr_integer_vt(s: Seq<char>, i: int) -> Option<(AttributeValueTypeView, int)> {
    let i1 = sp_skip_multispaces(s, i);
    match sp_tag_end(s, i1, "INT"@) {
        None => None,
        Some(i2) => {
            let i3 = sp_skip_multispaces(s, i2);
            match sp_i32(s, i3) {
                None => None,
                Some((mn, j1)) => {
                    let i4 = sp_skip_multispaces(s, j1);
                    match sp_i32(s, i4) {
                        None => None,
                        Some((mx, j2)) => Some(
                            (AttributeValueTypeView::Integer { minimum: mn, maximum: mx },
                            sp_skip_multispaces(s, j2)),
                        ),
                    }
                },
            }
        },
    }
}

/// The hexadecimal-displayed integer shape at `i`: `HEX <min> <max>`.
pub open spec fn sp_attr_hex_vt(s: Seq<char>, i: int) -> Option<(AttributeValueTypeView, int)> {
    let i1 = sp_skip_multispaces(s, i);
    match sp_tag_end(s, i1, "HEX"@) {
        None => None,
        Some(i2) => {
            let i3 = sp_skip_multispaces(s, i2);
            match sp_i32(s, i3) {
                None => None,
                Some((mn, j1)) => {
                    let i4 = sp_skip_multispaces(s, j1);
                    match sp_i32(s, i4) {
                        None => None,
                        Some((mx, j2)) => Some(
                            (AttributeValueTypeView::Hex { minimum: mn, maximum: mx },
                            sp_skip_multispaces(s, j2)),
                        ),
                    }
                },
            }
        },
    }
}

/// The bounded floating shape at `i`: `FLOAT <min> <max>`.
pub open spec fn sp_attr_float_vt(s: Seq<char>, i: int) -> Option<(AttributeValueTypeView, int)> {
    let i1 = sp_skip_multispaces(s, i);
    match sp_tag_end(s, i1, "FLOAT"@) {
        None => None,
        Some(i2) => {
            let i3 = sp_skip_multispaces(s, i2);
            match crate::lexer::sp_number(s, i3) {
                None => None,
                Some(j1) => {
                    let mn = s.subrange(i3, j1);
                    let i4 = sp_skip_multispaces(s, j1);
                    match crate::lexer::sp_number(s, i4) {
                        None => None,
                        Some(j2) => Some(
                            (AttributeValueTypeView::Float {
                                minimum: mn,
                                maximum: s.subrange(i4, j2),
                            }, sp_skip_multispaces(s, j2)),
                        ),
                    }
                },
            }
        },
    }
}

/// The free string shape at `i`: the bare `STRING` keyword.
pub open spec fn sp_attr_string_vt(s: Seq<char>, i: int) -> Option<(AttributeValueTypeView, int)> {
    match sp_tag_end(s, i, "STRING"@) {
        None => None,
        Some(j) => Some((AttributeValueTypeView::String, j)),
    }
}

/// One enumeration label surrounded by optional spaces.
pub open spec fn sp_enum_label_item(s: Seq<char>, i: int) -> Option<(Seq<char>, int)> {
    let i1 = sp_skip_spaces(s, i);
    match sp_quoted(s, i1) {
        None => None,
        Some((lab, j)) => Some((lab, sp_skip_spaces(s, j))),
    }
}

/// A comma followed by one more enumeration label.
pub open spec fn sp_enum_label_more(s: Seq<char>, i: int) -> Option<(Seq<char>, int)> {
    match sp_tag_end(s, i, ","@) {
        None => None,
        Some(i1) => sp_enum_label_item(s, i1),
    }
}

/// Zero or more further enumeration labels, each behind a comma.
pub open spec fn sp_enum_label_mores(s: Seq<char>, i: int) -> (Seq<Seq<char>>, int) {
    sp_many0(|s2: Seq<char>, i2: int| sp_enum_label_more(s2, i2), s, i)
}

/// The comma-separated enumeration label list at `i`; it may be empty.
pub open spec fn sp_enum_labels(s: Seq<char>, i: int) -> (Seq<Seq<char>>, int) {
    match sp_enum_label_item(s, i) {
        None => (seq![], i),
        Some((first, j)) => {
            let (rest, end) = sp_enum_label_mores(s, j);
            (seq![first] + rest, end)
        },
    }
}

/// The enumeration shape at `i`: `ENUM "<label>","<label>",...`.
pub open spec fn sp_attr_enum_vt(s: Seq<char>, i: int) -> Option<(AttributeValueTypeView, int)> {
    let i1 = sp_skip_multispaces(s, i);
    match sp_tag_end(s, i1, "ENUM"@) {
        None => None,
        Some(i2) => {
            let i3 = sp_skip_multispaces(s, i2);
            let (labels, j) = sp_enum_labels(s, i3);
            Some((AttributeValueTypeView::Enum { values: labels }, sp_skip_multispaces(s, j)))
        },
    }
}

/// A value type shape at `i`: the five shapes tried in fixed order, first
/// structural match wins.
pub open spec fn sp_attr_value_type(s: Seq<char>, i: int) -> Option<(AttributeValueTypeView, int)> {
    match sp_attr_integer_vt(s, i) {
        Some(r) => Some(r),
        None => match sp_attr_hex_vt(s, i) {
            Some(r) => Some(r),
            None => match sp_attr_float_vt(s, i) {
                Some(r) => Some(r),
                None => match sp_attr_string_vt(s, i) {
                    Some(r) => Some(r),
                    None => sp_attr_enum_vt(s, i),
                },
            },
        },
    }
}

/// Match one enumeration label.
fn parse_enum_label_item(s: &str, i: usize) -> (r: Option<(CharString, usize)>)
    requires
        i <= s@.len(),
    ensures
        match r {
            Some((t, j)) => sp_enum_label_item(s@, i as int) == Some((t@, j as int)) && i < j
                <= s@.len(),
            None => sp_enum_label_item(s@, i as int) is None,
        },
{
    let i1: usize = skip_spaces(s, i);
    match parser_char_string(s, i1) {
        Err(_) => None,
        Ok((lab, j)) => {
            let j2: usize = skip_spaces(s, j);
            Some((lab, j2))
        },
    }
}

/// Match the comma-separated enumeration label list.
fn parse_enum_labels(s: &str, i: usize) -> (r: (Vec<CharString>, usize))
    requires
        i <= s@.len(),
    ensures
        sp_enum_labels(s@, i as int) == (r.0.deep_view(), r.1 as int),
        i <= r.1 <= s@.len(),
{
    let mut labels: Vec<CharString> = Vec::new();
    match parse_enum_label_item(s, i) {
        None => {
            proof {
                assert(labels.deep_view() =~= Seq::<Seq<char>>::empty());
                assert(sp_enum_labels(s@, i as int) == (Seq::<Seq<char>>::empty(), i as int));
            }
            (labels, i)
        },
        Some((first, j)) => {
            labels.push(first);
            let mut cur: usize = j;
            loop
                invariant
                    j <= cur <= s@.len(),
                    labels.deep_view().len() >= 1,
                    sp_enum_label_mores(s@, j as int).0 == labels.deep_view().skip(1)
                        + sp_enum_label_mores(s@, cur as int).0,
                    sp_enum_label_mores(s@, j as int).1 == sp_enum_label_mores(s@, cur as int).1,
                    labels.deep_view()[0] == first@,
                ensures
                    cur <= s@.len(),
                    sp_enum_label_mores(s@, j as int).0 == labels.deep_view().skip(1),
                    sp_enum_label_mores(s@, j as int).1 == cur as int,
                    labels.deep_view().len() >= 1,
                    labels.deep_view()[0] == first@,
                decreases s@.len() - cur,
            {
                let ghost prev = labels.deep_view();
                let more: Option<(CharString, usize)> = match tag(s, cur, ",") {
                    None => None,
                    Some(i1) => parse_enum_label_item(s, i1),
                };
                match more {
                    None => {
                        proof {
                            assert(sp_enum_label_more(s@, cur as int) is None);
                            assert(sp_enum_label_mores(s@, cur as int) == (Seq::<
                                Seq<char>,
                            >::empty(), cur as int));
                            assert(prev.skip(1) + Seq::<Seq<char>>::empty() =~= prev.skip(1));
                        }
                        break ;
                    },
                    Some((lab, j2)) => {
                        proof {
                            assert(sp_enum_label_more(s@, cur as int) == Some((lab@, j2 as int)));
                            assert(sp_enum_label_mores(s@, cur as int).0 == seq![lab@]
                                + sp_enum_label_mores(s@, j2 as int).0);
                            assert(sp_enum_label_mores(s@, cur as int).1 == sp_enum_label_mores(
                                s@,
                                j2 as int,
                            ).1);
                        }
                        labels.push(lab);
                        proof {
                            assert(labels.deep_view() =~= prev + seq![lab@]);
                            assert(labels.deep_view().skip(1) =~= prev.skip(1) + seq![lab@]);
                            assert(prev.skip(1) + (seq![lab@] + sp_enum_label_mores(
                                s@,
                                j2 as int,
                            ).0) =~= (prev.skip(1) + seq![lab@]) + sp_enum_label_mores(
                                s@,
                                j2 as int,
                            ).0);
                        }
                        cur = j2;
                    },
                }
            }
            proof {
                assert(labels.deep_view() =~= seq![first@] + labels.deep_view().skip(1));
                assert(sp_enum_labels(s@, i as int) == (labels.deep_view(), cur as int));
            }
            (labels, cur)
        },
    }
}

/// Match the bounded integer shape.
pub fn parser_attribute_integer_value_type(s: &str, i: usize) -> (r: Result<
    (AttributeValueType, usize),
    DbcParseError,
>)
    requires
        i <= s@.len(),
    ensures
        match r {
            Ok((v, j)) => sp_attr_integer_vt(s@, i as int) == Some((v@, j as int)) && i <= j
                <= s@.len(),
            Err(e) => sp_attr_integer_vt(s@, i as int) is None && e
                == DbcParseError::BadAttributeIntegerValueType,
        },
{
    let i1: usize = skip_multispaces(s, i);
    match tag(s, i1, "INT") {
        Some(i2) => {
            let i3: usize = skip_multispaces(s, i2);
            match parse_i32(s, i3) {
                Some((mn, j1)) => {
                    let i4: usize = skip_multispaces(s, j1);
                    match parse_i32(s, i4) {
                        Some((mx, j2)) => {
                            let j: usize = skip_multispaces(s, j2);
                            Ok(
                                (AttributeValueType::Integer(
                                    AttributeIntegerValueType { minimum: mn, maximum: mx },
                                ), j),
                            )
                        },
                        None => Err(DbcParseError::BadAttributeIntegerValueType),
                    }
                },
                None => Err(DbcParseError::BadAttributeIntegerValueType),
            }
        },
        None => Err(DbcParseError::BadAttributeIntegerValueType),
    }
}

/// Match the hexadecimal-displayed integer shape.
pub fn parser_attribute_hex_value_type(s: &str, i: usize) -> (r: Result<
    (AttributeValueType, usize),
    DbcParseError,
>)
    requires
        i <= s@.len(),
    ensures
        match r {
            Ok((v, j)) => sp_attr_hex_vt(s@, i as int) == Some((v@, j as int)) && i <= j
                <= s@.len(),
            Err(e) => sp_attr_hex_vt(s@, i as int) is None && e
                == DbcParseError::BadAttributeHexValueType,
        },
{
    let i1: usize = skip_multispaces(s, i);
    match tag(s, i1, "HEX") {
        Some(i2) => {
            let i3: usize = skip_multispaces(s, i2);
            match parse_i32(s, i3) {
                Some((mn, j1)) => {
                    let i4: usize = skip_multispaces(s, j1);
                    match parse_i32(s, i4) {
                        Some((mx, j2)) => {
                            let j: usize = skip_multispaces(s, j2);
                            Ok(
                                (AttributeValueType::Hex(
                                    AttributeHexValueType { minimum: mn, maximum: mx },
                                ), j),
                            )
                        },
                        None => Err(DbcParseError::BadAttributeHexValueType),
                    }
                },
                None => Err(DbcParseError::BadAttributeHexValueType),
            }
        },
        None => Err(DbcParseError::BadAttributeHexValueType),
    }
}

/// Match the bounded floating shape.
pub fn parser_attribute_float_value_type(s: &str, i: usize) -> (r: Result<
    (AttributeValueType, usize),
    DbcParseError,
>)
    requires
        i <= s@.len(),
    ensures
        match r {
            Ok((v, j)) => sp_attr_float_vt(s@, i as int) == Some((v@, j as int)) && i <= j
                <= s@.len(),
            Err(e) => sp_attr_float_vt(s@, i as int) is None && e
                == DbcParseError::BadAttributeFloatValueType,
        },
{
    let i1: usize = skip_multispaces(s, i);
    match tag(s, i1, "FLOAT") {
        Some(i2) => {
            let i3: usize = skip_multispaces(s, i2);
            match parser_number(s, i3) {
                Ok((mn, j1)) => {
                    let i4: usize = skip_multispaces(s, j1);
                    match parser_number(s, i4) {
                        Ok((mx, j2)) => {
                            let j: usize = skip_multispaces(s, j2);
                            Ok(
                                (AttributeValueType::Float(
                                    AttributeFloatValueType { minimum: mn, maximum: mx },
                                ), j),
                            )
                        },
                        Err(_) => Err(DbcParseError::BadAttributeFloatValueType),
                    }
                },
                Err(_) => Err(DbcParseError::BadAttributeFloatValueType),
            }
        },
        None => Err(DbcParseError::BadAttributeFloatValueType),
    }
}

/// Match the free string shape.
pub fn parser_attribute_string_value_type(s: &str, i: usize) -> (r: Result<
    (AttributeValueType, usize),
    DbcParseError,
>)
    requires
        i <= s@.len(),
    ensures
        match r {
            Ok((v, j)) => sp_attr_string_vt(s@, i as int) == Some((v@, j as int)) && i <= j
                <= s@.len(),
            Err(e) => sp_attr_string_vt(s@, i as int) is None && e
                == DbcParseError::BadAttributeStringValueType,
        },
{
    match tag(s, i, "STRING") {
        Some(j) => Ok((AttributeValueType::String(AttributeStringValueType {}), j)),
        None => Err(DbcParseError::BadAttributeStringValueType),
    }
}

/// Match the enumeration shape.
pub fn parser_attribute_enum_value_type(s: &str, i: usize) -> (r: Result<
    (AttributeValueType, usize),
    DbcParseError,
>)
    requires
        i <= s@.len(),
    ensures
        match r {
            Ok((v, j)) => sp_attr_enum_vt(s@, i as int) == Some((v@, j as int)) && i <= j
                <= s@.len(),
            Err(e) => sp_attr_enum_vt(s@, i as int) is None && e
                == DbcParseError::BadAttributeEnumValueType,
        },
{
    let i1: usize = skip_multispaces(s, i);
    match tag(s, i1, "ENUM") {
        Some(i2) => {
            let i3: usize = skip_multispaces(s, i2);
            let (labels, j1) = parse_enum_labels(s, i3);
            let j: usize = skip_multispaces(s, j1);
            Ok((AttributeValueType::Enum(AttributeEnumValueType { values: labels }), j))
        },
        None => Err(DbcParseError::BadAttributeEnumValueType),
    }
}

/// Match a value type shape.
pub fn parser_attribute_value_type(s: &str, i: usize) -> (r: Result<
    (AttributeValueType, usize),
    DbcParseError,
>)
    requires
        i <= s@.len(),
    ensures
        match r {
            Ok((v, j)) => sp_attr_value_type(s@, i as int) == Some((v@, j as int)) && i <= j
                <= s@.len(),
            Err(_) => sp_attr_value_type(s@, i as int) is None,
        },
{
    // The integer shape.
    let i1: usize = skip_multispaces(s, i);
    match tag(s, i1, "INT") {
        Some(i2) => {
            let i3: usize = skip_multispaces(s, i2);
            match parse_i32(s, i3) {
                Some((mn, j1)) => {
                    let i4: usize = skip_multispaces(s, j1);
                    match parse_i32(s, i4) {
                        Some((mx, j2)) => {
                            let j: usize = skip_multispaces(s, j2);
                            return Ok(
                                (AttributeValueType::Integer(
                                    AttributeIntegerValueType { minimum: mn, maximum: mx },
                                ), j),
                            );
                        },
                        None => {},
                    }
                },
                None => {},
            }
        },
        None => {},
    }
    // The hexadecimal shape.
    match tag(s, i1, "HEX") {
        Some(i2) => {
            let i3: usize = skip_multispaces(s, i2);
            match parse_i32(s, i3) {
                Some((mn, j1)) => {
                    let i4: usize = skip_multispaces(s, j1);
                    match parse_i32(s, i4) {
                        Some((mx, j2)) => {
                            let j: usize = skip_multispaces(s, j2);
                            return Ok(
                                (AttributeValueType::Hex(
                                    AttributeHexValueType { minimum: mn, maximum: mx },
                                ), j),
                            );
                        },
                        None => {},
                    }
                },
                None => {},
            }
        },
        None => {},
    }
    // The floating shape.
    match tag(s, i1, "FLOAT") {
        Some(i2) => {
            let i3: usize = skip_multispaces(s, i2);
            match parser_number(s, i3) {
                Ok((mn, j1)) => {
                    let i4: usize = skip_multispaces(s, j1);
                    match parser_number(s, i4) {
                        Ok((mx, j2)) => {
                            let j: usize = skip_multispaces(s, j2);
                            return Ok(
                                (AttributeValueType::Float(
                                    AttributeFloatValueType { minimum: mn, maximum: mx },
                                ), j),
                            );
                        },
                        Err(_) => {},
                    }
                },
                Err(_) => {},
            }
        },
        None => {},
    }
    // The free string shape, at the position itself.
    match tag(s, i, "STRING") {
        Some(j) => {
            return Ok((AttributeValueType::String(AttributeStringValueType {}), j));
        },
        None => {},
    }
    // The enumeration shape.
    match tag(s, i1, "ENUM") {
        Some(i2) => {
            let i3: usize = skip_multispaces(s, i2);
            let (labels, j1) = parse_enum_labels(s, i3);
            let j: usize = skip_multispaces(s, j1);
            return Ok((AttributeValueType::Enum(AttributeEnumValueType { values: labels }), j));
        },
        None => {},
    }
    Err(DbcParseError::BadAttributeEnumValueType)
}

// ---------------------------------------------------------------------------
// Scoped definitions
// ---------------------------------------------------------------------------

/// The scope marker written after the definition keyword, empty for the
/// network scope.
pub open spec fn sp_scope_marker(scope: AttributeScope) -> Seq<char> {
    match scope {
        AttributeScope::Network => Seq::<char>::empty(),
        AttributeScope::Node => "BU_"@,
        AttributeScope::Message => "BO_"@,
        AttributeScope::Signal => "SG_"@,
        AttributeScope::EnvironmentVariable => "EV_"@,
        AttributeScope::ControlUnitEnvironmentVariable => "BU_EV_REL_"@,
        AttributeScope::NodeTxMessage => "BU_BO_REL_"@,
        AttributeScope::NodeMappedRxSignal => "BU_SG_REL_"@,
    }
}

/// Whether the scope is written behind the relation keyword.
pub open spec fn sp_scope_is_relation(scope: AttributeScope) -> bool {
    match scope {
        AttributeScope::ControlUnitEnvironmentVariable => true,
        AttributeScope::NodeTxMessage => true,
        AttributeScope::NodeMappedRxSignal => true,
        _ => false,
    }
}

/// An attribute definition of the given scope at `i`: the definition
/// keyword, the scope marker, the quoted name, a value type shape, then a
/// semicolon.
pub open spec fn sp_attr_definition_scoped(s: Seq<char>, i: int, scope: AttributeScope) -> Option<
    (AttributeDefinitionView, int),
> {
    let keyword: Seq<char> = if sp_scope_is_relation(scope) {
        "BA_DEF_REL_"@
    } else {
        "BA_DEF_"@
    };
    let i1 = sp_skip_multispaces(s, i);
    match sp_tag_end(s, i1, keyword) {
        None => None,
        Some(i2) => {
            let i3 = sp_skip_multispaces(s, i2);
            match sp_tag_end(s, i3, sp_scope_marker(scope)) {
                None => None,
                Some(i4) => {
                    let i5 = sp_skip_multispaces(s, i4);
                    match sp_attribute_name(s, i5) {
                        None => None,
                        Some((name, j1)) => {
                            let i6 = sp_skip_multispaces(s, j1);
                            match sp_attr_value_type(s, i6) {
                                None => None,
                                Some((vt, j2)) => {
                                    let i7 = sp_skip_multispaces(s, j2);
                                    match sp_tag_end(s, i7, ";"@) {
                                        None => None,
                                        Some(i8) => Some(
                                            (AttributeDefinitionView {
                                                scope,
                                                attribute_name: name,
                                                attribute_value_type: vt,
                                            }, sp_skip_multispaces(s, i8)),
                                        ),
                                    }
                                },
                            }
                        },
                    }
                },
            }
        },
    }
}

/// An attribute definition at `i`: the eight scope shapes tried in fixed
/// order, first structural match wins.
pub open spec fn sp_attr_definition(s: Seq<char>, i: int) -> Option<
    (AttributeDefinitionView, int),
> {
    match sp_attr_definition_scoped(s, i, AttributeScope::Network) {
        Some(r) => Some(r),
        None => match sp_attr_definition_scoped(s, i, AttributeScope::Node) {
            Some(r) => Some(r),
            None => match sp_attr_definition_scoped(s, i, AttributeScope::Message) {
                Some(r) => Some(r),
                None => match sp_attr_definition_scoped(s, i, AttributeScope::Signal) {
                    Some(r) => Some(r),
                    None => match sp_attr_definition_scoped(
                        s,
                        i,
                        AttributeScope::EnvironmentVariable,
                    ) {
                        Some(r) => Some(r),
                        None => match sp_attr_definition_scoped(
                            s,
                            i,
                            AttributeScope::ControlUnitEnvironmentVariable,
                        ) {
                            Some(r) => Some(r),
                            None => match sp_attr_definition_scoped(
                                s,
                                i,
                                AttributeScope::NodeTxMessage,
                            ) {
                                Some(r) => Some(r),
                                None => sp_attr_definition_scoped(
                                    s,
                                    i,
                                    AttributeScope::NodeMappedRxSignal,
                                ),
                            },
                        },
                    },
                },
            },
        },
    }
}

/// Match the body of a scoped definition after its keyword and scope
/// marker, at `i4`.
fn parse_attr_definition_body(s: &str, i4: usize) -> (r: Option<
    (String, AttributeValueType, usize),
>)
    requires
        i4 <= s@.len(),
    ensures
        match r {
            Some((name, vt, j)) => ({
                let i5 = sp_skip_multispaces(s@, i4 as int);
                match sp_attribute_name(s@, i5) {
                    None => false,
                    Some((n2, j1)) => {
                        let i6 = sp_skip_multispaces(s@, j1);
                        match sp_attr_value_type(s@, i6) {
                            None => false,
                            Some((vt2, j2)) => {
                                let i7 = sp_skip_multispaces(s@, j2);
                                match sp_tag_end(s@, i7, ";"@) {
                                    None => false,
                                    Some(i8) => name@ == n2 && vt@ == vt2 && j as int
                                        == sp_skip_multispaces(s@, i8) && i4 <= j <= s@.len(),
                                }
                            },
                        }
                    },
                }
            }),
            None => ({
                let i5 = sp_skip_multispaces(s@, i4 as int);
                match sp_attribute_name(s@, i5) {
                    None => true,
                    Some((n2, j1)) => {
                        let i6 = sp_skip_multispaces(s@, j1);
                        match sp_attr_value_type(s@, i6) {
                            None => true,
                            Some((vt2, j2)) => {
                                let i7 = sp_skip_multispaces(s@, j2);
                                sp_tag_end(s@, i7, ";"@) is None
                            },
                        }
                    },
                }
            }),
        },
{
    let i5: usize = skip_multispaces(s, i4);
    match parser_attribute_name(s, i5) {
        None => None,
        Some((name, j1)) => {
            let i6: usize = skip_multispaces(s, j1);
            match parser_attribute_value_type(s, i6) {
                Err(_) => None,
                Ok((vt, j2)) => {
                    let i7: usize = skip_multispaces(s, j2);
                    match tag(s, i7, ";") {
                        None => None,
                        Some(i8) => {
                            let j: usize = skip_multispaces(s, i8);
                            Some((name, vt, j))
                        },
                    }
                },
            }
        },
    }
}

/// Match a definition of the given scope, written with the given keyword
/// and scope marker.
fn parse_scoped_def(
    s: &str,
    i: usize,
    keyword: &str,
    marker: &str,
    scope: Ghost<AttributeScope>,
) -> (r: Option<(String, AttributeValueType, usize)>)
    requires
        i <= s@.len(),
        keyword@ == (if sp_scope_is_relation(scope@) {
            "BA_DEF_REL_"@
        } else {
            "BA_DEF_"@
        }),
        marker@ == sp_scope_marker(scope@),
    ensures
        match r {
            Some((name, vt, j)) => sp_attr_definition_scoped(s@, i as int, scope@) == Some(
                (AttributeDefinitionView {
                    scope: scope@,
                    attribute_name: name@,
                    attribute_value_type: vt@,
                }, j as int),
            ) && i <= j <= s@.len(),
            None => sp_attr_definition_scoped(s@, i as int, scope@) is None,
        },
{
    let i1: usize = skip_multispaces(s, i);
    match tag(s, i1, keyword) {
        None => None,
        Some(i2) => {
            let i3: usize = skip_multispaces(s, i2);
            match tag(s, i3, marker) {
                None => None,
                Some(i4) => match parse_attr_definition_body(s, i4) {
                    None => None,
                    Some((name, vt, j)) => Some((name, vt, j)),
                },
            }
        },
    }
}

/// Match a network-scoped definition.
pub fn parser_network_attribute(s: &str, i: usize) -> (r: Result<
    (AttributeDefinition, usize),
    DbcParseError,
>)
    requires
        i <= s@.len(),
    ensures
        match r {
            Ok((v, j)) => sp_attr_definition_scoped(s@, i as int, AttributeScope::Network) == Some(
                (v@, j as int),
            ) && i <= j <= s@.len(),
            Err(e) => sp_attr_definition_scoped(s@, i as int, AttributeScope::Network) is None && e
                == DbcParseError::BadNetworkAttribute,
        },
{
    proof {
        reveal_strlit("");
        assert(""@ =~= sp_scope_marker(AttributeScope::Network));
    }
    match parse_scoped_def(s, i, "BA_DEF_", "", Ghost(AttributeScope::Network)) {
        None => Err(DbcParseError::BadNetworkAttribute),
        Some((name, vt, j)) => Ok(
            (AttributeDefinition::Network(
                NetworkAttribute { attribute_name: name, attribute_value_type: vt },
            ), j),
        ),
    }
}

/// Match a node-scoped definition.
pub fn parser_node_attribute(s: &str, i: usize) -> (r: Result<
    (AttributeDefinition, usize),
    DbcParseError,
>)
    requires
        i <= s@.len(),
    ensures
        match r {
            Ok((v, j)) => sp_attr_definition_scoped(s@, i as int, AttributeScope::Node) == Some(
                (v@, j as int),
            ) && i <= j <= s@.len(),
            Err(e) => sp_attr_definition_scoped(s@, i as int, AttributeScope::Node) is None && e
                == DbcParseError::BadNodeAttribute,
        },
{
    match parse_scoped_def(s, i, "BA_DEF_", "BU_", Ghost(AttributeScope::Node)) {
        None => Err(DbcParseError::BadNodeAttribute),
        Some((name, vt, j)) => Ok(
            (AttributeDefinition::Node(
                NodeAttribute { attribute_name: name, attribute_value_type: vt },
            ), j),
        ),
    }
}

/// Match a message-scoped definition.
pub fn parser_message_attribute(s: &str, i: usize) -> (r: Result<
    (AttributeDefinition, usize),
    DbcParseError,
>)
    requires
        i <= s@.len(),
    ensures
        match r {
            Ok((v, j)) => sp_attr_definition_scoped(s@, i as int, AttributeScope::Message) == Some(
                (v@, j as int),
            ) && i <= j <= s@.len(),
            Err(e) => sp_attr_definition_scoped(s@, i as int, AttributeScope::Message) is None && e
                == DbcParseError::BadMessageAttribute,
        },
{
    match parse_scoped_def(s, i, "BA_DEF_", "BO_", Ghost(AttributeScope::Message)) {
        None => Err(DbcParseError::BadMessageAttribute),
        Some((name, vt, j)) => Ok(
            (AttributeDefinition::Message(
                MessageAttribute { attribute_name: name, attribute_value_type: vt },
            ), j),
        ),
    }
}

/// Match a signal-scoped definition.
pub fn parser_signal_attribute(s: &str, i: usize) -> (r: Result<
    (AttributeDefinition, usize),
    DbcParseError,
>)
    requires
        i <= s@.len(),
    ensures
        match r {
            Ok((v, j)) => sp_attr_definition_scoped(s@, i as int, AttributeScope::Signal) == Some(
                (v@, j as int),
            ) && i <= j <= s@.len(),
            Err(e) => sp_attr_definition_scoped(s@, i as int, AttributeScope::Signal) is None && e
                == DbcParseError::BadSignalAttribute,
        },
{
    match parse_scoped_def(s, i, "BA_DEF_", "SG_", Ghost(AttributeScope::Signal)) {
        None => Err(DbcParseError::BadSignalAttribute),
        Some((name, vt, j)) => Ok(
            (AttributeDefinition::Signal(
                SignalAttribute { attribute_name: name, attribute_value_type: vt },
            ), j),
        ),
    }
}

/// Match an environment-variable-scoped definition.
pub fn parser_environment_variable_attribute(s: &str, i: usize) -> (r: Result<
    (AttributeDefinition, usize),
    DbcParseError,
>)
    requires
        i <= s@.len(),
    ensures
        match r {
            Ok((v, j)) => sp_attr_definition_scoped(
                s@,
                i as int,
                AttributeScope::EnvironmentVariable,
            ) == Some((v@, j as int)) && i <= j <= s@.len(),
            Err(e) => sp_attr_definition_scoped(
                s@,
                i as int,
                AttributeScope::EnvironmentVariable,
            ) is None && e == DbcParseError::BadEnvironmentVariableAttribute,
        },
{
    match parse_scoped_def(s, i, "BA_DEF_", "EV_", Ghost(AttributeScope::EnvironmentVariable)) {
        None => Err(DbcParseError::BadEnvironmentVariableAttribute),
        Some((name, vt, j)) => Ok(
            (AttributeDefinition::EnvironmentVariable(
                EnvironmentVariableAttribute { attribute_name: name, attribute_value_type: vt },
            ), j),
        ),
    }
}

/// Match a node/environment-variable relation definition.
pub fn parser_control_unit_environment_variable_attribute(s: &str, i: usize) -> (r: Result<
    (AttributeDefinition, usize),
    DbcParseError,
>)
    requires
        i <= s@.len(),
    ensures
        match r {
            Ok((v, j)) => sp_attr_definition_scoped(
                s@,
                i as int,
                AttributeScope::ControlUnitEnvironmentVariable,
            ) == Some((v@, j as int)) && i <= j <= s@.len(),
            Err(e) => sp_attr_definition_scoped(
                s@,
                i as int,
                AttributeScope::ControlUnitEnvironmentVariable,
            ) is None && e == DbcParseError::BadControlUnitEnvironmentVariableAttribute,
        },
{
    match parse_scoped_def(
        s,
        i,
        "BA_DEF_REL_",
        "BU_EV_REL_",
        Ghost(AttributeScope::ControlUnitEnvironmentVariable),
    ) {
        None => Err(DbcParseError::BadControlUnitEnvironmentVariableAttribute),
        Some((name, vt, j)) => Ok(
            (AttributeDefinition::ControlUnitEnvironmentVariable(
                ControlUnitEnvironmentVariableAttribute {
                    attribute_name: name,
                    attribute_value_type: vt,
                },
            ), j),
        ),
    }
}

/// Match a node/tx-message relation definition.
pub fn parser_node_tx_message_attribute(s: &str, i: usize) -> (r: Result<
    (AttributeDefinition, usize),
    DbcParseError,
>)
    requires
        i <= s@.len(),
    ensures
        match r {
            Ok((v, j)) => sp_attr_definition_scoped(
                s@,
                i as int,
                AttributeScope::NodeTxMessage,
            ) == Some((v@, j as int)) && i <= j <= s@.len(),
            Err(e) => sp_attr_definition_scoped(
                s@,
                i as int,
                AttributeScope::NodeTxMessage,
            ) is None && e == DbcParseError::BadNodeTxMessageAttribute,
        },
{
    match parse_scoped_def(s, i, "BA_DEF_REL_", "BU_BO_REL_", Ghost(AttributeScope::NodeTxMessage)) {
        None => Err(DbcParseError::BadNodeTxMessageAttribute),
        Some((name, vt, j)) => Ok(
            (AttributeDefinition::NodeTxMessage(
                NodeTxMessageAttribute { attribute_name: name, attribute_value_type: vt },
            ), j),
        ),
    }
}

/// Match a node/rx-signal relation definition.
pub fn parser_node_mapped_rx_signal_attribute(s: &str, i: usize) -> (r: Result<
    (AttributeDefinition, usize),
    DbcParseError,
>)
    requires
        i <= s@.len(),
    ensures
        match r {
            Ok((v, j)) => sp_attr_definition_scoped(
                s@,
                i as int,
                AttributeScope::NodeMappedRxSignal,
            ) == Some((v@, j as int)) && i <= j <= s@.len(),
            Err(e) => sp_attr_definition_scoped(
                s@,
                i as int,
                AttributeScope::NodeMappedRxSignal,
            ) is None && e == DbcParseError::BadNodeMappedRxSignalAttribute,
        },
{
    match parse_scoped_def(
        s,
        i,
        "BA_DEF_REL_",
        "BU_SG_REL_",
        Ghost(AttributeScope::NodeMappedRxSignal),
    ) {
        None => Err(DbcParseError::BadNodeMappedRxSignalAttribute),
        Some((name, vt, j)) => Ok(
            (AttributeDefinition::NodeMappedRxSignal(
                NodeMappedRxSignalAttribute { attribute_name: name, attribute_value_type: vt },
            ), j),
        ),
    }
}

/// Match one attribute definition of any scope.
pub fn parser_attribute_definition(s: &str, i: usize) -> (r: Result<
    (AttributeDefinition, usize),
    DbcParseError,
>)
    requires
        i <= s@.len(),
    ensures
        match r {
            Ok((v, j)) => sp_attr_definition(s@, i as int) == Some((v@, j as int)) && i <= j
                <= s@.len(),
            Err(_) => sp_attr_definition(s@, i as int) is None,
        },
{
    match parser_network_attribute(s, i) {
        Ok(v) => Ok(v),
        Err(_) => match parser_node_attribute(s, i) {
            Ok(v) => Ok(v),
            Err(_) => match parser_message_attribute(s, i) {
                Ok(v) => Ok(v),
                Err(_) => match parser_signal_attribute(s, i) {
                    Ok(v) => Ok(v),
                    Err(_) => match parser_environment_variable_attribute(s, i) {
                        Ok(v) => Ok(v),
                        Err(_) => match parser_control_unit_environment_variable_attribute(s, i) {
                            Ok(v) => Ok(v),
                            Err(_) => match parser_node_tx_message_attribute(s, i) {
                                Ok(v) => Ok(v),
                                Err(_) => match parser_node_mapped_rx_signal_attribute(s, i) {
                                    Ok(v) => Ok(v),
                                    Err(e) => Err(e),
                                },
                            },
                        },
                    },
                },
            },
        },
    }
}

// ---------------------------------------------------------------------------
// Rendering
// ---------------------------------------------------------------------------

/// Quoted labels joined by commas.
pub open spec fn sp_join_quoted_comma(items: Seq<Seq<char>>) -> Seq<char>
    decreases items.len(),
{
    if items.len() == 0 {
        Seq::<char>::empty()
    } else if items.len() == 1 {
        quote_seq(items[0])
    } else {
        sp_join_quoted_comma(items.drop_last()) + seq![','] + quote_seq(items.last())
    }
}

/// The rendered value type shape.
pub open spec fn sp_render_attr_value_type(v: AttributeValueTypeView) -> Seq<char> {
    match v {
        AttributeValueTypeView::Integer { minimum, maximum } => "INT "@ + dec_int(minimum as int)
            + seq![' '] + dec_int(maximum as int),
        AttributeValueTypeView::Hex { minimum, maximum } => "HEX "@ + dec_int(minimum as int)
            + seq![' '] + dec_int(maximum as int),
        AttributeValueTypeView::Float { minimum, maximum } => "FLOAT "@ + minimum + seq![' ']
            + maximum,
        AttributeValueTypeView::String => "STRING"@,
        AttributeValueTypeView::Enum { values } => "ENUM "@ + sp_join_quoted_comma(values),
    }
}

/// The rendered definition line.
pub open spec fn sp_render_attr_definition(v: AttributeDefinitionView) -> Seq<char> {
    (if sp_scope_is_relation(v.scope) {
        "BA_DEF_REL_ "@
    } else {
        "BA_DEF_ "@
    }) + (if v.scope is Network {
        Seq::<char>::empty()
    } else {
        sp_scope_marker(v.scope) + seq![' ']
    }) + quote_seq(v.attribute_name) + seq![' '] + sp_render_attr_value_type(
        v.attribute_value_type,
    ) + seq![';']
}

/// Append the quoted labels joined by commas.
fn append_quoted_joined(out: &mut String, items: &Vec<CharString>)
    ensures
        final (out)@ == old(out)@ + sp_join_quoted_comma(items.deep_view()),
{
    let n: usize = items.len();
    let mut k: usize = 0;
    while k < n
        invariant
            k <= n,
            n == items.len(),
            out@ == old(out)@ + sp_join_quoted_comma(items.deep_view().take(k as int)),
        decreases n - k,
    {
        if k > 0 {
            out.append(",");
        }
        out.append("\"");
        let lab: &CharString = &items[k];
        out.append(lab.0.as_str());
        out.append("\"");
        proof {
            reveal_strlit(",");
            reveal_strlit("\"");
            let dv = items.deep_view();
            let tk = dv.take(k + 1);
            assert(tk.drop_last() =~= dv.take(k as int));
            assert(tk.last() == dv[k as int]);
            if k > 0 {
                assert(tk.len() > 1);
            }
            assert(out@ =~= old(out)@ + sp_join_quoted_comma(dv.take(k + 1)));
        }
        k = k + 1;
    }
    proof {
        assert(items.deep_view().take(n as int) =~= items.deep_view());
    }
}

impl AttributeValueType {
    /// Render the value type shape.
    pub fn to_text(&self) -> (r: String)
        ensures
            r@ == sp_render_attr_value_type(self@),
    {
        let mut out: String = String::new();
        match self {
            AttributeValueType::Integer(v) => {
                out.append("INT ");
                append_i64(&mut out, v.minimum as i64);
                out.append(" ");
                append_i64(&mut out, v.maximum as i64);
            },
            AttributeValueType::Hex(v) => {
                out.append("HEX ");
                append_i64(&mut out, v.minimum as i64);
                out.append(" ");
                append_i64(&mut out, v.maximum as i64);
            },
            AttributeValueType::Float(v) => {
                out.append("FLOAT ");
                out.append(v.minimum.0.as_str());
                out.append(" ");
                out.append(v.maximum.0.as_str());
            },
            AttributeValueType::String(_) => {
                out.append("STRING");
            },
            AttributeValueType::Enum(v) => {
                out.append("ENUM ");
                append_quoted_joined(&mut out, &v.values);
            },
        }
        proof {
            reveal_strlit(" ");
            assert(out@ =~= sp_render_attr_value_type(self@));
        }
        out
    }
}

impl AttributeDefinition {
    /// The scope of this definition.
    pub fn scope(&self) -> (r: AttributeScope)
        ensures
            r == self@.scope,
    {
        match self {
            AttributeDefinition::Network(_) => AttributeScope::Network,
            AttributeDefinition::Node(_) => AttributeScope::Node,
            AttributeDefinition::Message(_) => AttributeScope::Message,
            AttributeDefinition::Signal(_) => AttributeScope::Signal,
            AttributeDefinition::EnvironmentVariable(_) => AttributeScope::EnvironmentVariable,
            AttributeDefinition::ControlUnitEnvironmentVariable(_) => AttributeScope::ControlUnitEnvironmentVariable,
            AttributeDefinition::NodeTxMessage(_) => AttributeScope::NodeTxMessage,
            AttributeDefinition::NodeMappedRxSignal(_) => AttributeScope::NodeMappedRxSignal,
        }
    }

    /// Render the definition line.
    pub fn to_text(&self) -> (r: String)
        ensures
            r@ == sp_render_attr_definition(self@),
    {
        let mut out: String = String::new();
        let (name, vt): (&String, &AttributeValueType) = match self {
            AttributeDefinition::Network(v) => {
                out.append("BA_DEF_ ");
                (&v.attribute_name, &v.attribute_value_type)
            },
            AttributeDefinition::Node(v) => {
                out.append("BA_DEF_ BU_ ");
                (&v.attribute_name, &v.attribute_value_type)
            },
            AttributeDefinition::Message(v) => {
                out.append("BA_DEF_ BO_ ");
                (&v.attribute_name, &v.attribute_value_type)
            },
            AttributeDefinition::Signal(v) => {
                out.append("BA_DEF_ SG_ ");
                (&v.attribute_name, &v.attribute_value_type)
            },
            AttributeDefinition::EnvironmentVariable(v) => {
                out.append("BA_DEF_ EV_ ");
                (&v.attribute_name, &v.attribute_value_type)
            },
            AttributeDefinition::ControlUnitEnvironmentVariable(v) => {
                out.append("BA_DEF_REL_ BU_EV_REL_ ");
                (&v.attribute_name, &v.attribute_value_type)
            },
            AttributeDefinition::NodeTxMessage(v) => {
                out.append("BA_DEF_REL_ BU_BO_REL_ ");
                (&v.attribute_name, &v.attribute_value_type)
            },
            AttributeDefinition::NodeMappedRxSignal(v) => {
                out.append("BA_DEF_REL_ BU_SG_REL_ ");
                (&v.attribute_name, &v.attribute_value_type)
            },
        };
        out.append("\"");
        out.append(name.as_str());
        out.append("\" ");
        let vt_text: String = vt.to_text();
        out.append(vt_text.as_str());
        out.append(";");
        proof {
            reveal_strlit("BA_DEF_ ");
            reveal_strlit("BA_DEF_ BU_ ");
            reveal_strlit("BA_DEF_ BO_ ");
            reveal_strlit("BA_DEF_ SG_ ");
            reveal_strlit("BA_DEF_ EV_ ");
            reveal_strlit("BA_DEF_REL_ ");
            reveal_strlit("BA_DEF_REL_ BU_EV_REL_ ");
            reveal_strlit("BA_DEF_REL_ BU_BO_REL_ ");
            reveal_strlit("BA_DEF_REL_ BU_SG_REL_ ");
            reveal_strlit("BU_");
            reveal_strlit("BO_");
            reveal_strlit("SG_");
            reveal_strlit("EV_");
            reveal_strlit("BU_EV_REL_");
            reveal_strlit("BU_BO_REL_");
            reveal_strlit("BU_SG_REL_");
            reveal_strlit("\"");
            reveal_strlit("\" ");
            reveal_strlit(";");
            assert(out@ =~= sp_render_attr_definition(self@));
        }
        out
    }
}

} // verus!
