//! Attribute defaults.
//!
//! Format: `BA_DEF_DEF_ "<name>" <value>;` for object-scoped attributes and
//! `BA_DEF_DEF_REL_ "<name>" <value>;` for relation-scoped ones.  A value
//! is a number or a quoted string, the number shape tried first.

use vstd::prelude::*;

use crate::attribute_definition::{sp_attribute_name, parser_attribute_name};
use crate::char_string::{quote_seq, CharString, parser_char_string};
use crate::error::DbcParseError;
use crate::lexer::{skip_multispaces, sp_quoted, sp_skip_multispaces, sp_tag_end, tag};
use crate::number::{Number, parser_number};

verus! {

/// A scalar attribute value: a number kept as its text, or a string.
#[derive(Clone, Debug, PartialEq, Eq)]
pub enum AttributeValue {
    Double(Number),
    String(CharString),
}

/// The mathematical value of a scalar attribute value.
pub ghost enum AttributeValueView {
    Double { text: Seq<char> },
    String { text: Seq<char> },
}

impl View for AttributeValue {
    type V = AttributeValueView;

    open spec fn view(&self) -> AttributeValueView {
        match self {
            AttributeValue::Double(v) => AttributeValueView::Double { text: v@ },
            AttributeValue::String(v) => AttributeValueView::String { text: v@ },
        }
    }
}

/// A scalar attribute value at `i`: a number, else a quoted string.
pub open spec fn sp_attribute_value(s: Seq<char>, i: int) -> Option<(AttributeValueView, int)> {
    match crate::lexer::sp_number(s, i) {
        Some(j) => Some((AttributeValueView::Double { text: s.subrange(i, j) }, j)),
        None => match sp_quoted(s, i) {
            Some((text, j)) => Some((AttributeValueView::String { text }, j)),
            None => None,
        },
    }
}

/// Match a scalar attribute value.
pub fn parser_attribute_value(s: &str, i: usize) -> (r: Result<
    (AttributeValue, usize),
    DbcParseError,
>)
    requires
        i <= s@.len(),
    ensures
        match r {
            Ok((v, j)) => sp_attribute_value(s@, i as int) == Some((v@, j as int)) && i < j
                <= s@.len(),
            Err(_) => sp_attribute_value(s@, i as int) is None,
        },
{
    match parser_number(s, i) {
        Ok((v, j)) => Ok((AttributeValue::Double(v), j)),
        Err(_) => match parser_char_string(s, i) {
            Ok((v, j)) => Ok((AttributeValue::String(v), j)),
            Err(e) => Err(e),
        },
    }
}

/// A default for an object-scoped attribute.
#[derive(Clone, Debug, PartialEq, Eq)]
pub struct AttributeDefinitionDefault {
    pub attribute_name: String,
    pub attribute_value: AttributeValue,
}

/// A default for a relation-scoped attribute.
#[derive(Clone, Debug, PartialEq, Eq)]
pub struct RelationAttributeDefinitionDefault {
    pub attribute_name: String,
    pub attribute_value: AttributeValue,
}

/// One attribute default, tagged by the kind of attribute it belongs to.
#[derive(Clone, Debug, PartialEq, Eq)]
pub enum AttributeDefault {
    Attribute(AttributeDefinitionDefault),
    RelationAttribute(RelationAttributeDefinitionDefault),
}

/// The mathematical value of one attribute default.
pub ghost struct AttributeDefaultView {
    pub relation: bool,
    pub attribute_name: Seq<char>,
    pub attribute_value: AttributeValueView,
}

impl View for AttributeDefault {
    type V = AttributeDefaultView;

    open spec fn view(&self) -> AttributeDefaultView {
        match self {
            AttributeDefault::Attribute(v) => AttributeDefaultView {
                relation: false,
                attribute_name: v.attribute_name@,
                attribute_value: v.attribute_value@,
            },
            AttributeDefault::RelationAttribute(v) => AttributeDefaultView {
                relation: true,
                attribute_name: v.attribute_name@,
                attribute_value: v.attribute_value@,
            },
        }
    }
}

impl DeepView for AttributeDefault {
    type V = AttributeDefaultView;

    open spec fn deep_view(&self) -> AttributeDefaultView {
        self.view()
    }
}

/// An attribute default at `i` written with the given keyword.
pub open spec fn sp_attr_default_with(s: Seq<char>, i: int, keyword: Seq<char>, relation: bool)
    -> Option<(AttributeDefaultView, int)> {
    let i1 = sp_skip_multispaces(s, i);
    match sp_tag_end(s, i1, keyword) {
        None => None,
        Some(i2) => {
            let i3 = sp_skip_multispaces(s, i2);
            match sp_attribute_name(s, i3) {
                None => None,
                Some((name, j1)) => {
                    let i4 = sp_skip_multispaces(s, j1);
                    match sp_attribute_value(s, i4) {
                        None => None,
                        Some((value, j2)) => {
                            let i5 = sp_skip_multispaces(s, j2);
                            match sp_tag_end(s, i5, ";"@) {
                                None => None,
                                Some(i6) => Some(
                                    (AttributeDefaultView {
                                        relation,
                                        attribute_name: name,
                                        attribute_value: value,
                                    }, sp_skip_multispaces(s, i6)),
                                ),
                            }
                        },
                    }
                },
            }
        },
    }
}

/// The object-scoped default at `i`.
pub open spec fn sp_attr_definition_default(s: Seq<char>, i: int) -> Option<
    (AttributeDefaultView, int),
> {
    sp_attr_default_with(s, i, "BA_DEF_DEF_"@, false)
}

/// The relation-scoped default at `i`.
pub open spec fn sp_relation_attr_definition_default(s: Seq<char>, i: int) -> Option<
    (AttributeDefaultView, int),
> {
    sp_attr_default_with(s, i, "BA_DEF_DEF_REL_"@, true)
}

/// One attribute default at `i`: the object shape tried first, then the
/// relation shape.
pub open spec fn sp_attr_default(s: Seq<char>, i: int) -> Option<(AttributeDefaultView, int)> {
    match sp_attr_definition_default(s, i) {
        Some(r) => Some(r),
        None => sp_relation_attr_definition_default(s, i),
    }
}

/// Match the rest of a default after its keyword.
fn parse_attr_default_body(s: &str, i2: usize) -> (r: Option<(String, AttributeValue, usize)>)
    requires
        i2 <= s@.len(),
    ensures
        match r {
            Some((name, value, j)) => ({
                let i3 = sp_skip_multispaces(s@, i2 as int);
                match sp_attribute_name(s@, i3) {
                    None => false,
                    Some((n2, j1)) => {
                        let i4 = sp_skip_multispaces(s@, j1);
                        match sp_attribute_value(s@, i4) {
                            None => false,
                            Some((v2, j2)) => {
                                let i5 = sp_skip_multispaces(s@, j2);
                                match sp_tag_end(s@, i5, ";"@) {
                                    None => false,
                                    Some(i6) => name@ == n2 && value@ == v2 && j as int
                                        == sp_skip_multispaces(s@, i6) && i2 <= j <= s@.len(),
                                }
                            },
                        }
                    },
                }
            }),
            None => ({
                let i3 = sp_skip_multispaces(s@, i2 as int);
                match sp_attribute_name(s@, i3) {
                    None => true,
                    Some((n2, j1)) => {
                        let i4 = sp_skip_multispaces(s@, j1);
                        match sp_attribute_value(s@, i4) {
                            None => true,
                            Some((v2, j2)) => {
                                let i5 = sp_skip_multispaces(s@, j2);
                                sp_tag_end(s@, i5, ";"@) is None
                            },
                        }
                    },
                }
            }),
        },
{
    let i3: usize = skip_multispaces(s, i2);
    match parser_attribute_name(s, i3) {
        None => None,
        Some((name, j1)) => {
            let i4: usize = skip_multispaces(s, j1);
            match parser_attribute_value(s, i4) {
                Err(_) => None,
                Ok((value, j2)) => {
                    let i5: usize = skip_multispaces(s, j2);
                    match tag(s, i5, ";") {
                        None => None,
                        Some(i6) => {
                            let j: usize = skip_multispaces(s, i6);
                            Some((name, value, j))
                        },
                    }
                },
            }
        },
    }
}

/// Match an object-scoped default.
pub fn parser_attribute_definition_default(s: &str, i: usize) -> (r: Result<
    (AttributeDefault, usize),
    DbcParseError,
>)
    requires
        i <= s@.len(),
    ensures
        match r {
            Ok((v, j)) => sp_attr_definition_default(s@, i as int) == Some((v@, j as int)) && i
                <= j <= s@.len(),
            Err(e) => sp_attr_definition_default(s@, i as int) is None && e
                == DbcParseError::BadAttributeDefinitionDefault,
        },
{
    let i1: usize = skip_multispaces(s, i);
    match tag(s, i1, "BA_DEF_DEF_") {
        None => Err(DbcParseError::BadAttributeDefinitionDefault),
        Some(i2) => match parse_attr_default_body(s, i2) {
            None => Err(DbcParseError::BadAttributeDefinitionDefault),
            Some((name, value, j)) => Ok(
                (AttributeDefault::Attribute(
                    AttributeDefinitionDefault { attribute_name: name, attribute_value: value },
                ), j),
            ),
        },
    }
}

/// Match a relation-scoped default.
pub fn parser_relation_attribute_definition_default(s: &str, i: usize) -> (r: Result<
    (AttributeDefault, usize),
    DbcParseError,
>)
    requires
        i <= s@.len(),
    ensures
        match r {
            Ok((v, j)) => sp_relation_attr_definition_default(s@, i as int) == Some(
                (v@, j as int),
            ) && i <= j <= s@.len(),
            Err(e) => sp_relation_attr_definition_default(s@, i as int) is None && e
                == DbcParseError::BadRelationAttributeDefinitionDefault,
        },
{
    let i1: usize = skip_multispaces(s, i);
    match tag(s, i1, "BA_DEF_DEF_REL_") {
        None => Err(DbcParseError::BadRelationAttributeDefinitionDefault),
        Some(i2) => match parse_attr_default_body(s, i2) {
            None => Err(DbcParseError::BadRelationAttributeDefinitionDefault),
            Some((name, value, j)) => Ok(
                (AttributeDefault::RelationAttribute(
                    RelationAttributeDefinitionDefault {
                        attribute_name: name,
                        attribute_value: value,
                    },
                ), j),
            ),
        },
    }
}

/// Match one attribute default of either kind.
pub fn parser_attribute_default(s: &str, i: usize) -> (r: Result<
    (AttributeDefault, usize),
    DbcParseError,
>)
    requires
        i <= s@.len(),
    ensures
        match r {
            Ok((v, j)) => sp_attr_default(s@, i as int) == Some((v@, j as int)) && i <= j
                <= s@.len(),
            Err(_) => sp_attr_default(s@, i as int) is None,
        },
{
    match parser_attribute_definition_default(s, i) {
        Ok(v) => Ok(v),
        Err(_) => match parser_relation_attribute_definition_default(s, i) {
            Ok(v) => Ok(v),
            Err(e) => Err(e),
        },
    }
}

// ---------------------------------------------------------------------------
// Rendering
// ---------------------------------------------------------------------------

/// The rendered scalar value: the number text, or the quoted string.
pub open spec fn sp_render_attribute_value(v: AttributeValueView) -> Seq<char> {
    match v {
        AttributeValueView::Double { text } => text,
        AttributeValueView::String { text } => quote_seq(text),
    }
}

/// The rendered default line.
pub open spec fn sp_render_attr_default(v: AttributeDefaultView) -> Seq<char> {
    (if v.relation {
        "BA_DEF_DEF_REL_ "@
    } else {
        "BA_DEF_DEF_ "@
    }) + quote_seq(v.attribute_name) + seq![' '] + sp_render_attribute_value(v.attribute_value)
        + seq![';']
}

impl AttributeValue {
    /// Render the scalar value.
    pub fn to_text(&self) -> (r: String)
        ensures
            r@ == sp_render_attribute_value(self@),
    {
        match self {
            AttributeValue::Double(v) => v.to_text(),
            AttributeValue::String(v) => {
                let mut out: String = String::from_str("\"");
                out.append(v.0.as_str());
                out.append("\"");
                proof {
                    reveal_strlit("\"");
                    assert(out@ =~= sp_render_attribute_value(self@));
                }
                out
            },
        }
    }
}

impl AttributeDefault {
    /// Render the default line.
    pub fn to_text(&self) -> (r: String)
        ensures
            r@ == sp_render_attr_default(self@),
    {
        let mut out: String = String::new();
        let (name, value): (&String, &AttributeValue) = match self {
            AttributeDefault::Attribute(v) => {
                out.append("BA_DEF_DEF_ ");
                (&v.attribute_name, &v.attribute_value)
            },
            AttributeDefault::RelationAttribute(v) => {
                out.append("BA_DEF_DEF_REL_ ");
                (&v.attribute_name, &v.attribute_value)
            },
        };
        out.append("\"");
        out.append(name.as_str());
        out.append("\" ");
        let vt: String = value.to_text();
        out.append(vt.as_str());
        out.append(";");
        proof {
            reveal_strlit("BA_DEF_DEF_ ");
            reveal_strlit("BA_DEF_DEF_REL_ ");
            reveal_strlit("\"");
            reveal_strlit("\" ");
            reveal_strlit(";");
            assert(out@ =~= sp_render_attr_default(self@));
        }
        out
    }
}

} // verus!
