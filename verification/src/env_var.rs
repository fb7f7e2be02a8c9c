//! Environment variable declarations.
//!
//! Format: `EV_ <name>: <kind> [<min>|<max>] "<unit>" <initial> <id>
//! DUMMY_NODE_VECTOR<access> <nodes>;`.  The kind digit `0` declares an
//! integer and any other digit a float, but when bit `0x8000` of the
//! hexadecimal access mask is set the kind is a string whatever the digit
//! says.  Rendering reproduces exactly this mapping and sets the bit again
//! for a string kind.

use vstd::prelude::*;

use crate::error::DbcParseError;
use crate::lexer::{dbc_ident, parse_hex_u16, parse_u32, skip_line_endings, skip_multispaces,
    skip_spaces, sp_dbc_ident, sp_hex_u16, sp_quoted, sp_skip_line_endings, sp_skip_multispaces,
    sp_skip_spaces, sp_tag_end, sp_u32, tag};
use crate::char_string::{quote_seq, parser_char_string};
use crate::number::{Number, parser_number};
use crate::signal::{parse_receivers, sp_join_comma, sp_receivers};
use crate::text::{dec_digits, hex_digits, append_u32, append_hex_u16};

verus! {

/// The kind of an environment variable.
#[derive(Clone, Copy, Debug, PartialEq, Eq, Structural)]
pub enum EnvVarType {
    Integer,
    Float,
    String,
    Data,
}

impl EnvVarType {
    /// The kind encoded by a single character, if any.
    pub fn from_char(c: char) -> (r: Option<EnvVarType>)
        ensures
            r == (match c {
                '0' => Some(EnvVarType::Integer),
                '1' => Some(EnvVarType::Float),
                's' => Some(EnvVarType::String),
                'd' => Some(EnvVarType::Data),
                _ => None::<EnvVarType>,
            }),
    {
        match c {
            '0' => Some(EnvVarType::Integer),
            '1' => Some(EnvVarType::Float),
            's' => Some(EnvVarType::String),
            'd' => Some(EnvVarType::Data),
            _ => None,
        }
    }

    /// The single character encoding this kind.
    pub fn as_char(&self) -> (r: char)
        ensures
            r == (match self {
                EnvVarType::Integer => '0',
                EnvVarType::Float => '1',
                EnvVarType::String => 's',
                EnvVarType::Data => 'd',
            }),
    {
        match self {
            EnvVarType::Integer => '0',
            EnvVarType::Float => '1',
            EnvVarType::String => 's',
            EnvVarType::Data => 'd',
        }
    }
}

/// The access restriction encoded in the low bits of the access mask.
#[derive(Clone, Copy, Debug, PartialEq, Eq, Structural)]
pub enum EnvVarAccessType {
    Unrestricted,
    Read,
    Write,
    ReadWrite,
}

impl EnvVarAccessType {
    /// The numeric value of this access restriction.
    pub fn as_bits(&self) -> (r: u16)
        ensures
            r == (match self {
                EnvVarAccessType::Unrestricted => 0u16,
                EnvVarAccessType::Read => 1u16,
                EnvVarAccessType::Write => 2u16,
                EnvVarAccessType::ReadWrite => 3u16,
            }),
    {
        match self {
            EnvVarAccessType::Unrestricted => 0,
            EnvVarAccessType::Read => 1,
            EnvVarAccessType::Write => 2,
            EnvVarAccessType::ReadWrite => 3,
        }
    }

    /// The access restriction of a numeric value, if it names one.
    pub fn from_bits(bits: u16) -> (r: Option<EnvVarAccessType>)
        ensures
            r == (match bits {
                0u16 => Some(EnvVarAccessType::Unrestricted),
                1u16 => Some(EnvVarAccessType::Read),
                2u16 => Some(EnvVarAccessType::Write),
                3u16 => Some(EnvVarAccessType::ReadWrite),
                _ => None::<EnvVarAccessType>,
            }),
    {
        match bits {
            0 => Some(EnvVarAccessType::Unrestricted),
            1 => Some(EnvVarAccessType::Read),
            2 => Some(EnvVarAccessType::Write),
            3 => Some(EnvVarAccessType::ReadWrite),
            _ => None,
        }
    }
}

/// One environment variable declaration.
#[derive(Clone, Debug, PartialEq, Eq)]
pub struct EnvironmentVariable {
    pub env_var_name: String,
    pub env_var_type: EnvVarType,
    pub minimum: Number,
    pub maximum: Number,
    pub unit: String,
    pub initial_value: Number,
    pub ev_id: u32,
    /// The raw access mask: 0 unrestricted, 1 read, 2 write, 3 read-write,
    /// OR `0x8000` forcing the string kind.
    pub access_type: u16,
    pub access_nodes: Vec<String>,
}

/// The mathematical value of one environment variable.
pub ghost struct EnvironmentVariableView {
    pub env_var_name: Seq<char>,
    pub env_var_type: EnvVarType,
    pub minimum: Seq<char>,
    pub maximum: Seq<char>,
    pub unit: Seq<char>,
    pub initial_value: Seq<char>,
    pub ev_id: u32,
    pub access_type: u16,
    pub access_nodes: Seq<Seq<char>>,
}

impl View for EnvironmentVariable {
    type V = EnvironmentVariableView;

    open spec fn view(&self) -> EnvironmentVariableView {
        EnvironmentVariableView {
            env_var_name: self.env_var_name@,
            env_var_type: self.env_var_type,
            minimum: self.minimum@,
            maximum: self.maximum@,
            unit: self.unit@,
            initial_value: self.initial_value@,
            ev_id: self.ev_id,
            access_type: self.access_type,
            access_nodes: self.access_nodes.deep_view(),
        }
    }
}

impl DeepView for EnvironmentVariable {
    type V = EnvironmentVariableView;

    open spec fn deep_view(&self) -> EnvironmentVariableView {
        self.view()
    }
}

// ---------------------------------------------------------------------------
// The kind/access encoding
// ---------------------------------------------------------------------------

/// The kind that a declaration with this digit and access mask denotes.
pub open spec fn sp_decode_env_var_type(kind_digit: u32, access: u16) -> EnvVarType {
    if access & 0x8000 != 0 {
        EnvVarType::String
    } else if kind_digit == 0 {
        EnvVarType::Integer
    } else {
        EnvVarType::Float
    }
}

/// The digit that rendering writes for a kind.
pub open spec fn sp_encode_kind_digit(t: EnvVarType) -> u32 {
    match t {
        EnvVarType::Float => 1,
        _ => 0,
    }
}

/// The access mask that rendering writes for a kind and stored mask: the
/// string kind sets bit `0x8000` again.
pub open spec fn sp_encode_access(t: EnvVarType, access: u16) -> u16 {
    if t is String {
        access | 0x8000
    } else {
        access
    }
}

/// Decode the kind of a declaration.
pub fn decode_env_var_type(kind_digit: u32, access: u16) -> (r: EnvVarType)
    ensures
        r == sp_decode_env_var_type(kind_digit, access),
{
    if access & 0x8000 != 0 {
        EnvVarType::String
    } else if kind_digit == 0 {
        EnvVarType::Integer
    } else {
        EnvVarType::Float
    }
}

/// Encode the access mask of a declaration.
pub fn encode_access(t: EnvVarType, access: u16) -> (r: u16)
    ensures
        r == sp_encode_access(t, access),
{
    match t {
        EnvVarType::String => access | 0x8000,
        _ => access,
    }
}

/// A stored kind/access pair as parsing produces it: the kind is never the
/// data kind, and it is the string kind exactly when bit `0x8000` is set.
pub open spec fn sp_access_pair_wf(t: EnvVarType, access: u16) -> bool {
    &&& !(t is Data)
    &&& (t is String <==> access & 0x8000 != 0)
}

/// Encoding a well-formed kind/access pair and decoding it again
/// reproduces the pair exactly.
pub proof fn lemma_env_var_access_round_trip(t: EnvVarType, access: u16)
    requires
        sp_access_pair_wf(t, access),
    ensures
        sp_decode_env_var_type(sp_encode_kind_digit(t), sp_encode_access(t, access)) == t,
        sp_encode_access(t, access) == access,
{
    if t is String {
        assert(access | 0x8000 == access) by (bit_vector)
            requires
                access & 0x8000 != 0,
        ;
    }
}

/// Setting bit `0x8000` of the access mask always decodes to the string
/// kind, whatever the kind digit says.
pub proof fn lemma_access_string_override(kind_digit: u32, access: u16)
    ensures
        sp_decode_env_var_type(kind_digit, access | 0x8000) is String,
{
    assert((access | 0x8000) & 0x8000 != 0) by (bit_vector);
}

/// Every kind/access pair that parsing stores is well formed.
pub proof fn lemma_parsed_pair_wf(kind_digit: u32, access: u16)
    ensures
        sp_access_pair_wf(sp_decode_env_var_type(kind_digit, access), access),
{
}

// ---------------------------------------------------------------------------
// Parsing
// ---------------------------------------------------------------------------

/// The environment variable declaration at `i`.
pub open spec fn sp_env_var(s: Seq<char>, i: int) -> Option<(EnvironmentVariableView, int)> {
    let i1 = sp_skip_multispaces(s, i);
    match sp_tag_end(s, i1, "EV_"@) {
        None => None,
        Some(i2) => {
            let i3 = sp_skip_multispaces(s, i2);
            let i4 = sp_skip_spaces(s, i3);
            match sp_dbc_ident(s, i4) {
                None => None,
                Some(jn) => {
                    let name = s.subrange(i4, jn);
                    let i5 = sp_skip_spaces(s, jn);
                    match sp_tag_end(s, i5, ":"@) {
                        None => None,
                        Some(i6) => {
                            let i7 = sp_skip_spaces(s, i6);
                            match sp_u32(s, i7) {
                                None => None,
                                Some((kind_digit, j1)) => {
                                    let i8 = sp_skip_spaces(s, j1);
                                    match sp_tag_end(s, i8, "["@) {
                                        None => None,
                                        Some(i9) => {
                                            let i10 = sp_skip_spaces(s, i9);
                                            match crate::lexer::sp_number(s, i10) {
                                                None => None,
                                                Some(j2) => {
                                                    let minimum = s.subrange(i10, j2);
                                                    sp_env_var_tail(
                                                        s,
                                                        name,
                                                        kind_digit,
                                                        minimum,
                                                        j2,
                                                    )
                                                },
                                            }
                                        },
                                    }
                                },
                            }
                        },
                    }
                },
            }
        },
    }
}

/// The rest of the declaration, from the separator after the minimum on.
pub open spec fn sp_env_var_tail(
    s: Seq<char>,
    name: Seq<char>,
    kind_digit: u32,
    minimum: Seq<char>,
    i: int,
) -> Option<(EnvironmentVariableView, int)> {
    let i1 = sp_skip_spaces(s, i);
    match sp_tag_end(s, i1, "|"@) {
        None => None,
        Some(i2) => {
            let i3 = sp_skip_spaces(s, i2);
            match crate::lexer::sp_number(s, i3) {
                None => None,
                Some(j1) => {
                    let maximum = s.subrange(i3, j1);
                    let i4 = sp_skip_spaces(s, j1);
                    match sp_tag_end(s, i4, "]"@) {
                        None => None,
                        Some(i5) => {
                            let i6 = sp_skip_spaces(s, i5);
                            match sp_quoted(s, i6) {
                                None => None,
                                Some((unit, j2)) => {
                                    let i7 = sp_skip_spaces(s, j2);
                                    match crate::lexer::sp_number(s, i7) {
                                        None => None,
                                        Some(j3) => {
                                            let initial = s.subrange(i7, j3);
                                            let i8 = sp_skip_spaces(s, j3);
                                            match sp_u32(s, i8) {
                                                None => None,
                                                Some((ev_id, j4)) => {
                                                    let i9 = sp_skip_spaces(s, j4);
                                                    match sp_tag_end(
                                                        s,
                                                        i9,
                                                        "DUMMY_NODE_VECTOR"@,
                                                    ) {
                                                        None => None,
                                                        Some(i10) => {
                                                            match sp_hex_u16(s, i10) {
                                                                None => None,
                                                                Some((access, j5)) => {
                                                                    let i11 = sp_skip_spaces(
                                                                        s,
                                                                        j5,
                                                                    );
                                                                    let (nodes, i12) =
                                                                        sp_receivers(s, i11);
                                                                    let i13 = sp_skip_spaces(
                                                                        s,
                                                                        i12,
                                                                    );
                                                                    match sp_tag_end(
                                                                        s,
                                                                        i13,
                                                                        ";"@,
                                                                    ) {
                                                                        None => None,
                                                                        Some(i14) => {
                                                                            let i15 =
                                                                                sp_skip_spaces(
                                                                                s,
                                                                                i14,
                                                                            );
                                                                            Some(
                                                                                (EnvironmentVariableView {
                                                                                    env_var_name:
                                                                                        name,
                                                                                    env_var_type:
                                                                                        sp_decode_env_var_type(
                                                                                        kind_digit,
                                                                                        access,
                                                                                    ),
                                                                                    minimum,
                                                                                    maximum,
                                                                                    unit,
                                                                                    initial_value:
                                                                                        initial,
                                                                                    ev_id,
                                                                                    access_type:
                                                                                        access,
                                                                                    access_nodes:
                                                                                        nodes,
                                                                                }, sp_skip_line_endings(
                                                                                    s,
                                                                                    i15,
                                                                                )),
                                                                            )
                                                                        },
                                                                    }
                                                                },
                                                            }
                                                        },
                                                    }
                                                },
                                            }
                                        },
                                    }
                                },
                            }
                        },
                    }
                },
            }
        },
    }
}

/// Match one environment variable declaration.
pub fn parser_env_var(s: &str, i: usize) -> (r: Result<(EnvironmentVariable, usize), DbcParseError>)
    requires
        i <= s@.len(),
    ensures
        match r {
            Ok((v, j)) => sp_env_var(s@, i as int) == Some((v@, j as int)) && i <= j <= s@.len(),
            Err(e) => sp_env_var(s@, i as int) is None && e
                == DbcParseError::BadEnvironmentVariable,
        },
{
    let i1: usize = skip_multispaces(s, i);
    let i2: usize = match tag(s, i1, "EV_") {
        None => {
            return Err(DbcParseError::BadEnvironmentVariable);
        },
        Some(v) => v,
    };
    let i3: usize = skip_multispaces(s, i2);
    let i4: usize = skip_spaces(s, i3);
    let (name, jn): (String, usize) = match dbc_ident(s, i4) {
        Err(_) => {
            return Err(DbcParseError::BadEnvironmentVariable);
        },
        Ok(v) => v,
    };
    let i5: usize = skip_spaces(s, jn);
    let i6: usize = match tag(s, i5, ":") {
        None => {
            return Err(DbcParseError::BadEnvironmentVariable);
        },
        Some(v) => v,
    };
    let i7: usize = skip_spaces(s, i6);
    let (kind_digit, j1): (u32, usize) = match parse_u32(s, i7) {
        None => {
            return Err(DbcParseError::BadEnvironmentVariable);
        },
        Some(v) => v,
    };
    let i8: usize = skip_spaces(s, j1);
    let i9: usize = match tag(s, i8, "[") {
        None => {
            return Err(DbcParseError::BadEnvironmentVariable);
        },
        Some(v) => v,
    };
    let i10: usize = skip_spaces(s, i9);
    let (minimum, j2): (Number, usize) = match parser_number(s, i10) {
        Err(_) => {
            return Err(DbcParseError::BadEnvironmentVariable);
        },
        Ok(v) => v,
    };
    let i11: usize = skip_spaces(s, j2);
    let i12: usize = match tag(s, i11, "|") {
        None => {
            return Err(DbcParseError::BadEnvironmentVariable);
        },
        Some(v) => v,
    };
    let i13: usize = skip_spaces(s, i12);
    let (maximum, j3): (Number, usize) = match parser_number(s, i13) {
        Err(_) => {
            return Err(DbcParseError::BadEnvironmentVariable);
        },
        Ok(v) => v,
    };
    let i14: usize = skip_spaces(s, j3);
    let i15: usize = match tag(s, i14, "]") {
        None => {
            return Err(DbcParseError::BadEnvironmentVariable);
        },
        Some(v) => v,
    };
    let i16: usize = skip_spaces(s, i15);
    let (unit, j4): (crate::char_string::CharString, usize) = match parser_char_string(s, i16) {
        Err(_) => {
            return Err(DbcParseError::BadEnvironmentVariable);
        },
        Ok(v) => v,
    };
    let i17: usize = skip_spaces(s, j4);
    let (initial_value, j5): (Number, usize) = match parser_number(s, i17) {
        Err(_) => {
            return Err(DbcParseError::BadEnvironmentVariable);
        },
        Ok(v) => v,
    };
    let i18: usize = skip_spaces(s, j5);
    let (ev_id, j6): (u32, usize) = match parse_u32(s, i18) {
        None => {
            return Err(DbcParseError::BadEnvironmentVariable);
        },
        Some(v) => v,
    };
    let i19: usize = skip_spaces(s, j6);
    let i20: usize = match tag(s, i19, "DUMMY_NODE_VECTOR") {
        None => {
            return Err(DbcParseError::BadEnvironmentVariable);
        },
        Some(v) => v,
    };
    let (access, j7): (u16, usize) = match parse_hex_u16(s, i20) {
        None => {
            return Err(DbcParseError::BadEnvironmentVariable);
        },
        Some(v) => v,
    };
    let i21: usize = skip_spaces(s, j7);
    let (access_nodes, j8): (Vec<String>, usize) = parse_receivers(s, i21);
    let i22: usize = skip_spaces(s, j8);
    let i23: usize = match tag(s, i22, ";") {
        None => {
            return Err(DbcParseError::BadEnvironmentVariable);
        },
        Some(v) => v,
    };
    let i24: usize = skip_spaces(s, i23);
    let end: usize = skip_line_endings(s, i24);
    let env_var_type: EnvVarType = decode_env_var_type(kind_digit, access);
    Ok(
        (EnvironmentVariable {
            env_var_name: name,
            env_var_type,
            minimum,
            maximum,
            unit: unit.0,
            initial_value,
            ev_id,
            access_type: access,
            access_nodes,
        }, end),
    )
}

// ---------------------------------------------------------------------------
// Rendering
// ---------------------------------------------------------------------------

/// The rendered declaration line.
pub open spec fn sp_render_env_var(v: EnvironmentVariableView) -> Seq<char> {
    "EV_ "@ + v.env_var_name + ": "@ + dec_digits(sp_encode_kind_digit(v.env_var_type) as nat)
        + " ["@ + v.minimum + seq!['|'] + v.maximum + "] "@ + quote_seq(v.unit) + seq![' ']
        + v.initial_value + seq![' '] + dec_digits(v.ev_id as nat) + " DUMMY_NODE_VECTOR"@
        + hex_digits(sp_encode_access(v.env_var_type, v.access_type) as nat) + seq![' '] + (
    if v.access_nodes.len() == 0 {
        "Vector__XXX"@
    } else {
        sp_join_comma(v.access_nodes)
    }) + seq![';']
}


impl EnvironmentVariable {
    /// Render the declaration line.
    pub fn to_text(&self) -> (r: String)
        ensures
            r@ == sp_render_env_var(self@),
    {
        let mut out: String = String::from_str("EV_ ");
        out.append(self.env_var_name.as_str());
        out.append(": ");
        match self.env_var_type {
            EnvVarType::Float => out.append("1"),
            _ => out.append("0"),
        }
        out.append(" [");
        out.append(self.minimum.0.as_str());
        out.append("|");
        out.append(self.maximum.0.as_str());
        out.append("] \"");
        out.append(self.unit.as_str());
        out.append("\" ");
        out.append(self.initial_value.0.as_str());
        out.append(" ");
        append_u32(&mut out, self.ev_id);
        out.append(" DUMMY_NODE_VECTOR");
        let access: u16 = encode_access(self.env_var_type, self.access_type);
        append_hex_u16(&mut out, access);
        out.append(" ");
        proof {
            reveal_strlit("1");
            reveal_strlit("0");
            reveal_strlit("|");
            reveal_strlit("] \"");
            reveal_strlit("]");
            reveal_strlit("\" ");
            reveal_strlit(" ");
            assert(dec_digits(sp_encode_kind_digit(self@.env_var_type) as nat) =~= (
            if self@.env_var_type is Float {
                "1"@
            } else {
                "0"@
            }));
        }
        if self.access_nodes.len() == 0 {
            out.append("Vector__XXX");
        } else {
            crate::signal::append_joined(&mut out, &self.access_nodes);
        }
        out.append(";");
        proof {
            reveal_strlit("1");
            reveal_strlit("0");
            reveal_strlit("|");
            reveal_strlit("] \"");
            reveal_strlit("] ");
            reveal_strlit("\" ");
            reveal_strlit("\"");
            reveal_strlit(" ");
            reveal_strlit(";");
            assert(out@ =~= sp_render_env_var(self@));
        }
        out
    }
}

} // verus!
