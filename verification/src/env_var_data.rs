//! Environment variable auxiliary data-size declarations.
//!
//! Format: `ENVVAR_DATA_ <name>: <size>;`.

use vstd::prelude::*;

use crate::error::DbcParseError;
use crate::lexer::{dbc_ident, parse_u32, skip_line_endings, skip_multispaces, skip_spaces,
    sp_dbc_ident, sp_skip_line_endings, sp_skip_multispaces, sp_skip_spaces, sp_tag_end, sp_u32,
    tag};
use crate::text::{dec_digits, append_u32};

verus! {

/// One data-size declaration.
#[derive(Clone, Debug, PartialEq, Eq)]
pub struct EnvironmentVariableData {
    pub env_var_name: String,
    pub data_size: u32,
}

/// The mathematical value of one data-size declaration.
pub ghost struct EnvironmentVariableDataView {
    pub env_var_name: Seq<char>,
    pub data_size: u32,
}

impl View for EnvironmentVariableData {
    type V = EnvironmentVariableDataView;

    open spec fn view(&self) -> EnvironmentVariableDataView {
        EnvironmentVariableDataView { env_var_name: self.env_var_name@, data_size: self.data_size }
    }
}

impl DeepView for EnvironmentVariableData {
    type V = EnvironmentVariableDataView;

    open spec fn deep_view(&self) -> EnvironmentVariableDataView {
        self.view()
    }
}

/// The data-size declaration at `i`.
pub open spec fn sp_env_var_data(s: Seq<char>, i: int) -> Option<
    (EnvironmentVariableDataView, int),
> {
    let i1 = sp_skip_multispaces(s, i);
    match sp_tag_end(s, i1, "ENVVAR_DATA_"@) {
        None => None,
        Some(i2) => {
            let i3 = sp_skip_multispaces(s, i2);
            let i4 = sp_skip_spaces(s, i3);
            match sp_dbc_ident(s, i4) {
                None => None,
                Some(jn) => {
                    let name = s.subrange(i4, jn);
                    let i5 = sp_skip_spaces(s, jn);
                    match sp_tag_end(s, i5, ":"@) {
                        None => None,
                        Some(i6) => {
                            let i7 = sp_skip_spaces(s, i6);
                            match sp_u32(s, i7) {
                                None => None,
                                Some((data_size, j1)) => {
                                    let i8 = sp_skip_spaces(s, j1);
                                    match sp_tag_end(s, i8, ";"@) {
                                        None => None,
                                        Some(i9) => {
                                            let i10 = sp_skip_spaces(s, i9);
                                            Some(
                                                (EnvironmentVariableDataView {
                                                    env_var_name: name,
                                                    data_size,
                                                }, sp_skip_line_endings(s, i10)),
                                            )
                                        },
                                    }
                                },
                            }
                        },
                    }
                },
            }
        },
    }
}

/// Match one data-size declaration.
pub fn parser_env_var_data(s: &str, i: usize) -> (r: Result<
    (EnvironmentVariableData, usize),
    DbcParseError,
>)
    requires
        i <= s@.len(),
    ensures
        match r {
            Ok((v, j)) => sp_env_var_data(s@, i as int) == Some((v@, j as int)) && i <= j
                <= s@.len(),
            Err(e) => sp_env_var_data(s@, i as int) is None && e
                == DbcParseError::BadEnvironmentVariableData,
        },
{
    let i1: usize = skip_multispaces(s, i);
    let i2: usize = match tag(s, i1, "ENVVAR_DATA_") {
        None => {
            return Err(DbcParseError::BadEnvironmentVariableData);
        },
        Some(v) => v,
    };
    let i3: usize = skip_multispaces(s, i2);
    let i4: usize = skip_spaces(s, i3);
    let (name, jn): (String, usize) = match dbc_ident(s, i4) {
        Err(_) => {
            return Err(DbcParseError::BadEnvironmentVariableData);
        },
        Ok(v) => v,
    };
    let i5: usize = skip_spaces(s, jn);
    let i6: usize = match tag(s, i5, ":") {
        None => {
            return Err(DbcParseError::BadEnvironmentVariableData);
        },
        Some(v) => v,
    };
    let i7: usize = skip_spaces(s, i6);
    let (data_size, j1): (u32, usize) = match parse_u32(s, i7) {
        None => {
            return Err(DbcParseError::BadEnvironmentVariableData);
        },
        Some(v) => v,
    };
    let i8: usize = skip_spaces(s, j1);
    let i9: usize = match tag(s, i8, ";") {
        None => {
            return Err(DbcParseError::BadEnvironmentVariableData);
        },
        Some(v) => v,
    };
    let i10: usize = skip_spaces(s, i9);
    let end: usize = skip_line_endings(s, i10);
    Ok((EnvironmentVariableData { env_var_name: name, data_size }, end))
}

/// The rendered data-size declaration.
pub open spec fn sp_render_env_var_data(v: EnvironmentVariableDataView) -> Seq<char> {
    "ENVVAR_DATA_ "@ + v.env_var_name + ": "@ + dec_digits(v.data_size as nat) + seq![';']
}

/// Parsing a rendered data-size declaration yields the declaration it was
/// rendered from, whatever text follows the semicolon, as long as that
/// text starts with no whitespace.  One whole section of the
/// parse-render-parse round trip.
pub proof fn lemma_env_var_data_round_trip(v: EnvironmentVariableDataView, rest: Seq<char>)
    requires
        crate::lexer::wf_ident(v.env_var_name),
        rest.len() == 0 || !crate::lexer::is_multispace(rest[0]),
    ensures
        sp_env_var_data(sp_render_env_var_data(v) + rest, 0) == Some(
            (v, sp_render_env_var_data(v).len() as int),
        ),
{
    let name = v.env_var_name;
    let d = dec_digits(v.data_size as nat);
    let r = sp_render_env_var_data(v);
    let s = r + rest;
    reveal_strlit("ENVVAR_DATA_ ");
    reveal_strlit("ENVVAR_DATA_");
    reveal_strlit(": ");
    reveal_strlit(":");
    reveal_strlit(";");
    crate::text::lemma_dec_digits_are_digits(v.data_size as nat);
    assert forall|k: int| 0 <= k < r.len() implies s[k] == #[trigger] r[k] by {}
    assert(r == "ENVVAR_DATA_ "@ + name + ": "@ + d + seq![';']);
    assert forall|k: int| 0 <= k < name.len() implies #[trigger] name[k] == r[13 + k] by {}
    assert forall|k: int| 0 <= k < d.len() implies #[trigger] d[k] == r[
        13 + name.len() + 2 + k
    ] by {}
    assert(s[0] == 'E');
    assert(crate::lexer::sp_skip_multispaces(s, 0) == 0);
    assert(s.subrange(0, 12) =~= "ENVVAR_DATA_"@) by {
        assert forall|k: int| 0 <= k < 12 implies s.subrange(0, 12)[k] == "ENVVAR_DATA_"@[k] by {
            assert(s.subrange(0, 12)[k] == s[k]);
            assert(r[k] == "ENVVAR_DATA_ "@[k]);
        }
    }
    assert(crate::lexer::sp_tag_end(s, 0, "ENVVAR_DATA_"@) == Some(12int));
    assert(s[12] == ' ');
    assert(s[13] == name[0]);
    assert(crate::lexer::is_ident_start(name[0]));
    assert(!crate::lexer::is_multispace(s[13]) && !crate::lexer::is_space(s[13]));
    assert(crate::lexer::sp_skip_multispaces(s, 13) == 13);
    assert(crate::lexer::sp_skip_multispaces(s, 12) == 13);
    assert(crate::lexer::sp_skip_spaces(s, 13) == 13);
    let jn = 13 + name.len() as int;
    assert(s.subrange(13, jn) =~= name) by {
        assert forall|k: int| 0 <= k < name.len() implies s.subrange(13, jn)[k] == name[k] by {
            assert(s.subrange(13, jn)[k] == s[13 + k]);
        }
    }
    assert(r[13 + name.len() as int] == ':' && r[13 + name.len() + 1int] == ' ');
    assert(s[jn] == ':');
    crate::lexer::lemma_ident_round_trip(name, s, 13);
    assert(crate::lexer::sp_skip_spaces(s, jn) == jn);
    assert(s.subrange(jn, jn + 1) =~= ":"@) by {
        assert(s.subrange(jn, jn + 1)[0] == s[jn]);
    }
    assert(crate::lexer::sp_tag_end(s, jn, ":"@) == Some(jn + 1));
    assert(s[jn + 1] == ' ');
    let p = jn + 2;
    assert(s[p] == d[0]);
    assert(crate::lexer::is_digit(s[p]) && !crate::lexer::is_space(s[p]));
    assert(crate::lexer::sp_skip_spaces(s, p) == p);
    assert(crate::lexer::sp_skip_spaces(s, jn + 1) == p);
    let e = p + d.len() as int;
    assert(s.subrange(p, e) =~= d) by {
        assert forall|k: int| 0 <= k < d.len() implies s.subrange(p, e)[k] == d[k] by {
            assert(s.subrange(p, e)[k] == s[p + k]);
            assert(s[13 + name.len() + 2int + k] == r[13 + name.len() + 2int + k]);
        }
    }
    assert(r[13 + name.len() + 2 + d.len() as int] == ';');
    assert(s[e] == ';');
    crate::text::lemma_u32_round_trip(v.data_size, s, p);
    assert(crate::lexer::sp_skip_spaces(s, e) == e);
    assert(s.subrange(e, e + 1) =~= ";"@) by {
        assert(s.subrange(e, e + 1)[0] == s[e]);
    }
    assert(crate::lexer::sp_tag_end(s, e, ";"@) == Some(e + 1));
    assert(e + 1 == r.len());
    assert(e + 1 == s.len() || !crate::lexer::is_multispace(s[e + 1]));
    assert(crate::lexer::sp_skip_spaces(s, e + 1) == e + 1);
    assert(crate::lexer::sp_skip_line_endings(s, e + 1) == e + 1);
}

impl EnvironmentVariableData {
    /// Render the data-size declaration line.
    pub fn to_text(&self) -> (r: String)
        ensures
            r@ == sp_render_env_var_data(self@),
    {
        let mut out: String = String::from_str("ENVVAR_DATA_ ");
        out.append(self.env_var_name.as_str());
        out.append(": ");
        append_u32(&mut out, self.data_size);
        out.append(";");
        proof {
            reveal_strlit(";");
            assert(out@ =~= sp_render_env_var_data(self@));
        }
        out
    }
}

} // verus!
