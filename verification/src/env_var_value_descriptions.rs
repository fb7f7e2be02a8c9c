//! Value descriptions attached to an environment variable.
//!
//! Format: `VAL_ <env var name> <value descriptions>;`.

use vstd::prelude::*;

use crate::error::DbcParseError;
use crate::lexer::{dbc_ident, skip_line_endings, skip_multispaces, skip_spaces, sp_dbc_ident,
    sp_skip_line_endings, sp_skip_multispaces, sp_skip_spaces, sp_tag_end, tag};
use crate::value_descriptions::{sp_render_value_descs, sp_value_desc_items,
    parser_value_descriptions, ValueDescriptionItemView, ValueDescriptions};

verus! {

/// Value descriptions for one environment variable.
#[derive(Clone, Debug, PartialEq, Eq)]
pub struct EnvironmentVariableValueDescriptions {
    pub env_var_name: String,
    pub value_descriptions: ValueDescriptions,
}

/// The mathematical value of one environment variable attachment.
pub ghost struct EnvironmentVariableValueDescriptionsView {
    pub env_var_name: Seq<char>,
    pub value_descriptions: Seq<ValueDescriptionItemView>,
}

impl View for EnvironmentVariableValueDescriptions {
    type V = EnvironmentVariableValueDescriptionsView;

    open spec fn view(&self) -> EnvironmentVariableValueDescriptionsView {
        EnvironmentVariableValueDescriptionsView {
            env_var_name: self.env_var_name@,
            value_descriptions: self.value_descriptions@,
        }
    }
}

impl DeepView for EnvironmentVariableValueDescriptions {
    type V = EnvironmentVariableValueDescriptionsView;

    open spec fn deep_view(&self) -> EnvironmentVariableValueDescriptionsView {
        self.view()
    }
}

/// The environment variable attachment at `i`.
pub open spec fn sp_env_var_value_descriptions(s: Seq<char>, i: int) -> Option<
    (EnvironmentVariableValueDescriptionsView, int),
> {
    let i1 = sp_skip_multispaces(s, i);
    match sp_tag_end(s, i1, "VAL_"@) {
        None => None,
        Some(i2) => {
            let i3 = sp_skip_multispaces(s, i2);
            let i4 = sp_skip_spaces(s, i3);
            match sp_dbc_ident(s, i4) {
                None => None,
                Some(jn) => {
                    let name = s.subrange(i4, jn);
                    let i5 = sp_skip_spaces(s, jn);
                    let (items, j2) = sp_value_desc_items(s, i5);
                    let i6 = sp_skip_spaces(s, j2);
                    match sp_tag_end(s, i6, ";"@) {
                        None => None,
                        Some(i7) => {
                            let i8 = sp_skip_spaces(s, i7);
                            Some(
                                (EnvironmentVariableValueDescriptionsView {
                                    env_var_name: name,
                                    value_descriptions: items,
                                }, sp_skip_line_endings(s, i8)),
                            )
                        },
                    }
                },
            }
        },
    }
}

/// Match one environment variable attachment.
pub fn parser_env_var_value_descriptions(s: &str, i: usize) -> (r: Result<
    (EnvironmentVariableValueDescriptions, usize),
    DbcParseError,
>)
    requires
        i <= s@.len(),
    ensures
        match r {
            Ok((v, j)) => sp_env_var_value_descriptions(s@, i as int) == Some((v@, j as int))
                && i <= j <= s@.len(),
            Err(e) => sp_env_var_value_descriptions(s@, i as int) is None && e
                == DbcParseError::BadEnvironmentVariableValueDescriptions,
        },
{
    let i1: usize = skip_multispaces(s, i);
    let i2: usize = match tag(s, i1, "VAL_") {
        None => {
            return Err(DbcParseError::BadEnvironmentVariableValueDescriptions);
        },
        Some(v) => v,
    };
    let i3: usize = skip_multispaces(s, i2);
    let i4: usize = skip_spaces(s, i3);
    let (name, jn): (String, usize) = match dbc_ident(s, i4) {
        Err(_) => {
            return Err(DbcParseError::BadEnvironmentVariableValueDescriptions);
        },
        Ok(v) => v,
    };
    let i5: usize = skip_spaces(s, jn);
    let (descs, j2) = parser_value_descriptions(s, i5);
    let i6: usize = skip_spaces(s, j2);
    let i7: usize = match tag(s, i6, ";") {
        None => {
            return Err(DbcParseError::BadEnvironmentVariableValueDescriptions);
        },
        Some(v) => v,
    };
    let i8: usize = skip_spaces(s, i7);
    let end: usize = skip_line_endings(s, i8);
    Ok((EnvironmentVariableValueDescriptions { env_var_name: name, value_descriptions: descs },
    end))
}

/// The rendered environment variable attachment.
pub open spec fn sp_render_env_var_value_descriptions(
    v: EnvironmentVariableValueDescriptionsView,
) -> Seq<char> {
    "VAL_ "@ + v.env_var_name + seq![' '] + sp_render_value_descs(v.value_descriptions) + seq![
        ';',
    ]
}

impl EnvironmentVariableValueDescriptions {
    /// Render the environment variable attachment line.
    pub fn to_text(&self) -> (r: String)
        ensures
            r@ == sp_render_env_var_value_descriptions(self@),
    {
        let mut out: String = String::from_str("VAL_ ");
        out.append(self.env_var_name.as_str());
        out.append(" ");
        let t: String = self.value_descriptions.to_text();
        out.append(t.as_str());
        out.append(";");
        proof {
            reveal_strlit(" ");
            reveal_strlit(";");
            assert(out@ =~= sp_render_env_var_value_descriptions(self@));
        }
        out
    }
}

} // verus!
