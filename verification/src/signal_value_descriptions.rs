//! Value descriptions attached to a signal.
//!
//! Format: `VAL_ <message id> <signal name> <value descriptions>;`.

use vstd::prelude::*;

use crate::error::DbcParseError;
use crate::lexer::{dbc_ident, parse_u32, skip_line_endings, skip_multispaces, skip_spaces,
    sp_dbc_ident, sp_skip_line_endings, sp_skip_multispaces, sp_skip_spaces, sp_tag_end, sp_u32,
    tag};
use crate::text::{dec_digits, append_u32};
use crate::value_descriptions::{sp_render_value_descs, sp_value_desc_items,
    parser_value_descriptions, ValueDescriptionItemView, ValueDescriptions};

verus! {

/// Value descriptions for one signal of one message.
#[derive(Clone, Debug, PartialEq, Eq)]
pub struct SignalValueDescriptions {
    pub message_id: u32,
    pub signal_name: String,
    pub value_descriptions: ValueDescriptions,
}

/// The mathematical value of one signal attachment.
pub ghost struct SignalValueDescriptionsView {
    pub message_id: u32,
    pub signal_name: Seq<char>,
    pub value_descriptions: Seq<ValueDescriptionItemView>,
}

impl View for SignalValueDescriptions {
    type V = SignalValueDescriptionsView;

    open spec fn view(&self) -> SignalValueDescriptionsView {
        SignalValueDescriptionsView {
            message_id: self.message_id,
            signal_name: self.signal_name@,
            value_descriptions: self.value_descriptions@,
        }
    }
}

impl DeepView for SignalValueDescriptions {
    type V = SignalValueDescriptionsView;

    open spec fn deep_view(&self) -> SignalValueDescriptionsView {
        self.view()
    }
}

/// The signal attachment at `i`.
pub open spec fn sp_signal_value_descriptions(s: Seq<char>, i: int) -> Option<
    (SignalValueDescriptionsView, int),
> {
    let i1 = sp_skip_multispaces(s, i);
    match sp_tag_end(s, i1, "VAL_"@) {
        None => None,
        Some(i2) => {
            let i3 = sp_skip_multispaces(s, i2);
            let i4 = sp_skip_spaces(s, i3);
            match sp_u32(s, i4) {
                None => None,
                Some((id, j1)) => {
                    let i5 = sp_skip_spaces(s, j1);
                    match sp_dbc_ident(s, i5) {
                        None => None,
                        Some(jn) => {
                            let name = s.subrange(i5, jn);
                            let i6 = sp_skip_spaces(s, jn);
                            let (items, j2) = sp_value_desc_items(s, i6);
                            let i7 = sp_skip_spaces(s, j2);
                            match sp_tag_end(s, i7, ";"@) {
                                None => None,
                                Some(i8) => {
                                    let i9 = sp_skip_spaces(s, i8);
                                    Some(
                                        (SignalValueDescriptionsView {
                                            message_id: id,
                                            signal_name: name,
                                            value_descriptions: items,
                                        }, sp_skip_line_endings(s, i9)),
                                    )
                                },
                            }
                        },
                    }
                },
            }
        },
    }
}

/// Match one signal attachment.
pub fn parser_signal_value_descriptions(s: &str, i: usize) -> (r: Result<
    (SignalValueDescriptions, usize),
    DbcParseError,
>)
    requires
        i <= s@.len(),
    ensures
        match r {
            Ok((v, j)) => sp_signal_value_descriptions(s@, i as int) == Some((v@, j as int)) && i
                <= j <= s@.len(),
            Err(e) => sp_signal_value_descriptions(s@, i as int) is None && e
                == DbcParseError::BadSignalValueDescriptions,
        },
{
    let i1: usize = skip_multispaces(s, i);
    let i2: usize = match tag(s, i1, "VAL_") {
        None => {
            return Err(DbcParseError::BadSignalValueDescriptions);
        },
        Some(v) => v,
    };
    let i3: usize = skip_multispaces(s, i2);
    let i4: usize = skip_spaces(s, i3);
    let (id, j1): (u32, usize) = match parse_u32(s, i4) {
        None => {
            return Err(DbcParseError::BadSignalValueDescriptions);
        },
        Some(v) => v,
    };
    let i5: usize = skip_spaces(s, j1);
    let (name, jn): (String, usize) = match dbc_ident(s, i5) {
        Err(_) => {
            return Err(DbcParseError::BadSignalValueDescriptions);
        },
        Ok(v) => v,
    };
    let i6: usize = skip_spaces(s, jn);
    let (descs, j2) = parser_value_descriptions(s, i6);
    let i7: usize = skip_spaces(s, j2);
    let i8: usize = match tag(s, i7, ";") {
        None => {
            return Err(DbcParseError::BadSignalValueDescriptions);
        },
        Some(v) => v,
    };
    let i9: usize = skip_spaces(s, i8);
    let end: usize = skip_line_endings(s, i9);
    Ok(
        (SignalValueDescriptions {
            message_id: id,
            signal_name: name,
            value_descriptions: descs,
        }, end),
    )
}

/// The rendered signal attachment: the pairs appear behind the names only
/// when there are any.
pub open spec fn sp_render_signal_value_descriptions(v: SignalValueDescriptionsView) -> Seq<
    char,
> {
    if v.value_descriptions.len() == 0 {
        "VAL_ "@ + dec_digits(v.message_id as nat) + seq![' '] + v.signal_name + seq![';']
    } else {
        "VAL_ "@ + dec_digits(v.message_id as nat) + seq![' '] + v.signal_name + seq![' ']
            + sp_render_value_descs(v.value_descriptions) + seq![';']
    }
}

impl SignalValueDescriptions {
    /// Render the signal attachment line.
    pub fn to_text(&self) -> (r: String)
        ensures
            r@ == sp_render_signal_value_descriptions(self@),
    {
        let mut out: String = String::from_str("VAL_ ");
        append_u32(&mut out, self.message_id);
        out.append(" ");
        out.append(self.signal_name.as_str());
        if self.value_descriptions.values.len() > 0 {
            out.append(" ");
            let t: String = self.value_descriptions.to_text();
            out.append(t.as_str());
        }
        out.append(";");
        proof {
            reveal_strlit(" ");
            reveal_strlit(";");
            assert(out@ =~= sp_render_signal_value_descriptions(self@));
        }
        out
    }
}

} // verus!
