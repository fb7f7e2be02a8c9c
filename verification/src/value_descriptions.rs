//! Value descriptions: ordered (integer code, label) pairs.
//!
//! A value description attaches a textual label to a single numeric value.
//! Lists of them appear in global value tables, behind signals, and behind
//! environment variables; an empty list is valid.

use vstd::prelude::*;

use crate::char_string::{quote_seq, CharString, parser_char_string};
use crate::error::DbcParseError;
use crate::lexer::{parse_i64, skip_spaces, sp_i64, sp_many0, sp_quoted, sp_skip_spaces};
use crate::text::dec_int;

verus! {

/// One (integer code, label) pair.
#[derive(Clone, Debug, PartialEq, Eq)]
pub struct ValueDescriptionItem {
    pub num: i64,
    pub str: CharString,
}

/// The mathematical value of one pair.
pub ghost struct ValueDescriptionItemView {
    pub num: i64,
    pub str: Seq<char>,
}

impl View for ValueDescriptionItem {
    type V = ValueDescriptionItemView;

    open spec fn view(&self) -> ValueDescriptionItemView {
        ValueDescriptionItemView { num: self.num, str: self.str@ }
    }
}

impl DeepView for ValueDescriptionItem {
    type V = ValueDescriptionItemView;

    open spec fn deep_view(&self) -> ValueDescriptionItemView {
        self.view()
    }
}

/// An ordered list of pairs, kept in source order.
#[derive(Clone, Debug, PartialEq, Eq)]
pub struct ValueDescriptions {
    pub values: Vec<ValueDescriptionItem>,
}

impl View for ValueDescriptions {
    type V = Seq<ValueDescriptionItemView>;

    open spec fn view(&self) -> Seq<ValueDescriptionItemView> {
        self.values.deep_view()
    }
}

/// One pair at `i`: an integer, then a quoted label, spaces tolerated.
pub open spec fn sp_value_desc_item(s: Seq<char>, i: int) -> Option<
    (ValueDescriptionItemView, int),
> {
    let i1 = sp_skip_spaces(s, i);
    match sp_i64(s, i1) {
        None => None,
        Some((num, j)) => {
            let i2 = sp_skip_spaces(s, j);
            match sp_quoted(s, i2) {
                None => None,
                Some((lab, j2)) => Some(
                    (ValueDescriptionItemView { num, str: lab }, sp_skip_spaces(s, j2)),
                ),
            }
        },
    }
}

/// Zero or more pairs.
pub open spec fn sp_value_desc_items(s: Seq<char>, i: int) -> (
    Seq<ValueDescriptionItemView>,
    int,
) {
    sp_many0(|s2: Seq<char>, i2: int| sp_value_desc_item(s2, i2), s, i)
}

/// Match one pair.
pub fn parser_value_description_item(s: &str, i: usize) -> (r: Result<
    (ValueDescriptionItem, usize),
    DbcParseError,
>)
    requires
        i <= s@.len(),
    ensures
        match r {
            Ok((v, j)) => sp_value_desc_item(s@, i as int) == Some((v@, j as int)) && i < j
                <= s@.len(),
            Err(_) => sp_value_desc_item(s@, i as int) is None,
        },
{
    let i1: usize = skip_spaces(s, i);
    match parse_i64(s, i1) {
        None => Err(DbcParseError::BadInt),
        Some((num, j)) => {
            let i2: usize = skip_spaces(s, j);
            match parser_char_string(s, i2) {
                Err(e) => Err(e),
                Ok((lab, j2)) => {
                    let j3: usize = skip_spaces(s, j2);
                    Ok((ValueDescriptionItem { num, str: lab }, j3))
                },
            }
        },
    }
}

/// Match zero or more pairs.
pub fn parser_value_descriptions(s: &str, i: usize) -> (r: (ValueDescriptions, usize))
    requires
        i <= s@.len(),
    ensures
        sp_value_desc_items(s@, i as int) == (r.0@, r.1 as int),
        i <= r.1 <= s@.len(),
{
    let mut values: Vec<ValueDescriptionItem> = Vec::new();
    let mut cur: usize = i;
    loop
        invariant
            i <= cur <= s@.len(),
            sp_value_desc_items(s@, i as int).0 == values.deep_view() + sp_value_desc_items(
                s@,
                cur as int,
            ).0,
            sp_value_desc_items(s@, i as int).1 == sp_value_desc_items(s@, cur as int).1,
        ensures
            cur <= s@.len(),
            sp_value_desc_items(s@, i as int) == (values.deep_view(), cur as int),
        decreases s@.len() - cur,
    {
        let ghost prev = values.deep_view();
        match parser_value_description_item(s, cur) {
            Err(_) => {
                proof {
                    assert(sp_value_desc_items(s@, cur as int) == (Seq::<
                        ValueDescriptionItemView,
                    >::empty(), cur as int));
                    assert(values.deep_view() + Seq::<ValueDescriptionItemView>::empty()
                        =~= values.deep_view());
                }
                break ;
            },
            Ok((item, j2)) => {
                proof {
                    assert(sp_value_desc_items(s@, cur as int).0 == seq![item@]
                        + sp_value_desc_items(s@, j2 as int).0);
                    assert(sp_value_desc_items(s@, cur as int).1 == sp_value_desc_items(
                        s@,
                        j2 as int,
                    ).1);
                }
                values.push(item);
                proof {
                    assert(values.deep_view() =~= prev + seq![item@]);
                    assert(prev + (seq![item@] + sp_value_desc_items(s@, j2 as int).0) =~= (prev
                        + seq![item@]) + sp_value_desc_items(s@, j2 as int).0);
                }
                cur = j2;
            },
        }
    }
    (ValueDescriptions { values }, cur)
}

/// The rendered form of one pair: the code, a space, the quoted label.
pub open spec fn sp_render_value_desc_item(v: ValueDescriptionItemView) -> Seq<char> {
    dec_int(v.num as int) + seq![' '] + quote_seq(v.str)
}

/// The rendered list: the pairs joined by single spaces.
pub open spec fn sp_render_value_descs(items: Seq<ValueDescriptionItemView>) -> Seq<char>
    decreases items.len(),
{
    if items.len() == 0 {
        Seq::<char>::empty()
    } else if items.len() == 1 {
        sp_render_value_desc_item(items[0])
    } else {
        sp_render_value_descs(items.drop_last()) + seq![' '] + sp_render_value_desc_item(
            items.last(),
        )
    }
}

impl ValueDescriptionItem {
    /// Render one pair.
    pub fn to_text(&self) -> (r: String)
        ensures
            r@ == sp_render_value_desc_item(self@),
    {
        let mut out: String = String::new();
        crate::text::append_i64(&mut out, self.num);
        out.append(" \"");
        out.append(self.str.0.as_str());
        out.append("\"");
        proof {
            reveal_strlit(" \"");
            reveal_strlit("\"");
            assert(out@ =~= sp_render_value_desc_item(self@));
        }
        out
    }
}

impl ValueDescriptions {
    /// Render the list, pairs joined by single spaces.
    pub fn to_text(&self) -> (r: String)
        ensures
            r@ == sp_render_value_descs(self@),
    {
        let mut out: String = String::new();
        proof {
            assert(self@.take(0) =~= Seq::<ValueDescriptionItemView>::empty());
        }
        let n: usize = self.values.len();
        let mut k: usize = 0;
        while k < n
            invariant
                k <= n,
                n == self.values.len(),
                out@ == sp_render_value_descs(self@.take(k as int)),
            decreases n - k,
        {
            if k > 0 {
                out.append(" ");
            }
            let item: &ValueDescriptionItem = &self.values[k];
            let t: String = item.to_text();
            out.append(t.as_str());
            proof {
                reveal_strlit(" ");
                let tk = self@.take(k + 1);
                assert(tk.drop_last() =~= self@.take(k as int));
                assert(tk.last() == self@[k as int]);
                if k > 0 {
                    assert(tk.len() > 1);
                }
                assert(out@ =~= sp_render_value_descs(self@.take(k + 1)));
            }
            k = k + 1;
        }
        proof {
            assert(self@.take(n as int) =~= self@);
        }
        out
    }
}

} // verus!
