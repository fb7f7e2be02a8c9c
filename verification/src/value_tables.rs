//! Global value tables.
//!
//! Format: `VAL_TABLE_ <name> <value descriptions> ;`.

use vstd::prelude::*;

use crate::error::DbcParseError;
use crate::lexer::{object_name, skip_line_endings, skip_multispaces, skip_spaces, sp_many0,
    sp_object_name_end, sp_skip_line_endings, sp_skip_multispaces, sp_skip_spaces, sp_tag_end, tag};
use crate::value_descriptions::{sp_render_value_descs, sp_value_desc_items,
    parser_value_descriptions, ValueDescriptionItemView, ValueDescriptions};

verus! {

/// One global value table: a name and its value descriptions.
#[derive(Clone, Debug, PartialEq, Eq)]
pub struct ValueTable {
    pub name: String,
    pub value_descriptions: ValueDescriptions,
}

/// The mathematical value of one table.
pub ghost struct ValueTableView {
    pub name: Seq<char>,
    pub value_descriptions: Seq<ValueDescriptionItemView>,
}

impl View for ValueTable {
    type V = ValueTableView;

    open spec fn view(&self) -> ValueTableView {
        ValueTableView { name: self.name@, value_descriptions: self.value_descriptions@ }
    }
}

impl DeepView for ValueTable {
    type V = ValueTableView;

    open spec fn deep_view(&self) -> ValueTableView {
        self.view()
    }
}

/// One table at `i`: the keyword, an object name, the pairs, a semicolon,
/// then trailing line endings.
pub open spec fn sp_value_table(s: Seq<char>, i: int) -> Option<(ValueTableView, int)> {
    let i1 = sp_skip_multispaces(s, i);
    match sp_tag_end(s, i1, "VAL_TABLE_"@) {
        None => None,
        Some(i2) => {
            let i3 = sp_skip_multispaces(s, i2);
            let i4 = sp_skip_spaces(s, i3);
            match sp_object_name_end(s, i4) {
                None => None,
                Some(j) => {
                    let i5 = sp_skip_spaces(s, j);
                    let (items, i6) = sp_value_desc_items(s, i5);
                    let i7 = sp_skip_spaces(s, i6);
                    match sp_tag_end(s, i7, ";"@) {
                        None => None,
                        Some(i8) => {
                            let i9 = sp_skip_spaces(s, i8);
                            Some(
                                (ValueTableView {
                                    name: s.subrange(i4, j),
                                    value_descriptions: items,
                                }, sp_skip_line_endings(s, i9)),
                            )
                        },
                    }
                },
            }
        },
    }
}

/// Zero or more tables.
pub open spec fn sp_value_tables(s: Seq<char>, i: int) -> (Seq<ValueTableView>, int) {
    sp_many0(|s2: Seq<char>, i2: int| sp_value_table(s2, i2), s, i)
}

/// Match one table.
pub fn parser_value_table(s: &str, i: usize) -> (r: Result<(ValueTable, usize), DbcParseError>)
    requires
        i <= s@.len(),
    ensures
        match r {
            Ok((v, j)) => sp_value_table(s@, i as int) == Some((v@, j as int)) && i < j
                <= s@.len(),
            Err(_) => sp_value_table(s@, i as int) is None,
        },
{
    let i1: usize = skip_multispaces(s, i);
    match tag(s, i1, "VAL_TABLE_") {
        None => Err(DbcParseError::Unparseable),
        Some(i2) => {
            let i3: usize = skip_multispaces(s, i2);
            let i4: usize = skip_spaces(s, i3);
            match object_name(s, i4) {
                None => Err(DbcParseError::Unparseable),
                Some((name, j)) => {
                    let i5: usize = skip_spaces(s, j);
                    let (descs, i6) = parser_value_descriptions(s, i5);
                    let i7: usize = skip_spaces(s, i6);
                    match tag(s, i7, ";") {
                        None => Err(DbcParseError::Unparseable),
                        Some(i8) => {
                            let i9: usize = skip_spaces(s, i8);
                            let j2: usize = skip_line_endings(s, i9);
                            Ok((ValueTable { name, value_descriptions: descs }, j2))
                        },
                    }
                },
            }
        },
    }
}

/// Match zero or more tables.
pub fn parser_value_tables(s: &str, i: usize) -> (r: (Vec<ValueTable>, usize))
    requires
        i <= s@.len(),
    ensures
        sp_value_tables(s@, i as int) == (r.0.deep_view(), r.1 as int),
        i <= r.1 <= s@.len(),
{
    let mut tables: Vec<ValueTable> = Vec::new();
    let mut cur: usize = i;
    loop
        invariant
            i <= cur <= s@.len(),
            sp_value_tables(s@, i as int).0 == tables.deep_view() + sp_value_tables(
                s@,
                cur as int,
            ).0,
            sp_value_tables(s@, i as int).1 == sp_value_tables(s@, cur as int).1,
        ensures
            cur <= s@.len(),
            sp_value_tables(s@, i as int) == (tables.deep_view(), cur as int),
        decreases s@.len() - cur,
    {
        let ghost prev = tables.deep_view();
        match parser_value_table(s, cur) {
            Err(_) => {
                proof {
                    assert(sp_value_tables(s@, cur as int) == (Seq::<ValueTableView>::empty(),
                    cur as int));
                    assert(tables.deep_view() + Seq::<ValueTableView>::empty()
                        =~= tables.deep_view());
                }
                break ;
            },
            Ok((table, j2)) => {
                proof {
                    assert(sp_value_tables(s@, cur as int).0 == seq![table@] + sp_value_tables(
                        s@,
                        j2 as int,
                    ).0);
                    assert(sp_value_tables(s@, cur as int).1 == sp_value_tables(
                        s@,
                        j2 as int,
                    ).1);
                }
                tables.push(table);
                proof {
                    assert(tables.deep_view() =~= prev + seq![table@]);
                    assert(prev + (seq![table@] + sp_value_tables(s@, j2 as int).0) =~= (prev
                        + seq![table@]) + sp_value_tables(s@, j2 as int).0);
                }
                cur = j2;
            },
        }
    }
    (tables, cur)
}

/// The rendered table: the keyword, the name, the pairs when there are any,
/// then a semicolon.
pub open spec fn sp_render_value_table(v: ValueTableView) -> Seq<char> {
    if v.value_descriptions.len() == 0 {
        "VAL_TABLE_ "@ + v.name + seq![';']
    } else {
        "VAL_TABLE_ "@ + v.name + seq![' '] + sp_render_value_descs(v.value_descriptions) + seq![
            ';',
        ]
    }
}

impl ValueTable {
    /// Render one table.
    pub fn to_text(&self) -> (r: String)
        ensures
            r@ == sp_render_value_table(self@),
    {
        let mut out: String = String::from_str("VAL_TABLE_ ");
        out.append(self.name.as_str());
        if self.value_descriptions.values.len() > 0 {
            out.append(" ");
            let t: String = self.value_descriptions.to_text();
            out.append(t.as_str());
        }
        out.append(";");
        proof {
            reveal_strlit(" ");
            reveal_strlit(";");
            assert(out@ =~= sp_render_value_table(self@));
        }
        out
    }
}

} // verus!
