//! The symbol list section.
//!
//! Format: `NS_:` followed by zero or more names, one per physical line.

use vstd::prelude::*;

use crate::error::DbcParseError;
use crate::lexer::{object_name, skip_multispaces, skip_spaces, sp_many0, sp_object_name_end,
    sp_skip_multispaces, sp_skip_spaces, sp_tag_end, tag};

verus! {

/// Names used throughout the document, in source order.
#[derive(Clone, Debug, PartialEq, Eq)]
pub struct NewSymbols(pub Vec<String>);

impl View for NewSymbols {
    type V = Seq<Seq<char>>;

    open spec fn view(&self) -> Seq<Seq<char>> {
        self.0.deep_view()
    }
}

/// One symbol name on its own line: optional spaces, the name, optional
/// spaces, then a line ending.
pub open spec fn sp_symbol_item(s: Seq<char>, i: int) -> Option<(Seq<char>, int)> {
    let i1 = sp_skip_spaces(s, i);
    match sp_object_name_end(s, i1) {
        None => None,
        Some(j) => {
            let i2 = sp_skip_spaces(s, j);
            if i2 < s.len() && s[i2] == '\n' {
                Some((s.subrange(i1, j), i2 + 1))
            } else if i2 + 1 < s.len() && s[i2] == '\r' && s[i2 + 1] == '\n' {
                Some((s.subrange(i1, j), i2 + 2))
            } else {
                None
            }
        },
    }
}

/// Zero or more symbol lines.
pub open spec fn sp_symbol_items(s: Seq<char>, i: int) -> (Seq<Seq<char>>, int) {
    sp_many0(|s2: Seq<char>, i2: int| sp_symbol_item(s2, i2), s, i)
}

/// The symbol list section at `i`.
pub open spec fn sp_new_symbols(s: Seq<char>, i: int) -> Option<(Seq<Seq<char>>, int)> {
    let i1 = sp_skip_multispaces(s, i);
    match sp_tag_end(s, i1, "NS_"@) {
        None => None,
        Some(i2) => {
            let i3 = sp_skip_multispaces(s, i2);
            match sp_tag_end(s, i3, ":"@) {
                None => None,
                Some(i4) => {
                    let i5 = sp_skip_multispaces(s, i4);
                    let (names, i6) = sp_symbol_items(s, i5);
                    Some((names, sp_skip_multispaces(s, i6)))
                },
            }
        },
    }
}

/// Match one symbol line.
pub fn parser_one_line_new_symbols(s: &str, i: usize) -> (r: Option<(String, usize)>)
    requires
        i <= s@.len(),
    ensures
        match r {
            Some((t, j)) => sp_symbol_item(s@, i as int) == Some((t@, j as int)) && i < j
                <= s@.len(),
            None => sp_symbol_item(s@, i as int) is None,
        },
{
    let i1: usize = skip_spaces(s, i);
    match object_name(s, i1) {
        None => None,
        Some((t, j)) => {
            let i2: usize = skip_spaces(s, j);
            let n: usize = s.unicode_len();
            if i2 < n && s.get_char(i2) == '\n' {
                Some((t, i2 + 1))
            } else if i2 < n && i2 + 1 < n && s.get_char(i2) == '\r' && s.get_char(i2 + 1)
                == '\n' {
                Some((t, i2 + 2))
            } else {
                None
            }
        },
    }
}

/// Match the symbol list section.
pub fn parser_new_symbols(s: &str, i: usize) -> (r: Result<(NewSymbols, usize), DbcParseError>)
    requires
        i <= s@.len(),
    ensures
        match r {
            Ok((v, j)) => sp_new_symbols(s@, i as int) == Some((v@, j as int)) && i <= j
                <= s@.len(),
            Err(e) => sp_new_symbols(s@, i as int) is None && e == DbcParseError::BadNames,
        },
{
    let i1: usize = skip_multispaces(s, i);
    match tag(s, i1, "NS_") {
        None => Err(DbcParseError::BadNames),
        Some(i2) => {
            let i3: usize = skip_multispaces(s, i2);
            match tag(s, i3, ":") {
                None => Err(DbcParseError::BadNames),
                Some(i4) => {
                    let i5: usize = skip_multispaces(s, i4);
                    let mut names: Vec<String> = Vec::new();
                    let mut cur: usize = i5;
                    loop
                        invariant
                            i5 <= cur <= s@.len(),
                            sp_symbol_items(s@, i5 as int).0 == names.deep_view()
                                + sp_symbol_items(s@, cur as int).0,
                            sp_symbol_items(s@, i5 as int).1 == sp_symbol_items(
                                s@,
                                cur as int,
                            ).1,
                        ensures
                            cur <= s@.len(),
                            sp_symbol_items(s@, i5 as int) == (names.deep_view(), cur as int),
                        decreases s@.len() - cur,
                    {
                        let ghost prev = names.deep_view();
                        match parser_one_line_new_symbols(s, cur) {
                            None => {
                                proof {
                                    assert(sp_symbol_items(s@, cur as int) == (Seq::<
                                        Seq<char>,
                                    >::empty(), cur as int));
                                    assert(names.deep_view() + Seq::<Seq<char>>::empty()
                                        =~= names.deep_view());
                                }
                                break ;
                            },
                            Some((name, j2)) => {
                                proof {
                                    assert(sp_symbol_items(s@, cur as int).0 == seq![name@]
                                        + sp_symbol_items(s@, j2 as int).0);
                                    assert(sp_symbol_items(s@, cur as int).1 == sp_symbol_items(
                                        s@,
                                        j2 as int,
                                    ).1);
                                }
                                names.push(name);
                                proof {
                                    assert(names.deep_view() =~= prev + seq![name@]);
                                    assert(prev + (seq![name@] + sp_symbol_items(s@, j2 as int).0)
                                        =~= (prev + seq![name@]) + sp_symbol_items(
                                        s@,
                                        j2 as int,
                                    ).0);
                                }
                                cur = j2;
                            },
                        }
                    }
                    let j: usize = skip_multispaces(s, cur);
                    Ok((NewSymbols(names), j))
                },
            }
        },
    }
}

/// The rendered run of symbol lines: one tab-indented name per line.
pub open spec fn sp_render_symbol_names(names: Seq<Seq<char>>) -> Seq<char>
    decreases names.len(),
{
    if names.len() == 0 {
        Seq::<char>::empty()
    } else {
        sp_render_symbol_names(names.drop_last()) + seq!['\t'] + names.last() + seq!['\n']
    }
}

/// The rendered symbol list: the keyword line, then one tab-indented name
/// per line.
pub open spec fn sp_render_new_symbols(names: Seq<Seq<char>>) -> Seq<char> {
    "NS_:"@ + seq!['\n'] + sp_render_symbol_names(names)
}

/// The rendered symbol lines decompose at the front.
proof fn lemma_render_symbol_names_first(names: Seq<Seq<char>>)
    requires
        names.len() >= 1,
    ensures
        sp_render_symbol_names(names) == seq!['\t'] + names[0] + seq!['\n']
            + sp_render_symbol_names(names.drop_first()),
    decreases names.len(),
{
    if names.len() == 1 {
        assert(names.drop_last().len() == 0);
        assert(sp_render_symbol_names(names.drop_last()) =~= Seq::<char>::empty());
        assert(names.drop_first().len() == 0);
        assert(sp_render_symbol_names(names.drop_first()) =~= Seq::<char>::empty());
        assert(Seq::<char>::empty() + seq!['\t'] + names[0] + seq!['\n'] =~= seq!['\t'] + names[0]
            + seq!['\n'] + Seq::<char>::empty());
    } else {
        lemma_render_symbol_names_first(names.drop_last());
        assert(names.drop_last()[0] == names[0]);
        assert(names.drop_last().drop_first() =~= names.drop_first().drop_last());
        assert(names.drop_first().last() == names.last());
        assert((seq!['\t'] + names[0] + seq!['\n'] + sp_render_symbol_names(
            names.drop_first().drop_last(),
        )) + seq!['\t'] + names.last() + seq!['\n'] =~= seq!['\t'] + names[0] + seq!['\n'] + (
        sp_render_symbol_names(names.drop_first().drop_last()) + seq!['\t'] + names.last() + seq![
            '\n',
        ]));
        assert(sp_render_symbol_names(names) =~= seq!['\t'] + names[0] + seq!['\n']
            + sp_render_symbol_names(names.drop_first()));
    }
}

/// The repetition of symbol lines stops where no further name can start.
proof fn lemma_symbol_items_none(s: Seq<char>, i: int)
    requires
        0 <= i <= s.len(),
        ({
            let i1 = sp_skip_spaces(s, i);
            i <= i1 <= s.len() && (i1 == s.len() || !crate::lexer::is_object_name_char(s[i1]))
        }),
    ensures
        sp_symbol_items(s, i) == (Seq::<Seq<char>>::empty(), i),
{
    assert(sp_symbol_item(s, i) is None);
}

/// Scanning the symbol lines from the first name's position yields the
/// names back in order.
proof fn lemma_symbol_items_scan(names: Seq<Seq<char>>, s: Seq<char>, i: int, i0: int)
    requires
        names.len() >= 1,
        0 <= i <= i0,
        sp_skip_spaces(s, i) == i0,
        ({
            let body = names[0] + seq!['\n'] + sp_render_symbol_names(names.drop_first());
            &&& i0 + body.len() <= s.len()
            &&& s.subrange(i0, i0 + body.len() as int) == body
            &&& (i0 + body.len() == s.len() || !(crate::lexer::is_space(s[i0 + body.len()])
                || crate::lexer::is_object_name_char(s[i0 + body.len()])))
        }),
        forall|k: int| 0 <= k < names.len() ==> crate::lexer::wf_object_name(#[trigger] names[k]),
    ensures
        ({
            let body = names[0] + seq!['\n'] + sp_render_symbol_names(names.drop_first());
            sp_symbol_items(s, i) == (names, i0 + body.len() as int)
        }),
    decreases names.len(),
{
    let first = names[0];
    let rest = names.drop_first();
    let body = first + seq!['\n'] + sp_render_symbol_names(rest);
    let after = i0 + body.len() as int;
    assert forall|k: int| 0 <= k < body.len() implies s[i0 + k] == #[trigger] body[k] by {
        assert(s.subrange(i0, i0 + body.len() as int)[k] == s[i0 + k]);
    }
    let e = i0 + first.len() as int;
    assert forall|k: int| 0 <= k < first.len() implies #[trigger] first[k] == body[k] by {}
    assert(s.subrange(i0, e) =~= first) by {
        assert forall|k: int| 0 <= k < first.len() implies s.subrange(i0, e)[k] == first[k] by {
            assert(s.subrange(i0, e)[k] == s[i0 + k]);
        }
    }
    assert(body[first.len() as int] == '\n');
    assert(s[e] == '\n');
    crate::lexer::lemma_object_name_round_trip(first, s, i0);
    assert(crate::lexer::sp_skip_spaces(s, e) == e);
    assert(sp_symbol_item(s, i) == Some((first, e + 1)));
    if rest.len() == 0 {
        assert(sp_render_symbol_names(rest) =~= Seq::<char>::empty());
        assert(after == e + 1);
        lemma_symbol_items_none(s, e + 1);
        assert(seq![first] + Seq::<Seq<char>>::empty() =~= names);
    } else {
        lemma_render_symbol_names_first(rest);
        let tail = sp_render_symbol_names(rest);
        assert(tail[0] == '\t' && tail[1] == rest[0][0] && tail.len() >= 2) by {
            assert((seq!['\t'] + rest[0] + seq!['\n'] + sp_render_symbol_names(
                rest.drop_first(),
            ))[0] == '\t');
            assert((seq!['\t'] + rest[0] + seq!['\n'] + sp_render_symbol_names(
                rest.drop_first(),
            ))[1] == rest[0][0]);
        }
        assert(body[first.len() + 1int] == tail[0]);
        assert(body[first.len() + 2int] == tail[1]);
        assert(s[e + 1] == '\t');
        assert(s[e + 2] == rest[0][0]);
        assert(crate::lexer::is_object_name_char(rest[0][0]));
        assert(!crate::lexer::is_space(s[e + 2]));
        assert(crate::lexer::sp_skip_spaces(s, e + 2) == e + 2);
        assert(crate::lexer::sp_skip_spaces(s, e + 1) == e + 2);
        let body2 = rest[0] + seq!['\n'] + sp_render_symbol_names(rest.drop_first());
        assert(s.subrange(e + 2, after) =~= body2) by {
            assert forall|k: int| 0 <= k < body2.len() implies s.subrange(e + 2, after)[k]
                == body2[k] by {
                assert(s.subrange(e + 2, after)[k] == s[e + 2 + k]);
                assert(s[i0 + (first.len() + 2int + k)] == body[first.len() + 2int + k]);
                assert(body[first.len() + 2int + k] == tail[1 + k]);
                assert(tail[1 + k] == (seq!['\t'] + rest[0] + seq!['\n'] + sp_render_symbol_names(
                    rest.drop_first(),
                ))[1 + k]);
            }
        }
        lemma_symbol_items_scan(rest, s, e + 1, e + 2);
        assert(seq![first] + rest =~= names);
    }
}

/// Parsing a rendered symbol list yields the names it was rendered from,
/// in their order, whatever text follows, as long as that text starts with
/// no whitespace and no object-name character.  One whole section of the
/// parse-render-parse round trip.
pub proof fn lemma_new_symbols_round_trip(names: Seq<Seq<char>>, rest: Seq<char>)
    requires
        forall|k: int| 0 <= k < names.len() ==> crate::lexer::wf_object_name(#[trigger] names[k]),
        rest.len() == 0 || (!crate::lexer::is_multispace(rest[0])
            && crate::lexer::ends_object_name(rest[0])),
    ensures
        sp_new_symbols(sp_render_new_symbols(names) + rest, 0) == Some(
            (names, sp_render_new_symbols(names).len() as int),
        ),
{
    let r = sp_render_new_symbols(names);
    let s = r + rest;
    reveal_strlit("NS_:");
    reveal_strlit("NS_");
    reveal_strlit(":");
    assert forall|k: int| 0 <= k < r.len() implies s[k] == #[trigger] r[k] by {}
    assert forall|k: int| r.len() <= k < s.len() implies s[k] == rest[k - r.len()] by {}
    assert(s[0] == 'N' && s[1] == 'S' && s[2] == '_' && s[3] == ':' && s[4] == '\n');
    assert(crate::lexer::sp_skip_multispaces(s, 0) == 0);
    assert(s.subrange(0, 3) =~= "NS_"@);
    assert(crate::lexer::sp_tag_end(s, 0, "NS_"@) == Some(3int));
    assert(crate::lexer::sp_skip_multispaces(s, 3) == 3);
    assert(crate::lexer::sp_tag_end(s, 3, ":"@) == Some(4int)) by {
        assert(s.subrange(3, 4) =~= ":"@);
    }
    if names.len() == 0 {
        assert(sp_render_symbol_names(names) =~= Seq::<char>::empty());
        assert(r.len() == 5);
        assert(5 == s.len() || !crate::lexer::is_multispace(s[5]));
        assert(crate::lexer::sp_skip_multispaces(s, 5) == 5);
        assert(crate::lexer::sp_skip_multispaces(s, 4) == 5);
        assert(crate::lexer::sp_skip_spaces(s, 5) == 5);
        lemma_symbol_items_none(s, 5);
    } else {
        lemma_render_symbol_names_first(names);
        let tail = sp_render_symbol_names(names);
        assert(tail[0] == '\t' && tail[1] == names[0][0]) by {
            assert((seq!['\t'] + names[0] + seq!['\n'] + sp_render_symbol_names(
                names.drop_first(),
            ))[0] == '\t');
            assert((seq!['\t'] + names[0] + seq!['\n'] + sp_render_symbol_names(
                names.drop_first(),
            ))[1] == names[0][0]);
        }
        assert(r[5] == tail[0] && r[6] == tail[1]);
        assert(s[5] == '\t');
        assert(s[6] == names[0][0]);
        assert(crate::lexer::is_object_name_char(names[0][0]));
        assert(!crate::lexer::is_multispace(s[6]));
        assert(crate::lexer::sp_skip_multispaces(s, 6) == 6);
        assert(crate::lexer::sp_skip_multispaces(s, 5) == 6);
        assert(crate::lexer::sp_skip_multispaces(s, 4) == 6);
        assert(crate::lexer::sp_skip_spaces(s, 6) == 6);
        let body = names[0] + seq!['\n'] + sp_render_symbol_names(names.drop_first());
        assert(s.subrange(6, 6 + body.len() as int) =~= body) by {
            assert forall|k: int| 0 <= k < body.len() implies s.subrange(
                6,
                6 + body.len() as int,
            )[k] == body[k] by {
                assert(s.subrange(6, 6 + body.len() as int)[k] == s[6 + k]);
                assert(s[5 + (1 + k)] == r[5 + (1 + k)]);
                assert(r[5 + (1 + k)] == tail[1 + k]);
                assert(tail[1 + k] == (seq!['\t'] + names[0] + seq!['\n']
                    + sp_render_symbol_names(names.drop_first()))[1 + k]);
            }
        }
        assert(6 + body.len() == r.len());
        assert(6 + body.len() == s.len() || !(crate::lexer::is_space(s[6 + body.len() as int])
            || crate::lexer::is_object_name_char(s[6 + body.len() as int])));
        lemma_symbol_items_scan(names, s, 6, 6);
        assert(crate::lexer::sp_skip_multispaces(s, 6 + body.len() as int) == 6
            + body.len() as int);
    }
}

impl NewSymbols {
    /// Render the symbol list block.
    pub fn to_text(&self) -> (r: String)
        ensures
            r@ == sp_render_new_symbols(self@),
    {
        let mut out: String = String::from_str("NS_:\n");
        proof {
            reveal_strlit("NS_:\n");
            reveal_strlit("NS_:");
            reveal_strlit("\n");
            assert(self@.take(0) =~= Seq::<Seq<char>>::empty());
            assert(out@ =~= "NS_:"@ + seq!['\n'] + sp_render_symbol_names(self@.take(0)));
        }
        let n: usize = self.0.len();
        let mut k: usize = 0;
        while k < n
            invariant
                k <= n,
                n == self.0.len(),
                out@ == "NS_:"@ + seq!['\n'] + sp_render_symbol_names(self@.take(k as int)),
            decreases n - k,
        {
            out.append("\t");
            let name: &String = &self.0[k];
            out.append(name.as_str());
            out.append("\n");
            proof {
                reveal_strlit("\t");
                reveal_strlit("\n");
                let t = self@.take(k + 1);
                assert(t.drop_last() =~= self@.take(k as int));
                assert(t.last() == self@[k as int]);
                assert(out@ =~= "NS_:"@ + seq!['\n'] + sp_render_symbol_names(self@.take(k + 1)));
            }
            k = k + 1;
        }
        proof {
            assert(self@.take(n as int) =~= self@);
        }
        out
    }
}

} // verus!
