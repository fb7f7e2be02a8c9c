//! The node list section.
//!
//! Format: `BU_:` followed by zero or more space-separated node names on
//! one line.

use vstd::prelude::*;

use crate::error::DbcParseError;
use crate::lexer::{dbc_ident, skip_line_endings, skip_multispaces, skip_spaces, sp_dbc_ident,
    sp_many0, sp_skip_line_endings, sp_skip_multispaces, sp_skip_spaces, sp_tag_end, tag};

verus! {

/// Names of all participating nodes, in source order.
#[derive(Clone, Debug, PartialEq, Eq)]
pub struct Nodes(pub Vec<String>);

impl View for Nodes {
    type V = Seq<Seq<char>>;

    open spec fn view(&self) -> Seq<Seq<char>> {
        self.0.deep_view()
    }
}

/// One node name surrounded by optional spaces.
pub open spec fn sp_node_item(s: Seq<char>, i: int) -> Option<(Seq<char>, int)> {
    let i1 = sp_skip_spaces(s, i);
    match sp_dbc_ident(s, i1) {
        None => None,
        Some(j) => Some((s.subrange(i1, j), sp_skip_spaces(s, j))),
    }
}

/// Zero or more space-separated node names.
pub open spec fn sp_node_items(s: Seq<char>, i: int) -> (Seq<Seq<char>>, int) {
    sp_many0(|s2: Seq<char>, i2: int| sp_node_item(s2, i2), s, i)
}

/// The node list section at `i`.
pub open spec fn sp_nodes(s: Seq<char>, i: int) -> Option<(Seq<Seq<char>>, int)> {
    let i1 = sp_skip_multispaces(s, i);
    match sp_tag_end(s, i1, "BU_"@) {
        None => None,
        Some(i2) => {
            let i3 = sp_skip_multispaces(s, i2);
            let i4 = sp_skip_spaces(s, i3);
            match sp_tag_end(s, i4, ":"@) {
                None => None,
                Some(i5) => {
                    let i6 = sp_skip_spaces(s, i5);
                    let (names, i7) = sp_node_items(s, i6);
                    Some((names, sp_skip_line_endings(s, i7)))
                },
            }
        },
    }
}

/// Match zero or more space-separated node names.
fn parse_node_items(s: &str, i: usize) -> (r: (Vec<String>, usize))
    requires
        i <= s@.len(),
    ensures
        sp_node_items(s@, i as int) == (r.0.deep_view(), r.1 as int),
        i <= r.1 <= s@.len(),
{
    let mut names: Vec<String> = Vec::new();
    let mut cur: usize = i;
    loop
        invariant
            i <= cur <= s@.len(),
            sp_node_items(s@, i as int).0 == names.deep_view() + sp_node_items(s@, cur as int).0,
            sp_node_items(s@, i as int).1 == sp_node_items(s@, cur as int).1,
        ensures
            cur <= s@.len(),
            sp_node_items(s@, i as int) == (names.deep_view(), cur as int),
        decreases s@.len() - cur,
    {
        let ghost prev = names.deep_view();
        let i1: usize = skip_spaces(s, cur);
        match dbc_ident(s, i1) {
            Err(_) => {
                proof {
                    assert(sp_node_item(s@, cur as int) is None);
                    assert(sp_node_items(s@, cur as int) == (Seq::<Seq<char>>::empty(),
                    cur as int));
                    assert(names.deep_view() + Seq::<Seq<char>>::empty() =~= names.deep_view());
                }
                break ;
            },
            Ok((name, j)) => {
                let j2: usize = skip_spaces(s, j);
                proof {
                    assert(sp_node_item(s@, cur as int) == Some((name@, j2 as int)));
                    assert(sp_node_items(s@, cur as int).0 == seq![name@] + sp_node_items(
                        s@,
                        j2 as int,
                    ).0);
                    assert(sp_node_items(s@, cur as int).1 == sp_node_items(s@, j2 as int).1);
                }
                names.push(name);
                proof {
                    assert(names.deep_view() =~= prev + seq![name@]);
                    assert(prev + (seq![name@] + sp_node_items(s@, j2 as int).0) =~= (prev + seq![
                        name@,
                    ]) + sp_node_items(s@, j2 as int).0);
                }
                cur = j2;
            },
        }
    }
    (names, cur)
}

/// Match the node list section.
pub fn parser_nodes(s: &str, i: usize) -> (r: Result<(Nodes, usize), DbcParseError>)
    requires
        i <= s@.len(),
    ensures
        match r {
            Ok((v, j)) => sp_nodes(s@, i as int) == Some((v@, j as int)) && i <= j <= s@.len(),
            Err(e) => sp_nodes(s@, i as int) is None && e == DbcParseError::BadCanNodes,
        },
{
    let i1: usize = skip_multispaces(s, i);
    match tag(s, i1, "BU_") {
        None => Err(DbcParseError::BadCanNodes),
        Some(i2) => {
            let i3: usize = skip_multispaces(s, i2);
            let i4: usize = skip_spaces(s, i3);
            match tag(s, i4, ":") {
                None => Err(DbcParseError::BadCanNodes),
                Some(i5) => {
                    let i6: usize = skip_spaces(s, i5);
                    let (names, i7) = parse_node_items(s, i6);
                    let j: usize = skip_line_endings(s, i7);
                    Ok((Nodes(names), j))
                },
            }
        },
    }
}

/// The rendered run of node names: one leading space per name.
pub open spec fn sp_render_node_names(names: Seq<Seq<char>>) -> Seq<char>
    decreases names.len(),
{
    if names.len() == 0 {
        Seq::<char>::empty()
    } else {
        sp_render_node_names(names.drop_last()) + seq![' '] + names.last()
    }
}

/// The rendered node list: the keyword, one leading space per name, and a
/// final line break.
pub open spec fn sp_render_nodes(names: Seq<Seq<char>>) -> Seq<char> {
    "BU_:"@ + sp_render_node_names(names) + seq!['\n']
}

/// The node names joined by single spaces, no leading space.
pub open spec fn sp_join_space(names: Seq<Seq<char>>) -> Seq<char>
    decreases names.len(),
{
    if names.len() == 0 {
        Seq::<char>::empty()
    } else if names.len() == 1 {
        names[0]
    } else {
        names[0] + seq![' '] + sp_join_space(names.drop_first())
    }
}

/// The joined names decompose at the back as well as at the front.
proof fn lemma_join_space_last(names: Seq<Seq<char>>)
    requires
        names.len() >= 2,
    ensures
        sp_join_space(names) == sp_join_space(names.drop_last()) + seq![' '] + names.last(),
    decreases names.len(),
{
    if names.len() == 2 {
        assert(names.drop_first().len() == 1);
        assert(names.drop_first()[0] == names[1]);
        assert(names.drop_last().len() == 1);
        assert(names.drop_last()[0] == names[0]);
        assert(names[0] + seq![' '] + names[1] =~= sp_join_space(names.drop_last()) + seq![' ']
            + names.last());
        assert(sp_join_space(names) == names[0] + seq![' '] + sp_join_space(names.drop_first()));
        assert(sp_join_space(names.drop_first()) == names[1]);
        assert(sp_join_space(names) =~= sp_join_space(names.drop_last()) + seq![' ']
            + names.last());
    } else {
        lemma_join_space_last(names.drop_first());
        assert(names.drop_first().drop_last() =~= names.drop_last().drop_first());
        assert(names.drop_first().last() == names.last());
        assert(names.drop_last()[0] == names[0]);
        assert(names[0] + seq![' '] + (sp_join_space(names.drop_last().drop_first()) + seq![' ']
            + names.last()) =~= (names[0] + seq![' '] + sp_join_space(
            names.drop_last().drop_first(),
        )) + seq![' '] + names.last());
        assert(sp_join_space(names) =~= sp_join_space(names.drop_last()) + seq![' ']
            + names.last());
    }
}

/// The rendered name run is one leading space, then the joined names.
proof fn lemma_render_is_join(names: Seq<Seq<char>>)
    requires
        names.len() >= 1,
    ensures
        sp_render_node_names(names) == seq![' '] + sp_join_space(names),
    decreases names.len(),
{
    if names.len() == 1 {
        assert(Seq::<char>::empty() + seq![' '] + names[0] =~= seq![' '] + names[0]);
        assert(names.drop_last().len() == 0);
        assert(sp_render_node_names(names.drop_last()) =~= Seq::<char>::empty());
        assert(sp_render_node_names(names) =~= seq![' '] + sp_join_space(names));
    } else {
        lemma_render_is_join(names.drop_last());
        lemma_join_space_last(names);
        assert((seq![' '] + sp_join_space(names.drop_last())) + seq![' '] + names.last()
            =~= seq![' '] + (sp_join_space(names.drop_last()) + seq![' '] + names.last()));
        assert(sp_render_node_names(names) =~= seq![' '] + sp_join_space(names));
    }
}

/// Scanning the joined names from the first name's position yields the
/// names back in order, when a line break stands after the run.
proof fn lemma_node_items_scan(names: Seq<Seq<char>>, s: Seq<char>, i: int)
    requires
        0 <= i,
        i + sp_join_space(names).len() <= s.len(),
        s.subrange(i, i + sp_join_space(names).len() as int) == sp_join_space(names),
        forall|k: int| 0 <= k < names.len() ==> crate::lexer::wf_ident(#[trigger] names[k]),
        ({
            let after = i + sp_join_space(names).len();
            after == s.len() || s[after] == '\n'
        }),
    ensures
        sp_node_items(s, i) == (names, i + sp_join_space(names).len() as int),
    decreases names.len(),
{
    let r = sp_join_space(names);
    let after = i + r.len() as int;
    assert forall|k: int| 0 <= k < r.len() implies s[i + k] == #[trigger] r[k] by {
        assert(s.subrange(i, i + r.len() as int)[k] == s[i + k]);
    }
    if names.len() == 0 {
        assert(crate::lexer::sp_skip_spaces(s, i) == i);
        assert(sp_node_item(s, i) is None);
    } else {
        let first = names[0];
        let e = i + first.len() as int;
        assert forall|k: int| 0 <= k < first.len() implies #[trigger] first[k] == r[k] by {}
        assert(s.subrange(i, e) =~= first) by {
            assert forall|k: int| 0 <= k < first.len() implies s.subrange(i, e)[k]
                == first[k] by {
                assert(s.subrange(i, e)[k] == s[i + k]);
            }
        }
        assert(s[i] == first[0]);
        assert(crate::lexer::is_ident_start(first[0]));
        assert(crate::lexer::sp_skip_spaces(s, i) == i);
        if names.len() == 1 {
            assert(e == after);
            assert(e == s.len() || s[e] == '\n');
            crate::lexer::lemma_ident_round_trip(first, s, i);
            assert(crate::lexer::sp_skip_spaces(s, e) == e);
            assert(sp_node_item(s, i) == Some((first, e)));
            assert(s.subrange(e, e) =~= sp_join_space(names.drop_first()));
            lemma_node_items_scan(names.drop_first(), s, e);
            assert(seq![first] + Seq::<Seq<char>>::empty() =~= names);
        } else {
            let rest = names.drop_first();
            assert(r == first + seq![' '] + sp_join_space(rest));
            assert(r[first.len() as int] == ' ');
            assert(s[e] == ' ');
            crate::lexer::lemma_ident_round_trip(first, s, i);
            assert(rest[0] == names[1]);
            assert(crate::lexer::is_ident_start(rest[0][0]));
            assert(sp_join_space(rest)[0] == rest[0][0]) by {
                if rest.len() == 1 {
                } else {
                    assert(sp_join_space(rest)[0] == (rest[0] + seq![' '] + sp_join_space(
                        rest.drop_first(),
                    ))[0]);
                }
            }
            assert(r[first.len() + 1int] == sp_join_space(rest)[0]);
            assert(s[e + 1] == sp_join_space(rest)[0]);
            assert(!crate::lexer::is_space(s[e + 1]));
            assert(crate::lexer::sp_skip_spaces(s, e + 1) == e + 1);
            assert(crate::lexer::sp_skip_spaces(s, e) == e + 1);
            assert(sp_node_item(s, i) == Some((first, e + 1)));
            assert(s.subrange(e + 1, after) =~= sp_join_space(rest)) by {
                assert forall|k: int| 0 <= k < sp_join_space(rest).len() implies s.subrange(
                    e + 1,
                    after,
                )[k] == sp_join_space(rest)[k] by {
                    assert(s.subrange(e + 1, after)[k] == s[e + 1 + k]);
                    assert(s[i + (first.len() + 1int + k)] == r[first.len() + 1int + k]);
                    assert(r[first.len() + 1int + k] == sp_join_space(rest)[k]);
                }
            }
            lemma_node_items_scan(rest, s, e + 1);
            assert(seq![first] + rest =~= names);
        }
    }
}

/// Parsing a rendered node list line yields the names it was rendered
/// from, in their order, whatever text follows the line break, as long as
/// that text starts with no line-break character.  One whole section of
/// the parse-render-parse round trip.
pub proof fn lemma_nodes_round_trip(names: Seq<Seq<char>>, rest: Seq<char>)
    requires
        forall|k: int| 0 <= k < names.len() ==> crate::lexer::wf_ident(#[trigger] names[k]),
        rest.len() == 0 || (rest[0] != '\n' && rest[0] != '\r'),
    ensures
        sp_nodes(sp_render_nodes(names) + rest, 0) == Some(
            (names, sp_render_nodes(names).len() as int),
        ),
{
    let r = sp_render_nodes(names);
    let s = r + rest;
    reveal_strlit("BU_:");
    reveal_strlit("BU_");
    reveal_strlit(":");
    assert forall|k: int| 0 <= k < r.len() implies s[k] == #[trigger] r[k] by {}
    assert(s[0] == 'B' && s[1] == 'U' && s[2] == '_' && s[3] == ':');
    assert(crate::lexer::sp_skip_multispaces(s, 0) == 0);
    assert(s.subrange(0, 3) =~= "BU_"@);
    assert(crate::lexer::sp_tag_end(s, 0, "BU_"@) == Some(3int));
    assert(crate::lexer::sp_skip_multispaces(s, 3) == 3);
    assert(crate::lexer::sp_skip_spaces(s, 3) == 3);
    assert(s.subrange(3, 4) =~= ":"@);
    assert(crate::lexer::sp_tag_end(s, 3, ":"@) == Some(4int));
    if names.len() == 0 {
        assert(r == "BU_:"@ + sp_render_node_names(names) + seq!['\n']);
        assert(sp_render_node_names(names) =~= Seq::<char>::empty());
        assert(s[4] == '\n');
        assert(crate::lexer::sp_skip_spaces(s, 4) == 4);
        assert(sp_join_space(names).len() == 0);
        assert(s.subrange(4, 4) =~= sp_join_space(names));
        lemma_node_items_scan(names, s, 4);
        assert(r.len() == 5);
        assert(5 == s.len() || (s[5] != '\n' && s[5] != '\r'));
        assert(crate::lexer::sp_skip_line_endings(s, 5) == 5);
        assert(crate::lexer::sp_skip_line_endings(s, 4) == 5);
    } else {
        lemma_render_is_join(names);
        let j = sp_join_space(names);
        assert(r == "BU_:"@ + (seq![' '] + j) + seq!['\n']);
        assert(r[4] == ' ') by {
            assert(("BU_:"@ + (seq![' '] + j) + seq!['\n'])[4] == (seq![' '] + j)[0]);
        }
        assert(s[4] == ' ');
        assert(j[0] == names[0][0]) by {
            if names.len() == 1 {
            } else {
                assert(j[0] == (names[0] + seq![' '] + sp_join_space(names.drop_first()))[0]);
            }
        }
        assert(r[5] == j[0]) by {
            assert(("BU_:"@ + (seq![' '] + j) + seq!['\n'])[5] == (seq![' '] + j)[1]);
        }
        assert(s[5] == j[0]);
        assert(crate::lexer::is_ident_start(names[0][0]));
        assert(!crate::lexer::is_space(s[5]));
        assert(crate::lexer::sp_skip_spaces(s, 5) == 5);
        assert(crate::lexer::sp_skip_spaces(s, 4) == 5);
        let after = 5 + j.len() as int;
        assert(s.subrange(5, after) =~= j) by {
            assert forall|k: int| 0 <= k < j.len() implies s.subrange(5, after)[k] == j[k] by {
                assert(s.subrange(5, after)[k] == s[5 + k]);
                assert(s[5 + k] == r[5 + k]);
            }
        }
        assert(s[after] == r[after] && r[after] == '\n');
        lemma_node_items_scan(names, s, 5);
        assert(after + 1 == r.len());
        assert(after + 1 == s.len() || (s[after + 1] != '\n' && s[after + 1] != '\r'));
        assert(crate::lexer::sp_skip_line_endings(s, after + 1) == after + 1);
        assert(crate::lexer::sp_skip_line_endings(s, after) == after + 1);
    }
}

impl Nodes {
    /// Render the node list line.
    pub fn to_text(&self) -> (r: String)
        ensures
            r@ == sp_render_nodes(self@),
    {
        let mut out: String = String::from_str("BU_:");
        proof {
            reveal_strlit(" ");
            reveal_strlit("\n");
            assert(self@.take(0) =~= Seq::<Seq<char>>::empty());
            assert(out@ =~= "BU_:"@ + sp_render_node_names(self@.take(0)));
        }
        let n: usize = self.0.len();
        let mut k: usize = 0;
        while k < n
            invariant
                k <= n,
                n == self.0.len(),
                out@ == "BU_:"@ + sp_render_node_names(self@.take(k as int)),
            decreases n - k,
        {
            out.append(" ");
            let name: &String = &self.0[k];
            out.append(name.as_str());
            proof {
                reveal_strlit(" ");
                let t = self@.take(k + 1);
                assert(t.drop_last() =~= self@.take(k as int));
                assert(t.last() == self@[k as int]);
                assert(" "@ =~= seq![' ']);
                assert(out@ =~= "BU_:"@ + sp_render_node_names(self@.take(k + 1)));
            }
            k = k + 1;
        }
        out.append("\n");
        proof {
            reveal_strlit("\n");
            assert(self@.take(n as int) =~= self@);
            assert("\n"@ =~= seq!['\n']);
            assert(out@ =~= sp_render_nodes(self@));
        }
        out
    }
}

} // verus!
