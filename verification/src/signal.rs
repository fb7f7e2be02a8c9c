//! The signal line grammar.
//!
//! Format: `SG_ <name> [m<N>][M] : <start>|<length>@<order><sign>
//! (<factor>,<offset>) [<min>|<max>] "<unit>" <receivers>` where the
//! multiplexing indicator, the range, the unit and the receiver list are
//! optional.

use vstd::prelude::*;

use crate::char_string::{quote_seq, CharString, parser_char_string};
use crate::error::DbcParseError;
use crate::lexer::{dbc_ident, parse_u32, skip_line_endings, skip_multispaces, skip_spaces,
    sp_dbc_ident, sp_many0, sp_quoted, sp_skip_line_endings, sp_skip_multispaces, sp_skip_spaces,
    sp_tag_end, sp_u32, tag};
use crate::number::{Number, parser_number};
use crate::text::{dec_digits, append_u32};

verus! {

/// The multiplexing role of a signal: multiplexed under a switch value,
/// the switch itself, or both at once as some dialects write it.
#[derive(Clone, Copy, Debug, PartialEq, Eq)]
pub struct MultiplexerIndicator {
    /// `m<N>`: the signal is active when the switch signal equals `N`.
    pub multiplexer_signal: Option<u32>,
    /// `M`: the signal is the multiplexer switch.
    pub multiplexer_switch: Option<()>,
}

/// Endianness of a signal: `1` is little-endian, `0` is big-endian.
#[derive(Clone, Copy, Debug, PartialEq, Eq, Structural)]
pub enum ByteOrder {
    LittleEndian,
    BigEndian,
}

/// Signedness of a signal: `+` is unsigned, `-` is signed.
#[derive(Clone, Copy, Debug, PartialEq, Eq, Structural)]
pub enum ValueType {
    Signed,
    Unsigned,
}

/// One signal of a message.
#[derive(Clone, Debug, PartialEq, Eq)]
pub struct Signal {
    pub name: String,
    pub multiplexer: Option<MultiplexerIndicator>,
    pub start_bit: u32,
    pub size: u32,
    pub byte_order: ByteOrder,
    pub value_type: ValueType,
    pub factor: Number,
    pub offset: Number,
    pub min: Option<Number>,
    pub max: Option<Number>,
    pub unit: Option<CharString>,
    pub receivers: Option<Vec<String>>,
}

/// The mathematical value of one signal.
pub ghost struct SignalView {
    pub name: Seq<char>,
    pub multiplexer: Option<MultiplexerIndicator>,
    pub start_bit: u32,
    pub size: u32,
    pub byte_order: ByteOrder,
    pub value_type: ValueType,
    pub factor: Seq<char>,
    pub offset: Seq<char>,
    pub min: Option<Seq<char>>,
    pub max: Option<Seq<char>>,
    pub unit: Option<Seq<char>>,
    pub receivers: Option<Seq<Seq<char>>>,
}

impl View for Signal {
    type V = SignalView;

    open spec fn view(&self) -> SignalView {
        SignalView {
            name: self.name@,
            multiplexer: self.multiplexer,
            start_bit: self.start_bit,
            size: self.size,
            byte_order: self.byte_order,
            value_type: self.value_type,
            factor: self.factor@,
            offset: self.offset@,
            min: match self.min {
                Some(ref v) => Some(v@),
                None => None,
            },
            max: match self.max {
                Some(ref v) => Some(v@),
                None => None,
            },
            unit: match self.unit {
                Some(ref v) => Some(v@),
                None => None,
            },
            receivers: match self.receivers {
                Some(ref v) => Some(v.deep_view()),
                None => None,
            },
        }
    }
}

impl DeepView for Signal {
    type V = SignalView;

    open spec fn deep_view(&self) -> SignalView {
        self.view()
    }
}

// ---------------------------------------------------------------------------
// Parsing
// ---------------------------------------------------------------------------

/// The multiplexing indicator at `i`: an optional `m<N>`, then an optional
/// `M`; nothing at all means no indicator.
pub open spec fn sp_multiplexer(s: Seq<char>, i: int) -> (Option<MultiplexerIndicator>, int) {
    let (msig, i1): (Option<u32>, int) = if i < s.len() && s[i] == 'm' {
        match sp_u32(s, i + 1) {
            Some((v, j)) => (Some(v), j),
            None => (None, i),
        }
    } else {
        (None, i)
    };
    let (msw, i2): (Option<()>, int) = if i1 < s.len() && s[i1] == 'M' {
        (Some(()), i1 + 1)
    } else {
        (None, i1)
    };
    if msig is None && msw is None {
        (None, i2)
    } else {
        (Some(MultiplexerIndicator { multiplexer_signal: msig, multiplexer_switch: msw }), i2)
    }
}

/// Match the multiplexing indicator.
pub fn parser_signal_multiplexer(s: &str, i: usize) -> (r: (Option<MultiplexerIndicator>, usize))
    requires
        i <= s@.len(),
    ensures
        sp_multiplexer(s@, i as int) == (r.0, r.1 as int),
        i <= r.1 <= s@.len(),
{
    let n: usize = s.unicode_len();
    let mut msig: Option<u32> = None;
    let mut i1: usize = i;
    if i < n && s.get_char(i) == 'm' {
        match parse_u32(s, i + 1) {
            Some((v, j)) => {
                msig = Some(v);
                i1 = j;
            },
            None => {},
        }
    }
    let mut msw: Option<()> = None;
    let mut i2: usize = i1;
    if i1 < n && s.get_char(i1) == 'M' {
        msw = Some(());
        i2 = i1 + 1;
    }
    if msig.is_none() && msw.is_none() {
        (None, i2)
    } else {
        (Some(MultiplexerIndicator { multiplexer_signal: msig, multiplexer_switch: msw }), i2)
    }
}

/// The factor/offset pair at `i`: `( <number> , <number> )`.
pub open spec fn sp_factor_offset(s: Seq<char>, i: int) -> Option<((Seq<char>, Seq<char>), int)> {
    let i1 = sp_skip_spaces(s, i);
    match sp_tag_end(s, i1, "("@) {
        None => None,
        Some(i2) => {
            let i3 = sp_skip_spaces(s, i2);
            match crate::lexer::sp_number(s, i3) {
                None => None,
                Some(j) => {
                    let factor = s.subrange(i3, j);
                    let i4 = sp_skip_spaces(s, j);
                    match sp_tag_end(s, i4, ","@) {
                        None => None,
                        Some(i5) => {
                            let i6 = sp_skip_spaces(s, i5);
                            match crate::lexer::sp_number(s, i6) {
                                None => None,
                                Some(j2) => {
                                    let offset = s.subrange(i6, j2);
                                    let i7 = sp_skip_spaces(s, j2);
                                    match sp_tag_end(s, i7, ")"@) {
                                        None => None,
                                        Some(i8) => Some(
                                            ((factor, offset), sp_skip_spaces(s, i8)),
                                        ),
                                    }
                                },
                            }
                        },
                    }
                },
            }
        },
    }
}

/// Match the factor/offset pair.
fn parse_factor_offset(s: &str, i: usize) -> (r: Option<((Number, Number), usize)>)
    requires
        i <= s@.len(),
    ensures
        match r {
            Some(((f, o), j)) => sp_factor_offset(s@, i as int) == Some(((f@, o@), j as int)) && i
                <= j <= s@.len(),
            None => sp_factor_offset(s@, i as int) is None,
        },
{
    let i1: usize = skip_spaces(s, i);
    match tag(s, i1, "(") {
        None => None,
        Some(i2) => {
            let i3: usize = skip_spaces(s, i2);
            match parser_number(s, i3) {
                Err(_) => None,
                Ok((factor, j)) => {
                    let i4: usize = skip_spaces(s, j);
                    match tag(s, i4, ",") {
                        None => None,
                        Some(i5) => {
                            let i6: usize = skip_spaces(s, i5);
                            match parser_number(s, i6) {
                                Err(_) => None,
                                Ok((offset, j2)) => {
                                    let i7: usize = skip_spaces(s, j2);
                                    match tag(s, i7, ")") {
                                        None => None,
                                        Some(i8) => {
                                            let j3: usize = skip_spaces(s, i8);
                                            Some(((factor, offset), j3))
                                        },
                                    }
                                },
                            }
                        },
                    }
                },
            }
        },
    }
}

/// The range pair at `i`: `[ <number> | <number> ]`.
pub open spec fn sp_min_max(s: Seq<char>, i: int) -> Option<((Seq<char>, Seq<char>), int)> {
    let i1 = sp_skip_spaces(s, i);
    match sp_tag_end(s, i1, "["@) {
        None => None,
        Some(i2) => {
            let i3 = sp_skip_spaces(s, i2);
            match crate::lexer::sp_number(s, i3) {
                None => None,
                Some(j) => {
                    let mn = s.subrange(i3, j);
                    let i4 = sp_skip_spaces(s, j);
                    match sp_tag_end(s, i4, "|"@) {
                        None => None,
                        Some(i5) => {
                            let i6 = sp_skip_spaces(s, i5);
                            match crate::lexer::sp_number(s, i6) {
                                None => None,
                                Some(j2) => {
                                    let mx = s.subrange(i6, j2);
                                    let i7 = sp_skip_spaces(s, j2);
                                    match sp_tag_end(s, i7, "]"@) {
                                        None => None,
                                        Some(i8) => Some(((mn, mx), sp_skip_spaces(s, i8))),
                                    }
                                },
                            }
                        },
                    }
                },
            }
        },
    }
}

/// Match the range pair.
fn parse_min_max(s: &str, i: usize) -> (r: Option<((Number, Number), usize)>)
    requires
        i <= s@.len(),
    ensures
        match r {
            Some(((mn, mx), j)) => sp_min_max(s@, i as int) == Some(((mn@, mx@), j as int)) && i
                <= j <= s@.len(),
            None => sp_min_max(s@, i as int) is None,
        },
{
    let i1: usize = skip_spaces(s, i);
    match tag(s, i1, "[") {
        None => None,
        Some(i2) => {
            let i3: usize = skip_spaces(s, i2);
            match parser_number(s, i3) {
                Err(_) => None,
                Ok((mn, j)) => {
                    let i4: usize = skip_spaces(s, j);
                    match tag(s, i4, "|") {
                        None => None,
                        Some(i5) => {
                            let i6: usize = skip_spaces(s, i5);
                            match parser_number(s, i6) {
                                Err(_) => None,
                                Ok((mx, j2)) => {
                                    let i7: usize = skip_spaces(s, j2);
                                    match tag(s, i7, "]") {
                                        None => None,
                                        Some(i8) => {
                                            let j3: usize = skip_spaces(s, i8);
                                            Some(((mn, mx), j3))
                                        },
                                    }
                                },
                            }
                        },
                    }
                },
            }
        },
    }
}

/// One receiver name surrounded by optional spaces.
pub open spec fn sp_receiver_item(s: Seq<char>, i: int) -> Option<(Seq<char>, int)> {
    let i1 = sp_skip_spaces(s, i);
    match sp_dbc_ident(s, i1) {
        None => None,
        Some(j) => Some((s.subrange(i1, j), sp_skip_spaces(s, j))),
    }
}

/// A comma followed by one more receiver name; a comma not followed by a
/// name is left unconsumed.
pub open spec fn sp_receiver_more(s: Seq<char>, i: int) -> Option<(Seq<char>, int)> {
    match sp_tag_end(s, i, ","@) {
        None => None,
        Some(i1) => sp_receiver_item(s, i1),
    }
}

/// Zero or more further receiver names, each behind a comma.
pub open spec fn sp_receiver_mores(s: Seq<char>, i: int) -> (Seq<Seq<char>>, int) {
    sp_many0(|s2: Seq<char>, i2: int| sp_receiver_more(s2, i2), s, i)
}

/// The comma-separated receiver list at `i`; it may be empty.
pub open spec fn sp_receivers(s: Seq<char>, i: int) -> (Seq<Seq<char>>, int) {
    match sp_receiver_item(s, i) {
        None => (seq![], i),
        Some((first, j)) => {
            let (rest, end) = sp_receiver_mores(s, j);
            (seq![first] + rest, end)
        },
    }
}

/// Match one receiver name.
fn parse_receiver_item(s: &str, i: usize) -> (r: Option<(String, usize)>)
    requires
        i <= s@.len(),
    ensures
        match r {
            Some((t, j)) => sp_receiver_item(s@, i as int) == Some((t@, j as int)) && i < j
                <= s@.len(),
            None => sp_receiver_item(s@, i as int) is None,
        },
{
    let i1: usize = skip_spaces(s, i);
    match dbc_ident(s, i1) {
        Err(_) => None,
        Ok((t, j)) => {
            let j2: usize = skip_spaces(s, j);
            Some((t, j2))
        },
    }
}

/// Match the comma-separated receiver list.
pub(crate) fn parse_receivers(s: &str, i: usize) -> (r: (Vec<String>, usize))
    requires
        i <= s@.len(),
    ensures
        sp_receivers(s@, i as int) == (r.0.deep_view(), r.1 as int),
        i <= r.1 <= s@.len(),
{
    let mut names: Vec<String> = Vec::new();
    match parse_receiver_item(s, i) {
        None => {
            proof {
                assert(names.deep_view() =~= Seq::<Seq<char>>::empty());
                assert(sp_receivers(s@, i as int) == (Seq::<Seq<char>>::empty(), i as int));
            }
            (names, i)
        },
        Some((first, j)) => {
            names.push(first);
            let mut cur: usize = j;
            loop
                invariant
                    j <= cur <= s@.len(),
                    names.deep_view().len() >= 1,
                    sp_receiver_mores(s@, j as int).0 == names.deep_view().skip(1) + sp_receiver_mores(s@, cur as int).0,
                    sp_receiver_mores(s@, j as int).1 == sp_receiver_mores(s@, cur as int).1,
                    names.deep_view()[0] == first@,
                ensures
                    cur <= s@.len(),
                    sp_receiver_mores(s@, j as int).0 == names.deep_view().skip(1),
                    sp_receiver_mores(s@, j as int).1 == cur as int,
                    names.deep_view().len() >= 1,
                    names.deep_view()[0] == first@,
                decreases s@.len() - cur,
            {
                let ghost prev = names.deep_view();
                let more: Option<(String, usize)> = match tag(s, cur, ",") {
                    None => None,
                    Some(i1) => parse_receiver_item(s, i1),
                };
                match more {
                    None => {
                        proof {
                            assert(sp_receiver_more(s@, cur as int) is None);
                            assert(sp_receiver_mores(s@, cur as int) == (Seq::<Seq<char>>::empty(),
                            cur as int));
                            assert(prev.skip(1) + Seq::<Seq<char>>::empty() =~= prev.skip(1));
                        }
                        break ;
                    },
                    Some((name, j2)) => {
                        proof {
                            assert(sp_receiver_more(s@, cur as int) == Some((name@, j2 as int)));
                            assert(sp_receiver_mores(s@, cur as int).0 == seq![name@]
                                + sp_receiver_mores(s@, j2 as int).0);
                            assert(sp_receiver_mores(s@, cur as int).1 == sp_receiver_mores(
                                s@,
                                j2 as int,
                            ).1);
                        }
                        names.push(name);
                        proof {
                            assert(names.deep_view() =~= prev + seq![name@]);
                            assert(names.deep_view().skip(1) =~= prev.skip(1) + seq![name@]);
                            assert(prev.skip(1) + (seq![name@] + sp_receiver_mores(
                                s@,
                                j2 as int,
                            ).0) =~= (prev.skip(1) + seq![name@]) + sp_receiver_mores(
                                s@,
                                j2 as int,
                            ).0);
                        }
                        cur = j2;
                    },
                }
            }
            proof {
                assert(names.deep_view() =~= seq![first@] + names.deep_view().skip(1));
                assert(sp_receivers(s@, i as int) == (names.deep_view(), cur as int));
            }
            (names, cur)
        },
    }
}

/// The comma-joined names decompose at the front as well as at the back.
pub proof fn lemma_join_comma_first(names: Seq<Seq<char>>)
    requires
        names.len() >= 2,
    ensures
        sp_join_comma(names) == names[0] + seq![','] + sp_join_comma(names.drop_first()),
    decreases names.len(),
{
    if names.len() == 2 {
        assert(names.drop_first().len() == 1);
        assert(names.drop_first()[0] == names[1]);
        assert(names.drop_last().len() == 1);
        assert(names.drop_last()[0] == names[0]);
        assert(sp_join_comma(names) == sp_join_comma(names.drop_last()) + seq![',']
            + names.last());
        assert(sp_join_comma(names) =~= names[0] + seq![','] + sp_join_comma(
            names.drop_first(),
        ));
    } else {
        lemma_join_comma_first(names.drop_last());
        assert(names.drop_last()[0] == names[0]);
        assert(names.drop_last().drop_first() =~= names.drop_first().drop_last());
        assert(names.drop_first().last() == names.last());
        assert(sp_join_comma(names.drop_first()) == sp_join_comma(
            names.drop_first().drop_last(),
        ) + seq![','] + names.drop_first().last());
        assert((names[0] + seq![','] + sp_join_comma(names.drop_last().drop_first())) + seq![',']
            + names.last() =~= names[0] + seq![','] + (sp_join_comma(
            names.drop_first().drop_last(),
        ) + seq![','] + names.last()));
        assert(sp_join_comma(names) =~= names[0] + seq![','] + sp_join_comma(
            names.drop_first(),
        ));
    }
}

/// A character that surely ends a comma-joined name list.
pub open spec fn ends_name_list(c: char) -> bool {
    !(crate::lexer::is_space(c) || crate::lexer::is_ident_char(c) || c == ',')
}

/// Scanning the continuation of the list (a comma before each further
/// name) yields the names back in order.
proof fn lemma_receiver_mores_scan(names: Seq<Seq<char>>, s: Seq<char>, i: int)
    requires
        0 <= i,
        ({
            let body = if names.len() == 0 {
                Seq::<char>::empty()
            } else {
                seq![','] + sp_join_comma(names)
            };
            &&& i + body.len() <= s.len()
            &&& s.subrange(i, i + body.len() as int) == body
            &&& (i + body.len() == s.len() || ends_name_list(s[i + body.len()]))
        }),
        forall|k: int| 0 <= k < names.len() ==> crate::lexer::wf_ident(#[trigger] names[k]),
    ensures
        ({
            let body = if names.len() == 0 {
                Seq::<char>::empty()
            } else {
                seq![','] + sp_join_comma(names)
            };
            sp_receiver_mores(s, i) == (names, i + body.len() as int)
        }),
    decreases names.len(),
{
    if names.len() == 0 {
        assert(!crate::lexer::sp_tag_at(s, i, ","@)) by {
            reveal_strlit(",");
            if crate::lexer::sp_tag_at(s, i, ","@) {
                assert(s.subrange(i, i + 1)[0] == s[i]);
            }
        }
        assert(sp_receiver_more(s, i) is None);
    } else {
        let first = names[0];
        let rest = names.drop_first();
        let j = sp_join_comma(names);
        let body = seq![','] + j;
        if rest.len() > 0 {
            lemma_join_comma_first(names);
        }
        assert forall|k: int| 0 <= k < body.len() implies s[i + k] == #[trigger] body[k] by {
            assert(s.subrange(i, i + body.len() as int)[k] == s[i + k]);
        }
        assert(j[0] == first[0] && (rest.len() == 0 || j[first.len() as int] == ',')) by {
            if rest.len() == 0 {
            } else {
                assert(j == first + seq![','] + sp_join_comma(rest));
                assert((first + seq![','] + sp_join_comma(rest))[0] == first[0]);
                assert((first + seq![','] + sp_join_comma(rest))[first.len() as int] == ',');
            }
        }
        assert(s[i] == ',') by {
            assert(s.subrange(i, i + body.len() as int)[0] == s[i]);
            assert(body[0] == ',');
        }
        assert(crate::lexer::sp_tag_end(s, i, ","@) == Some(i + 1)) by {
            reveal_strlit(",");
            assert(s.subrange(i, i + 1) =~= ","@);
        }
        assert(s[i + 1] == j[0]) by {
            assert(s.subrange(i, i + body.len() as int)[1] == s[i + 1]);
            assert(body[1] == j[0]);
        }
        assert(crate::lexer::is_ident_start(first[0]));
        assert(!crate::lexer::is_space(s[i + 1]));
        assert(crate::lexer::sp_skip_spaces(s, i + 1) == i + 1);
        let e = i + 1 + first.len() as int;
        assert(s.subrange(i + 1, e) =~= first) by {
            assert forall|k: int| 0 <= k < first.len() implies s.subrange(i + 1, e)[k]
                == first[k] by {
                assert(s.subrange(i + 1, e)[k] == s[i + 1 + k]);
                assert(body[1 + k] == j[k]);
                if rest.len() > 0 {
                    assert(j[k] == (first + seq![','] + sp_join_comma(rest))[k]);
                }
            }
        }
        assert(e == s.len() || !crate::lexer::is_ident_char(s[e])) by {
            if rest.len() == 0 {
            } else {
                assert(s[i + (1 + first.len() as int)] == body[1 + first.len() as int]);
                assert(body[1 + first.len() as int] == j[first.len() as int]);
                assert(s[e] == ',');
            }
        }
        crate::lexer::lemma_ident_round_trip(first, s, i + 1);
        assert(e == s.len() || !crate::lexer::is_space(s[e])) by {
            if rest.len() > 0 {
                assert(s[i + (1 + first.len() as int)] == body[1 + first.len() as int]);
                assert(body[1 + first.len() as int] == j[first.len() as int]);
                assert(s[e] == ',');
            }
        }
        assert(crate::lexer::sp_skip_spaces(s, e) == e);
        assert(sp_receiver_more(s, i) == Some((first, e)));
        let body2 = if rest.len() == 0 {
            Seq::<char>::empty()
        } else {
            seq![','] + sp_join_comma(rest)
        };
        assert(s.subrange(e, e + body2.len() as int) =~= body2) by {
            if rest.len() > 0 {
                assert(j =~= first + seq![','] + sp_join_comma(rest));
                assert forall|k: int| 0 <= k < body2.len() implies s.subrange(
                    e,
                    e + body2.len() as int,
                )[k] == body2[k] by {
                    assert(s.subrange(e, e + body2.len() as int)[k] == s[e + k]);
                    assert(s[i + (1 + first.len() + k)] == body[1 + first.len() + k]);
                    assert(body[1 + first.len() + k] == j[first.len() + k]);
                    assert(j[first.len() + k] == (first + seq![','] + sp_join_comma(
                        rest,
                    ))[first.len() + k]);
                }
            }
        }
        lemma_receiver_mores_scan(rest, s, e);
        assert(seq![first] + rest =~= names);
    }
}

/// Scanning a comma-joined name list from the first name's position yields
/// the names back in order: the round trip of the comma-separated name
/// lists that receivers and access nodes are written as.
pub proof fn lemma_receivers_scan(names: Seq<Seq<char>>, s: Seq<char>, i: int)
    requires
        names.len() >= 1,
        0 <= i,
        i + sp_join_comma(names).len() <= s.len(),
        s.subrange(i, i + sp_join_comma(names).len() as int) == sp_join_comma(names),
        forall|k: int| 0 <= k < names.len() ==> crate::lexer::wf_ident(#[trigger] names[k]),
        i + sp_join_comma(names).len() == s.len() || ends_name_list(
            s[i + sp_join_comma(names).len()],
        ),
    ensures
        sp_receivers(s, i) == (names, i + sp_join_comma(names).len() as int),
{
    let first = names[0];
    let rest = names.drop_first();
    let j = sp_join_comma(names);
    let after = i + j.len() as int;
    if rest.len() > 0 {
        lemma_join_comma_first(names);
    }
    assert forall|k: int| 0 <= k < j.len() implies s[i + k] == #[trigger] j[k] by {
        assert(s.subrange(i, i + j.len() as int)[k] == s[i + k]);
    }
    assert(j[0] == first[0]) by {
        if rest.len() > 0 {
            assert(j[0] == (first + seq![','] + sp_join_comma(rest))[0]);
        }
    }
    assert(s[i] == first[0]);
    assert(crate::lexer::is_ident_start(first[0]));
    assert(crate::lexer::sp_skip_spaces(s, i) == i);
    let e = i + first.len() as int;
    assert(s.subrange(i, e) =~= first) by {
        assert forall|k: int| 0 <= k < first.len() implies s.subrange(i, e)[k] == first[k] by {
            assert(s.subrange(i, e)[k] == s[i + k]);
            if rest.len() > 0 {
                assert(j[k] == (first + seq![','] + sp_join_comma(rest))[k]);
            }
        }
    }
    assert(rest.len() == 0 || j[first.len() as int] == ',') by {
        if rest.len() > 0 {
            assert(j[first.len() as int] == (first + seq![','] + sp_join_comma(
                rest,
            ))[first.len() as int]);
        }
    }
    assert(e == s.len() || !crate::lexer::is_ident_char(s[e])) by {
        if rest.len() > 0 {
            assert(s[e] == ',');
        }
    }
    crate::lexer::lemma_ident_round_trip(first, s, i);
    assert(e == s.len() || !crate::lexer::is_space(s[e])) by {
        if rest.len() > 0 {
            assert(s[e] == ',');
        }
    }
    assert(crate::lexer::sp_skip_spaces(s, e) == e);
    assert(sp_receiver_item(s, i) == Some((first, e)));
    let body2 = if rest.len() == 0 {
        Seq::<char>::empty()
    } else {
        seq![','] + sp_join_comma(rest)
    };
    assert(s.subrange(e, e + body2.len() as int) =~= body2) by {
        if rest.len() > 0 {
            assert(j =~= first + seq![','] + sp_join_comma(rest));
            assert forall|k: int| 0 <= k < body2.len() implies s.subrange(
                e,
                e + body2.len() as int,
            )[k] == body2[k] by {
                assert(s.subrange(e, e + body2.len() as int)[k] == s[e + k]);
                assert(s[i + (first.len() + k)] == j[first.len() + k]);
                assert(j[first.len() + k] == (first + seq![','] + sp_join_comma(
                    rest,
                ))[first.len() + k]);
            }
        }
    }
    lemma_receiver_mores_scan(rest, s, e);
    assert(seq![first] + rest =~= names);
}

/// The signal line at `i`.
pub open spec fn sp_signal(s: Seq<char>, i: int) -> Option<(SignalView, int)> {
    let i1 = sp_skip_multispaces(s, i);
    match sp_tag_end(s, i1, "SG_"@) {
        None => None,
        Some(i2) => {
            let i3 = sp_skip_multispaces(s, i2);
            let i4 = sp_skip_spaces(s, i3);
            match sp_dbc_ident(s, i4) {
                None => None,
                Some(jn) => {
                    let name = s.subrange(i4, jn);
                    let i5 = sp_skip_spaces(s, jn);
                    let (mux, i6) = sp_multiplexer(s, i5);
                    let i7 = sp_skip_spaces(s, i6);
                    match sp_tag_end(s, i7, ":"@) {
                        None => None,
                        Some(i8) => {
                            let i9 = sp_skip_spaces(s, i8);
                            match sp_u32(s, i9) {
                                None => None,
                                Some((start_bit, j1)) => {
                                    let i10 = sp_skip_spaces(s, j1);
                                    match sp_tag_end(s, i10, "|"@) {
                                        None => None,
                                        Some(i11) => {
                                            let i12 = sp_skip_spaces(s, i11);
                                            match sp_u32(s, i12) {
                                                None => None,
                                                Some((size, j2)) => sp_signal_tail(
                                                    s,
                                                    i,
                                                    name,
                                                    mux,
                                                    start_bit,
                                                    size,
                                                    j2,
                                                ),
                                            }
                                        },
                                    }
                                },
                            }
                        },
                    }
                },
            }
        },
    }
}

/// The rest of the signal line, from the `@` separator on.
pub open spec fn sp_signal_tail(
    s: Seq<char>,
    i0: int,
    name: Seq<char>,
    mux: Option<MultiplexerIndicator>,
    start_bit: u32,
    size: u32,
    i: int,
) -> Option<(SignalView, int)> {
    let i1 = sp_skip_spaces(s, i);
    match sp_tag_end(s, i1, "@"@) {
        None => None,
        Some(i2) => {
            let i3 = sp_skip_spaces(s, i2);
            let (byte_order, i4): (Option<ByteOrder>, int) = if i3 < s.len() && s[i3] == '1' {
                (Some(ByteOrder::LittleEndian), i3 + 1)
            } else if i3 < s.len() && s[i3] == '0' {
                (Some(ByteOrder::BigEndian), i3 + 1)
            } else {
                (None, i3)
            };
            match byte_order {
                None => None,
                Some(byte_order) => {
                    let i5 = sp_skip_spaces(s, i4);
                    let (value_type, i6): (Option<ValueType>, int) = if i5 < s.len() && s[i5]
                        == '+' {
                        (Some(ValueType::Unsigned), i5 + 1)
                    } else if i5 < s.len() && s[i5] == '-' {
                        (Some(ValueType::Signed), i5 + 1)
                    } else {
                        (None, i5)
                    };
                    match value_type {
                        None => None,
                        Some(value_type) => {
                            let i7 = sp_skip_spaces(s, i6);
                            match sp_factor_offset(s, i7) {
                                None => None,
                                Some(((factor, offset), i8)) => {
                                    let i9 = sp_skip_spaces(s, i8);
                                    let (mm, i10): (Option<(Seq<char>, Seq<char>)>, int) =
                                        match sp_min_max(s, i9) {
                                        Some((p, j)) => (Some(p), j),
                                        None => (None, i9),
                                    };
                                    let i11 = sp_skip_spaces(s, i10);
                                    let (unit, i12): (Option<Seq<char>>, int) = match sp_quoted(
                                        s,
                                        i11,
                                    ) {
                                        Some((u, j)) => (Some(u), j),
                                        None => (None, i11),
                                    };
                                    let i13 = sp_skip_spaces(s, i12);
                                    let (receivers, i14) = sp_receivers(s, i13);
                                    let i15 = sp_skip_spaces(s, i14);
                                    let end = sp_skip_line_endings(s, i15);
                                    Some(
                                        (SignalView {
                                            name,
                                            multiplexer: mux,
                                            start_bit,
                                            size,
                                            byte_order,
                                            value_type,
                                            factor,
                                            offset,
                                            min: match mm {
                                                Some((mn, _)) => Some(mn),
                                                None => None,
                                            },
                                            max: match mm {
                                                Some((_, mx)) => Some(mx),
                                                None => None,
                                            },
                                            unit,
                                            receivers: Some(receivers),
                                        }, end),
                                    )
                                },
                            }
                        },
                    }
                },
            }
        },
    }
}

/// Match one signal line.
pub fn parser_signal(s: &str, i: usize) -> (r: Result<(Signal, usize), DbcParseError>)
    requires
        i <= s@.len(),
    ensures
        match r {
            Ok((v, j)) => sp_signal(s@, i as int) == Some((v@, j as int)) && i <= j <= s@.len(),
            Err(e) => sp_signal(s@, i as int) is None && e == DbcParseError::BadSignal,
        },
{
    let n: usize = s.unicode_len();
    let i1: usize = skip_multispaces(s, i);
    let i2: usize = match tag(s, i1, "SG_") {
        None => {
            return Err(DbcParseError::BadSignal);
        },
        Some(v) => v,
    };
    let i3: usize = skip_multispaces(s, i2);
    let i4: usize = skip_spaces(s, i3);
    let (name, jn): (String, usize) = match dbc_ident(s, i4) {
        Err(_) => {
            return Err(DbcParseError::BadSignal);
        },
        Ok(v) => v,
    };
    let i5: usize = skip_spaces(s, jn);
    let (mux, i6): (Option<MultiplexerIndicator>, usize) = parser_signal_multiplexer(s, i5);
    let i7: usize = skip_spaces(s, i6);
    let i8: usize = match tag(s, i7, ":") {
        None => {
            return Err(DbcParseError::BadSignal);
        },
        Some(v) => v,
    };
    let i9: usize = skip_spaces(s, i8);
    let (start_bit, j1): (u32, usize) = match parse_u32(s, i9) {
        None => {
            return Err(DbcParseError::BadSignal);
        },
        Some(v) => v,
    };
    let i10: usize = skip_spaces(s, j1);
    let i11: usize = match tag(s, i10, "|") {
        None => {
            return Err(DbcParseError::BadSignal);
        },
        Some(v) => v,
    };
    let i12: usize = skip_spaces(s, i11);
    let (size, j2): (u32, usize) = match parse_u32(s, i12) {
        None => {
            return Err(DbcParseError::BadSignal);
        },
        Some(v) => v,
    };
    let i13: usize = skip_spaces(s, j2);
    let i14: usize = match tag(s, i13, "@") {
        None => {
            return Err(DbcParseError::BadSignal);
        },
        Some(v) => v,
    };
    let i15: usize = skip_spaces(s, i14);
    let byte_order: ByteOrder;
    let i16: usize;
    if i15 < n && s.get_char(i15) == '1' {
        byte_order = ByteOrder::LittleEndian;
        i16 = i15 + 1;
    } else if i15 < n && s.get_char(i15) == '0' {
        byte_order = ByteOrder::BigEndian;
        i16 = i15 + 1;
    } else {
        return Err(DbcParseError::BadSignal);
    }
    let i17: usize = skip_spaces(s, i16);
    let value_type: ValueType;
    let i18: usize;
    if i17 < n && s.get_char(i17) == '+' {
        value_type = ValueType::Unsigned;
        i18 = i17 + 1;
    } else if i17 < n && s.get_char(i17) == '-' {
        value_type = ValueType::Signed;
        i18 = i17 + 1;
    } else {
        return Err(DbcParseError::BadSignal);
    }
    let i19: usize = skip_spaces(s, i18);
    let ((factor, offset), i20): ((Number, Number), usize) = match parse_factor_offset(s, i19) {
        None => {
            return Err(DbcParseError::BadSignal);
        },
        Some(v) => v,
    };
    let i21: usize = skip_spaces(s, i20);
    let (mm, i22): (Option<(Number, Number)>, usize) = match parse_min_max(s, i21) {
        Some((p, j)) => (Some(p), j),
        None => (None, i21),
    };
    let i23: usize = skip_spaces(s, i22);
    let (unit, i24): (Option<CharString>, usize) = match parser_char_string(s, i23) {
        Ok((u, j)) => (Some(u), j),
        Err(_) => (None, i23),
    };
    let i25: usize = skip_spaces(s, i24);
    let (receivers, i26): (Vec<String>, usize) = parse_receivers(s, i25);
    let i27: usize = skip_spaces(s, i26);
    let end: usize = skip_line_endings(s, i27);
    let (mn, mx): (Option<Number>, Option<Number>) = match mm {
        Some((a, b)) => (Some(a), Some(b)),
        None => (None, None),
    };
    Ok(
        (Signal {
            name,
            multiplexer: mux,
            start_bit,
            size,
            byte_order,
            value_type,
            factor,
            offset,
            min: mn,
            max: mx,
            unit,
            receivers: Some(receivers),
        }, end),
    )
}

// ---------------------------------------------------------------------------
// Rendering
// ---------------------------------------------------------------------------

/// The rendered multiplexing indicator, with a trailing space when present.
pub open spec fn sp_render_mux(m: Option<MultiplexerIndicator>) -> Seq<char> {
    match m {
        None => Seq::<char>::empty(),
        Some(mi) => (match mi.multiplexer_signal {
            Some(v) => seq!['m'] + dec_digits(v as nat),
            None => Seq::<char>::empty(),
        }) + (match mi.multiplexer_switch {
            Some(_) => seq!['M'],
            None => Seq::<char>::empty(),
        }) + seq![' '],
    }
}

/// The rendered byte order digit.
pub open spec fn sp_render_byte_order(b: ByteOrder) -> Seq<char> {
    match b {
        ByteOrder::LittleEndian => seq!['1'],
        ByteOrder::BigEndian => seq!['0'],
    }
}

/// The rendered sign character.
pub open spec fn sp_render_value_type(v: ValueType) -> Seq<char> {
    match v {
        ValueType::Signed => seq!['-'],
        ValueType::Unsigned => seq!['+'],
    }
}

/// The rendered range, empty unless both bounds are present.
pub open spec fn sp_render_min_max(mn: Option<Seq<char>>, mx: Option<Seq<char>>) -> Seq<char> {
    match (mn, mx) {
        (Some(a), Some(b)) => seq!['['] + a + seq!['|'] + b + seq![']'],
        _ => Seq::<char>::empty(),
    }
}

/// The rendered unit, empty when absent.
pub open spec fn sp_render_unit(u: Option<Seq<char>>) -> Seq<char> {
    match u {
        Some(t) => quote_seq(t),
        None => Seq::<char>::empty(),
    }
}

/// Names joined by commas.
pub open spec fn sp_join_comma(items: Seq<Seq<char>>) -> Seq<char>
    decreases items.len(),
{
    if items.len() == 0 {
        Seq::<char>::empty()
    } else if items.len() == 1 {
        items[0]
    } else {
        sp_join_comma(items.drop_last()) + seq![','] + items.last()
    }
}

/// The rendered receiver list, empty when absent.
pub open spec fn sp_render_receivers(r: Option<Seq<Seq<char>>>) -> Seq<char> {
    match r {
        Some(items) => sp_join_comma(items),
        None => Seq::<char>::empty(),
    }
}

/// The rendered signal line (without indentation or line break).
pub open spec fn sp_render_signal(v: SignalView) -> Seq<char> {
    "SG_ "@ + v.name + seq![' '] + sp_render_mux(v.multiplexer) + ": "@ + dec_digits(
        v.start_bit as nat,
    ) + seq!['|'] + dec_digits(v.size as nat) + seq!['@'] + sp_render_byte_order(v.byte_order)
        + sp_render_value_type(v.value_type) + " ("@ + v.factor + seq![','] + v.offset + ") "@
        + sp_render_min_max(v.min, v.max) + seq![' '] + sp_render_unit(v.unit) + seq![' ']
        + sp_render_receivers(v.receivers)
}

/// Append the names joined by commas.
pub(crate) fn append_joined(out: &mut String, items: &Vec<String>)
    ensures
        final (out)@ == old(out)@ + sp_join_comma(items.deep_view()),
{
    let n: usize = items.len();
    let mut k: usize = 0;
    while k < n
        invariant
            k <= n,
            n == items.len(),
            out@ == old(out)@ + sp_join_comma(items.deep_view().take(k as int)),
        decreases n - k,
    {
        if k > 0 {
            out.append(",");
        }
        let name: &String = &items[k];
        out.append(name.as_str());
        proof {
            reveal_strlit(",");
            let dv = items.deep_view();
            let tk = dv.take(k + 1);
            assert(tk.drop_last() =~= dv.take(k as int));
            assert(tk.last() == dv[k as int]);
            if k > 0 {
                assert(tk.len() > 1);
            }
            assert(out@ =~= old(out)@ + sp_join_comma(dv.take(k + 1)));
        }
        k = k + 1;
    }
    proof {
        assert(items.deep_view().take(n as int) =~= items.deep_view());
    }
}

impl Signal {
    /// Render the signal line.
    pub fn to_text(&self) -> (r: String)
        ensures
            r@ == sp_render_signal(self@),
    {
        let mut out: String = String::from_str("SG_ ");
        out.append(self.name.as_str());
        out.append(" ");
        match &self.multiplexer {
            None => {},
            Some(mi) => {
                match mi.multiplexer_signal {
                    Some(v) => {
                        out.append("m");
                        append_u32(&mut out, v);
                    },
                    None => {},
                }
                match mi.multiplexer_switch {
                    Some(_) => {
                        out.append("M");
                    },
                    None => {},
                }
                out.append(" ");
            },
        }
        proof {
            reveal_strlit(" ");
            reveal_strlit("m");
            reveal_strlit("M");
            assert(out@ =~= "SG_ "@ + self@.name + seq![' '] + sp_render_mux(self@.multiplexer));
        }
        out.append(": ");
        append_u32(&mut out, self.start_bit);
        out.append("|");
        append_u32(&mut out, self.size);
        out.append("@");
        match self.byte_order {
            ByteOrder::LittleEndian => out.append("1"),
            ByteOrder::BigEndian => out.append("0"),
        }
        match self.value_type {
            ValueType::Signed => out.append("-"),
            ValueType::Unsigned => out.append("+"),
        }
        out.append(" (");
        out.append(self.factor.0.as_str());
        out.append(",");
        out.append(self.offset.0.as_str());
        out.append(") ");
        proof {
            reveal_strlit("|");
            reveal_strlit("@");
            reveal_strlit("1");
            reveal_strlit("0");
            reveal_strlit("-");
            reveal_strlit("+");
            reveal_strlit(",");
            assert(out@ =~= "SG_ "@ + self@.name + seq![' '] + sp_render_mux(self@.multiplexer)
                + ": "@ + dec_digits(self@.start_bit as nat) + seq!['|'] + dec_digits(
                self@.size as nat,
            ) + seq!['@'] + sp_render_byte_order(self@.byte_order) + sp_render_value_type(
                self@.value_type,
            ) + " ("@ + self@.factor + seq![','] + self@.offset + ") "@);
        }
        match (&self.min, &self.max) {
            (Some(mn), Some(mx)) => {
                out.append("[");
                out.append(mn.0.as_str());
                out.append("|");
                out.append(mx.0.as_str());
                out.append("]");
                proof {
                    reveal_strlit("[");
                    reveal_strlit("|");
                    reveal_strlit("]");
                    assert(seq!['['] + mn@ + seq!['|'] + mx@ + seq![']'] =~= sp_render_min_max(
                        self@.min,
                        self@.max,
                    ));
                }
            },
            _ => {
                proof {
                    assert(sp_render_min_max(self@.min, self@.max) =~= Seq::<char>::empty());
                }
            },
        }
        out.append(" ");
        match &self.unit {
            Some(u) => {
                out.append("\"");
                out.append(u.0.as_str());
                out.append("\"");
                proof {
                    reveal_strlit("\"");
                    assert(seq!['"'] + u@ + seq!['"'] =~= sp_render_unit(self@.unit));
                }
            },
            None => {
                proof {
                    assert(sp_render_unit(self@.unit) =~= Seq::<char>::empty());
                }
            },
        }
        out.append(" ");
        match &self.receivers {
            Some(items) => {
                append_joined(&mut out, items);
            },
            None => {
                proof {
                    assert(sp_render_receivers(self@.receivers) =~= Seq::<char>::empty());
                }
            },
        }
        proof {
            reveal_strlit(" ");
            assert(out@ =~= sp_render_signal(self@));
        }
        out
    }
}

} // verus!
