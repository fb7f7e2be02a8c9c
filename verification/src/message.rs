//! The message grammar.
//!
//! Format: `BO_ <CAN-ID> <MessageName>: <MessageSize> <SendingNode>`
//! followed by zero or more signal lines belonging to the message.

use vstd::prelude::*;

use crate::error::DbcParseError;
use crate::lexer::{dbc_ident, parse_u32, skip_line_endings, skip_multispaces, skip_spaces,
    sp_dbc_ident, sp_many0, sp_skip_line_endings, sp_skip_multispaces, sp_skip_spaces, sp_tag_end,
    sp_u32, tag};
use crate::signal::{sp_render_signal, sp_signal, parser_signal, Signal, SignalView};
use crate::text::{dec_digits, append_u32};

verus! {

/// The header of a message definition.  If the most significant bit of the
/// id is set, the id is an extended CAN id.
#[derive(Clone, Debug, PartialEq, Eq)]
pub struct MessageHeader {
    pub id: u32,
    pub name: String,
    pub size: u32,
    pub transmitter: String,
}

/// The mathematical value of a message header.
pub ghost struct MessageHeaderView {
    pub id: u32,
    pub name: Seq<char>,
    pub size: u32,
    pub transmitter: Seq<char>,
}

impl View for MessageHeader {
    type V = MessageHeaderView;

    open spec fn view(&self) -> MessageHeaderView {
        MessageHeaderView {
            id: self.id,
            name: self.name@,
            size: self.size,
            transmitter: self.transmitter@,
        }
    }
}

/// One message: its header and its signals, in source order.
#[derive(Clone, Debug, PartialEq, Eq)]
pub struct Message {
    pub header: MessageHeader,
    pub signals: Vec<Signal>,
}

/// The mathematical value of one message.
pub ghost struct MessageView {
    pub header: MessageHeaderView,
    pub signals: Seq<SignalView>,
}

impl View for Message {
    type V = MessageView;

    open spec fn view(&self) -> MessageView {
        MessageView { header: self.header@, signals: self.signals.deep_view() }
    }
}

impl DeepView for Message {
    type V = MessageView;

    open spec fn deep_view(&self) -> MessageView {
        self.view()
    }
}

/// The transmitter name: a node identifier, or the no-sender sentinel.
pub open spec fn sp_transmitter(s: Seq<char>, i: int) -> Option<(Seq<char>, int)> {
    match sp_dbc_ident(s, i) {
        Some(j) => Some((s.subrange(i, j), j)),
        None => match sp_tag_end(s, i, "Vector__XXX"@) {
            Some(j) => Some((s.subrange(i, j), j)),
            None => None,
        },
    }
}

/// Match the transmitter name.
fn parse_transmitter(s: &str, i: usize) -> (r: Option<(String, usize)>)
    requires
        i <= s@.len(),
    ensures
        match r {
            Some((t, j)) => sp_transmitter(s@, i as int) == Some((t@, j as int)) && i < j
                <= s@.len(),
            None => sp_transmitter(s@, i as int) is None,
        },
{
    match dbc_ident(s, i) {
        Ok((t, j)) => Some((t, j)),
        Err(_) => match tag(s, i, "Vector__XXX") {
            Some(j) => {
                proof {
                    reveal_strlit("Vector__XXX");
                }
                let t: String = s.substring_char(i, j).to_owned();
                Some((t, j))
            },
            None => None,
        },
    }
}

/// The message header at `i`.
pub open spec fn sp_message_header(s: Seq<char>, i: int) -> Option<(MessageHeaderView, int)> {
    let i1 = sp_skip_multispaces(s, i);
    match sp_tag_end(s, i1, "BO_"@) {
        None => None,
        Some(i2) => {
            let i3 = sp_skip_multispaces(s, i2);
            let i4 = sp_skip_spaces(s, i3);
            match sp_u32(s, i4) {
                None => None,
                Some((id, j1)) => {
                    let i5 = sp_skip_spaces(s, j1);
                    match sp_dbc_ident(s, i5) {
                        None => None,
                        Some(j2) => {
                            let name = s.subrange(i5, j2);
                            let i6 = sp_skip_spaces(s, j2);
                            match sp_tag_end(s, i6, ":"@) {
                                None => None,
                                Some(i7) => {
                                    let i8 = sp_skip_spaces(s, i7);
                                    match sp_u32(s, i8) {
                                        None => None,
                                        Some((size, j3)) => {
                                            let i9 = sp_skip_spaces(s, j3);
                                            match sp_transmitter(s, i9) {
                                                None => None,
                                                Some((transmitter, j4)) => Some(
                                                    (MessageHeaderView {
                                                        id,
                                                        name,
                                                        size,
                                                        transmitter,
                                                    }, sp_skip_spaces(s, j4)),
                                                ),
                                            }
                                        },
                                    }
                                },
                            }
                        },
                    }
                },
            }
        },
    }
}

/// Match the message header.
pub fn parser_message_header(s: &str, i: usize) -> (r: Result<
    (MessageHeader, usize),
    DbcParseError,
>)
    requires
        i <= s@.len(),
    ensures
        match r {
            Ok((v, j)) => sp_message_header(s@, i as int) == Some((v@, j as int)) && i <= j
                <= s@.len(),
            Err(e) => sp_message_header(s@, i as int) is None && e
                == DbcParseError::BadMessageHeader,
        },
{
    let i1: usize = skip_multispaces(s, i);
    let i2: usize = match tag(s, i1, "BO_") {
        None => {
            return Err(DbcParseError::BadMessageHeader);
        },
        Some(v) => v,
    };
    let i3: usize = skip_multispaces(s, i2);
    let i4: usize = skip_spaces(s, i3);
    let (id, j1): (u32, usize) = match parse_u32(s, i4) {
        None => {
            return Err(DbcParseError::BadMessageHeader);
        },
        Some(v) => v,
    };
    let i5: usize = skip_spaces(s, j1);
    let (name, j2): (String, usize) = match dbc_ident(s, i5) {
        Err(_) => {
            return Err(DbcParseError::BadMessageHeader);
        },
        Ok(v) => v,
    };
    let i6: usize = skip_spaces(s, j2);
    let i7: usize = match tag(s, i6, ":") {
        None => {
            return Err(DbcParseError::BadMessageHeader);
        },
        Some(v) => v,
    };
    let i8: usize = skip_spaces(s, i7);
    let (size, j3): (u32, usize) = match parse_u32(s, i8) {
        None => {
            return Err(DbcParseError::BadMessageHeader);
        },
        Some(v) => v,
    };
    let i9: usize = skip_spaces(s, j3);
    let (transmitter, j4): (String, usize) = match parse_transmitter(s, i9) {
        None => {
            return Err(DbcParseError::BadMessageHeader);
        },
        Some(v) => v,
    };
    let j: usize = skip_spaces(s, j4);
    Ok((MessageHeader { id, name, size, transmitter }, j))
}

/// Zero or more signal lines.
pub open spec fn sp_signal_items(s: Seq<char>, i: int) -> (Seq<SignalView>, int) {
    sp_many0(|s2: Seq<char>, i2: int| sp_signal(s2, i2), s, i)
}

/// Order preservation on parse, for the signal lines of a message: the
/// `k`-th signal of the parsed list is exactly the signal line matched at
/// the `k`-th position of the text, and those positions strictly
/// increase, so each message keeps its signals in source order.
pub proof fn lemma_signal_parse_order(s: Seq<char>, i: int, k: int)
    requires
        0 <= i <= s.len(),
        0 <= k < sp_signal_items(s, i).0.len(),
    ensures
        ({
            let f = |s2: Seq<char>, i2: int| sp_signal(s2, i2);
            let p = crate::lexer::sp_many0_pos(f, s, i, k);
            &&& i <= p < crate::lexer::sp_many0_pos(f, s, i, k + 1) <= s.len()
            &&& sp_signal(s, p) is Some
            &&& sp_signal(s, p)->Some_0.0 == sp_signal_items(s, i).0[k]
            &&& sp_signal(s, p)->Some_0.1 == crate::lexer::sp_many0_pos(f, s, i, k + 1)
        }),
{
    crate::lexer::lemma_many0_order(|s2: Seq<char>, i2: int| sp_signal(s2, i2), s, i, k);
}

/// One message at `i`: its header, its signal lines, then trailing line
/// endings.
pub open spec fn sp_message(s: Seq<char>, i: int) -> Option<(MessageView, int)> {
    match sp_message_header(s, i) {
        None => None,
        Some((header, j)) => {
            let (signals, j2) = sp_signal_items(s, j);
            Some((MessageView { header, signals }, sp_skip_line_endings(s, j2)))
        },
    }
}

/// Match zero or more signal lines.
fn parse_signal_items(s: &str, i: usize) -> (r: (Vec<Signal>, usize))
    requires
        i <= s@.len(),
    ensures
        sp_signal_items(s@, i as int) == (r.0.deep_view(), r.1 as int),
        i <= r.1 <= s@.len(),
{
    let mut signals: Vec<Signal> = Vec::new();
    let mut cur: usize = i;
    loop
        invariant
            i <= cur <= s@.len(),
            sp_signal_items(s@, i as int).0 == signals.deep_view() + sp_signal_items(
                s@,
                cur as int,
            ).0,
            sp_signal_items(s@, i as int).1 == sp_signal_items(s@, cur as int).1,
        ensures
            cur <= s@.len(),
            sp_signal_items(s@, i as int) == (signals.deep_view(), cur as int),
        decreases s@.len() - cur,
    {
        let ghost prev = signals.deep_view();
        match parser_signal(s, cur) {
            Err(_) => {
                proof {
                    assert(sp_signal_items(s@, cur as int) == (Seq::<SignalView>::empty(),
                    cur as int));
                    assert(signals.deep_view() + Seq::<SignalView>::empty()
                        =~= signals.deep_view());
                }
                break ;
            },
            Ok((sig, j2)) => {
                if j2 == cur {
                    // A signal line always consumes input; this cannot
                    // happen, but the repetition must still be finite.
                    proof {
                        assert(sp_signal_items(s@, cur as int) == (Seq::<SignalView>::empty(),
                        cur as int));
                        assert(signals.deep_view() + Seq::<SignalView>::empty()
                            =~= signals.deep_view());
                    }
                    break ;
                }
                proof {
                    assert(sp_signal_items(s@, cur as int).0 == seq![sig@] + sp_signal_items(
                        s@,
                        j2 as int,
                    ).0);
                    assert(sp_signal_items(s@, cur as int).1 == sp_signal_items(
                        s@,
                        j2 as int,
                    ).1);
                }
                signals.push(sig);
                proof {
                    assert(signals.deep_view() =~= prev + seq![sig@]);
                    assert(prev + (seq![sig@] + sp_signal_items(s@, j2 as int).0) =~= (prev
                        + seq![sig@]) + sp_signal_items(s@, j2 as int).0);
                }
                cur = j2;
            },
        }
    }
    (signals, cur)
}

/// Match one message with its signals.
pub fn parser_dbc_message(s: &str, i: usize) -> (r: Result<(Message, usize), DbcParseError>)
    requires
        i <= s@.len(),
    ensures
        match r {
            Ok((v, j)) => sp_message(s@, i as int) == Some((v@, j as int)) && i <= j <= s@.len(),
            Err(e) => sp_message(s@, i as int) is None && e == DbcParseError::BadMessageHeader,
        },
{
    match parser_message_header(s, i) {
        Err(e) => Err(e),
        Ok((header, j)) => {
            let (signals, j2) = parse_signal_items(s, j);
            let end: usize = skip_line_endings(s, j2);
            Ok((Message { header, signals }, end))
        },
    }
}

// ---------------------------------------------------------------------------
// Rendering
// ---------------------------------------------------------------------------

/// The rendered message header line (without a line break).
pub open spec fn sp_render_message_header(v: MessageHeaderView) -> Seq<char> {
    "BO_ "@ + dec_digits(v.id as nat) + seq![' '] + v.name + ": "@ + dec_digits(v.size as nat)
        + seq![' '] + v.transmitter
}

/// Parsing a rendered message header yields the header it was rendered
/// from, whatever text follows, as long as that text starts with no
/// whitespace and no identifier character.  One construct of the
/// parse-render-parse round trip.
#[verifier::rlimit(100)]
pub proof fn lemma_message_header_round_trip(v: MessageHeaderView, rest: Seq<char>)
    requires
        crate::lexer::wf_ident(v.name),
        crate::lexer::wf_ident(v.transmitter),
        rest.len() == 0 || !(crate::lexer::is_multispace(rest[0]) || crate::lexer::is_ident_char(
            rest[0],
        )),
    ensures
        sp_message_header(sp_render_message_header(v) + rest, 0) == Some(
            (v, sp_render_message_header(v).len() as int),
        ),
{
    let di = dec_digits(v.id as nat);
    let ds = dec_digits(v.size as nat);
    let name = v.name;
    let tx = v.transmitter;
    let r = sp_render_message_header(v);
    let s = r + rest;
    reveal_strlit("BO_ ");
    reveal_strlit("BO_");
    reveal_strlit(": ");
    reveal_strlit(":");
    crate::text::lemma_dec_digits_are_digits(v.id as nat);
    crate::text::lemma_dec_digits_are_digits(v.size as nat);
    assert forall|k: int| 0 <= k < r.len() implies s[k] == #[trigger] r[k] by {}
    assert forall|k: int| r.len() <= k < s.len() implies s[k] == rest[k - r.len()] by {}
    assert(r == "BO_ "@ + di + seq![' '] + name + ": "@ + ds + seq![' '] + tx);
    let e1 = 4 + di.len() as int;
    let jn = e1 + 1 + name.len() as int;
    let e2 = jn + 2 + ds.len() as int;
    let end = e2 + 1 + tx.len() as int;
    assert forall|k: int| 0 <= k < di.len() implies #[trigger] di[k] == r[4 + k] by {}
    assert forall|k: int| 0 <= k < name.len() implies #[trigger] name[k] == r[
        4 + di.len() + 1 + k
    ] by {}
    assert forall|k: int| 0 <= k < ds.len() implies #[trigger] ds[k] == r[
        4 + di.len() + 1 + name.len() + 2 + k
    ] by {}
    assert forall|k: int| 0 <= k < tx.len() implies #[trigger] tx[k] == r[
        4 + di.len() + 1 + name.len() + 2 + ds.len() + 1 + k
    ] by {}
    assert(s[0] == 'B' && s[1] == 'O' && s[2] == '_' && s[3] == ' ');
    assert(crate::lexer::sp_skip_multispaces(s, 0) == 0);
    assert(s.subrange(0, 3) =~= "BO_"@) by {
        assert forall|k: int| 0 <= k < 3 implies s.subrange(0, 3)[k] == "BO_"@[k] by {
            assert(s.subrange(0, 3)[k] == s[k]);
            assert(r[k] == "BO_ "@[k]);
        }
    }
    assert(crate::lexer::sp_tag_end(s, 0, "BO_"@) == Some(3int));
    assert(s[4] == di[0]);
    assert(crate::lexer::is_digit(s[4]) && !crate::lexer::is_multispace(s[4]));
    assert(crate::lexer::sp_skip_multispaces(s, 4) == 4);
    assert(crate::lexer::sp_skip_multispaces(s, 3) == 4);
    assert(crate::lexer::sp_skip_spaces(s, 4) == 4);
    assert(s.subrange(4, e1) =~= di) by {
        assert forall|k: int| 0 <= k < di.len() implies s.subrange(4, e1)[k] == di[k] by {
            assert(s.subrange(4, e1)[k] == s[4 + k]);
        }
    }
    assert(r[4 + di.len() as int] == ' ');
    assert(s[e1] == ' ');
    crate::text::lemma_u32_round_trip(v.id, s, 4);
    assert(s[e1 + 1] == name[0]) by {
        assert(s[4 + di.len() + 1int] == r[4 + di.len() + 1int]);
    }
    assert(crate::lexer::is_ident_start(name[0]));
    assert(!crate::lexer::is_space(s[e1 + 1]));
    assert(crate::lexer::sp_skip_spaces(s, e1 + 1) == e1 + 1);
    assert(crate::lexer::sp_skip_spaces(s, e1) == e1 + 1);
    assert(s.subrange(e1 + 1, jn) =~= name) by {
        assert forall|k: int| 0 <= k < name.len() implies s.subrange(e1 + 1, jn)[k]
            == name[k] by {
            assert(s.subrange(e1 + 1, jn)[k] == s[e1 + 1 + k]);
            assert(s[4 + di.len() + 1int + k] == r[4 + di.len() + 1int + k]);
        }
    }
    assert(r[4 + di.len() + 1 + name.len() as int] == ':' && r[4 + di.len() + 1 + name.len()
        + 1int] == ' ');
    assert(s[jn] == ':');
    crate::lexer::lemma_ident_round_trip(name, s, e1 + 1);
    assert(crate::lexer::sp_skip_spaces(s, jn) == jn);
    assert(s.subrange(jn, jn + 1) =~= ":"@) by {
        assert(s.subrange(jn, jn + 1)[0] == s[jn]);
    }
    assert(crate::lexer::sp_tag_end(s, jn, ":"@) == Some(jn + 1));
    assert(s[jn + 1] == ' ');
    assert(s[jn + 2] == ds[0]) by {
        assert(s[4 + di.len() + 1 + name.len() + 2int] == r[4 + di.len() + 1 + name.len()
            + 2int]);
    }
    assert(crate::lexer::is_digit(s[jn + 2]) && !crate::lexer::is_space(s[jn + 2]));
    assert(crate::lexer::sp_skip_spaces(s, jn + 2) == jn + 2);
    assert(crate::lexer::sp_skip_spaces(s, jn + 1) == jn + 2);
    assert(s.subrange(jn + 2, e2) =~= ds) by {
        assert forall|k: int| 0 <= k < ds.len() implies s.subrange(jn + 2, e2)[k] == ds[k] by {
            assert(s.subrange(jn + 2, e2)[k] == s[jn + 2 + k]);
            assert(s[4 + di.len() + 1 + name.len() + 2int + k] == r[4 + di.len() + 1 + name.len()
                + 2int + k]);
        }
    }
    assert(r[4 + di.len() + 1 + name.len() + 2 + ds.len() as int] == ' ');
    assert(s[e2] == ' ');
    crate::text::lemma_u32_round_trip(v.size, s, jn + 2);
    assert(s[e2 + 1] == tx[0]) by {
        assert(s[4 + di.len() + 1 + name.len() + 2 + ds.len() + 1int] == r[4 + di.len() + 1
            + name.len() + 2 + ds.len() + 1int]);
    }
    assert(crate::lexer::is_ident_start(tx[0]));
    assert(!crate::lexer::is_space(s[e2 + 1]));
    assert(crate::lexer::sp_skip_spaces(s, e2 + 1) == e2 + 1);
    assert(crate::lexer::sp_skip_spaces(s, e2) == e2 + 1);
    assert(s.subrange(e2 + 1, end) =~= tx) by {
        assert forall|k: int| 0 <= k < tx.len() implies s.subrange(e2 + 1, end)[k] == tx[k] by {
            assert(s.subrange(e2 + 1, end)[k] == s[e2 + 1 + k]);
            assert(s[4 + di.len() + 1 + name.len() + 2 + ds.len() + 1int + k] == r[4 + di.len()
                + 1 + name.len() + 2 + ds.len() + 1int + k]);
        }
    }
    assert(end == r.len());
    assert(end == s.len() || !crate::lexer::is_ident_char(s[end]));
    crate::lexer::lemma_ident_round_trip(tx, s, e2 + 1);
    assert(sp_transmitter(s, e2 + 1) == Some((tx, end)));
    assert(end == s.len() || !crate::lexer::is_space(s[end]));
    assert(crate::lexer::sp_skip_spaces(s, end) == end);
}

/// The rendered signal lines: each tab-indented and ended by a line break.
pub open spec fn sp_render_signal_lines(signals: Seq<SignalView>) -> Seq<char>
    decreases signals.len(),
{
    if signals.len() == 0 {
        Seq::<char>::empty()
    } else {
        sp_render_signal_lines(signals.drop_last()) + seq!['\t'] + sp_render_signal(
            signals.last(),
        ) + seq!['\n']
    }
}

/// The rendered message: the header line, then its signal lines.
pub open spec fn sp_render_message(v: MessageView) -> Seq<char> {
    sp_render_message_header(v.header) + seq!['\n'] + sp_render_signal_lines(v.signals)
}

impl MessageHeader {
    /// Render the header line.
    pub fn to_text(&self) -> (r: String)
        ensures
            r@ == sp_render_message_header(self@),
    {
        let mut out: String = String::from_str("BO_ ");
        append_u32(&mut out, self.id);
        out.append(" ");
        out.append(self.name.as_str());
        out.append(": ");
        append_u32(&mut out, self.size);
        out.append(" ");
        out.append(self.transmitter.as_str());
        proof {
            reveal_strlit(" ");
            assert(out@ =~= sp_render_message_header(self@));
        }
        out
    }
}

impl Message {
    /// Render the message block.
    pub fn to_text(&self) -> (r: String)
        ensures
            r@ == sp_render_message(self@),
    {
        let mut out: String = self.header.to_text();
        out.append("\n");
        proof {
            reveal_strlit("\n");
            assert(self@.signals.take(0) =~= Seq::<SignalView>::empty());
            assert(out@ =~= sp_render_message_header(self@.header) + seq!['\n']
                + sp_render_signal_lines(self@.signals.take(0)));
        }
        let n: usize = self.signals.len();
        let mut k: usize = 0;
        while k < n
            invariant
                k <= n,
                n == self.signals.len(),
                out@ == sp_render_message_header(self@.header) + seq!['\n']
                    + sp_render_signal_lines(self@.signals.take(k as int)),
            decreases n - k,
        {
            out.append("\t");
            let sig: &Signal = &self.signals[k];
            let t: String = sig.to_text();
            out.append(t.as_str());
            out.append("\n");
            proof {
                reveal_strlit("\t");
                reveal_strlit("\n");
                let tk = self@.signals.take(k + 1);
                assert(tk.drop_last() =~= self@.signals.take(k as int));
                assert(tk.last() == self@.signals[k as int]);
                assert(out@ =~= sp_render_message_header(self@.header) + seq!['\n']
                    + sp_render_signal_lines(self@.signals.take(k + 1)));
            }
            k = k + 1;
        }
        proof {
            assert(self@.signals.take(n as int) =~= self@.signals);
        }
        out
    }
}

} // verus!
