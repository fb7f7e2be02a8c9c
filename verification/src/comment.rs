//! The comment section.
//!
//! Format: `CM_ [BU_ <node> | BO_ <id> | SG_ <id> <signal> | EV_ <var>]
//! "<text>";`.  The scope shapes are tried in the fixed order network,
//! node, message, signal, environment variable, and the first structural
//! match wins.

use vstd::prelude::*;

use crate::char_string::{quote_seq, CharString, parser_char_string};
use crate::error::DbcParseError;
use crate::lexer::{dbc_ident, parse_u32, skip_line_endings, skip_multispaces, skip_spaces,
    sp_dbc_ident, sp_quoted, sp_skip_line_endings, sp_skip_multispaces, sp_skip_spaces, sp_tag_end,
    sp_u32, tag};
use crate::text::{dec_digits, append_u32};

verus! {

/// A comment on the whole network.
#[derive(Clone, Debug, PartialEq, Eq)]
pub struct NetworkComment {
    pub comment: CharString,
}

/// A comment on one node.
#[derive(Clone, Debug, PartialEq, Eq)]
pub struct NodeComment {
    pub node_name: String,
    pub comment: CharString,
}

/// A comment on one message.
#[derive(Clone, Debug, PartialEq, Eq)]
pub struct MessageComment {
    pub message_id: u32,
    pub comment: CharString,
}

/// A comment on one signal of a message.
#[derive(Clone, Debug, PartialEq, Eq)]
pub struct SignalComment {
    pub message_id: u32,
    pub signal_name: String,
    pub comment: CharString,
}

/// A comment on one environment variable.
#[derive(Clone, Debug, PartialEq, Eq)]
pub struct EnvironmentVariableComment {
    pub environment_variable_name: String,
    pub comment: CharString,
}

/// One comment, tagged by the object it binds to.
#[derive(Clone, Debug, PartialEq, Eq)]
pub enum Comment {
    Network(NetworkComment),
    Node(NodeComment),
    Message(MessageComment),
    Signal(SignalComment),
    EnvironmentVariable(EnvironmentVariableComment),
}

/// The mathematical value of one comment.
pub ghost enum CommentView {
    Network { comment: Seq<char> },
    Node { node_name: Seq<char>, comment: Seq<char> },
    Message { message_id: u32, comment: Seq<char> },
    Signal { message_id: u32, signal_name: Seq<char>, comment: Seq<char> },
    EnvironmentVariable { environment_variable_name: Seq<char>, comment: Seq<char> },
}

impl View for Comment {
    type V = CommentView;

    open spec fn view(&self) -> CommentView {
        match self {
            Comment::Network(c) => CommentView::Network { comment: c.comment@ },
            Comment::Node(c) => CommentView::Node {
                node_name: c.node_name@,
                comment: c.comment@,
            },
            Comment::Message(c) => CommentView::Message {
                message_id: c.message_id,
                comment: c.comment@,
            },
            Comment::Signal(c) => CommentView::Signal {
                message_id: c.message_id,
                signal_name: c.signal_name@,
                comment: c.comment@,
            },
            Comment::EnvironmentVariable(c) => CommentView::EnvironmentVariable {
                environment_variable_name: c.environment_variable_name@,
                comment: c.comment@,
            },
        }
    }
}

impl DeepView for Comment {
    type V = CommentView;

    open spec fn deep_view(&self) -> CommentView {
        self.view()
    }
}

// ---------------------------------------------------------------------------
// Parsing
// ---------------------------------------------------------------------------

/// A network comment at `i`: the keyword, the text, a semicolon.
pub open spec fn sp_network_comment(s: Seq<char>, i: int) -> Option<(CommentView, int)> {
    let i1 = sp_skip_multispaces(s, i);
    match sp_tag_end(s, i1, "CM_"@) {
        None => None,
        Some(i2) => {
            let i3 = sp_skip_multispaces(s, i2);
            match sp_quoted(s, i3) {
                None => None,
                Some((text, j)) => {
                    let i4 = sp_skip_multispaces(s, j);
                    match sp_tag_end(s, i4, ";"@) {
                        None => None,
                        Some(i5) => Some(
                            (CommentView::Network { comment: text }, sp_skip_multispaces(s, i5)),
                        ),
                    }
                },
            }
        },
    }
}

/// A node comment at `i`.
pub open spec fn sp_node_comment(s: Seq<char>, i: int) -> Option<(CommentView, int)> {
    let i1 = sp_skip_multispaces(s, i);
    match sp_tag_end(s, i1, "CM_"@) {
        None => None,
        Some(i2) => {
            let i3 = sp_skip_multispaces(s, i2);
            match sp_tag_end(s, i3, "BU_"@) {
                None => None,
                Some(i4) => {
                    let i5 = sp_skip_multispaces(s, i4);
                    match sp_dbc_ident(s, i5) {
                        None => None,
                        Some(jn) => {
                            let name = s.subrange(i5, jn);
                            let i6 = sp_skip_multispaces(s, jn);
                            match sp_quoted(s, i6) {
                                None => None,
                                Some((text, j)) => {
                                    let i7 = sp_skip_multispaces(s, j);
                                    match sp_tag_end(s, i7, ";"@) {
                                        None => None,
                                        Some(i8) => Some(
                                            (CommentView::Node {
                                                node_name: name,
                                                comment: text,
                                            }, sp_skip_multispaces(s, i8)),
                                        ),
                                    }
                                },
                            }
                        },
                    }
                },
            }
        },
    }
}

/// A message comment at `i`.
pub open spec fn sp_message_comment(s: Seq<char>, i: int) -> Option<(CommentView, int)> {
    let i1 = sp_skip_multispaces(s, i);
    match sp_tag_end(s, i1, "CM_"@) {
        None => None,
        Some(i2) => {
            let i3 = sp_skip_multispaces(s, i2);
            match sp_tag_end(s, i3, "BO_"@) {
                None => None,
                Some(i4) => {
                    let i5 = sp_skip_multispaces(s, i4);
                    match sp_u32(s, i5) {
                        None => None,
                        Some((id, j1)) => {
                            let i6 = sp_skip_multispaces(s, j1);
                            match sp_quoted(s, i6) {
                                None => None,
                                Some((text, j)) => {
                                    let i7 = sp_skip_multispaces(s, j);
                                    match sp_tag_end(s, i7, ";"@) {
                                        None => None,
                                        Some(i8) => Some(
                                            (CommentView::Message {
                                                message_id: id,
                                                comment: text,
                                            }, sp_skip_multispaces(s, i8)),
                                        ),
                                    }
                                },
                            }
                        },
                    }
                },
            }
        },
    }
}

/// A signal comment at `i`.
pub open spec fn sp_signal_comment(s: Seq<char>, i: int) -> Option<(CommentView, int)> {
    let i1 = sp_skip_multispaces(s, i);
    match sp_tag_end(s, i1, "CM_"@) {
        None => None,
        Some(i2) => {
            let i3 = sp_skip_multispaces(s, i2);
            match sp_tag_end(s, i3, "SG_"@) {
                None => None,
                Some(i4) => {
                    let i5 = sp_skip_multispaces(s, i4);
                    match sp_u32(s, i5) {
                        None => None,
                        Some((id, j1)) => {
                            let i6 = sp_skip_multispaces(s, j1);
                            match sp_dbc_ident(s, i6) {
                                None => None,
                                Some(jn) => {
                                    let name = s.subrange(i6, jn);
                                    let i7 = sp_skip_multispaces(s, jn);
                                    match sp_quoted(s, i7) {
                                        None => None,
                                        Some((text, j)) => {
                                            let i8 = sp_skip_multispaces(s, j);
                                            match sp_tag_end(s, i8, ";"@) {
                                                None => None,
                                                Some(i9) => Some(
                                                    (CommentView::Signal {
                                                        message_id: id,
                                                        signal_name: name,
                                                        comment: text,
                                                    }, sp_skip_multispaces(s, i9)),
                                                ),
                                            }
                                        },
                                    }
                                },
                            }
                        },
                    }
                },
            }
        },
    }
}

/// An environment variable comment at `i`.
pub open spec fn sp_env_var_comment(s: Seq<char>, i: int) -> Option<(CommentView, int)> {
    let i1 = sp_skip_multispaces(s, i);
    match sp_tag_end(s, i1, "CM_"@) {
        None => None,
        Some(i2) => {
            let i3 = sp_skip_multispaces(s, i2);
            match sp_tag_end(s, i3, "EV_"@) {
                None => None,
                Some(i4) => {
                    let i5 = sp_skip_multispaces(s, i4);
                    match sp_dbc_ident(s, i5) {
                        None => None,
                        Some(jn) => {
                            let name = s.subrange(i5, jn);
                            let i6 = sp_skip_multispaces(s, jn);
                            match sp_quoted(s, i6) {
                                None => None,
                                Some((text, j)) => {
                                    let i7 = sp_skip_multispaces(s, j);
                                    match sp_tag_end(s, i7, ";"@) {
                                        None => None,
                                        Some(i8) => Some(
                                            (CommentView::EnvironmentVariable {
                                                environment_variable_name: name,
                                                comment: text,
                                            }, sp_skip_multispaces(s, i8)),
                                        ),
                                    }
                                },
                            }
                        },
                    }
                },
            }
        },
    }
}

/// One comment at `i`: the scope shapes tried in fixed order, first
/// structural match wins.
pub open spec fn sp_comment(s: Seq<char>, i: int) -> Option<(CommentView, int)> {
    match sp_network_comment(s, i) {
        Some(r) => Some(r),
        None => match sp_node_comment(s, i) {
            Some(r) => Some(r),
            None => match sp_message_comment(s, i) {
                Some(r) => Some(r),
                None => match sp_signal_comment(s, i) {
                    Some(r) => Some(r),
                    None => sp_env_var_comment(s, i),
                },
            },
        },
    }
}

/// Match a network comment.
pub fn parser_network_comment(s: &str, i: usize) -> (r: Result<(Comment, usize), DbcParseError>)
    requires
        i <= s@.len(),
    ensures
        match r {
            Ok((v, j)) => sp_network_comment(s@, i as int) == Some((v@, j as int)) && i <= j
                <= s@.len() && v is Network,
            Err(e) => sp_network_comment(s@, i as int) is None && e
                == DbcParseError::BadNetworkComment,
        },
{
    let i1: usize = skip_multispaces(s, i);
    let i2: usize = match tag(s, i1, "CM_") {
        None => {
            return Err(DbcParseError::BadNetworkComment);
        },
        Some(v) => v,
    };
    let i3: usize = skip_multispaces(s, i2);
    let (text, j): (CharString, usize) = match parser_char_string(s, i3) {
        Err(_) => {
            return Err(DbcParseError::BadNetworkComment);
        },
        Ok(v) => v,
    };
    let i4: usize = skip_multispaces(s, j);
    let i5: usize = match tag(s, i4, ";") {
        None => {
            return Err(DbcParseError::BadNetworkComment);
        },
        Some(v) => v,
    };
    let end: usize = skip_multispaces(s, i5);
    Ok((Comment::Network(NetworkComment { comment: text }), end))
}

/// Match a node comment.
pub fn parser_node_comment(s: &str, i: usize) -> (r: Result<(Comment, usize), DbcParseError>)
    requires
        i <= s@.len(),
    ensures
        match r {
            Ok((v, j)) => sp_node_comment(s@, i as int) == Some((v@, j as int)) && i <= j
                <= s@.len() && v is Node,
            Err(e) => sp_node_comment(s@, i as int) is None && e == DbcParseError::BadNodeComment,
        },
{
    let i1: usize = skip_multispaces(s, i);
    let i2: usize = match tag(s, i1, "CM_") {
        None => {
            return Err(DbcParseError::BadNodeComment);
        },
        Some(v) => v,
    };
    let i3: usize = skip_multispaces(s, i2);
    let i4: usize = match tag(s, i3, "BU_") {
        None => {
            return Err(DbcParseError::BadNodeComment);
        },
        Some(v) => v,
    };
    let i5: usize = skip_multispaces(s, i4);
    let (name, jn): (String, usize) = match dbc_ident(s, i5) {
        Err(_) => {
            return Err(DbcParseError::BadNodeComment);
        },
        Ok(v) => v,
    };
    let i6: usize = skip_multispaces(s, jn);
    let (text, j): (CharString, usize) = match parser_char_string(s, i6) {
        Err(_) => {
            return Err(DbcParseError::BadNodeComment);
        },
        Ok(v) => v,
    };
    let i7: usize = skip_multispaces(s, j);
    let i8: usize = match tag(s, i7, ";") {
        None => {
            return Err(DbcParseError::BadNodeComment);
        },
        Some(v) => v,
    };
    let end: usize = skip_multispaces(s, i8);
    Ok((Comment::Node(NodeComment { node_name: name, comment: text }), end))
}

/// Match a message comment.
pub fn parser_message_comment(s: &str, i: usize) -> (r: Result<(Comment, usize), DbcParseError>)
    requires
        i <= s@.len(),
    ensures
        match r {
            Ok((v, j)) => sp_message_comment(s@, i as int) == Some((v@, j as int)) && i <= j
                <= s@.len() && v is Message,
            Err(e) => sp_message_comment(s@, i as int) is None && e
                == DbcParseError::BadMessageComment,
        },
{
    let i1: usize = skip_multispaces(s, i);
    let i2: usize = match tag(s, i1, "CM_") {
        None => {
            return Err(DbcParseError::BadMessageComment);
        },
        Some(v) => v,
    };
    let i3: usize = skip_multispaces(s, i2);
    let i4: usize = match tag(s, i3, "BO_") {
        None => {
            return Err(DbcParseError::BadMessageComment);
        },
        Some(v) => v,
    };
    let i5: usize = skip_multispaces(s, i4);
    let (id, j1): (u32, usize) = match parse_u32(s, i5) {
        None => {
            return Err(DbcParseError::BadMessageComment);
        },
        Some(v) => v,
    };
    let i6: usize = skip_multispaces(s, j1);
    let (text, j): (CharString, usize) = match parser_char_string(s, i6) {
        Err(_) => {
            return Err(DbcParseError::BadMessageComment);
        },
        Ok(v) => v,
    };
    let i7: usize = skip_multispaces(s, j);
    let i8: usize = match tag(s, i7, ";") {
        None => {
            return Err(DbcParseError::BadMessageComment);
        },
        Some(v) => v,
    };
    let end: usize = skip_multispaces(s, i8);
    Ok((Comment::Message(MessageComment { message_id: id, comment: text }), end))
}

/// Match a signal comment.
pub fn parser_signal_comment(s: &str, i: usize) -> (r: Result<(Comment, usize), DbcParseError>)
    requires
        i <= s@.len(),
    ensures
        match r {
            Ok((v, j)) => sp_signal_comment(s@, i as int) == Some((v@, j as int)) && i <= j
                <= s@.len() && v is Signal,
            Err(e) => sp_signal_comment(s@, i as int) is None && e
                == DbcParseError::BadSignalComment,
        },
{
    let i1: usize = skip_multispaces(s, i);
    let i2: usize = match tag(s, i1, "CM_") {
        None => {
            return Err(DbcParseError::BadSignalComment);
        },
        Some(v) => v,
    };
    let i3: usize = skip_multispaces(s, i2);
    let i4: usize = match tag(s, i3, "SG_") {
        None => {
            return Err(DbcParseError::BadSignalComment);
        },
        Some(v) => v,
    };
    let i5: usize = skip_multispaces(s, i4);
    let (id, j1): (u32, usize) = match parse_u32(s, i5) {
        None => {
            return Err(DbcParseError::BadSignalComment);
        },
        Some(v) => v,
    };
    let i6: usize = skip_multispaces(s, j1);
    let (name, jn): (String, usize) = match dbc_ident(s, i6) {
        Err(_) => {
            return Err(DbcParseError::BadSignalComment);
        },
        Ok(v) => v,
    };
    let i7: usize = skip_multispaces(s, jn);
    let (text, j): (CharString, usize) = match parser_char_string(s, i7) {
        Err(_) => {
            return Err(DbcParseError::BadSignalComment);
        },
        Ok(v) => v,
    };
    let i8: usize = skip_multispaces(s, j);
    let i9: usize = match tag(s, i8, ";") {
        None => {
            return Err(DbcParseError::BadSignalComment);
        },
        Some(v) => v,
    };
    let end: usize = skip_multispaces(s, i9);
    Ok((Comment::Signal(SignalComment { message_id: id, signal_name: name, comment: text }), end))
}

/// Match an environment variable comment.
pub fn parser_environment_variable_comment(s: &str, i: usize) -> (r: Result<
    (Comment, usize),
    DbcParseError,
>)
    requires
        i <= s@.len(),
    ensures
        match r {
            Ok((v, j)) => sp_env_var_comment(s@, i as int) == Some((v@, j as int)) && i <= j
                <= s@.len() && v is EnvironmentVariable,
            Err(e) => sp_env_var_comment(s@, i as int) is None && e
                == DbcParseError::BadEnvironmentVariableComment,
        },
{
    let i1: usize = skip_multispaces(s, i);
    let i2: usize = match tag(s, i1, "CM_") {
        None => {
            return Err(DbcParseError::BadEnvironmentVariableComment);
        },
        Some(v) => v,
    };
    let i3: usize = skip_multispaces(s, i2);
    let i4: usize = match tag(s, i3, "EV_") {
        None => {
            return Err(DbcParseError::BadEnvironmentVariableComment);
        },
        Some(v) => v,
    };
    let i5: usize = skip_multispaces(s, i4);
    let (name, jn): (String, usize) = match dbc_ident(s, i5) {
        Err(_) => {
            return Err(DbcParseError::BadEnvironmentVariableComment);
        },
        Ok(v) => v,
    };
    let i6: usize = skip_multispaces(s, jn);
    let (text, j): (CharString, usize) = match parser_char_string(s, i6) {
        Err(_) => {
            return Err(DbcParseError::BadEnvironmentVariableComment);
        },
        Ok(v) => v,
    };
    let i7: usize = skip_multispaces(s, j);
    let i8: usize = match tag(s, i7, ";") {
        None => {
            return Err(DbcParseError::BadEnvironmentVariableComment);
        },
        Some(v) => v,
    };
    let end: usize = skip_multispaces(s, i8);
    Ok(
        (Comment::EnvironmentVariable(
            EnvironmentVariableComment { environment_variable_name: name, comment: text },
        ), end),
    )
}

/// Match one comment of any scope.
pub fn parser_comment(s: &str, i: usize) -> (r: Result<(Comment, usize), DbcParseError>)
    requires
        i <= s@.len(),
    ensures
        match r {
            Ok((v, j)) => sp_comment(s@, i as int) == Some((v@, j as int)) && i <= j <= s@.len(),
            Err(e) => sp_comment(s@, i as int) is None && e == DbcParseError::BadComment,
        },
{
    match parser_network_comment(s, i) {
        Ok(v) => Ok(v),
        Err(_) => match parser_node_comment(s, i) {
            Ok(v) => Ok(v),
            Err(_) => match parser_message_comment(s, i) {
                Ok(v) => Ok(v),
                Err(_) => match parser_signal_comment(s, i) {
                    Ok(v) => Ok(v),
                    Err(_) => match parser_environment_variable_comment(s, i) {
                        Ok(v) => Ok(v),
                        Err(_) => Err(DbcParseError::BadComment),
                    },
                },
            },
        },
    }
}

// ---------------------------------------------------------------------------
// Rendering
// ---------------------------------------------------------------------------

/// The rendered comment line.
pub open spec fn sp_render_comment(v: CommentView) -> Seq<char> {
    match v {
        CommentView::Network { comment } => "CM_ "@ + quote_seq(comment) + seq![';'],
        CommentView::Node { node_name, comment } => "CM_ BU_ "@ + node_name + seq![' ']
            + quote_seq(comment) + seq![';'],
        CommentView::Message { message_id, comment } => "CM_ BO_ "@ + dec_digits(
            message_id as nat,
        ) + seq![' '] + quote_seq(comment) + seq![';'],
        CommentView::Signal { message_id, signal_name, comment } => "CM_ SG_ "@ + dec_digits(
            message_id as nat,
        ) + seq![' '] + signal_name + seq![' '] + quote_seq(comment) + seq![';'],
        CommentView::EnvironmentVariable { environment_variable_name, comment } => "CM_ EV_ "@
            + environment_variable_name + seq![' '] + quote_seq(comment) + seq![';'],
    }
}

/// Parsing a rendered node comment yields the comment it was rendered
/// from, whatever text follows, as long as that text starts with no
/// whitespace.  The network shape is tried first and fails on the scope
/// marker, so the fixed alternation order puts the line back into the node
/// scope: one construct of the parse-render-parse round trip.
#[verifier::rlimit(100)]
pub proof fn lemma_node_comment_round_trip(node_name: Seq<char>, text: Seq<char>, rest: Seq<char>)
    requires
        crate::lexer::wf_ident(node_name),
        crate::char_string::is_valid_string_body(text),
        rest.len() == 0 || !crate::lexer::is_multispace(rest[0]),
    ensures
        ({
            let v = CommentView::Node { node_name, comment: text };
            sp_comment(sp_render_comment(v) + rest, 0) == Some(
                (v, sp_render_comment(v).len() as int),
            )
        }),
{
    let v = CommentView::Node { node_name, comment: text };
    let r = sp_render_comment(v);
    let s = r + rest;
    reveal_strlit("CM_ BU_ ");
    reveal_strlit("CM_");
    reveal_strlit("BU_");
    reveal_strlit(";");
    assert forall|k: int| 0 <= k < r.len() implies s[k] == #[trigger] r[k] by {}
    assert(r == "CM_ BU_ "@ + node_name + seq![' '] + crate::char_string::quote_seq(text) + seq![
        ';',
    ]);
    assert forall|k: int| 0 <= k < node_name.len() implies #[trigger] node_name[k] == r[
        8 + k
    ] by {}
    let q = crate::char_string::quote_seq(text);
    assert forall|k: int| 0 <= k < q.len() implies #[trigger] q[k] == r[
        8 + node_name.len() + 1 + k
    ] by {}
    assert(s[0] == 'C' && s[1] == 'M' && s[2] == '_' && s[3] == ' ');
    assert(s[4] == 'B' && s[5] == 'U' && s[6] == '_' && s[7] == ' ');
    assert(crate::lexer::sp_skip_multispaces(s, 0) == 0);
    assert(s.subrange(0, 3) =~= "CM_"@) by {
        assert forall|k: int| 0 <= k < 3 implies s.subrange(0, 3)[k] == "CM_"@[k] by {
            assert(s.subrange(0, 3)[k] == s[k]);
            assert(r[k] == "CM_ BU_ "@[k]);
        }
    }
    assert(crate::lexer::sp_tag_end(s, 0, "CM_"@) == Some(3int));
    assert(crate::lexer::sp_skip_multispaces(s, 4) == 4);
    assert(crate::lexer::sp_skip_multispaces(s, 3) == 4);
    // The network shape fails: the scope marker is no quoted string.
    assert(crate::lexer::sp_quoted(s, 4) is None);
    assert(sp_network_comment(s, 0) is None);
    // The node shape goes through.
    assert(s.subrange(4, 7) =~= "BU_"@) by {
        assert forall|k: int| 0 <= k < 3 implies s.subrange(4, 7)[k] == "BU_"@[k] by {
            assert(s.subrange(4, 7)[k] == s[4 + k]);
            assert(r[4 + k] == "CM_ BU_ "@[4 + k]);
        }
    }
    assert(crate::lexer::sp_tag_end(s, 4, "BU_"@) == Some(7int));
    assert(s[8] == node_name[0]);
    assert(crate::lexer::is_ident_start(node_name[0]));
    assert(!crate::lexer::is_multispace(s[8]));
    assert(crate::lexer::sp_skip_multispaces(s, 8) == 8);
    assert(crate::lexer::sp_skip_multispaces(s, 7) == 8);
    let jn = 8 + node_name.len() as int;
    assert(s.subrange(8, jn) =~= node_name) by {
        assert forall|k: int| 0 <= k < node_name.len() implies s.subrange(8, jn)[k]
            == node_name[k] by {
            assert(s.subrange(8, jn)[k] == s[8 + k]);
        }
    }
    assert(r[8 + node_name.len() as int] == ' ');
    assert(s[jn] == ' ');
    crate::lexer::lemma_ident_round_trip(node_name, s, 8);
    let p = jn + 1;
    assert(q[0] == '"');
    assert(s[p] == q[0]) by {
        assert(s[8 + node_name.len() + 1int] == r[8 + node_name.len() + 1int]);
    }
    assert(!crate::lexer::is_multispace(s[p]));
    assert(crate::lexer::sp_skip_multispaces(s, p) == p);
    assert(crate::lexer::sp_skip_multispaces(s, jn) == p);
    let e = p + 1 + text.len() as int;
    assert(s.subrange(p + 1, e) =~= text) by {
        assert forall|k: int| 0 <= k < text.len() implies s.subrange(p + 1, e)[k] == text[k] by {
            assert(s.subrange(p + 1, e)[k] == s[p + 1 + k]);
            assert(s[8 + node_name.len() + 1int + (1 + k)] == r[8 + node_name.len() + 1int + (1
                + k)]);
            assert(q[1 + k] == (seq!['"'] + text + seq!['"'])[1 + k]);
        }
    }
    assert(q[1 + text.len() as int] == '"');
    assert(s[e] == '"') by {
        assert(s[8 + node_name.len() + 1int + (1 + text.len())] == r[8 + node_name.len() + 1int
            + (1 + text.len())]);
    }
    crate::char_string::lemma_body_scan(s, p + 1, text);
    assert(crate::lexer::sp_quoted(s, p) == Some((text, e + 1)));
    assert(s[e + 1] == ';') by {
        assert(s[8 + node_name.len() + 1int + (2 + text.len())] == r[8 + node_name.len() + 1int
            + (2 + text.len())]);
        assert(r[8 + node_name.len() + 1 + q.len() as int] == ';');
    }
    assert(!crate::lexer::is_multispace(s[e + 1]));
    assert(crate::lexer::sp_skip_multispaces(s, e + 1) == e + 1);
    assert(s.subrange(e + 1, e + 2) =~= ";"@) by {
        assert(s.subrange(e + 1, e + 2)[0] == s[e + 1]);
    }
    assert(crate::lexer::sp_tag_end(s, e + 1, ";"@) == Some(e + 2));
    assert(e + 2 == r.len());
    assert(e + 2 == s.len() || !crate::lexer::is_multispace(s[e + 2]));
    assert(crate::lexer::sp_skip_multispaces(s, e + 2) == e + 2);
    assert(sp_node_comment(s, 0) == Some((v, e + 2)));
}

impl Comment {
    /// Render the comment line.
    pub fn to_text(&self) -> (r: String)
        ensures
            r@ == sp_render_comment(self@),
    {
        let mut out: String = String::new();
        match self {
            Comment::Network(c) => {
                out.append("CM_ \"");
                out.append(c.comment.0.as_str());
                out.append("\";");
            },
            Comment::Node(c) => {
                out.append("CM_ BU_ ");
                out.append(c.node_name.as_str());
                out.append(" \"");
                out.append(c.comment.0.as_str());
                out.append("\";");
            },
            Comment::Message(c) => {
                out.append("CM_ BO_ ");
                append_u32(&mut out, c.message_id);
                out.append(" \"");
                out.append(c.comment.0.as_str());
                out.append("\";");
            },
            Comment::Signal(c) => {
                out.append("CM_ SG_ ");
                append_u32(&mut out, c.message_id);
                out.append(" ");
                out.append(c.signal_name.as_str());
                out.append(" \"");
                out.append(c.comment.0.as_str());
                out.append("\";");
            },
            Comment::EnvironmentVariable(c) => {
                out.append("CM_ EV_ ");
                out.append(c.environment_variable_name.as_str());
                out.append(" \"");
                out.append(c.comment.0.as_str());
                out.append("\";");
            },
        }
        proof {
            reveal_strlit("CM_ \"");
            reveal_strlit("CM_ ");
            reveal_strlit(" \"");
            reveal_strlit(" ");
            reveal_strlit("\";");
            assert(out@ =~= sp_render_comment(self@));
        }
        out
    }
}

} // verus!
