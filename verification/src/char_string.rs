//! Quoted-string values.
//!
//! A quoted string stores its body exactly as written: a recognized escape
//! sequence is kept verbatim, backslash included, and an unrecognized
//! backslash sequence is kept with its backslash intact as well.  Rendering
//! writes the stored body back unchanged between quotes, so parsing the
//! rendered form yields the same stored content.

use vstd::prelude::*;

use crate::error::DbcParseError;
use crate::lexer::{quoted, sp_quoted, sp_string_body_end};

verus! {

/// The stored body of a quoted string, escapes kept verbatim.
#[derive(Clone, Debug, PartialEq, Eq)]
pub struct CharString(pub String);

impl View for CharString {
    type V = Seq<char>;

    open spec fn view(&self) -> Seq<char> {
        self.0@
    }
}

impl DeepView for CharString {
    type V = Seq<char>;

    open spec fn deep_view(&self) -> Seq<char> {
        self.0@
    }
}

impl CharString {
    /// The stored content, written back unchanged.
    pub fn to_text(&self) -> (r: String)
        ensures
            r@ == self@,
    {
        self.0.clone()
    }
}

/// A body that a quoted string can store: every backslash absorbs a
/// following character, and a quote appears only inside an escape.
pub open spec fn is_valid_string_body(c: Seq<char>) -> bool
    decreases c.len(),
{
    if c.len() == 0 {
        true
    } else if c[0] == '\\' {
        c.len() >= 2 && is_valid_string_body(c.skip(2))
    } else {
        c[0] != '"' && is_valid_string_body(c.skip(1))
    }
}

/// The rendered form of a stored body: the body between two quotes.
pub open spec fn quote_seq(c: Seq<char>) -> Seq<char> {
    seq!['"'] + c + seq!['"']
}

/// Match a quoted string and keep its raw body.
pub fn parser_char_string(s: &str, i: usize) -> (r: Result<(CharString, usize), DbcParseError>)
    requires
        i <= s@.len(),
    ensures
        match r {
            Ok((v, j)) => sp_quoted(s@, i as int) == Some((v@, j as int)) && i < j <= s@.len(),
            Err(e) => sp_quoted(s@, i as int) is None && e == DbcParseError::BadEscape,
        },
{
    match quoted(s, i) {
        Some((t, j)) => Ok((CharString(t), j)),
        None => Err(DbcParseError::BadEscape),
    }
}

/// The scan of a quoted-string body stops exactly at the quote that closes a
/// valid body.
pub proof fn lemma_body_scan(s: Seq<char>, i: int, c: Seq<char>)
    requires
        0 <= i,
        i + c.len() + 1 <= s.len(),
        s.subrange(i, i + c.len()) == c,
        s[i + c.len()] == '"',
        is_valid_string_body(c),
    ensures
        sp_string_body_end(s, i) == Some(i + c.len()),
    decreases c.len(),
{
    if c.len() == 0 {
        assert(s[i] == '"');
    } else if c[0] == '\\' {
        assert(s[i] == c[0]);
        assert(s.subrange(i + 2, i + 2 + (c.len() - 2)) =~= c.skip(2));
        assert(s[i + 2 + (c.len() - 2)] == '"');
        lemma_body_scan(s, i + 2, c.skip(2));
    } else {
        assert(s[i] == c[0]);
        assert(s.subrange(i + 1, i + 1 + (c.len() - 1)) =~= c.skip(1));
        assert(s[i + 1 + (c.len() - 1)] == '"');
        lemma_body_scan(s, i + 1, c.skip(1));
    }
}

/// Every stored body that a successful parse produces is a valid body.
proof fn lemma_body_scan_valid(s: Seq<char>, i: int, e: int)
    requires
        0 <= i <= s.len(),
        sp_string_body_end(s, i) == Some(e),
    ensures
        i <= e <= s.len(),
        is_valid_string_body(s.subrange(i, e)),
    decreases s.len() - i,
{
    crate::lexer::lemma_string_body_end_bounds(s, i);
    if s[i] == '"' {
        assert(s.subrange(i, e).len() == 0);
    } else if s[i] == '\\' {
        lemma_body_scan_valid(s, i + 2, e);
        let c = s.subrange(i, e);
        assert(c[0] == '\\');
        assert(c.skip(2) =~= s.subrange(i + 2, e));
    } else {
        lemma_body_scan_valid(s, i + 1, e);
        let c = s.subrange(i, e);
        assert(c[0] != '"' && c[0] != '\\');
        assert(c.skip(1) =~= s.subrange(i + 1, e));
    }
}

/// Round trip of quoted strings: for any valid stored body, rendering it
/// between quotes and parsing the result again yields the same stored
/// content, whatever text follows the closing quote.
pub proof fn lemma_char_string_round_trip(c: Seq<char>, rest: Seq<char>)
    requires
        is_valid_string_body(c),
    ensures
        sp_quoted(quote_seq(c) + rest, 0) == Some((c, c.len() + 2int)),
{
    let s = quote_seq(c) + rest;
    assert(s[0] == '"');
    assert(s.subrange(1, 1 + c.len() as int) =~= c);
    assert(s[1 + c.len() as int] == '"');
    lemma_body_scan(s, 1, c);
    assert(s.subrange(1, 1 + c.len() as int) == c);
}

/// A parsed quoted string always stores a valid body, so it can always be
/// rendered back.
pub proof fn lemma_parsed_string_is_valid(s: Seq<char>, i: int, c: Seq<char>, j: int)
    requires
        0 <= i <= s.len(),
        sp_quoted(s, i) == Some((c, j)),
    ensures
        is_valid_string_body(c),
{
    let e = sp_string_body_end(s, i + 1);
    crate::lexer::lemma_string_body_end_bounds(s, i + 1);
    lemma_body_scan_valid(s, i + 1, e->Some_0);
}

} // verus!
