//! The version line.
//!
//! Format: `VERSION "<VersionIdentifier>"`.

use vstd::prelude::*;

use crate::char_string::{is_valid_string_body, lemma_body_scan, quote_seq, CharString,
    parser_char_string};
use crate::error::DbcParseError;
use crate::lexer::{skip_spaces, sp_quoted, sp_skip_spaces, sp_tag_end, tag};

verus! {

/// Version identifier of the document.
#[derive(Clone, Debug, PartialEq, Eq)]
pub struct Version(pub CharString);

impl View for Version {
    type V = Seq<char>;

    open spec fn view(&self) -> Seq<char> {
        self.0@
    }
}

/// The version line at `i`: optional spaces, the version keyword, optional
/// spaces, then a quoted string.
pub open spec fn sp_version(s: Seq<char>, i: int) -> Option<(Seq<char>, int)> {
    let i1 = sp_skip_spaces(s, i);
    match sp_tag_end(s, i1, "VERSION"@) {
        None => None,
        Some(i2) => {
            let i3 = sp_skip_spaces(s, i2);
            sp_quoted(s, i3)
        },
    }
}

/// Match the version line.
pub fn parser_version(s: &str, i: usize) -> (r: Result<(Version, usize), DbcParseError>)
    requires
        i <= s@.len(),
    ensures
        match r {
            Ok((v, j)) => sp_version(s@, i as int) == Some((v@, j as int)) && i < j <= s@.len(),
            Err(e) => sp_version(s@, i as int) is None && e == DbcParseError::BadVersion,
        },
{
    let i1: usize = skip_spaces(s, i);
    match tag(s, i1, "VERSION") {
        None => Err(DbcParseError::BadVersion),
        Some(i2) => {
            let i3: usize = skip_spaces(s, i2);
            match parser_char_string(s, i3) {
                Ok((v, j)) => Ok((Version(v), j)),
                Err(_) => Err(DbcParseError::BadVersion),
            }
        },
    }
}

/// The rendered version line.
pub open spec fn sp_render_version(v: Seq<char>) -> Seq<char> {
    "VERSION "@ + quote_seq(v)
}

impl Version {
    /// Render the version line.
    pub fn to_text(&self) -> (r: String)
        ensures
            r@ == sp_render_version(self@),
    {
        let mut out: String = String::from_str("VERSION \"");
        out.append(self.0.0.as_str());
        out.append("\"");
        proof {
            reveal_strlit("VERSION \"");
            reveal_strlit("VERSION ");
            reveal_strlit("\"");
            assert("VERSION \""@ + self@ + "\""@ =~= sp_render_version(self@));
        }
        out
    }
}

/// Parsing a rendered version line yields the version it was rendered
/// from, whatever text follows it.
pub proof fn lemma_version_round_trip(v: Seq<char>, rest: Seq<char>)
    requires
        is_valid_string_body(v),
    ensures
        sp_version(sp_render_version(v) + rest, 0) == Some((v, v.len() + 10int)),
{
    let s = sp_render_version(v) + rest;
    reveal_strlit("VERSION ");
    reveal_strlit("VERSION");
    assert(s.len() >= v.len() + 10);
    assert(!crate::lexer::is_space(s[0]));
    assert(sp_skip_spaces(s, 0) == 0);
    assert(s.subrange(0, 7) =~= "VERSION"@);
    assert(sp_tag_end(s, 0, "VERSION"@) == Some(7int));
    assert(s[7] == ' ');
    assert(s[8] == '"');
    assert(sp_skip_spaces(s, 8) == 8);
    assert(sp_skip_spaces(s, 7) == 8);
    assert(s.subrange(9, 9 + v.len() as int) =~= v);
    assert(s[9 + v.len() as int] == '"');
    lemma_body_scan(s, 9, v);
    assert(sp_quoted(s, 8) == Some((s.subrange(9, 9 + v.len() as int), v.len() + 10int)));
}

} // verus!
