//! Numeric literals of signal and attribute fields.
//!
//! The grammar reads these fields as doubles; the library stores the
//! literal's text exactly as matched, so rendering reproduces the source
//! digits and the round trip is exact.  A literal is either float-shaped
//! (fraction or exponent) or a plain integer whose value fits a signed
//! 64-bit word.

use vstd::prelude::*;

use crate::error::DbcParseError;
use crate::lexer::{parse_number, sp_number};

verus! {

/// A numeric literal, kept as its source text.
#[derive(Clone, Debug, PartialEq, Eq)]
pub struct Number(pub String);

impl View for Number {
    type V = Seq<char>;

    open spec fn view(&self) -> Seq<char> {
        self.0@
    }
}

impl DeepView for Number {
    type V = Seq<char>;

    open spec fn deep_view(&self) -> Seq<char> {
        self.0@
    }
}

impl Number {
    /// The literal's text, written back unchanged.
    pub fn to_text(&self) -> (r: String)
        ensures
            r@ == self@,
    {
        self.0.clone()
    }
}

/// Match a numeric literal and keep its text.
pub fn parser_number(s: &str, i: usize) -> (r: Result<(Number, usize), DbcParseError>)
    requires
        i <= s@.len(),
    ensures
        match r {
            Ok((v, j)) => sp_number(s@, i as int) == Some(j as int) && i < j <= s@.len() && v@
                == s@.subrange(i as int, j as int),
            Err(_) => sp_number(s@, i as int) is None,
        },
{
    match parse_number(s, i) {
        Ok((t, j)) => Ok((Number(t), j)),
        Err(e) => Err(e),
    }
}

} // verus!
