//! The bit timing section.
//!
//! Format: `BS_:` optionally followed by `baudrate:BTR1:BTR2` and an
//! optional trailing semicolon.  The keyword with no value is a valid state
//! of its own, distinct from the section's absence.

use vstd::prelude::*;

use crate::error::DbcParseError;
use crate::lexer::{parse_u64, skip_line_endings, skip_multispaces, skip_spaces,
    sp_skip_line_endings, sp_skip_multispaces, sp_skip_spaces, sp_tag_end, sp_u64, tag};
use crate::text::{dec_digits, append_u64};

verus! {

/// The baudrate and the two bit timing register values.
#[derive(Clone, Copy, Debug, PartialEq, Eq, Structural)]
pub struct BitTimingValue {
    pub baudrate: u64,
    pub btr1: u64,
    pub btr2: u64,
}

/// The bit timing section: the keyword with or without a value triple.
#[derive(Clone, Copy, Debug, PartialEq, Eq, Structural)]
pub struct BitTiming {
    pub value: Option<BitTimingValue>,
}

/// The value triple at `i`: three unsigned numbers separated by colons,
/// spaces tolerated around every token.
pub open spec fn sp_bit_timing_value(s: Seq<char>, i: int) -> Option<(BitTimingValue, int)> {
    let i1 = sp_skip_spaces(s, i);
    match sp_u64(s, i1) {
        None => None,
        Some((baudrate, j1)) => {
            let i2 = sp_skip_spaces(s, j1);
            let i3 = sp_skip_spaces(s, i2);
            match sp_tag_end(s, i3, ":"@) {
                None => None,
                Some(i4) => {
                    let i5 = sp_skip_spaces(s, i4);
                    let i6 = sp_skip_spaces(s, i5);
                    match sp_u64(s, i6) {
                        None => None,
                        Some((btr1, j2)) => {
                            let i7 = sp_skip_spaces(s, j2);
                            let i8 = sp_skip_spaces(s, i7);
                            match sp_tag_end(s, i8, ":"@) {
                                None => None,
                                Some(i9) => {
                                    let i10 = sp_skip_spaces(s, i9);
                                    let i11 = sp_skip_spaces(s, i10);
                                    match sp_u64(s, i11) {
                                        None => None,
                                        Some((btr2, j3)) => Some(
                                            (BitTimingValue { baudrate, btr1, btr2 },
                                            sp_skip_spaces(s, j3)),
                                        ),
                                    }
                                },
                            }
                        },
                    }
                },
            }
        },
    }
}

/// Match the value triple.
pub fn parser_bit_timing_value(s: &str, i: usize) -> (r: Result<
    (BitTimingValue, usize),
    DbcParseError,
>)
    requires
        i <= s@.len(),
    ensures
        match r {
            Ok((v, j)) => sp_bit_timing_value(s@, i as int) == Some((v, j as int)) && i <= j
                <= s@.len(),
            Err(e) => sp_bit_timing_value(s@, i as int) is None && e
                == DbcParseError::BadBitTimingValue,
        },
{
    let i1: usize = skip_spaces(s, i);
    match parse_u64(s, i1) {
        None => Err(DbcParseError::BadBitTimingValue),
        Some((baudrate, j1)) => {
            let i2: usize = skip_spaces(s, j1);
            let i3: usize = skip_spaces(s, i2);
            match tag(s, i3, ":") {
                None => Err(DbcParseError::BadBitTimingValue),
                Some(i4) => {
                    let i5: usize = skip_spaces(s, i4);
                    let i6: usize = skip_spaces(s, i5);
                    match parse_u64(s, i6) {
                        None => Err(DbcParseError::BadBitTimingValue),
                        Some((btr1, j2)) => {
                            let i7: usize = skip_spaces(s, j2);
                            let i8: usize = skip_spaces(s, i7);
                            match tag(s, i8, ":") {
                                None => Err(DbcParseError::BadBitTimingValue),
                                Some(i9) => {
                                    let i10: usize = skip_spaces(s, i9);
                                    let i11: usize = skip_spaces(s, i10);
                                    match parse_u64(s, i11) {
                                        None => Err(DbcParseError::BadBitTimingValue),
                                        Some((btr2, j3)) => {
                                            let j: usize = skip_spaces(s, j3);
                                            Ok((BitTimingValue { baudrate, btr1, btr2 }, j))
                                        },
                                    }
                                },
                            }
                        },
                    }
                },
            }
        },
    }
}

/// The bit timing section at `i`: the keyword, a colon, an optional value
/// triple, an optional semicolon, then trailing line endings.
pub open spec fn sp_bit_timing(s: Seq<char>, i: int) -> Option<(BitTiming, int)> {
    let i1 = sp_skip_multispaces(s, i);
    match sp_tag_end(s, i1, "BS_"@) {
        None => None,
        Some(i2) => {
            let i3 = sp_skip_multispaces(s, i2);
            let i4 = sp_skip_spaces(s, i3);
            match sp_tag_end(s, i4, ":"@) {
                None => None,
                Some(i5) => {
                    let i6 = sp_skip_spaces(s, i5);
                    let i7 = sp_skip_spaces(s, i6);
                    let (value, i8) = match sp_bit_timing_value(s, i7) {
                        Some((v, j)) => (Some(v), j),
                        None => (None, i7),
                    };
                    let i9 = sp_skip_spaces(s, i8);
                    let i10 = sp_skip_spaces(s, i9);
                    let i11 = match sp_tag_end(s, i10, ";"@) {
                        Some(j) => j,
                        None => i10,
                    };
                    let i12 = sp_skip_spaces(s, i11);
                    Some((BitTiming { value }, sp_skip_line_endings(s, i12)))
                },
            }
        },
    }
}

/// Match the bit timing section.
pub fn parser_bit_timing(s: &str, i: usize) -> (r: Result<(BitTiming, usize), DbcParseError>)
    requires
        i <= s@.len(),
    ensures
        match r {
            Ok((v, j)) => sp_bit_timing(s@, i as int) == Some((v, j as int)) && i <= j
                <= s@.len(),
            Err(e) => sp_bit_timing(s@, i as int) is None && e == DbcParseError::BadBitTiming,
        },
{
    let i1: usize = skip_multispaces(s, i);
    match tag(s, i1, "BS_") {
        None => Err(DbcParseError::BadBitTiming),
        Some(i2) => {
            let i3: usize = skip_multispaces(s, i2);
            let i4: usize = skip_spaces(s, i3);
            match tag(s, i4, ":") {
                None => Err(DbcParseError::BadBitTiming),
                Some(i5) => {
                    let i6: usize = skip_spaces(s, i5);
                    let i7: usize = skip_spaces(s, i6);
                    let (value, i8): (Option<BitTimingValue>, usize) = match parser_bit_timing_value(
                        s,
                        i7,
                    ) {
                        Ok((v, j)) => (Some(v), j),
                        Err(_) => (None, i7),
                    };
                    let i9: usize = skip_spaces(s, i8);
                    let i10: usize = skip_spaces(s, i9);
                    let i11: usize = match tag(s, i10, ";") {
                        Some(j) => j,
                        None => i10,
                    };
                    let i12: usize = skip_spaces(s, i11);
                    let j: usize = skip_line_endings(s, i12);
                    Ok((BitTiming { value }, j))
                },
            }
        },
    }
}

/// The rendered value triple.
pub open spec fn sp_render_bit_timing_value(v: BitTimingValue) -> Seq<char> {
    dec_digits(v.baudrate as nat) + seq![':'] + dec_digits(v.btr1 as nat) + seq![':'] + dec_digits(
        v.btr2 as nat,
    )
}

/// The rendered bit timing line.
pub open spec fn sp_render_bit_timing(b: BitTiming) -> Seq<char> {
    match b.value {
        Some(v) => "BS_: "@ + sp_render_bit_timing_value(v) + seq!['\n'],
        None => "BS_:"@ + seq!['\n'],
    }
}

/// Parsing a rendered value triple at its position yields the triple back,
/// when the text behind it starts with no space, digit or colon.
proof fn lemma_bit_timing_value_scan(v: BitTimingValue, s: Seq<char>, i: int)
    requires
        0 <= i,
        i + sp_render_bit_timing_value(v).len() <= s.len(),
        s.subrange(i, i + sp_render_bit_timing_value(v).len() as int) == sp_render_bit_timing_value(
            v,
        ),
        ({
            let e = i + sp_render_bit_timing_value(v).len();
            e == s.len() || !(crate::lexer::is_digit(s[e]) || crate::lexer::is_space(s[e]))
        }),
    ensures
        sp_bit_timing_value(s, i) == Some(
            (v, i + sp_render_bit_timing_value(v).len() as int),
        ),
{
    let db = crate::text::dec_digits(v.baudrate as nat);
    let d1 = crate::text::dec_digits(v.btr1 as nat);
    let d2 = crate::text::dec_digits(v.btr2 as nat);
    let r = sp_render_bit_timing_value(v);
    crate::text::lemma_dec_digits_are_digits(v.baudrate as nat);
    crate::text::lemma_dec_digits_are_digits(v.btr1 as nat);
    crate::text::lemma_dec_digits_are_digits(v.btr2 as nat);
    let e0 = i + db.len() as int;
    let e1 = e0 + 1 + d1.len() as int;
    let e2 = e1 + 1 + d2.len() as int;
    assert forall|k: int| 0 <= k < r.len() implies s[i + k] == #[trigger] r[k] by {
        assert(s.subrange(i, i + r.len() as int)[k] == s[i + k]);
    }
    assert(e2 == i + r.len());
    assert forall|k: int| 0 <= k < db.len() implies #[trigger] db[k] == r[k] by {}
    assert forall|k: int| 0 <= k < d1.len() implies #[trigger] d1[k] == r[db.len() + 1 + k] by {}
    assert forall|k: int| 0 <= k < d2.len() implies #[trigger] d2[k] == r[
        db.len() + 1 + d1.len() + 1 + k
    ] by {}
    assert(r[db.len() as int] == ':');
    assert(r[db.len() + 1 + d1.len() as int] == ':');
    // The baudrate digits.
    assert(s[i] == r[0] && r[0] == db[0]);
    assert(crate::lexer::is_digit(s[i]));
    assert(crate::lexer::sp_skip_spaces(s, i) == i);
    assert(s.subrange(i, e0) =~= db) by {
        assert forall|k: int| 0 <= k < db.len() implies s.subrange(i, e0)[k] == db[k] by {
            assert(s.subrange(i, e0)[k] == s[i + k]);
            assert(s[i + k] == r[k]);
        }
    }
    assert(s[e0] == ':');
    crate::text::lemma_u64_round_trip(v.baudrate, s, i);
    assert(crate::lexer::sp_u64(s, i) == Some((v.baudrate, e0)));
    assert(crate::lexer::sp_skip_spaces(s, e0) == e0);
    assert(s.subrange(e0, e0 + 1) =~= ":"@) by {
        reveal_strlit(":");
        assert(s.subrange(e0, e0 + 1)[0] == s[e0]);
    }
    assert(crate::lexer::sp_tag_end(s, e0, ":"@) == Some(e0 + 1)) by {
        reveal_strlit(":");
    }
    // The first register digits.
    assert(s[e0 + 1] == d1[0]);
    assert(crate::lexer::is_digit(s[e0 + 1]));
    assert(crate::lexer::sp_skip_spaces(s, e0 + 1) == e0 + 1);
    assert(s.subrange(e0 + 1, e1) =~= d1) by {
        assert forall|k: int| 0 <= k < d1.len() implies s.subrange(e0 + 1, e1)[k] == d1[k] by {
            assert(s.subrange(e0 + 1, e1)[k] == s[e0 + 1 + k]);
            assert(s[i + (db.len() + 1 + k)] == r[db.len() + 1 + k]);
        }
    }
    assert(s[e1] == ':');
    crate::text::lemma_u64_round_trip(v.btr1, s, e0 + 1);
    assert(crate::lexer::sp_u64(s, e0 + 1) == Some((v.btr1, e1)));
    assert(crate::lexer::sp_skip_spaces(s, e1) == e1);
    assert(s.subrange(e1, e1 + 1) =~= ":"@) by {
        reveal_strlit(":");
        assert(s.subrange(e1, e1 + 1)[0] == s[e1]);
    }
    assert(crate::lexer::sp_tag_end(s, e1, ":"@) == Some(e1 + 1)) by {
        reveal_strlit(":");
    }
    // The second register digits.
    assert(s[e1 + 1] == d2[0]);
    assert(crate::lexer::is_digit(s[e1 + 1]));
    assert(crate::lexer::sp_skip_spaces(s, e1 + 1) == e1 + 1);
    assert(s.subrange(e1 + 1, e2) =~= d2) by {
        assert forall|k: int| 0 <= k < d2.len() implies s.subrange(e1 + 1, e2)[k] == d2[k] by {
            assert(s.subrange(e1 + 1, e2)[k] == s[e1 + 1 + k]);
            assert(s[i + (db.len() + 1 + d1.len() + 1 + k)] == r[
                db.len() + 1 + d1.len() + 1 + k
            ]);
        }
    }
    assert(e2 == s.len() || !crate::lexer::is_digit(s[e2]));
    crate::text::lemma_u64_round_trip(v.btr2, s, e1 + 1);
    assert(crate::lexer::sp_u64(s, e1 + 1) == Some((v.btr2, e2)));
    assert(crate::lexer::sp_skip_spaces(s, e2) == e2);
}

/// Parsing a rendered bit timing line yields the value it was rendered
/// from, whatever text follows, as long as that text starts with no
/// whitespace, digit or semicolon.  One whole section of the
/// parse-render-parse round trip.
pub proof fn lemma_bit_timing_round_trip(b: BitTiming, rest: Seq<char>)
    requires
        rest.len() == 0 || !(crate::lexer::is_multispace(rest[0]) || crate::lexer::is_digit(
            rest[0],
        ) || rest[0] == ';'),
    ensures
        sp_bit_timing(sp_render_bit_timing(b) + rest, 0) == Some(
            (b, sp_render_bit_timing(b).len() as int),
        ),
{
    let r = sp_render_bit_timing(b);
    let s = r + rest;
    reveal_strlit("BS_: ");
    reveal_strlit("BS_:");
    reveal_strlit("BS_");
    reveal_strlit(":");
    reveal_strlit(";");
    assert forall|k: int| 0 <= k < r.len() implies s[k] == #[trigger] r[k] by {}
    assert forall|k: int| r.len() <= k < s.len() implies s[k] == rest[k - r.len()] by {}
    match b.value {
        Some(v) => {
            let body = sp_render_bit_timing_value(v);
            crate::text::lemma_dec_digits_are_digits(v.baudrate as nat);
            assert(r == "BS_: "@ + body + seq!['\n']);
            assert forall|k: int| 0 <= k < body.len() implies #[trigger] body[k] == r[5 + k] by {}
            assert(s[0] == 'B' && s[1] == 'S' && s[2] == '_' && s[3] == ':' && s[4] == ' ');
            assert(crate::lexer::sp_skip_multispaces(s, 0) == 0);
            assert(s.subrange(0, 3) =~= "BS_"@);
            assert(crate::lexer::sp_tag_end(s, 0, "BS_"@) == Some(3int));
            assert(crate::lexer::sp_skip_multispaces(s, 3) == 3);
            assert(crate::lexer::sp_skip_spaces(s, 3) == 3);
            assert(s.subrange(3, 4) =~= ":"@);
            assert(crate::lexer::sp_tag_end(s, 3, ":"@) == Some(4int));
            assert(body[0] == crate::text::dec_digits(v.baudrate as nat)[0]);
            assert(s[5] == body[0]);
            assert(crate::lexer::is_digit(s[5]));
            assert(crate::lexer::sp_skip_spaces(s, 4) == 5);
            assert(crate::lexer::sp_skip_spaces(s, 5) == 5);
            let e = 5 + body.len() as int;
            assert(s.subrange(5, e) =~= body) by {
                assert forall|k: int| 0 <= k < body.len() implies s.subrange(5, e)[k]
                    == body[k] by {
                    assert(s.subrange(5, e)[k] == s[5 + k]);
                }
            }
            assert(s[e] == r[e] && r[e] == '\n');
            lemma_bit_timing_value_scan(v, s, 5);
            assert(sp_bit_timing_value(s, 5) == Some((v, e)));
            assert(crate::lexer::sp_skip_spaces(s, e) == e);
            assert(!crate::lexer::sp_tag_at(s, e, ";"@)) by {
                if crate::lexer::sp_tag_at(s, e, ";"@) {
                    assert(s.subrange(e, e + 1)[0] == s[e]);
                }
            }
            assert(e + 1 == r.len());
            assert(e + 1 == s.len() || (s[e + 1] != '\n' && s[e + 1] != '\r'));
            assert(crate::lexer::sp_skip_line_endings(s, e + 1) == e + 1);
            assert(crate::lexer::sp_skip_line_endings(s, e) == e + 1);
        },
        None => {
            assert(r == "BS_:"@ + seq!['\n']);
            assert(s[0] == 'B' && s[1] == 'S' && s[2] == '_' && s[3] == ':' && s[4] == '\n');
            assert(crate::lexer::sp_skip_multispaces(s, 0) == 0);
            assert(s.subrange(0, 3) =~= "BS_"@);
            assert(crate::lexer::sp_tag_end(s, 0, "BS_"@) == Some(3int));
            assert(crate::lexer::sp_skip_multispaces(s, 3) == 3);
            assert(crate::lexer::sp_skip_spaces(s, 3) == 3);
            assert(s.subrange(3, 4) =~= ":"@);
            assert(crate::lexer::sp_tag_end(s, 3, ":"@) == Some(4int));
            assert(crate::lexer::sp_skip_spaces(s, 4) == 4);
            assert(crate::lexer::sp_skip_spaces(s, 5) == 5);
            assert(sp_bit_timing_value(s, 4) is None) by {
                assert(crate::lexer::sp_digit_run(s, 4) == 4);
            }
            assert(!crate::lexer::sp_tag_at(s, 4, ";"@)) by {
                if crate::lexer::sp_tag_at(s, 4, ";"@) {
                    assert(s.subrange(4, 5)[0] == s[4]);
                }
            }
            assert(5 == r.len());
            assert(5 == s.len() || (s[5] != '\n' && s[5] != '\r'));
            assert(crate::lexer::sp_skip_line_endings(s, 5) == 5);
            assert(crate::lexer::sp_skip_line_endings(s, 4) == 5);
        },
    }
}

impl BitTiming {
    /// Render the bit timing line.
    pub fn to_text(&self) -> (r: String)
        ensures
            r@ == sp_render_bit_timing(*self),
    {
        match self.value {
            Some(v) => {
                let mut out: String = String::from_str("BS_: ");
                append_u64(&mut out, v.baudrate);
                out.append(":");
                append_u64(&mut out, v.btr1);
                out.append(":");
                append_u64(&mut out, v.btr2);
                out.append("\n");
                proof {
                    reveal_strlit(":");
                    reveal_strlit("\n");
                    assert(out@ =~= sp_render_bit_timing(*self));
                }
                out
            },
            None => {
                let mut out: String = String::from_str("BS_:");
                out.append("\n");
                proof {
                    reveal_strlit("\n");
                    assert(out@ =~= sp_render_bit_timing(*self));
                }
                out
            },
        }
    }
}

} // verus!
