//! Lexical primitives of the document grammar.
//!
//! Every executable primitive is specified against a mathematical mirror: a
//! `spec` function over the input's character sequence that says exactly
//! which prefix is consumed and which value comes out.  Primitives never
//! consume a partial match that they then fail to complete.

use vstd::prelude::*;

verus! {

// ---------------------------------------------------------------------------
// Character classes
// ---------------------------------------------------------------------------

/// A single-line space: blank or horizontal tab.
pub open spec fn is_space(c: char) -> bool {
    c == ' ' || c == '\t'
}

/// Any whitespace character, line breaks included.
pub open spec fn is_multispace(c: char) -> bool {
    c == ' ' || c == '\t' || c == '\r' || c == '\n'
}

/// An ASCII decimal digit.
pub open spec fn is_digit(c: char) -> bool {
    48 <= c as u32 && c as u32 <= 57
}

/// An ASCII hexadecimal digit.
pub open spec fn is_hex_digit(c: char) -> bool {
    is_digit(c) || (65 <= c as u32 && c as u32 <= 70) || (97 <= c as u32 && c as u32 <= 102)
}

/// An ASCII letter.
pub open spec fn is_alpha(c: char) -> bool {
    (65 <= c as u32 && c as u32 <= 90) || (97 <= c as u32 && c as u32 <= 122)
}

/// A character that may start an identifier.
pub open spec fn is_ident_start(c: char) -> bool {
    is_alpha(c) || c == '_'
}

/// A character that may continue an identifier.
pub open spec fn is_ident_char(c: char) -> bool {
    is_alpha(c) || is_digit(c) || c == '_'
}

/// Whether a character outside the ASCII range counts as alphanumeric.
/// The class is a fixed function of the character alone; what it holds is
/// stated only by the trusted classifier below.
pub uninterp spec fn unicode_alnum(c: char) -> bool;

/// Relies on char::is_alphanumeric: whether a character is alphanumeric
/// depends on the character alone, so the result carries the trusted
/// class.
#[verifier::external_body]
fn is_alphanumeric_char(c: char) -> (b: bool)
    ensures
        b == unicode_alnum(c),
{
    c.is_alphanumeric()
}

/// A character of an object name: an alphanumeric character or an
/// underscore.  In the ASCII range the alphanumeric characters are exactly
/// the letters and digits; beyond it the class is the trusted one.
pub open spec fn is_object_name_char(c: char) -> bool {
    is_alpha(c) || is_digit(c) || c == '_' || (c as u32 >= 128 && unicode_alnum(c))
}

/// The numeric value of a decimal digit.
pub open spec fn digit_val(c: char) -> nat
    recommends
        is_digit(c),
{
    (c as u32 - 48) as nat
}

/// The numeric value of a hexadecimal digit.
pub open spec fn hex_digit_val(c: char) -> nat
    recommends
        is_hex_digit(c),
{
    if is_digit(c) {
        (c as u32 - 48) as nat
    } else if 65 <= c as u32 && c as u32 <= 70 {
        (c as u32 - 55) as nat
    } else {
        (c as u32 - 87) as nat
    }
}

// ---------------------------------------------------------------------------
// Whitespace
// ---------------------------------------------------------------------------

/// First position at or after `i` holding no single-line space.
pub open spec fn sp_skip_spaces(s: Seq<char>, i: int) -> int
    decreases s.len() - i when 0 <= i <= s.len()
{
    if i < s.len() && is_space(s[i]) {
        sp_skip_spaces(s, i + 1)
    } else {
        i
    }
}

/// Skip blanks and horizontal tabs.
pub fn skip_spaces(s: &str, i: usize) -> (j: usize)
    requires
        i <= s@.len(),
    ensures
        j == sp_skip_spaces(s@, i as int),
        i <= j <= s@.len(),
{
    let n: usize = s.unicode_len();
    let mut j: usize = i;
    while j < n && is_space_at(s, j)
        invariant
            i <= j <= n,
            n == s@.len(),
            sp_skip_spaces(s@, i as int) == sp_skip_spaces(s@, j as int),
        decreases n - j,
    {
        j = j + 1;
    }
    j
}

/// Whether position `j` holds a single-line space.
fn is_space_at(s: &str, j: usize) -> (b: bool)
    requires
        j < s@.len(),
    ensures
        b == is_space(s@[j as int]),
{
    let c: char = s.get_char(j);
    c == ' ' || c == '\t'
}

/// First position at or after `i` holding no whitespace at all.
pub open spec fn sp_skip_multispaces(s: Seq<char>, i: int) -> int
    decreases s.len() - i when 0 <= i <= s.len()
{
    if i < s.len() && is_multispace(s[i]) {
        sp_skip_multispaces(s, i + 1)
    } else {
        i
    }
}

/// Skip whitespace of any kind, line breaks included.
pub fn skip_multispaces(s: &str, i: usize) -> (j: usize)
    requires
        i <= s@.len(),
    ensures
        j == sp_skip_multispaces(s@, i as int),
        i <= j <= s@.len(),
{
    let n: usize = s.unicode_len();
    let mut j: usize = i;
    while j < n && is_multispace_at(s, j)
        invariant
            i <= j <= n,
            n == s@.len(),
            sp_skip_multispaces(s@, i as int) == sp_skip_multispaces(s@, j as int),
        decreases n - j,
    {
        j = j + 1;
    }
    j
}

/// Whether position `j` holds any whitespace character.
fn is_multispace_at(s: &str, j: usize) -> (b: bool)
    requires
        j < s@.len(),
    ensures
        b == is_multispace(s@[j as int]),
{
    let c: char = s.get_char(j);
    c == ' ' || c == '\t' || c == '\r' || c == '\n'
}

/// End of a possibly empty run of line endings (`\n` or `\r\n`).
pub open spec fn sp_skip_line_endings(s: Seq<char>, i: int) -> int
    decreases s.len() - i when 0 <= i <= s.len()
{
    if i < s.len() && s[i] == '\n' {
        sp_skip_line_endings(s, i + 1)
    } else if i + 1 < s.len() && s[i] == '\r' && s[i + 1] == '\n' {
        sp_skip_line_endings(s, i + 2)
    } else {
        i
    }
}

/// Skip a possibly empty run of line endings.
pub fn skip_line_endings(s: &str, i: usize) -> (j: usize)
    requires
        i <= s@.len(),
    ensures
        j == sp_skip_line_endings(s@, i as int),
        i <= j <= s@.len(),
{
    let n: usize = s.unicode_len();
    let mut j: usize = i;
    loop
        invariant
            i <= j <= n,
            n == s@.len(),
            sp_skip_line_endings(s@, i as int) == sp_skip_line_endings(s@, j as int),
        ensures
            j == sp_skip_line_endings(s@, i as int),
            i <= j <= s@.len(),
        decreases n - j,
    {
        if j < n && s.get_char(j) == '\n' {
            j = j + 1;
        } else if j < n && j + 1 < n && s.get_char(j) == '\r' && s.get_char(j + 1) == '\n' {
            j = j + 2;
        } else {
            break;
        }
    }
    j
}

// ---------------------------------------------------------------------------
// Literal tags
// ---------------------------------------------------------------------------

/// Whether the characters of `t` stand at position `i` of `s`.
pub open spec fn sp_tag_at(s: Seq<char>, i: int, t: Seq<char>) -> bool {
    0 <= i && i + t.len() <= s.len() && s.subrange(i, i + t.len()) == t
}

/// The position after the literal `t` at position `i`, when it stands
/// there.
pub open spec fn sp_tag_end(s: Seq<char>, i: int, t: Seq<char>) -> Option<int> {
    if sp_tag_at(s, i, t) {
        Some(i + t.len())
    } else {
        None
    }
}

/// Match the literal `t` at position `i`; return the position after it.
pub fn tag(s: &str, i: usize, t: &str) -> (r: Option<usize>)
    requires
        i <= s@.len(),
    ensures
        match r {
            Some(j) => sp_tag_at(s@, i as int, t@) && j == i + t@.len() && j <= s@.len(),
            None => !sp_tag_at(s@, i as int, t@),
        },
{
    let n: usize = s.unicode_len();
    let m: usize = t.unicode_len();
    if n - i < m {
        assert(i + t@.len() > s@.len());
        return None;
    }
    let mut k: usize = 0;
    while k < m
        invariant
            0 <= k <= m,
            m == t@.len(),
            n == s@.len(),
            i + m <= n,
            forall|x: int| 0 <= x < k ==> s@[i + x] == t@[x],
        decreases m - k,
    {
        if s.get_char(i + k) != t.get_char(k) {
            proof {
                let sub = s@.subrange(i as int, i + t@.len());
                assert(sub[k as int] == s@[i + k]);
                assert(sub != t@);
            }
            return None;
        }
        k = k + 1;
    }
    proof {
        let sub = s@.subrange(i as int, i + t@.len());
        assert forall|x: int| 0 <= x < t@.len() implies sub[x] == t@[x] by {
            assert(s@[i + x] == t@[x]);
        }
        assert(sub =~= t@);
    }
    Some(i + m)
}

// ---------------------------------------------------------------------------
// Digit runs and integer literals
// ---------------------------------------------------------------------------

/// End of the possibly empty run of decimal digits starting at `i`.
pub open spec fn sp_digit_run(s: Seq<char>, i: int) -> int
    decreases s.len() - i when 0 <= i <= s.len()
{
    if i < s.len() && is_digit(s[i]) {
        sp_digit_run(s, i + 1)
    } else {
        i
    }
}

pub proof fn lemma_digit_run_bounds(s: Seq<char>, i: int)
    requires
        0 <= i <= s.len(),
    ensures
        i <= sp_digit_run(s, i) <= s.len(),
    decreases s.len() - i,
{
    if i < s.len() && is_digit(s[i]) {
        lemma_digit_run_bounds(s, i + 1);
    }
}

/// The value of the decimal digits `s[i .. j]`, most significant first.
pub open spec fn digits_val(s: Seq<char>, i: int, j: int) -> nat
    decreases j - i when i <= j
{
    if j <= i {
        0
    } else {
        digits_val(s, i, j - 1) * 10 + digit_val(s[j - 1])
    }
}

/// End of the possibly empty run of hexadecimal digits starting at `i`.
pub open spec fn sp_hex_run(s: Seq<char>, i: int) -> int
    decreases s.len() - i when 0 <= i <= s.len()
{
    if i < s.len() && is_hex_digit(s[i]) {
        sp_hex_run(s, i + 1)
    } else {
        i
    }
}

/// The value of the hexadecimal digits `s[i .. j]`, most significant first.
pub open spec fn hex_val(s: Seq<char>, i: int, j: int) -> nat
    decreases j - i when i <= j
{
    if j <= i {
        0
    } else {
        hex_val(s, i, j - 1) * 16 + hex_digit_val(s[j - 1])
    }
}

/// Whether position `j` holds a decimal digit.
fn is_digit_at(s: &str, j: usize) -> (b: bool)
    requires
        j < s@.len(),
    ensures
        b == is_digit(s@[j as int]),
{
    let c: char = s.get_char(j);
    let u: u32 = c as u32;
    48 <= u && u <= 57
}

/// Scan the decimal digit run at `i`; give its end and, when the value fits
/// in a `u64`, the value.
fn digit_run_u64(s: &str, i: usize) -> (r: (usize, Option<u64>))
    requires
        i <= s@.len(),
    ensures
        r.0 == sp_digit_run(s@, i as int),
        i <= r.0 <= s@.len(),
        match r.1 {
            Some(v) => v == digits_val(s@, i as int, r.0 as int),
            None => digits_val(s@, i as int, r.0 as int) > u64::MAX,
        },
{
    let n: usize = s.unicode_len();
    let mut j: usize = i;
    let mut acc: u64 = 0;
    let mut over: bool = false;
    while j < n && is_digit_at(s, j)
        invariant
            i <= j <= n,
            n == s@.len(),
            sp_digit_run(s@, i as int) == sp_digit_run(s@, j as int),
            !over ==> acc == digits_val(s@, i as int, j as int),
            over ==> digits_val(s@, i as int, j as int) > u64::MAX,
        decreases n - j,
    {
        let c: char = s.get_char(j);
        let d: u64 = (c as u32 - 48) as u64;
        proof {
            assert(digits_val(s@, i as int, j + 1) == digits_val(s@, i as int, j as int) * 10
                + digit_val(s@[j as int]));
        }
        if over {
        } else if acc > 1844674407370955161u64 || (acc == 1844674407370955161u64 && d > 5) {
            over = true;
        } else {
            acc = acc * 10 + d;
        }
        j = j + 1;
    }
    if over {
        (j, None)
    } else {
        (j, Some(acc))
    }
}

/// Parse a nonempty decimal digit run as a `u64`; the run must not overflow.
pub open spec fn sp_u64(s: Seq<char>, i: int) -> Option<(u64, int)> {
    let j = sp_digit_run(s, i);
    if j == i {
        None
    } else if digits_val(s, i, j) > u64::MAX {
        None
    } else {
        Some((digits_val(s, i, j) as u64, j))
    }
}

/// Parse an unsigned 64-bit decimal literal.
pub fn parse_u64(s: &str, i: usize) -> (r: Option<(u64, usize)>)
    requires
        i <= s@.len(),
    ensures
        match r {
            Some((v, j)) => sp_u64(s@, i as int) == Some((v, j as int)) && i < j <= s@.len(),
            None => sp_u64(s@, i as int) is None,
        },
{
    let (j, val) = digit_run_u64(s, i);
    if j == i {
        return None;
    }
    match val {
        Some(v) => Some((v, j)),
        None => None,
    }
}

/// Parse a nonempty decimal digit run as a `u32`; the run must not overflow.
pub open spec fn sp_u32(s: Seq<char>, i: int) -> Option<(u32, int)> {
    let j = sp_digit_run(s, i);
    if j == i {
        None
    } else if digits_val(s, i, j) > u32::MAX {
        None
    } else {
        Some((digits_val(s, i, j) as u32, j))
    }
}

/// Parse an unsigned 32-bit decimal literal.
pub fn parse_u32(s: &str, i: usize) -> (r: Option<(u32, usize)>)
    requires
        i <= s@.len(),
    ensures
        match r {
            Some((v, j)) => sp_u32(s@, i as int) == Some((v, j as int)) && i < j <= s@.len(),
            None => sp_u32(s@, i as int) is None,
        },
{
    let (j, val) = digit_run_u64(s, i);
    if j == i {
        return None;
    }
    match val {
        Some(v) => {
            if v > 0xFFFF_FFFFu64 {
                None
            } else {
                Some((v as u32, j))
            }
        },
        None => None,
    }
}

/// Parse an optionally signed decimal digit run as an `i64`, leading zeros
/// tolerated; the value must fit.
pub open spec fn sp_i64(s: Seq<char>, i: int) -> Option<(i64, int)> {
    let neg = i < s.len() && s[i] == '-';
    let k = if i < s.len() && (s[i] == '-' || s[i] == '+') {
        i + 1
    } else {
        i
    };
    let j = sp_digit_run(s, k);
    if j == k {
        None
    } else {
        let v = digits_val(s, k, j);
        if neg {
            if v > 0x8000_0000_0000_0000 {
                None
            } else {
                Some(((0 - v as int) as i64, j))
            }
        } else {
            if v > i64::MAX {
                None
            } else {
                Some((v as i64, j))
            }
        }
    }
}

/// Parse a signed 64-bit decimal literal.
pub fn parse_i64(s: &str, i: usize) -> (r: Option<(i64, usize)>)
    requires
        i <= s@.len(),
    ensures
        match r {
            Some((v, j)) => sp_i64(s@, i as int) == Some((v, j as int)) && i < j <= s@.len(),
            None => sp_i64(s@, i as int) is None,
        },
{
    let n: usize = s.unicode_len();
    let mut neg: bool = false;
    let mut k: usize = i;
    if i < n {
        let c: char = s.get_char(i);
        if c == '-' {
            neg = true;
            k = i + 1;
        } else if c == '+' {
            k = i + 1;
        }
    }
    let (j, val) = digit_run_u64(s, k);
    if j == k {
        return None;
    }
    match val {
        Some(v) => {
            if neg {
                if v > 0x8000_0000_0000_0000u64 {
                    None
                } else if v == 0x8000_0000_0000_0000u64 {
                    Some((i64::MIN, j))
                } else {
                    Some((-(v as i64), j))
                }
            } else {
                if v > 0x7FFF_FFFF_FFFF_FFFFu64 {
                    None
                } else {
                    Some((v as i64, j))
                }
            }
        },
        None => None,
    }
}

/// Parse an optionally signed decimal digit run as an `i32`.
pub open spec fn sp_i32(s: Seq<char>, i: int) -> Option<(i32, int)> {
    let neg = i < s.len() && s[i] == '-';
    let k = if i < s.len() && (s[i] == '-' || s[i] == '+') {
        i + 1
    } else {
        i
    };
    let j = sp_digit_run(s, k);
    if j == k {
        None
    } else {
        let v = digits_val(s, k, j);
        if neg {
            if v > 0x8000_0000 {
                None
            } else {
                Some(((0 - v as int) as i32, j))
            }
        } else {
            if v > i32::MAX {
                None
            } else {
                Some((v as i32, j))
            }
        }
    }
}

/// Parse a signed 32-bit decimal literal.
pub fn parse_i32(s: &str, i: usize) -> (r: Option<(i32, usize)>)
    requires
        i <= s@.len(),
    ensures
        match r {
            Some((v, j)) => sp_i32(s@, i as int) == Some((v, j as int)) && i < j <= s@.len(),
            None => sp_i32(s@, i as int) is None,
        },
{
    let n: usize = s.unicode_len();
    let mut neg: bool = false;
    let mut k: usize = i;
    if i < n {
        let c: char = s.get_char(i);
        if c == '-' {
            neg = true;
            k = i + 1;
        } else if c == '+' {
            k = i + 1;
        }
    }
    let (j, val) = digit_run_u64(s, k);
    if j == k {
        return None;
    }
    match val {
        Some(v) => {
            if neg {
                if v > 0x8000_0000u64 {
                    None
                } else if v == 0x8000_0000u64 {
                    Some((i32::MIN, j))
                } else {
                    Some((-(v as i32), j))
                }
            } else {
                if v > 0x7FFF_FFFFu64 {
                    None
                } else {
                    Some((v as i32, j))
                }
            }
        },
        None => None,
    }
}

/// Whether position `j` holds a hexadecimal digit.
fn is_hex_digit_at(s: &str, j: usize) -> (b: bool)
    requires
        j < s@.len(),
    ensures
        b == is_hex_digit(s@[j as int]),
{
    let c: char = s.get_char(j);
    let u: u32 = c as u32;
    (48 <= u && u <= 57) || (65 <= u && u <= 70) || (97 <= u && u <= 102)
}

/// The numeric value of the hexadecimal digit at `j`.
fn hex_digit_val_at(s: &str, j: usize) -> (d: u32)
    requires
        j < s@.len(),
        is_hex_digit(s@[j as int]),
    ensures
        d == hex_digit_val(s@[j as int]),
{
    let c: char = s.get_char(j);
    let u: u32 = c as u32;
    if u <= 57 {
        u - 48
    } else if u <= 70 {
        u - 55
    } else {
        u - 87
    }
}

/// Parse a nonempty hexadecimal digit run as a `u16`; the run must not
/// overflow.
pub open spec fn sp_hex_u16(s: Seq<char>, i: int) -> Option<(u16, int)> {
    let j = sp_hex_run(s, i);
    if j == i {
        None
    } else if hex_val(s, i, j) > u16::MAX {
        None
    } else {
        Some((hex_val(s, i, j) as u16, j))
    }
}

/// Parse an unsigned 16-bit hexadecimal literal.
pub fn parse_hex_u16(s: &str, i: usize) -> (r: Option<(u16, usize)>)
    requires
        i <= s@.len(),
    ensures
        match r {
            Some((v, j)) => sp_hex_u16(s@, i as int) == Some((v, j as int)) && i < j <= s@.len(),
            None => sp_hex_u16(s@, i as int) is None,
        },
{
    let n: usize = s.unicode_len();
    let mut j: usize = i;
    let mut acc: u32 = 0;
    let mut over: bool = false;
    while j < n && is_hex_digit_at(s, j)
        invariant
            i <= j <= n,
            n == s@.len(),
            sp_hex_run(s@, i as int) == sp_hex_run(s@, j as int),
            !over ==> acc == hex_val(s@, i as int, j as int) && acc <= 0xFFFFu32,
            over ==> hex_val(s@, i as int, j as int) > u16::MAX,
        decreases n - j,
    {
        let d: u32 = hex_digit_val_at(s, j);
        proof {
            assert(hex_val(s@, i as int, j + 1) == hex_val(s@, i as int, j as int) * 16
                + hex_digit_val(s@[j as int]));
            assert(hex_digit_val(s@[j as int]) <= 15);
        }
        if over {
        } else if acc > 0x0FFFu32 {
            over = true;
        } else {
            acc = acc * 16 + d;
        }
        j = j + 1;
    }
    if j == i || over {
        None
    } else {
        Some((acc as u16, j))
    }
}

// ---------------------------------------------------------------------------
// Number literal shapes
// ---------------------------------------------------------------------------

/// End of an unsigned integer body: the single digit `0`, or a nonzero digit
/// followed by more digits.  A literal starting with `0` consumes only that
/// one character.
pub open spec fn sp_uint_body(s: Seq<char>, i: int) -> Option<int> {
    if i < s.len() && s[i] == '0' {
        Some(i + 1)
    } else if i < s.len() && is_digit(s[i]) {
        Some(sp_digit_run(s, i))
    } else {
        None
    }
}

/// Match an unsigned integer body; return the position after it.
pub fn uint_body(s: &str, i: usize) -> (r: Option<usize>)
    requires
        i <= s@.len(),
    ensures
        match r {
            Some(j) => sp_uint_body(s@, i as int) == Some(j as int) && i < j <= s@.len(),
            None => sp_uint_body(s@, i as int) is None,
        },
{
    let n: usize = s.unicode_len();
    if i < n && s.get_char(i) == '0' {
        return Some(i + 1);
    }
    if i < n && is_digit_at(s, i) {
        let (j, _val) = digit_run_u64(s, i);
        proof {
            assert(sp_digit_run(s@, i as int) == sp_digit_run(s@, i + 1));
            lemma_digit_run_bounds(s@, i + 1);
        }
        return Some(j);
    }
    None
}

/// End of a signed integer body: an optional minus sign, then an unsigned
/// integer body.
pub open spec fn sp_integer_body(s: Seq<char>, i: int) -> Option<int> {
    if i < s.len() && s[i] == '-' {
        sp_uint_body(s, i + 1)
    } else {
        sp_uint_body(s, i)
    }
}

/// Match a signed integer body; return the position after it.
pub fn integer_body(s: &str, i: usize) -> (r: Option<usize>)
    requires
        i <= s@.len(),
    ensures
        match r {
            Some(j) => sp_integer_body(s@, i as int) == Some(j as int) && i < j <= s@.len(),
            None => sp_integer_body(s@, i as int) is None,
        },
{
    let n: usize = s.unicode_len();
    if i < n && s.get_char(i) == '-' {
        uint_body(s, i + 1)
    } else {
        uint_body(s, i)
    }
}

/// End of a fractional part: a dot followed by at least one digit.
pub open spec fn sp_frac(s: Seq<char>, i: int) -> Option<int> {
    if i < s.len() && s[i] == '.' && i + 1 < s.len() && is_digit(s[i + 1]) {
        Some(sp_digit_run(s, i + 1))
    } else {
        None
    }
}

/// Match a fractional part; return the position after it.
pub fn frac(s: &str, i: usize) -> (r: Option<usize>)
    requires
        i <= s@.len(),
    ensures
        match r {
            Some(j) => sp_frac(s@, i as int) == Some(j as int) && i < j <= s@.len(),
            None => sp_frac(s@, i as int) is None,
        },
{
    let n: usize = s.unicode_len();
    if i < n && s.get_char(i) == '.' && i + 1 < n && is_digit_at(s, i + 1) {
        let (j, _val) = digit_run_u64(s, i + 1);
        Some(j)
    } else {
        None
    }
}

/// End of an exponent part: `e` or `E`, an optional sign, then at least one
/// digit.
pub open spec fn sp_exp(s: Seq<char>, i: int) -> Option<int> {
    if i < s.len() && (s[i] == 'e' || s[i] == 'E') {
        let k = if i + 1 < s.len() && (s[i + 1] == '+' || s[i + 1] == '-') {
            i + 2
        } else {
            i + 1
        };
        if k < s.len() && is_digit(s[k]) {
            Some(sp_digit_run(s, k))
        } else {
            None
        }
    } else {
        None
    }
}

/// Match an exponent part; return the position after it.
pub fn exp_part(s: &str, i: usize) -> (r: Option<usize>)
    requires
        i <= s@.len(),
    ensures
        match r {
            Some(j) => sp_exp(s@, i as int) == Some(j as int) && i < j <= s@.len(),
            None => sp_exp(s@, i as int) is None,
        },
{
    let n: usize = s.unicode_len();
    if i < n {
        let c: char = s.get_char(i);
        if c == 'e' || c == 'E' {
            let mut k: usize = i + 1;
            if k < n {
                let c2: char = s.get_char(k);
                if c2 == '+' || c2 == '-' {
                    k = k + 1;
                }
            }
            if k < n && is_digit_at(s, k) {
                let (j, _val) = digit_run_u64(s, k);
                return Some(j);
            }
            return None;
        }
    }
    None
}

/// End of a float-shaped body: an optional minus sign, an unsigned integer
/// body, then a fractional part (with optional exponent) or a bare exponent.
pub open spec fn sp_float_body(s: Seq<char>, i: int) -> Option<int> {
    let k = if i < s.len() && s[i] == '-' {
        i + 1
    } else {
        i
    };
    match sp_uint_body(s, k) {
        None => None,
        Some(j) => match sp_frac(s, j) {
            Some(m) => match sp_exp(s, m) {
                Some(p) => Some(p),
                None => Some(m),
            },
            None => sp_exp(s, j),
        },
    }
}

/// Match a float-shaped body; return the position after it.
pub fn float_body(s: &str, i: usize) -> (r: Option<usize>)
    requires
        i <= s@.len(),
    ensures
        match r {
            Some(j) => sp_float_body(s@, i as int) == Some(j as int) && i < j <= s@.len(),
            None => sp_float_body(s@, i as int) is None,
        },
{
    let n: usize = s.unicode_len();
    let k: usize = if i < n && s.get_char(i) == '-' {
        i + 1
    } else {
        i
    };
    match uint_body(s, k) {
        None => None,
        Some(j) => match frac(s, j) {
            Some(m) => match exp_part(s, m) {
                Some(p) => Some(p),
                None => Some(m),
            },
            None => exp_part(s, j),
        },
    }
}

/// End of a number literal: a float-shaped body, else a signed integer body
/// whose value fits in an `i64`.  The literal's text is the value.
pub open spec fn sp_number(s: Seq<char>, i: int) -> Option<int> {
    match sp_float_body(s, i) {
        Some(j) => Some(j),
        None => match sp_integer_body(s, i) {
            None => None,
            Some(j) => {
                let k = if i < s.len() && s[i] == '-' {
                    i + 1
                } else {
                    i
                };
                let v = digits_val(s, k, j);
                if (i < s.len() && s[i] == '-' && v <= 0x8000_0000_0000_0000) || (!(i < s.len()
                    && s[i] == '-') && v <= i64::MAX) {
                    Some(j)
                } else {
                    None
                }
            },
        },
    }
}

/// A number literal's text: the number grammar matches it standalone,
/// exactly to its end.  Every text that `parse_number` stores has this
/// shape.
pub open spec fn wf_number(t: Seq<char>) -> bool {
    sp_number(t, 0) == Some(t.len() as int)
}

/// A character that surely ends a number literal: neither a digit nor a
/// character that could continue a fraction, an exponent or a sign.
pub open spec fn ends_number(c: char) -> bool {
    !(is_digit(c) || c == '.' || c == 'e' || c == 'E' || c == '+' || c == '-')
}

/// The embedding hypothesis of the transport lemmas below: the text `t`
/// stands at `i` in `s`, and the character after it, if any, ends a
/// number.
pub open spec fn sp_embedded(t: Seq<char>, s: Seq<char>, i: int) -> bool {
    &&& 0 <= i
    &&& i + t.len() <= s.len()
    &&& s.subrange(i, i + t.len() as int) == t
    &&& (i + t.len() == s.len() || ends_number(s[i + t.len()]))
}

proof fn lemma_embedded_chars(t: Seq<char>, s: Seq<char>, i: int)
    requires
        sp_embedded(t, s, i),
    ensures
        forall|k: int| 0 <= k < t.len() ==> s[i + k] == #[trigger] t[k],
{
    assert forall|k: int| 0 <= k < t.len() implies s[i + k] == #[trigger] t[k] by {
        assert(s.subrange(i, i + t.len() as int)[k] == s[i + k]);
    }
}

/// A digit run inside the embedded text scans to the same relative end.
proof fn lemma_digit_run_transport(t: Seq<char>, s: Seq<char>, i: int, a: int)
    requires
        sp_embedded(t, s, i),
        0 <= a <= t.len(),
    ensures
        sp_digit_run(s, i + a) == i + sp_digit_run(t, a),
        a <= sp_digit_run(t, a) <= t.len(),
    decreases t.len() - a,
{
    lemma_embedded_chars(t, s, i);
    if a < t.len() && is_digit(t[a]) {
        lemma_digit_run_transport(t, s, i, a + 1);
    }
}

/// The value of a digit run inside the embedded text is the standalone
/// value.
proof fn lemma_digits_val_transport(t: Seq<char>, s: Seq<char>, i: int, a: int, b: int)
    requires
        sp_embedded(t, s, i),
        0 <= a <= b <= t.len(),
    ensures
        digits_val(s, i + a, i + b) == digits_val(t, a, b),
    decreases b - a,
{
    lemma_embedded_chars(t, s, i);
    if b > a {
        lemma_digits_val_transport(t, s, i, a, b - 1);
    }
}

proof fn lemma_uint_body_transport(t: Seq<char>, s: Seq<char>, i: int, a: int)
    requires
        sp_embedded(t, s, i),
        0 <= a <= t.len(),
    ensures
        match sp_uint_body(t, a) {
            Some(b) => a < b <= t.len() && sp_uint_body(s, i + a) == Some(i + b),
            None => sp_uint_body(s, i + a) is None,
        },
{
    lemma_embedded_chars(t, s, i);
    if a < t.len() && t[a] == '0' {
    } else if a < t.len() && is_digit(t[a]) {
        lemma_digit_run_transport(t, s, i, a);
        assert(sp_digit_run(t, a) == sp_digit_run(t, a + 1));
        lemma_digit_run_transport(t, s, i, a + 1);
    }
}

proof fn lemma_frac_transport(t: Seq<char>, s: Seq<char>, i: int, a: int)
    requires
        sp_embedded(t, s, i),
        0 <= a <= t.len(),
    ensures
        match sp_frac(t, a) {
            Some(b) => a < b <= t.len() && sp_frac(s, i + a) == Some(i + b),
            None => sp_frac(s, i + a) is None,
        },
{
    lemma_embedded_chars(t, s, i);
    if a < t.len() && t[a] == '.' && a + 1 < t.len() && is_digit(t[a + 1]) {
        lemma_digit_run_transport(t, s, i, a + 1);
        assert(sp_digit_run(t, a + 1) == sp_digit_run(t, a + 2));
        lemma_digit_run_transport(t, s, i, a + 2);
    }
}

proof fn lemma_exp_transport(t: Seq<char>, s: Seq<char>, i: int, a: int)
    requires
        sp_embedded(t, s, i),
        0 <= a <= t.len(),
    ensures
        match sp_exp(t, a) {
            Some(b) => a < b <= t.len() && sp_exp(s, i + a) == Some(i + b),
            None => sp_exp(s, i + a) is None,
        },
{
    lemma_embedded_chars(t, s, i);
    if a < t.len() && (t[a] == 'e' || t[a] == 'E') {
        let k = if a + 1 < t.len() && (t[a + 1] == '+' || t[a + 1] == '-') {
            a + 2
        } else {
            a + 1
        };
        if k <= t.len() {
            if k < t.len() && is_digit(t[k]) {
                lemma_digit_run_transport(t, s, i, k);
                assert(sp_digit_run(t, k) == sp_digit_run(t, k + 1));
                lemma_digit_run_transport(t, s, i, k + 1);
            }
        }
    }
}

proof fn lemma_float_body_transport(t: Seq<char>, s: Seq<char>, i: int, a: int)
    requires
        sp_embedded(t, s, i),
        0 <= a <= t.len(),
    ensures
        match sp_float_body(t, a) {
            Some(b) => a < b <= t.len() && sp_float_body(s, i + a) == Some(i + b),
            None => sp_float_body(s, i + a) is None,
        },
{
    lemma_embedded_chars(t, s, i);
    let k = if a < t.len() && t[a] == '-' {
        a + 1
    } else {
        a
    };
    lemma_uint_body_transport(t, s, i, k);
    match sp_uint_body(t, k) {
        None => {},
        Some(j) => {
            lemma_frac_transport(t, s, i, j);
            match sp_frac(t, j) {
                Some(m) => {
                    lemma_exp_transport(t, s, i, m);
                },
                None => {
                    lemma_exp_transport(t, s, i, j);
                },
            }
        },
    }
}

proof fn lemma_integer_body_transport(t: Seq<char>, s: Seq<char>, i: int, a: int)
    requires
        sp_embedded(t, s, i),
        0 <= a <= t.len(),
    ensures
        match sp_integer_body(t, a) {
            Some(b) => a < b <= t.len() && sp_integer_body(s, i + a) == Some(i + b),
            None => sp_integer_body(s, i + a) is None,
        },
{
    lemma_embedded_chars(t, s, i);
    if a < t.len() && t[a] == '-' {
        lemma_uint_body_transport(t, s, i, a + 1);
    } else {
        lemma_uint_body_transport(t, s, i, a);
    }
}

/// Round trip of number literals: wherever a stored literal's text stands,
/// followed by no character that could continue a number, the number
/// grammar matches exactly that text again.
pub proof fn lemma_number_round_trip(t: Seq<char>, s: Seq<char>, i: int)
    requires
        wf_number(t),
        sp_embedded(t, s, i),
    ensures
        sp_number(s, i) == Some(i + t.len() as int),
{
    lemma_embedded_chars(t, s, i);
    lemma_float_body_transport(t, s, i, 0);
    match sp_float_body(t, 0) {
        Some(b) => {},
        None => {
            lemma_integer_body_transport(t, s, i, 0);
            let k = if 0 < t.len() && t[0] == '-' {
                1int
            } else {
                0int
            };
            match sp_integer_body(t, 0) {
                None => {},
                Some(j) => {
                    lemma_digits_val_transport(t, s, i, k, j);
                },
            }
        },
    }
}

/// Match a number literal; return its raw text and the position after it.
///
/// A literal of integer shape whose value leaves the signed 64-bit range is
/// a `BadInt`; input of neither shape is `Unparseable`.
pub fn parse_number(s: &str, i: usize) -> (r: Result<(String, usize), crate::error::DbcParseError>)
    requires
        i <= s@.len(),
    ensures
        match r {
            Ok((t, j)) => sp_number(s@, i as int) == Some(j as int) && i < j <= s@.len() && t@
                == s@.subrange(i as int, j as int),
            Err(e) => sp_number(s@, i as int) is None && (e
                == crate::error::DbcParseError::BadInt || e
                == crate::error::DbcParseError::Unparseable),
        },
{
    match float_body(s, i) {
        Some(j) => {
            let t: String = s.substring_char(i, j).to_owned();
            Ok((t, j))
        },
        None => {
            let n: usize = s.unicode_len();
            let k: usize = if i < n && s.get_char(i) == '-' {
                i + 1
            } else {
                i
            };
            match uint_body(s, k) {
                None => Err(crate::error::DbcParseError::Unparseable),
                Some(j) => {
                    let fits: bool = if k < n && s.get_char(k) == '0' {
                        proof {
                            assert(sp_uint_body(s@, k as int) == Some(k + 1));
                            assert(digits_val(s@, k as int, k as int) == 0);
                            assert(digits_val(s@, k as int, k + 1) == digit_val(s@[k as int]));
                        }
                        true
                    } else {
                        let (_e, val) = digit_run_u64(s, k);
                        match val {
                            None => false,
                            Some(v) => {
                                if i < n && k > i {
                                    v <= 0x8000_0000_0000_0000u64
                                } else {
                                    v <= 0x7FFF_FFFF_FFFF_FFFFu64
                                }
                            },
                        }
                    };
                    if fits {
                        let t: String = s.substring_char(i, j).to_owned();
                        Ok((t, j))
                    } else {
                        Err(crate::error::DbcParseError::BadInt)
                    }
                },
            }
        },
    }
}

// ---------------------------------------------------------------------------
// Identifiers, keywords, object names
// ---------------------------------------------------------------------------

/// End of the possibly empty run of identifier characters starting at `i`.
pub open spec fn sp_ident_run(s: Seq<char>, i: int) -> int
    decreases s.len() - i when 0 <= i <= s.len()
{
    if i < s.len() && is_ident_char(s[i]) {
        sp_ident_run(s, i + 1)
    } else {
        i
    }
}

/// End of an identifier: a letter or underscore, then letters, digits or
/// underscores.
pub open spec fn sp_ident_end(s: Seq<char>, i: int) -> Option<int> {
    if i < s.len() && is_ident_start(s[i]) {
        Some(sp_ident_run(s, i + 1))
    } else {
        None
    }
}

/// Whether position `j` holds an identifier character.
fn is_ident_char_at(s: &str, j: usize) -> (b: bool)
    requires
        j < s@.len(),
    ensures
        b == is_ident_char(s@[j as int]),
{
    let c: char = s.get_char(j);
    let u: u32 = c as u32;
    (65 <= u && u <= 90) || (97 <= u && u <= 122) || (48 <= u && u <= 57) || c == '_'
}

/// Match an identifier; return its text and the position after it.
pub fn ident(s: &str, i: usize) -> (r: Option<(String, usize)>)
    requires
        i <= s@.len(),
    ensures
        match r {
            Some((t, j)) => sp_ident_end(s@, i as int) == Some(j as int) && i < j <= s@.len()
                && t@ == s@.subrange(i as int, j as int),
            None => sp_ident_end(s@, i as int) is None,
        },
{
    let n: usize = s.unicode_len();
    if i < n {
        let c: char = s.get_char(i);
        let u: u32 = c as u32;
        if (65 <= u && u <= 90) || (97 <= u && u <= 122) || c == '_' {
            let mut j: usize = i + 1;
            while j < n && is_ident_char_at(s, j)
                invariant
                    i + 1 <= j <= n,
                    n == s@.len(),
                    sp_ident_run(s@, i + 1) == sp_ident_run(s@, j as int),
                decreases n - j,
            {
                j = j + 1;
            }
            let t: String = s.substring_char(i, j).to_owned();
            return Some((t, j));
        }
    }
    None
}

/// Match a plain C identifier: the identifier shape with no keyword
/// check applied.
pub fn c_identifier(s: &str, i: usize) -> (r: Option<(String, usize)>)
    requires
        i <= s@.len(),
    ensures
        match r {
            Some((t, j)) => sp_ident_end(s@, i as int) == Some(j as int) && i < j <= s@.len()
                && t@ == s@.subrange(i as int, j as int),
            None => sp_ident_end(s@, i as int) is None,
        },
{
    ident(s, i)
}

/// Whether `t` is exactly one of the reserved section keywords.
pub open spec fn sp_is_keyword(t: Seq<char>) -> bool {
    ||| t == "VERSION"@
    ||| t == "NS_"@
    ||| t == "NS_DESC_"@
    ||| t == "CM_"@
    ||| t == "BA_DEF_"@
    ||| t == "BA_"@
    ||| t == "VAL_"@
    ||| t == "CAT_DEF_"@
    ||| t == "CAT_"@
    ||| t == "FILTER"@
    ||| t == "BA_DEF_DEF_"@
    ||| t == "EV_DATA_"@
    ||| t == "ENVVAR_DATA_"@
    ||| t == "SGTYPE_"@
    ||| t == "SGTYPE_VAL_"@
    ||| t == "BA_DEF_SGTYPE_"@
    ||| t == "BA_SGTYPE_"@
    ||| t == "SIG_TYPE_REF_"@
    ||| t == "VAL_TABLE_"@
    ||| t == "SIG_GROUP_"@
    ||| t == "SIG_VALTYPE_"@
    ||| t == "SIGTYPE_VALTYPE_"@
    ||| t == "BO_TX_BU_"@
    ||| t == "BA_DEF_REL_"@
    ||| t == "BA_REL_"@
    ||| t == "BA_DEF_DEF_REL_"@
    ||| t == "BU_SG_REL_"@
    ||| t == "BU_EV_REL_"@
    ||| t == "BU_BO_REL_"@
    ||| t == "SG_MUL_VAL_"@
    ||| t == "BS_"@
    ||| t == "BU_"@
    ||| t == "BO_"@
    ||| t == "SG_"@
    ||| t == "EV_"@
    ||| t == "VECTOR__INDEPENDENT_SIG_MSG"@
    ||| t == "VECTOR__XXX"@
}

/// Whether the text between `i` and `j` is exactly a reserved keyword.
pub fn keyword_at(s: &str, i: usize, j: usize) -> (b: bool)
    requires
        i <= j <= s@.len(),
    ensures
        b == sp_is_keyword(s@.subrange(i as int, j as int)),
{
    let r: bool = (match tag(s, i, "VERSION") {
        Some(e) => e == j,
        None => false,
    }) || (match tag(s, i, "NS_") {
        Some(e) => e == j,
        None => false,
    }) || (match tag(s, i, "NS_DESC_") {
        Some(e) => e == j,
        None => false,
    }) || (match tag(s, i, "CM_") {
        Some(e) => e == j,
        None => false,
    }) || (match tag(s, i, "BA_DEF_") {
        Some(e) => e == j,
        None => false,
    }) || (match tag(s, i, "BA_") {
        Some(e) => e == j,
        None => false,
    }) || (match tag(s, i, "VAL_") {
        Some(e) => e == j,
        None => false,
    }) || (match tag(s, i, "CAT_DEF_") {
        Some(e) => e == j,
        None => false,
    }) || (match tag(s, i, "CAT_") {
        Some(e) => e == j,
        None => false,
    }) || (match tag(s, i, "FILTER") {
        Some(e) => e == j,
        None => false,
    }) || (match tag(s, i, "BA_DEF_DEF_") {
        Some(e) => e == j,
        None => false,
    }) || (match tag(s, i, "EV_DATA_") {
        Some(e) => e == j,
        None => false,
    }) || (match tag(s, i, "ENVVAR_DATA_") {
        Some(e) => e == j,
        None => false,
    }) || (match tag(s, i, "SGTYPE_") {
        Some(e) => e == j,
        None => false,
    }) || (match tag(s, i, "SGTYPE_VAL_") {
        Some(e) => e == j,
        None => false,
    }) || (match tag(s, i, "BA_DEF_SGTYPE_") {
        Some(e) => e == j,
        None => false,
    }) || (match tag(s, i, "BA_SGTYPE_") {
        Some(e) => e == j,
        None => false,
    }) || (match tag(s, i, "SIG_TYPE_REF_") {
        Some(e) => e == j,
        None => false,
    }) || (match tag(s, i, "VAL_TABLE_") {
        Some(e) => e == j,
        None => false,
    }) || (match tag(s, i, "SIG_GROUP_") {
        Some(e) => e == j,
        None => false,
    }) || (match tag(s, i, "SIG_VALTYPE_") {
        Some(e) => e == j,
        None => false,
    }) || (match tag(s, i, "SIGTYPE_VALTYPE_") {
        Some(e) => e == j,
        None => false,
    }) || (match tag(s, i, "BO_TX_BU_") {
        Some(e) => e == j,
        None => false,
    }) || (match tag(s, i, "BA_DEF_REL_") {
        Some(e) => e == j,
        None => false,
    }) || (match tag(s, i, "BA_REL_") {
        Some(e) => e == j,
        None => false,
    }) || (match tag(s, i, "BA_DEF_DEF_REL_") {
        Some(e) => e == j,
        None => false,
    }) || (match tag(s, i, "BU_SG_REL_") {
        Some(e) => e == j,
        None => false,
    }) || (match tag(s, i, "BU_EV_REL_") {
        Some(e) => e == j,
        None => false,
    }) || (match tag(s, i, "BU_BO_REL_") {
        Some(e) => e == j,
        None => false,
    }) || (match tag(s, i, "SG_MUL_VAL_") {
        Some(e) => e == j,
        None => false,
    }) || (match tag(s, i, "BS_") {
        Some(e) => e == j,
        None => false,
    }) || (match tag(s, i, "BU_") {
        Some(e) => e == j,
        None => false,
    }) || (match tag(s, i, "BO_") {
        Some(e) => e == j,
        None => false,
    }) || (match tag(s, i, "SG_") {
        Some(e) => e == j,
        None => false,
    }) || (match tag(s, i, "EV_") {
        Some(e) => e == j,
        None => false,
    }) || (match tag(s, i, "VECTOR__INDEPENDENT_SIG_MSG") {
        Some(e) => e == j,
        None => false,
    }) || (match tag(s, i, "VECTOR__XXX") {
        Some(e) => e == j,
        None => false,
    });
    proof {
        let sub = s@.subrange(i as int, j as int);
        assert(sub.len() == j - i);
        if !r && sp_is_keyword(sub) {
            assert(s@.subrange(i as int, i + sub.len() as int) == sub);
        }
    }
    r
}

/// An identifier that is not allowed to equal a reserved keyword: the
/// identifier shape is matched first, and the match is rejected only when
/// the whole matched run is exactly a keyword.
pub open spec fn sp_dbc_ident(s: Seq<char>, i: int) -> Option<int> {
    match sp_ident_end(s, i) {
        None => None,
        Some(j) => if sp_is_keyword(s.subrange(i, j)) {
            None
        } else {
            Some(j)
        },
    }
}

/// Match an identifier, rejecting one that is exactly a reserved keyword.
pub fn dbc_ident(s: &str, i: usize) -> (r: Result<
    (String, usize),
    crate::error::DbcParseError,
>)
    requires
        i <= s@.len(),
    ensures
        match r {
            Ok((t, j)) => sp_dbc_ident(s@, i as int) == Some(j as int) && i < j <= s@.len() && t@
                == s@.subrange(i as int, j as int),
            Err(e) => sp_dbc_ident(s@, i as int) is None && (sp_ident_end(s@, i as int) is None
                ==> e == crate::error::DbcParseError::InvalidCIdentifier) && (sp_ident_end(
                s@,
                i as int,
            ) is Some ==> e == crate::error::DbcParseError::UseKeywordAsIdentifier),
        },
{
    match ident(s, i) {
        None => Err(crate::error::DbcParseError::InvalidCIdentifier),
        Some((t, j)) => {
            if keyword_at(s, i, j) {
                Err(crate::error::DbcParseError::UseKeywordAsIdentifier)
            } else {
                Ok((t, j))
            }
        },
    }
}

/// End of the possibly empty run of object-name characters starting at `i`.
pub open spec fn sp_object_name_run(s: Seq<char>, i: int) -> int
    decreases s.len() - i when 0 <= i <= s.len()
{
    if i < s.len() && is_object_name_char(s[i]) {
        sp_object_name_run(s, i + 1)
    } else {
        i
    }
}

/// End of an object name: at least one object-name character.
pub open spec fn sp_object_name_end(s: Seq<char>, i: int) -> Option<int> {
    if i < s.len() && is_object_name_char(s[i]) {
        Some(sp_object_name_run(s, i))
    } else {
        None
    }
}

/// Whether position `j` holds an object-name character.
fn is_object_name_char_at(s: &str, j: usize) -> (b: bool)
    requires
        j < s@.len(),
    ensures
        b == is_object_name_char(s@[j as int]),
{
    let c: char = s.get_char(j);
    let u: u32 = c as u32;
    (65 <= u && u <= 90) || (97 <= u && u <= 122) || (48 <= u && u <= 57) || c == '_' || (u >= 128
        && is_alphanumeric_char(c))
}

/// Match an object name; return its text and the position after it.
pub fn object_name(s: &str, i: usize) -> (r: Option<(String, usize)>)
    requires
        i <= s@.len(),
    ensures
        match r {
            Some((t, j)) => sp_object_name_end(s@, i as int) == Some(j as int) && i < j
                <= s@.len() && t@ == s@.subrange(i as int, j as int),
            None => sp_object_name_end(s@, i as int) is None,
        },
{
    let n: usize = s.unicode_len();
    if i < n && is_object_name_char_at(s, i) {
        let mut j: usize = i + 1;
        proof {
            assert(sp_object_name_run(s@, i as int) == sp_object_name_run(s@, i + 1));
        }
        while j < n && is_object_name_char_at(s, j)
            invariant
                i + 1 <= j <= n,
                n == s@.len(),
                sp_object_name_run(s@, i as int) == sp_object_name_run(s@, j as int),
            decreases n - j,
        {
            j = j + 1;
        }
        let t: String = s.substring_char(i, j).to_owned();
        Some((t, j))
    } else {
        None
    }
}

/// A name as the identifier grammar accepts it: at least one character,
/// an identifier start followed by identifier characters, and not exactly
/// a reserved keyword.  Every name a successful parse stores has this
/// shape.
pub open spec fn wf_ident(name: Seq<char>) -> bool {
    &&& name.len() >= 1
    &&& is_ident_start(name[0])
    &&& forall|k: int| 0 <= k < name.len() ==> is_ident_char(#[trigger] name[k])
    &&& !sp_is_keyword(name)
}

/// The identifier run over a rendering stops exactly where the identifier
/// characters stop.
proof fn lemma_ident_run_over(s: Seq<char>, i: int, e: int)
    requires
        0 <= i <= e <= s.len(),
        forall|k: int| i <= k < e ==> is_ident_char(#[trigger] s[k]),
        e == s.len() || !is_ident_char(s[e]),
    ensures
        sp_ident_run(s, i) == e,
    decreases e - i,
{
    if i < e {
        lemma_ident_run_over(s, i + 1, e);
    }
}



/// Round trip of identifiers: wherever a stored well-formed name stands,
/// followed by no further identifier character, the identifier parser
/// gives exactly that name back.
pub proof fn lemma_ident_round_trip(name: Seq<char>, s: Seq<char>, i: int)
    requires
        0 <= i,
        i + name.len() <= s.len(),
        s.subrange(i, i + name.len() as int) == name,
        wf_ident(name),
        i + name.len() == s.len() || !is_ident_char(s[i + name.len()]),
    ensures
        sp_dbc_ident(s, i) == Some(i + name.len() as int),
{
    assert forall|k: int| i <= k < i + name.len() implies is_ident_char(#[trigger] s[k]) by {
        assert(s.subrange(i, i + name.len() as int)[k - i] == s[k]);
    }
    assert(s[i] == name[0]) by {
        assert(s.subrange(i, i + name.len() as int)[0] == s[i]);
    }
    lemma_ident_run_over(s, i + 1, i + name.len() as int);
    assert(sp_ident_end(s, i) == Some(i + name.len() as int));
    assert(!sp_is_keyword(s.subrange(i, i + name.len() as int)));
}

/// A name of ASCII letters, digits and underscores.  The object-name
/// grammar accepts further alphanumeric characters through the trusted
/// class; the round-trip lemmas cover the ASCII names, whose class
/// membership is concrete.
pub open spec fn wf_object_name(name: Seq<char>) -> bool {
    &&& name.len() >= 1
    &&& forall|k: int|
        0 <= k < name.len() ==> is_alpha(#[trigger] name[k]) || is_digit(name[k]) || name[k]
            == '_'
}

/// A character that surely ends an object name: ASCII and neither a
/// letter, a digit nor an underscore.
pub open spec fn ends_object_name(c: char) -> bool {
    (c as u32) < 128 && !(is_alpha(c) || is_digit(c) || c == '_')
}

/// The object-name run over a rendering stops exactly where its characters
/// stop.
proof fn lemma_object_name_run_over(s: Seq<char>, i: int, e: int)
    requires
        0 <= i <= e <= s.len(),
        forall|k: int| i <= k < e ==> is_object_name_char(#[trigger] s[k]),
        e == s.len() || !is_object_name_char(s[e]),
    ensures
        sp_object_name_run(s, i) == e,
    decreases e - i,
{
    if i < e {
        lemma_object_name_run_over(s, i + 1, e);
    }
}

/// Round trip of object names: wherever a stored name stands, followed by
/// no further object-name character, the object-name parser gives exactly
/// that name back.
pub proof fn lemma_object_name_round_trip(name: Seq<char>, s: Seq<char>, i: int)
    requires
        0 <= i,
        i + name.len() <= s.len(),
        s.subrange(i, i + name.len() as int) == name,
        wf_object_name(name),
        i + name.len() == s.len() || ends_object_name(s[i + name.len()]),
    ensures
        sp_object_name_end(s, i) == Some(i + name.len() as int),
{
    assert(i + name.len() == s.len() || !is_object_name_char(s[i + name.len()]));
    assert forall|k: int| i <= k < i + name.len() implies is_object_name_char(
        #[trigger] s[k],
    ) by {
        assert(s.subrange(i, i + name.len() as int)[k - i] == s[k]);
    }
    assert(s[i] == name[0]) by {
        assert(s.subrange(i, i + name.len() as int)[0] == s[i]);
    }
    lemma_object_name_run_over(s, i, i + name.len() as int);
}

// ---------------------------------------------------------------------------
// Repetition
// ---------------------------------------------------------------------------

/// Zero or more items matched by `f`, greedily, starting at `i`: the items
/// in input order and the position after the last of them.  An item that
/// consumes nothing ends the repetition, so the result is well defined for
/// every `f`.
pub open spec fn sp_many0<A>(
    f: spec_fn(Seq<char>, int) -> Option<(A, int)>,
    s: Seq<char>,
    i: int,
) -> (Seq<A>, int)
    decreases s.len() - i when 0 <= i <= s.len()
{
    match f(s, i) {
        None => (seq![], i),
        Some((a, j)) => if i < j <= s.len() {
            let (rest, end) = sp_many0(f, s, j);
            (seq![a] + rest, end)
        } else {
            (seq![], i)
        },
    }
}

/// The position where the `k`-th item of the repetition begins.
pub open spec fn sp_many0_pos<A>(
    f: spec_fn(Seq<char>, int) -> Option<(A, int)>,
    s: Seq<char>,
    i: int,
    k: int,
) -> int
    decreases k when 0 <= k
{
    if k <= 0 {
        i
    } else {
        let p = sp_many0_pos(f, s, i, k - 1);
        match f(s, p) {
            Some((a, j)) => j,
            None => p,
        }
    }
}

proof fn lemma_many0_pos_shift<A>(
    f: spec_fn(Seq<char>, int) -> Option<(A, int)>,
    s: Seq<char>,
    i: int,
    j: int,
    k: int,
)
    requires
        1 <= k,
        f(s, i) is Some,
        f(s, i)->Some_0.1 == j,
    ensures
        sp_many0_pos(f, s, i, k) == sp_many0_pos(f, s, j, k - 1),
    decreases k,
{
    if k == 1 {
        assert(sp_many0_pos(f, s, i, 0) == i);
        assert(sp_many0_pos(f, s, j, 0) == j);
        assert(sp_many0_pos(f, s, i, 1) == j);
    } else {
        lemma_many0_pos_shift(f, s, i, j, k - 1);
    }
}

/// Order preservation of the repetition: the `k`-th element of the parsed
/// list is exactly the item matched at the `k`-th position of the input,
/// and the positions strictly increase, so the list keeps source order.
pub proof fn lemma_many0_order<A>(
    f: spec_fn(Seq<char>, int) -> Option<(A, int)>,
    s: Seq<char>,
    i: int,
    k: int,
)
    requires
        0 <= i <= s.len(),
        0 <= k < sp_many0(f, s, i).0.len(),
    ensures
        ({
            let p = sp_many0_pos(f, s, i, k);
            &&& i <= p < sp_many0_pos(f, s, i, k + 1) <= s.len()
            &&& f(s, p) is Some
            &&& f(s, p)->Some_0.0 == sp_many0(f, s, i).0[k]
            &&& f(s, p)->Some_0.1 == sp_many0_pos(f, s, i, k + 1)
        }),
    decreases k,
{
    match f(s, i) {
        None => {},
        Some((a, j)) => {
            if i < j <= s.len() {
                if k == 0 {
                    assert(sp_many0(f, s, i).0[0] == a);
                } else {
                    lemma_many0_order(f, s, j, k - 1);
                    lemma_many0_pos_shift(f, s, i, j, k);
                    lemma_many0_pos_shift(f, s, i, j, k + 1);
                    assert(sp_many0(f, s, i).0[k] == sp_many0(f, s, j).0[k - 1]);
                }
            }
        },
    }
}

// ---------------------------------------------------------------------------
// Quoted strings
// ---------------------------------------------------------------------------

/// End of a quoted-string body starting at `i` (position of the closing
/// quote), or nothing when the body never closes.  A backslash always
/// absorbs the following character, whatever it is; a trailing lone
/// backslash leaves the body unclosable.
pub open spec fn sp_string_body_end(s: Seq<char>, i: int) -> Option<int>
    decreases s.len() - i when 0 <= i <= s.len()
{
    if i >= s.len() {
        None
    } else if s[i] == '"' {
        Some(i)
    } else if s[i] == '\\' {
        if i + 2 <= s.len() {
            sp_string_body_end(s, i + 2)
        } else {
            None
        }
    } else {
        sp_string_body_end(s, i + 1)
    }
}

pub proof fn lemma_string_body_end_bounds(s: Seq<char>, i: int)
    requires
        0 <= i <= s.len(),
    ensures
        match sp_string_body_end(s, i) {
            Some(e) => i <= e < s.len(),
            None => true,
        },
    decreases s.len() - i,
{
    if i >= s.len() {
    } else if s[i] == '"' {
    } else if s[i] == '\\' {
        if i + 2 <= s.len() {
            lemma_string_body_end_bounds(s, i + 2);
        }
    } else {
        lemma_string_body_end_bounds(s, i + 1);
    }
}

/// A quoted string at `i`: the raw body text (escape sequences kept
/// verbatim, backslashes included) and the position after the closing quote.
pub open spec fn sp_quoted(s: Seq<char>, i: int) -> Option<(Seq<char>, int)> {
    if i < s.len() && s[i] == '"' {
        match sp_string_body_end(s, i + 1) {
            Some(e) => Some((s.subrange(i + 1, e), e + 1)),
            None => None,
        }
    } else {
        None
    }
}

/// Match a quoted string; return its raw content and the position after the
/// closing quote.
pub fn quoted(s: &str, i: usize) -> (r: Option<(String, usize)>)
    requires
        i <= s@.len(),
    ensures
        match r {
            Some((t, j)) => sp_quoted(s@, i as int) == Some((t@, j as int)) && i < j <= s@.len(),
            None => sp_quoted(s@, i as int) is None,
        },
{
    let n: usize = s.unicode_len();
    if i < n && s.get_char(i) == '"' {
        let mut j: usize = i + 1;
        loop
            invariant
                i + 1 <= j <= n,
                n == s@.len(),
                i < n,
                s@[i as int] == '"',
                sp_string_body_end(s@, i + 1) == sp_string_body_end(s@, j as int),
            ensures
                j < n,
                sp_string_body_end(s@, i + 1) == Some(j as int),
            decreases n - j,
        {
            if j >= n {
                return None;
            }
            let c: char = s.get_char(j);
            if c == '"' {
                break;
            } else if c == '\\' {
                if n - j >= 2 {
                    j = j + 2;
                } else {
                    return None;
                }
            } else {
                j = j + 1;
            }
        }
        let t: String = s.substring_char(i + 1, j).to_owned();
        Some((t, j + 1))
    } else {
        None
    }
}

} // verus!
