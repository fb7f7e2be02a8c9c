//! Rendering primitives: decimal and hexadecimal digit strings.
//!
//! Each executable renderer is specified by the exact character sequence it
//! produces.

use vstd::prelude::*;

verus! {

/// The character of a decimal digit value.
pub open spec fn digit_char(d: nat) -> char {
    if d == 0 {
        '0'
    } else if d == 1 {
        '1'
    } else if d == 2 {
        '2'
    } else if d == 3 {
        '3'
    } else if d == 4 {
        '4'
    } else if d == 5 {
        '5'
    } else if d == 6 {
        '6'
    } else if d == 7 {
        '7'
    } else if d == 8 {
        '8'
    } else {
        '9'
    }
}

/// The decimal rendering of a natural number, most significant digit first,
/// no leading zeros (zero renders as `0`).
pub open spec fn dec_digits(n: nat) -> Seq<char>
    decreases n,
{
    if n < 10 {
        seq![digit_char(n)]
    } else {
        dec_digits(n / 10).push(digit_char(n % 10))
    }
}

/// The decimal rendering of an integer: a minus sign for a negative value,
/// then the magnitude's digits.
pub open spec fn dec_int(v: int) -> Seq<char> {
    if v < 0 {
        seq!['-'] + dec_digits((-v) as nat)
    } else {
        dec_digits(v as nat)
    }
}

/// The uppercase character of a hexadecimal digit value.
pub open spec fn hex_char(d: nat) -> char {
    if d < 10 {
        digit_char(d)
    } else if d == 10 {
        'A'
    } else if d == 11 {
        'B'
    } else if d == 12 {
        'C'
    } else if d == 13 {
        'D'
    } else if d == 14 {
        'E'
    } else {
        'F'
    }
}

/// The uppercase hexadecimal rendering of a natural number, no leading
/// zeros (zero renders as `0`).
pub open spec fn hex_digits(n: nat) -> Seq<char>
    decreases n,
{
    if n < 16 {
        seq![hex_char(n)]
    } else {
        hex_digits(n / 16).push(hex_char(n % 16))
    }
}

/// Every character of a decimal rendering is a digit, and there is at
/// least one.
pub proof fn lemma_dec_digits_are_digits(n: nat)
    ensures
        dec_digits(n).len() >= 1,
        forall|k: int|
            0 <= k < dec_digits(n).len() ==> crate::lexer::is_digit(#[trigger] dec_digits(n)[k]),
    decreases n,
{
    if n < 10 {
    } else {
        lemma_dec_digits_are_digits(n / 10);
    }
}

/// The value of a digit run depends only on the characters between the
/// bounds.
proof fn lemma_digits_val_agree(s1: Seq<char>, s2: Seq<char>, i: int, j: int)
    requires
        i <= j,
        forall|k: int| i <= k < j ==> s1[k] == s2[k],
    ensures
        crate::lexer::digits_val(s1, i, j) == crate::lexer::digits_val(s2, i, j),
    decreases j - i,
{
    if j > i {
        lemma_digits_val_agree(s1, s2, i, j - 1);
    }
}

/// The value of a digit run is the same whether it is read in place or in
/// the extracted subrange.
proof fn lemma_digits_val_shift(s: Seq<char>, i: int, j: int)
    requires
        0 <= i <= j <= s.len(),
    ensures
        crate::lexer::digits_val(s, i, j) == crate::lexer::digits_val(
            s.subrange(i, j),
            0,
            j - i,
        ),
    decreases j - i,
{
    if j > i {
        lemma_digits_val_shift(s, i, j - 1);
        assert forall|k: int| 0 <= k < j - 1 - i implies s.subrange(i, j - 1)[k] == s.subrange(
            i,
            j,
        )[k] by {}
        lemma_digits_val_agree(s.subrange(i, j - 1), s.subrange(i, j), 0, j - 1 - i);
        assert(s.subrange(i, j)[j - i - 1] == s[j - 1]);
    }
}

/// The digits of a rendering evaluate back to the rendered number.
proof fn lemma_dec_digits_val(n: nat)
    ensures
        crate::lexer::digits_val(dec_digits(n), 0, dec_digits(n).len() as int) == n,
    decreases n,
{
    let t = dec_digits(n);
    if n < 10 {
        assert(crate::lexer::digits_val(t, 0, 1) == crate::lexer::digits_val(t, 0, 0) * 10
            + crate::lexer::digit_val(t[0]));
        assert(crate::lexer::digit_val(digit_char(n)) == n);
    } else {
        lemma_dec_digits_val(n / 10);
        let p = dec_digits(n / 10);
        assert(t == p.push(digit_char(n % 10)));
        lemma_digits_val_agree(t, p, 0, p.len() as int);
        assert(t[p.len() as int] == digit_char(n % 10));
        assert(crate::lexer::digit_val(digit_char(n % 10)) == n % 10);
        assert(crate::lexer::digits_val(t, 0, t.len() as int) == crate::lexer::digits_val(
            t,
            0,
            t.len() - 1,
        ) * 10 + crate::lexer::digit_val(t[t.len() - 1]));
    }
}

/// The digit run over a rendering stops exactly where the digits stop.
proof fn lemma_digit_run_over(s: Seq<char>, i: int, e: int)
    requires
        0 <= i <= e <= s.len(),
        forall|k: int| i <= k < e ==> crate::lexer::is_digit(#[trigger] s[k]),
        e == s.len() || !crate::lexer::is_digit(s[e]),
    ensures
        crate::lexer::sp_digit_run(s, i) == e,
    decreases e - i,
{
    if i < e {
        lemma_digit_run_over(s, i + 1, e);
    }
}

/// Round trip of unsigned decimal literals: wherever the decimal rendering
/// of a number stands, followed by no further digit, parsing from there
/// gives exactly that number back.
pub proof fn lemma_u64_round_trip(n: u64, s: Seq<char>, i: int)
    requires
        0 <= i,
        i + dec_digits(n as nat).len() <= s.len(),
        s.subrange(i, i + dec_digits(n as nat).len() as int) == dec_digits(n as nat),
        i + dec_digits(n as nat).len() == s.len() || !crate::lexer::is_digit(
            s[i + dec_digits(n as nat).len()],
        ),
    ensures
        crate::lexer::sp_u64(s, i) == Some((n, i + dec_digits(n as nat).len() as int)),
{
    let t = dec_digits(n as nat);
    let e = i + t.len() as int;
    lemma_dec_digits_are_digits(n as nat);
    assert forall|k: int| i <= k < e implies crate::lexer::is_digit(#[trigger] s[k]) by {
        assert(s[k] == t[k - i]);
    }
    lemma_digit_run_over(s, i, e);
    lemma_digits_val_shift(s, i, e);
    lemma_dec_digits_val(n as nat);
    assert(crate::lexer::digits_val(s, i, e) == n);
}

/// Round trip of 32-bit unsigned decimal literals, in the same way.
pub proof fn lemma_u32_round_trip(n: u32, s: Seq<char>, i: int)
    requires
        0 <= i,
        i + dec_digits(n as nat).len() <= s.len(),
        s.subrange(i, i + dec_digits(n as nat).len() as int) == dec_digits(n as nat),
        i + dec_digits(n as nat).len() == s.len() || !crate::lexer::is_digit(
            s[i + dec_digits(n as nat).len()],
        ),
    ensures
        crate::lexer::sp_u32(s, i) == Some((n, i + dec_digits(n as nat).len() as int)),
{
    let t = dec_digits(n as nat);
    let e = i + t.len() as int;
    lemma_dec_digits_are_digits(n as nat);
    assert forall|k: int| i <= k < e implies crate::lexer::is_digit(#[trigger] s[k]) by {
        assert(s[k] == t[k - i]);
    }
    lemma_digit_run_over(s, i, e);
    lemma_digits_val_shift(s, i, e);
    lemma_dec_digits_val(n as nat);
    assert(crate::lexer::digits_val(s, i, e) == n);
}

/// Every character of a hexadecimal rendering is a hexadecimal digit, and
/// there is at least one.
pub proof fn lemma_hex_digits_are_hex(n: nat)
    ensures
        hex_digits(n).len() >= 1,
        forall|k: int|
            0 <= k < hex_digits(n).len() ==> crate::lexer::is_hex_digit(
                #[trigger] hex_digits(n)[k],
            ),
    decreases n,
{
    if n < 16 {
    } else {
        lemma_hex_digits_are_hex(n / 16);
    }
}

/// The value of a hexadecimal run depends only on the characters between
/// the bounds.
proof fn lemma_hex_val_agree(s1: Seq<char>, s2: Seq<char>, i: int, j: int)
    requires
        i <= j,
        forall|k: int| i <= k < j ==> s1[k] == s2[k],
    ensures
        crate::lexer::hex_val(s1, i, j) == crate::lexer::hex_val(s2, i, j),
    decreases j - i,
{
    if j > i {
        lemma_hex_val_agree(s1, s2, i, j - 1);
    }
}

/// The value of a hexadecimal run is the same in place as in the
/// extracted subrange.
proof fn lemma_hex_val_shift(s: Seq<char>, i: int, j: int)
    requires
        0 <= i <= j <= s.len(),
    ensures
        crate::lexer::hex_val(s, i, j) == crate::lexer::hex_val(s.subrange(i, j), 0, j - i),
    decreases j - i,
{
    if j > i {
        lemma_hex_val_shift(s, i, j - 1);
        assert forall|k: int| 0 <= k < j - 1 - i implies s.subrange(i, j - 1)[k] == s.subrange(
            i,
            j,
        )[k] by {}
        lemma_hex_val_agree(s.subrange(i, j - 1), s.subrange(i, j), 0, j - 1 - i);
        assert(s.subrange(i, j)[j - i - 1] == s[j - 1]);
    }
}

/// The digits of a hexadecimal rendering evaluate back to the rendered
/// number.
proof fn lemma_hex_digits_val(n: nat)
    ensures
        crate::lexer::hex_val(hex_digits(n), 0, hex_digits(n).len() as int) == n,
    decreases n,
{
    let t = hex_digits(n);
    if n < 16 {
        assert(crate::lexer::hex_val(t, 0, 1) == crate::lexer::hex_val(t, 0, 0) * 16
            + crate::lexer::hex_digit_val(t[0]));
        assert(crate::lexer::hex_digit_val(hex_char(n)) == n);
    } else {
        lemma_hex_digits_val(n / 16);
        let p = hex_digits(n / 16);
        assert(t == p.push(hex_char(n % 16)));
        lemma_hex_val_agree(t, p, 0, p.len() as int);
        assert(t[p.len() as int] == hex_char(n % 16));
        assert(crate::lexer::hex_digit_val(hex_char(n % 16)) == n % 16);
        assert(crate::lexer::hex_val(t, 0, t.len() as int) == crate::lexer::hex_val(
            t,
            0,
            t.len() - 1,
        ) * 16 + crate::lexer::hex_digit_val(t[t.len() - 1]));
    }
}

/// The hexadecimal run over a rendering stops exactly where the digits
/// stop.
proof fn lemma_hex_run_over(s: Seq<char>, i: int, e: int)
    requires
        0 <= i <= e <= s.len(),
        forall|k: int| i <= k < e ==> crate::lexer::is_hex_digit(#[trigger] s[k]),
        e == s.len() || !crate::lexer::is_hex_digit(s[e]),
    ensures
        crate::lexer::sp_hex_run(s, i) == e,
    decreases e - i,
{
    if i < e {
        lemma_hex_run_over(s, i + 1, e);
    }
}

/// Round trip of 16-bit hexadecimal literals: wherever the hexadecimal
/// rendering of a number stands, followed by no further hexadecimal
/// digit, parsing from there gives exactly that number back.
pub proof fn lemma_hex_u16_round_trip(n: u16, s: Seq<char>, i: int)
    requires
        0 <= i,
        i + hex_digits(n as nat).len() <= s.len(),
        s.subrange(i, i + hex_digits(n as nat).len() as int) == hex_digits(n as nat),
        i + hex_digits(n as nat).len() == s.len() || !crate::lexer::is_hex_digit(
            s[i + hex_digits(n as nat).len()],
        ),
    ensures
        crate::lexer::sp_hex_u16(s, i) == Some((n, i + hex_digits(n as nat).len() as int)),
{
    let t = hex_digits(n as nat);
    let e = i + t.len() as int;
    lemma_hex_digits_are_hex(n as nat);
    assert forall|k: int| i <= k < e implies crate::lexer::is_hex_digit(#[trigger] s[k]) by {
        assert(s[k] == t[k - i]);
    }
    lemma_hex_run_over(s, i, e);
    lemma_hex_val_shift(s, i, e);
    lemma_hex_digits_val(n as nat);
    assert(crate::lexer::hex_val(s, i, e) == n);
}

/// The one-character string of a decimal digit value.
fn digit_str(d: u64) -> (r: &'static str)
    requires
        d < 10,
    ensures
        r@ =~= seq![digit_char(d as nat)],
{
    proof {
        reveal_strlit("0");
        reveal_strlit("1");
        reveal_strlit("2");
        reveal_strlit("3");
        reveal_strlit("4");
        reveal_strlit("5");
        reveal_strlit("6");
        reveal_strlit("7");
        reveal_strlit("8");
        reveal_strlit("9");
    }
    if d == 0 {
        "0"
    } else if d == 1 {
        "1"
    } else if d == 2 {
        "2"
    } else if d == 3 {
        "3"
    } else if d == 4 {
        "4"
    } else if d == 5 {
        "5"
    } else if d == 6 {
        "6"
    } else if d == 7 {
        "7"
    } else if d == 8 {
        "8"
    } else {
        "9"
    }
}

/// The one-character string of a hexadecimal digit value, uppercase.
fn hex_digit_str(d: u64) -> (r: &'static str)
    requires
        d < 16,
    ensures
        r@ =~= seq![hex_char(d as nat)],
{
    proof {
        reveal_strlit("A");
        reveal_strlit("B");
        reveal_strlit("C");
        reveal_strlit("D");
        reveal_strlit("E");
        reveal_strlit("F");
    }
    if d < 10 {
        digit_str(d)
    } else if d == 10 {
        "A"
    } else if d == 11 {
        "B"
    } else if d == 12 {
        "C"
    } else if d == 13 {
        "D"
    } else if d == 14 {
        "E"
    } else {
        "F"
    }
}

/// Append the decimal rendering of `n` to `out`.
pub fn append_u64(out: &mut String, n: u64)
    ensures
        final (out)@ == old(out)@ + dec_digits(n as nat),
    decreases n,
{
    if n < 10 {
        out.append(digit_str(n));
    } else {
        append_u64(out, n / 10);
        out.append(digit_str(n % 10));
        proof {
            assert(old(out)@ + dec_digits((n / 10) as nat) + seq![
                digit_char((n % 10) as nat),
            ] =~= old(out)@ + dec_digits(n as nat));
        }
    }
}

/// Append the decimal rendering of `n` to `out`.
pub fn append_u32(out: &mut String, n: u32)
    ensures
        final (out)@ == old(out)@ + dec_digits(n as nat),
{
    append_u64(out, n as u64);
}

/// Append the decimal rendering of `v` to `out`.
pub fn append_i64(out: &mut String, v: i64)
    ensures
        final (out)@ == old(out)@ + dec_int(v as int),
{
    if v < 0 {
        out.append("-");
        let m: u64 = if v == i64::MIN {
            0x8000_0000_0000_0000u64
        } else {
            (-v) as u64
        };
        append_u64(out, m);
        proof {
            reveal_strlit("-");
            assert(old(out)@ + "-"@ + dec_digits(m as nat) =~= old(out)@ + dec_int(v as int));
        }
    } else {
        append_u64(out, v as u64);
    }
}

/// Append the uppercase hexadecimal rendering of `n` to `out`.
pub fn append_hex_u16(out: &mut String, n: u16)
    ensures
        final (out)@ == old(out)@ + hex_digits(n as nat),
    decreases n,
{
    if n < 16 {
        out.append(hex_digit_str(n as u64));
    } else {
        append_hex_u16(out, n / 16);
        out.append(hex_digit_str((n % 16) as u64));
        proof {
            assert(old(out)@ + hex_digits((n / 16) as nat) + seq![
                hex_char((n % 16) as nat),
            ] =~= old(out)@ + hex_digits(n as nat));
        }
    }
}

} // verus!
