//! Text of axis labels and value readouts.
//!
//! A value is written with at most two significant digits (the third digit
//! decides the rounding, ties go to the even neighbour), in positional
//! notation, without trailing zeros after the decimal point and without a
//! trailing decimal point.

use vstd::prelude::*;
use vstd::string::*;
use crate::fixed::is_pow10;

verus! {

/// The character of a decimal digit.
pub open spec fn digit_char(d: int) -> char {
    if d == 0 {
        '0'
    } else if d == 1 {
        '1'
    } else if d == 2 {
        '2'
    } else if d == 3 {
        '3'
    } else if d == 4 {
        '4'
    } else if d == 5 {
        '5'
    } else if d == 6 {
        '6'
    } else if d == 7 {
        '7'
    } else if d == 8 {
        '8'
    } else {
        '9'
    }
}

/// Starting from `q`, the first power-of-ten multiple `q, 10q, 100q, ...`
/// under which `m` has at most two digits.
pub open spec fn sig_from(q: int, m: int) -> int
    decreases m - q,
    when q >= 1
{
    if m < 100 * q {
        q
    } else {
        sig_from(10 * q, m)
    }
}

/// The weight of the second significant digit of `m`
/// (`1` when `m` has fewer than three digits).
pub open spec fn sig_unit(m: int) -> int {
    sig_from(1, m)
}

/// `m >= 0` rounded to a multiple of `q > 0`, ties to the even multiple.
pub open spec fn round_half_even(m: int, q: int) -> int {
    let d = m / q;
    let r = m % q;
    if 2 * r > q || (2 * r == q && d % 2 == 1) {
        (d + 1) * q
    } else {
        d * q
    }
}

/// `m >= 0` rounded to two significant digits.
pub open spec fn round_sig2(m: int) -> int {
    round_half_even(m, sig_unit(m))
}

/// Starting from `s`, the first of `s, 10s, 100s, ...` that is the weight of
/// the leading digit of `n`.
pub open spec fn top_from(s: int, n: int) -> int
    decreases n - s,
    when s >= 1
{
    if n < 10 * s {
        s
    } else {
        top_from(10 * s, n)
    }
}

/// The digits of `n`, most significant first, from the digit of weight `s`
/// (a power of ten) down to the units.
pub open spec fn digits_from(n: int, s: int) -> Seq<char>
    decreases s,
{
    if s <= 1 {
        seq![digit_char(n)]
    } else {
        seq![digit_char(n / s)] + digits_from(n % s, s / 10)
    }
}

/// The decimal digits of `n >= 0` without leading zeros.
pub open spec fn int_digits(n: int) -> Seq<char> {
    digits_from(n, top_from(1, n))
}

/// The digits of the fraction `f / (10 * s)`, most significant first, up to
/// the last one that is not zero; `s` is a power of ten and `0 <= f < 10 * s`.
pub open spec fn frac_digits(f: int, s: int) -> Seq<char>
    decreases s,
{
    if f <= 0 || s <= 0 {
        Seq::<char>::empty()
    } else {
        seq![digit_char(f / s)] + frac_digits(f % s, s / 10)
    }
}

/// Positional notation of the non-negative fixed-point value `n`
/// (nine decimal places).
pub open spec fn positional(n: int) -> Seq<char> {
    let whole = n / 1_000_000_000;
    let frac = n % 1_000_000_000;
    if frac == 0 {
        int_digits(whole)
    } else {
        int_digits(whole) + seq!['.'] + frac_digits(frac, 100_000_000)
    }
}

/// The text of the fixed-point value `v`.
pub open spec fn label_text(v: int) -> Seq<char> {
    if v >= 0 {
        positional(round_sig2(v))
    } else {
        seq!['-'] + positional(round_sig2(-v))
    }
}

fn push_digit(text: &mut String, d: u64)
    requires
        d < 10,
    ensures
        final(text)@ == old(text)@.push(digit_char(d as int)),
{
    proof {
        reveal_strlit("0");
        reveal_strlit("1");
        reveal_strlit("2");
        reveal_strlit("3");
        reveal_strlit("4");
        reveal_strlit("5");
        reveal_strlit("6");
        reveal_strlit("7");
        reveal_strlit("8");
        reveal_strlit("9");
    }
    let ghost before = text@;
    if d == 0 {
        text.append("0");
    } else if d == 1 {
        text.append("1");
    } else if d == 2 {
        text.append("2");
    } else if d == 3 {
        text.append("3");
    } else if d == 4 {
        text.append("4");
    } else if d == 5 {
        text.append("5");
    } else if d == 6 {
        text.append("6");
    } else if d == 7 {
        text.append("7");
    } else if d == 8 {
        text.append("8");
    } else {
        text.append("9");
    }
    assert(text@ =~= before.push(digit_char(d as int)));
}

/// Rounds the magnitude of an `i64` to two significant digits.
fn round_to_two_digits(m: u64) -> (r: u64)
    requires
        m <= 0x8000_0000_0000_0000,
    ensures
        r == round_sig2(m as int),
{
    let mut q: u64 = 1;
    while m / 100 >= q
        invariant
            1 <= q,
            10 * q <= m || q == 1,
            sig_from(q as int, m as int) == sig_unit(m as int),
        decreases m - q,
    {
        q = q * 10;
    }
    assert(m < 100 * q);
    let d: u64 = m / q;
    let r: u64 = m % q;
    assert(d * q <= m) by (nonlinear_arith)
        requires
            d == m / q,
            q > 0,
    ;
    assert((d + 1) * q == d * q + q) by (nonlinear_arith);
    if r > q - r || (r == q - r && d % 2 == 1) {
        (d + 1) * q
    } else {
        d * q
    }
}

fn push_whole(text: &mut String, n: u64)
    ensures
        final(text)@ == old(text)@ + int_digits(n as int),
{
    let ghost before = text@;
    let mut s: u64 = 1;
    while n / 10 >= s
        invariant
            1 <= s,
            s <= n || s == 1,
            is_pow10(s as int),
            top_from(s as int, n as int) == top_from(1, n as int),
        decreases n - s,
    {
        s = s * 10;
    }
    assert(n < 10 * s);
    let mut rest: u64 = n;
    loop
        invariant_except_break
            is_pow10(s as int),
            rest < 10 * s,
            before + int_digits(n as int) == text@ + digits_from(rest as int, s as int),
        ensures
            text@ == before + int_digits(n as int),
        decreases s,
    {
        let ghost t0 = text@;
        if s <= 1 {
            push_digit(text, rest);
            assert(t0.push(digit_char(rest as int)) =~= t0 + digits_from(rest as int, s as int));
            break;
        }
        let d: u64 = rest / s;
        assert(d < 10) by (nonlinear_arith)
            requires
                d == rest / s,
                rest < 10 * s,
                s > 0,
        ;
        push_digit(text, d);
        assert(t0.push(digit_char(d as int)) + digits_from((rest % s) as int, (s / 10) as int)
            =~= t0 + digits_from(rest as int, s as int));
        rest = rest % s;
        s = s / 10;
    }
}

fn push_fraction(text: &mut String, f: u64)
    requires
        f < 1_000_000_000,
    ensures
        final(text)@ == old(text)@ + frac_digits(f as int, 100_000_000),
{
    let ghost before = text@;
    let mut s: u64 = 100_000_000;
    let mut rest: u64 = f;
    assert(is_pow10(100_000_000)) by {
        reveal_with_fuel(is_pow10, 10);
    }
    while rest > 0
        invariant
            rest == 0 || (rest < 10 * s && is_pow10(s as int)),
            s <= 100_000_000,
            before + frac_digits(f as int, 100_000_000) == text@ + frac_digits(
                rest as int,
                s as int,
            ),
        decreases s,
    {
        let ghost t0 = text@;
        let d: u64 = rest / s;
        assert(d < 10) by (nonlinear_arith)
            requires
                d == rest / s,
                rest < 10 * s,
                s > 0,
        ;
        push_digit(text, d);
        assert(t0.push(digit_char(d as int)) + frac_digits((rest % s) as int, (s / 10) as int)
            =~= t0 + frac_digits(rest as int, s as int));
        rest = rest % s;
        s = s / 10;
    }
    assert(frac_digits(rest as int, s as int) =~= Seq::<char>::empty());
    assert(text@ + Seq::<char>::empty() =~= text@);
}

/// Writes a fixed-point value as label text.
pub fn convert_to_text(value: i64) -> (text: String)
    ensures
        text@ == label_text(value as int),
{
    let mut text = String::new();
    let magnitude: u64 = if value >= 0 {
        value as u64
    } else {
        proof {
            reveal_strlit("-");
        }
        text.append("-");
        (-(value as i128)) as u64
    };
    let ghost sign = text@;
    assert(sign =~= if value >= 0 {
        Seq::<char>::empty()
    } else {
        seq!['-']
    });
    let n: u64 = round_to_two_digits(magnitude);
    let whole: u64 = n / 1_000_000_000;
    let frac: u64 = n % 1_000_000_000;
    push_whole(&mut text, whole);
    if frac != 0 {
        proof {
            reveal_strlit(".");
        }
        let ghost t1 = text@;
        text.append(".");
        assert(text@ =~= t1 + seq!['.']);
        push_fraction(&mut text, frac);
    }
    assert(text@ =~= sign + positional(n as int));
    assert(Seq::<char>::empty() + positional(n as int) =~= positional(n as int));
    text
}

} // verus!
