//! Text of a clock frequency given in MHz.
//!
//! Frequencies of at least 1000 MHz are shown in GHz with two decimals, the
//! way `format!("{:.2} GHz", (mhz as f64) / 1000.0)` prints them. That text is
//! computed here with integers: the two roundings to binary64 (of `mhz`, then
//! of the quotient) and the decimal rounding of the formatter are spelled out
//! as spec functions below.

use vstd::prelude::*;

verus! {

/// 2^52, the smallest normalised binary64 significand.
pub open spec fn two_pow_52() -> nat {
    0x10_0000_0000_0000
}

/// 2^53, one past the largest binary64 significand.
pub open spec fn two_pow_53() -> nat {
    0x20_0000_0000_0000
}

/// The character of a decimal digit.
pub open spec fn digit_char(d: nat) -> char {
    (d + 48) as char
}

/// Decimal digits of `n`, most significant first, no leading zeros.
pub open spec fn decimal_digits(n: nat) -> Seq<char>
    decreases n,
{
    if n < 10 {
        seq![digit_char(n)]
    } else {
        decimal_digits(n / 10).push(digit_char(n % 10))
    }
}

/// `n / d` rounded to the nearest integer, ties to the even one.
pub open spec fn round_half_even(n: nat, d: nat) -> nat {
    let q = n / d;
    let r = n % d;
    if 2 * r > d {
        q + 1
    } else if 2 * r < d {
        q
    } else if q % 2 == 0 {
        q
    } else {
        q + 1
    }
}

/// The power of two `p` for which `x / p` is a 53-bit significand.
pub open spec fn significand_unit(x: nat) -> nat
    decreases x,
{
    if x < two_pow_53() {
        1
    } else {
        2 * significand_unit(x / 2)
    }
}

/// The binary64 value nearest to the integer `x` (ties to even): what `x as f64` holds.
pub open spec fn nearest_binary64_integer(x: nat) -> nat {
    let p = significand_unit(x);
    round_half_even(x, p) * p
}

/// Doubles `n` (and `scale`) until `n / d` reaches 2^52.
pub open spec fn raise(n: nat, d: nat, scale: nat) -> (nat, nat)
    decreases (if n < two_pow_52() * d {
        two_pow_52() * d - n
    } else {
        0
    }),
{
    if 0 < n && n < two_pow_52() * d {
        raise(2 * n, d, 2 * scale)
    } else {
        (n, scale)
    }
}

/// Doubles `d` (and `mult`) until `n / d` falls below 2^53.
pub open spec fn lower(n: nat, d: nat, mult: nat) -> (nat, nat)
    decreases n - d,
{
    if 0 < d && n >= two_pow_53() * d {
        lower(n, 2 * d, 2 * mult)
    } else {
        (d, mult)
    }
}

/// The binary64 value nearest to `a / b` (ties to even), as a triple
/// `(significand, mult, scale)` whose value is `significand * mult / scale`.
pub open spec fn nearest_binary64_ratio(a: nat, b: nat) -> (nat, nat, nat) {
    let (n, scale) = raise(a, b, 1);
    let (d, mult) = lower(n, b, 1);
    (round_half_even(n, d), mult, scale)
}

/// Hundredths of `(mhz as f64) / 1000.0`, rounded as `{:.2}` rounds them.
pub open spec fn ghz_hundredths(mhz: nat) -> nat {
    let a = nearest_binary64_integer(mhz);
    let (m, mult, scale) = nearest_binary64_ratio(a, 1000);
    round_half_even(m * mult * 100, scale)
}

/// The text of a frequency of `mhz` MHz: `"{mhz} MHz"` below 1000 MHz,
/// otherwise the GHz value with two decimals followed by `" GHz"`.
pub open spec fn frequency_text(mhz: nat) -> Seq<char> {
    if mhz < 1000 {
        decimal_digits(mhz) + " MHz"@
    } else {
        let h = ghz_hundredths(mhz);
        decimal_digits(h / 100) + "."@ + decimal_digits((h % 100) / 10) + decimal_digits(h % 10)
            + " GHz"@
    }
}

/// The one-character text of the digit `d`.
fn digit_text(d: u128) -> (t: &'static str)
    requires
        d < 10,
    ensures
        t@ == seq![digit_char(d as nat)],
{
    proof {
        reveal_strlit("0");
        reveal_strlit("1");
        reveal_strlit("2");
        reveal_strlit("3");
        reveal_strlit("4");
        reveal_strlit("5");
        reveal_strlit("6");
        reveal_strlit("7");
        reveal_strlit("8");
        reveal_strlit("9");
    }
    match d {
        0 => "0",
        1 => "1",
        2 => "2",
        3 => "3",
        4 => "4",
        5 => "5",
        6 => "6",
        7 => "7",
        8 => "8",
        _ => "9",
    }
}

/// Appends the decimal digits of `n` to `text`.
fn append_decimal(text: &mut String, n: u128)
    ensures
        final(text)@ == old(text)@ + decimal_digits(n as nat),
    decreases n,
{
    if n >= 10 {
        append_decimal(text, n / 10);
    }
    text.append(digit_text(n % 10));
    proof {
        if n >= 10 {
            assert(decimal_digits(n as nat) == decimal_digits((n / 10) as nat).push(
                digit_char((n % 10) as nat),
            ));
            assert(text@ =~= old(text)@ + decimal_digits(n as nat));
        } else {
            assert(text@ =~= old(text)@ + decimal_digits(n as nat));
        }
    }
}

/// The decimal digits of `n`, without sign, padding or leading zeros.
fn decimal_string(n: u128) -> (s: String)
    ensures
        s@ == decimal_digits(n as nat),
{
    let mut s = String::new();
    append_decimal(&mut s, n);
    assert(s@ =~= decimal_digits(n as nat));
    s
}

fn round_half_even_u128(n: u128, d: u128) -> (r: u128)
    requires
        d > 0,
        n / d < u128::MAX,
    ensures
        r == round_half_even(n as nat, d as nat),
        r <= n / d + 1,
        r >= n / d,
{
    let q = n / d;
    let r = n % d;
    if r > d - r {
        q + 1
    } else if r < d - r {
        q
    } else if q % 2 == 0 {
        q
    } else {
        q + 1
    }
}

/// `x as f64`, as an integer (it is one for every `u64`).
fn nearest_binary64_of(x: u64) -> (a: u128)
    ensures
        a == nearest_binary64_integer(x as nat),
        1000 <= x ==> 1000 <= a,
        a <= 0x2_0000_0000_0000_0000,
{
    let mut q: u128 = x as u128;
    let mut p: u128 = 1;
    while q >= 0x20_0000_0000_0000
        invariant
            1 <= p <= 0x1000,
            q == x as nat / p as nat,
            significand_unit(x as nat) == p * significand_unit(q as nat),
            p == 1 || q >= two_pow_52(),
            p == 1 ==> q == x,
        decreases q,
    {
        proof {
            let s = significand_unit((q / 2) as nat);
            assert(significand_unit(q as nat) == 2 * s);
            assert(p * (2 * s) == (2 * p) * s) by (nonlinear_arith);
            vstd::arithmetic::div_mod::lemma_div_denominator(x as int, p as int, 2);
            assert(p * 0x20_0000_0000_0000 <= x) by (nonlinear_arith)
                requires
                    q == x as nat / p as nat,
                    q >= 0x20_0000_0000_0000,
                    p >= 1,
            {
                vstd::arithmetic::div_mod::lemma_fundamental_div_mod(x as int, p as int);
                vstd::arithmetic::mul::lemma_mul_inequality(
                    0x20_0000_0000_0000,
                    q as int,
                    p as int,
                );
            }
        }
        q = q / 2;
        p = p * 2;
    }
    assert(significand_unit(q as nat) == 1);
    assert(significand_unit(x as nat) == p) by (nonlinear_arith)
        requires
            significand_unit(x as nat) == p * significand_unit(q as nat),
            significand_unit(q as nat) == 1,
    ;
    let m = round_half_even_u128(x as u128, p);
    proof {
        if p > 1 {
            assert(m >= 0x10_0000_0000_0000);
            assert(m * p >= 0x10_0000_0000_0000 * 2) by (nonlinear_arith)
                requires
                    m >= 0x10_0000_0000_0000,
                    p >= 2,
            ;
        } else {
            assert(x as nat / 1 == x) by (nonlinear_arith);
            assert(x as nat % 1 == 0) by (nonlinear_arith);
        }
        assert(m <= 0x20_0000_0000_0000);
        assert(m * p <= 0x20_0000_0000_0000 * 0x1000) by (nonlinear_arith)
            requires
                m <= 0x20_0000_0000_0000,
                p <= 0x1000,
        ;
    }
    m * p
}

/// Hundredths of the binary64 quotient `a / 1000`, rounded half to even.
fn hundredths_of_thousandth(a: u128) -> (h: u128)
    requires
        1000 <= a <= 0x2_0000_0000_0000_0000,
    ensures
        ({
            let (m, mult, scale) = nearest_binary64_ratio(a as nat, 1000);
            h == round_half_even(m * mult * 100, scale)
        }),
{
    let mut n: u128 = a;
    let mut scale: u128 = 1;
    while n < 0x10_0000_0000_0000 * 1000
        invariant
            raise(n as nat, 1000, scale as nat) == raise(a as nat, 1000, 1),
            n == a * scale,
            1000 <= a,
            1 <= scale,
            scale == 1 || n < 2 * two_pow_52() * 1000,
            n <= 0x2_0000_0000_0000_0000,
            scale * 1000 <= n,
        decreases (if n < two_pow_52() * 1000 {
            two_pow_52() * 1000 - n
        } else {
            0
        }),
    {
        proof {
            assert(n * 2 == a * (scale * 2)) by (nonlinear_arith)
                requires
                    n == a * scale,
            ;
            assert(raise(n as nat, 1000, scale as nat) == raise(2 * n as nat, 1000, 2 * scale as nat));
        }
        n = n * 2;
        scale = scale * 2;
    }
    let ghost n_raised = n;
    let mut d: u128 = 1000;
    let mut mult: u128 = 1;
    while n >= 0x20_0000_0000_0000 * d
        invariant
            lower(n as nat, d as nat, mult as nat) == lower(n_raised as nat, 1000, 1),
            n == n_raised,
            d == 1000 * mult,
            1 <= mult <= 0x2000,
            n <= 0x2_0000_0000_0000_0000,
        decreases n - d,
    {
        d = d * 2;
        mult = mult * 2;
    }
    proof {
        assert(raise(a as nat, 1000, 1) == (n as nat, scale as nat));
        assert(lower(n as nat, 1000, 1) == (d as nat, mult as nat));
        assert(n / d < 0x20_0000_0000_0000) by (nonlinear_arith)
            requires
                n < 0x20_0000_0000_0000 * d,
                d > 0,
        {
            vstd::arithmetic::div_mod::lemma_fundamental_div_mod(n as int, d as int);
            if n / d >= 0x20_0000_0000_0000 {
                vstd::arithmetic::mul::lemma_mul_inequality(
                    0x20_0000_0000_0000,
                    (n / d) as int,
                    d as int,
                );
            }
        }
    }
    let m = round_half_even_u128(n, d);
    proof {
        assert(m * mult * 100 <= 0x20_0000_0000_0000 * 0x2000 * 100) by (nonlinear_arith)
            requires
                m <= 0x20_0000_0000_0000,
                mult <= 0x2000,
        ;
        assert(((m * mult * 100) as nat) / (scale as nat) <= m * mult * 100) by (nonlinear_arith)
            requires
                scale >= 1,
        {
            vstd::arithmetic::div_mod::lemma_div_is_ordered_by_denominator(
                (m * mult * 100) as int,
                1,
                scale as int,
            );
        }
    }
    round_half_even_u128(m * mult * 100, scale)
}

/// The text of a clock frequency of `mhz` MHz: `"{mhz} MHz"` below 1000 MHz,
/// otherwise `"{:.2} GHz"` of `(mhz as f64) / 1000.0`.
pub fn format_frequency(mhz: u64) -> (text: String)
    ensures
        text@ == frequency_text(mhz as nat),
{
    if mhz < 1000 {
        let mut text = decimal_string(mhz as u128);
        text.append(" MHz");
        text
    } else {
        let a = nearest_binary64_of(mhz);
        let h = hundredths_of_thousandth(a);
        let mut text = decimal_string(h / 100);
        text.append(".");
        let tenths = decimal_string((h % 100) / 10);
        text.append(tenths.as_str());
        let hundredths = decimal_string(h % 10);
        text.append(hundredths.as_str());
        text.append(" GHz");
        text
    }
}

} // verus!
