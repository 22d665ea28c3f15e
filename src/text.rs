//! Decimal rendering of numbers into text.

use vstd::prelude::*;

verus! {

/// The character of a decimal digit.
pub open spec fn digit_char(d: int) -> char {
    if d == 0 {
        '0'
    } else if d == 1 {
        '1'
    } else if d == 2 {
        '2'
    } else if d == 3 {
        '3'
    } else if d == 4 {
        '4'
    } else if d == 5 {
        '5'
    } else if d == 6 {
        '6'
    } else if d == 7 {
        '7'
    } else if d == 8 {
        '8'
    } else {
        '9'
    }
}

/// The shortest decimal notation of `n`, most significant digit first.
pub open spec fn decimal_text(n: nat) -> Seq<char>
    decreases n,
{
    if n < 10 {
        seq![digit_char(n as int)]
    } else {
        decimal_text(n / 10).push(digit_char((n % 10) as int))
    }
}

fn digit_str(d: u64) -> (s: &'static str)
    requires
        d < 10,
    ensures
        s@ == seq![digit_char(d as int)],
{
    proof {
        reveal_strlit("0");
        reveal_strlit("1");
        reveal_strlit("2");
        reveal_strlit("3");
        reveal_strlit("4");
        reveal_strlit("5");
        reveal_strlit("6");
        reveal_strlit("7");
        reveal_strlit("8");
        reveal_strlit("9");
    }
    match d {
        0 => "0",
        1 => "1",
        2 => "2",
        3 => "3",
        4 => "4",
        5 => "5",
        6 => "6",
        7 => "7",
        8 => "8",
        _ => "9",
    }
}

/// Appends the decimal notation of `n` to `s`.
pub fn append_decimal(s: &mut String, n: u64)
    ensures
        final(s)@ == old(s)@ + decimal_text(n as nat),
    decreases n,
{
    if n >= 10 {
        append_decimal(s, n / 10);
        s.append(digit_str(n % 10));
        assert(decimal_text(n as nat) == decimal_text((n / 10) as nat).push(
            digit_char((n % 10) as int),
        ));
        assert(s@ =~= old(s)@ + decimal_text(n as nat));
    } else {
        s.append(digit_str(n));
    }
}

/// The largest number of decimal places that a fixed-point value may carry.
pub const MAX_SCALE: u8 = 18;

/// Ten to the power `d`.
pub open spec fn pow10(d: nat) -> nat
    decreases d,
{
    if d == 0 {
        1
    } else {
        10 * pow10((d - 1) as nat)
    }
}

/// The digits after the decimal point of the fraction `f / 10^d`, up to the
/// last one that is not zero.
pub open spec fn fraction_text(f: nat, d: nat) -> Seq<char>
    decreases d,
{
    if d == 0 || f == 0 {
        Seq::empty()
    } else {
        let p = pow10((d - 1) as nat);
        seq![digit_char((f / p) as int)] + fraction_text(f % p, (d - 1) as nat)
    }
}

/// The text of the number `v / 10^scale`: a sign if it is negative, its
/// integer part, and its fractional digits after a point unless it is whole.
pub open spec fn fixed_point_text(v: int, scale: nat) -> Seq<char> {
    let m: int = if v < 0 { -v } else { v };
    let p: int = pow10(scale) as int;
    let sign = if v < 0 { seq!['-'] } else { Seq::empty() };
    let fraction = if m % p == 0 {
        Seq::empty()
    } else {
        seq!['.'] + fraction_text((m % p) as nat, scale)
    };
    sign + decimal_text((m / p) as nat) + fraction
}

proof fn lemma_pow10_positive(d: nat)
    ensures
        pow10(d) > 0,
    decreases d,
{
    if d > 0 {
        lemma_pow10_positive((d - 1) as nat);
    }
}

proof fn lemma_pow10_monotonic(a: nat, b: nat)
    requires
        a <= b,
    ensures
        pow10(a) <= pow10(b),
    decreases b,
{
    if a < b {
        lemma_pow10_monotonic(a, (b - 1) as nat);
        lemma_pow10_positive((b - 1) as nat);
    }
}

fn power_of_ten(d: u8) -> (p: u64)
    requires
        d <= MAX_SCALE,
    ensures
        p == pow10(d as nat),
{
    let mut p: u64 = 1;
    let mut i: u8 = 0;
    while i < d
        invariant
            i <= d <= MAX_SCALE,
            p == pow10(i as nat),
        decreases d - i,
    {
        proof {
            reveal_with_fuel(pow10, 18);
            lemma_pow10_monotonic(i as nat, 17);
            assert(pow10(17) == 100000000000000000);
        }
        p = p * 10;
        i = i + 1;
    }
    p
}

/// Appends the text of the fixed-point number `v / 10^scale` to `s`.
pub fn append_fixed_point(s: &mut String, v: i64, scale: u8)
    requires
        scale <= MAX_SCALE,
    ensures
        final(s)@ == old(s)@ + fixed_point_text(v as int, scale as nat),
{
    proof {
        reveal_strlit("-");
        reveal_strlit(".");
    }
    let m: u64 = if v < 0 {
        s.append("-");
        (0i128 - v as i128) as u64
    } else {
        v as u64
    };
    let p = power_of_ten(scale);
    proof {
        lemma_pow10_positive(scale as nat);
    }
    append_decimal(s, m / p);
    let ghost whole = s@;
    let mut f: u64 = m % p;
    if f != 0 {
        s.append(".");
        let ghost start = s@;
        let mut q: u64 = p;
        let mut d: u8 = scale;
        while d > 0 && f != 0
            invariant
                d <= scale,
                q == pow10(d as nat),
                f < q,
                start + fraction_text((m % p) as nat, scale as nat) == s@ + fraction_text(
                    f as nat,
                    d as nat,
                ),
            decreases d,
        {
            let r = q / 10;
            proof {
                lemma_pow10_positive((d - 1) as nat);
            }
            assert(r == pow10((d - 1) as nat));
            assert(f / r < 10) by (nonlinear_arith)
                requires
                    f < q,
                    q == 10 * r,
                    r > 0,
            ;
            s.append(digit_str(f / r));
            f = f % r;
            q = r;
            d = d - 1;
        }
        assert(fraction_text(f as nat, d as nat) =~= Seq::<char>::empty());
    }
    assert(s@ =~= old(s)@ + fixed_point_text(v as int, scale as nat));
}

} // verus!
