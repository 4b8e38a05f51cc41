use vstd::prelude::*;
use vstd::string::*;

verus! {

/// The character of a decimal digit.
pub open spec fn digit_char(d: int) -> char {
    if d == 0 { '0' }
    else if d == 1 { '1' }
    else if d == 2 { '2' }
    else if d == 3 { '3' }
    else if d == 4 { '4' }
    else if d == 5 { '5' }
    else if d == 6 { '6' }
    else if d == 7 { '7' }
    else if d == 8 { '8' }
    else { '9' }
}

/// The decimal digits of a natural number, most significant first, without leading zeros.
pub open spec fn nat_digits(n: nat) -> Seq<char>
    decreases n,
{
    if n < 10 {
        seq![digit_char(n as int)]
    } else {
        nat_digits(n / 10) + seq![digit_char((n % 10) as int)]
    }
}

fn push_digit(s: &mut String, d: u128)
    requires
        d < 10,
    ensures
        final(s)@ == old(s)@ + seq![digit_char(d as int)],
{
    proof {
        reveal_strlit("0");
        reveal_strlit("1");
        reveal_strlit("2");
        reveal_strlit("3");
        reveal_strlit("4");
        reveal_strlit("5");
        reveal_strlit("6");
        reveal_strlit("7");
        reveal_strlit("8");
        reveal_strlit("9");
    }
    if d == 0 { s.append("0"); }
    else if d == 1 { s.append("1"); }
    else if d == 2 { s.append("2"); }
    else if d == 3 { s.append("3"); }
    else if d == 4 { s.append("4"); }
    else if d == 5 { s.append("5"); }
    else if d == 6 { s.append("6"); }
    else if d == 7 { s.append("7"); }
    else if d == 8 { s.append("8"); }
    else { s.append("9"); }
}

/// Appends the decimal digits of `n`.
pub fn push_nat(s: &mut String, n: u128)
    ensures
        final(s)@ == old(s)@ + nat_digits(n as nat),
    decreases n,
{
    if n >= 10 {
        push_nat(s, n / 10);
        push_digit(s, n % 10);
        assert(final(s)@ == old(s)@ + nat_digits(n as nat));
    } else {
        push_digit(s, n);
    }
}


/// The digits after the decimal point of a fraction given in thousandths (1 to 999),
/// without trailing zeros.
pub open spec fn fraction_digits(f: int) -> Seq<char> {
    if f % 100 == 0 {
        seq![digit_char(f / 100)]
    } else if f % 10 == 0 {
        seq![digit_char(f / 100), digit_char((f / 10) % 10)]
    } else {
        seq![digit_char(f / 100), digit_char((f / 10) % 10), digit_char(f % 10)]
    }
}

pub open spec fn abs(m: int) -> nat {
    if m < 0 { (-m) as nat } else { m as nat }
}

/// The text of a number given in thousandths: an optional minus sign, the integer part,
/// and the fraction only where it is not zero.
pub open spec fn milli_text(m: int) -> Seq<char> {
    let a = abs(m);
    let sign = if m < 0 { seq!['-'] } else { Seq::<char>::empty() };
    let frac = if a % 1000 == 0 {
        Seq::<char>::empty()
    } else {
        seq!['.'] + fraction_digits((a % 1000) as int)
    };
    sign + nat_digits(a / 1000) + frac
}

/// `v / den` rounded to thousandths, halves upward.
pub open spec fn round_milli(v: int, den: int) -> int {
    (2000 * v + den) / (2 * den)
}

/// The largest magnitude of a numerator that the text functions accept.
pub open spec fn numerator_bound() -> int {
    0x10_0000_0000_0000_0000_0000_0000
}

/// The text of the rational number `v / den`, to three decimals.
pub open spec fn number_text(v: int, den: int) -> Seq<char> {
    milli_text(round_milli(v, den))
}

fn floor_div(t: i128, d: i128) -> (q: i128)
    requires
        0 < d,
        -0x100_0000_0000_0000_0000_0000_0000_0000 <= t <= 0x100_0000_0000_0000_0000_0000_0000_0000,
    ensures
        q == t / d,
{
    if t >= 0 {
        ((t as u128) / (d as u128)) as i128
    } else {
        let n: u128 = (-t) as u128;
        let du: u128 = d as u128;
        let q: u128 = (n + du - 1) / du;
        proof {
            let ti = t as int;
            let di = d as int;
            let k = ti / di;
            let r = ti % di;
            vstd::arithmetic::div_mod::lemma_fundamental_div_mod(ti, di);
            assert(-ti + di - 1 == (-k) * di + (di - 1 - r)) by (nonlinear_arith)
                requires
                    ti == di * k + r,
            ;
            vstd::arithmetic::div_mod::lemma_fundamental_div_mod_converse(-ti + di - 1, di, -k, di - 1 - r);
            assert(n as int + du as int - 1 == -ti + di - 1);
            assert(q as int == -k);
            assert(-k <= -ti) by (nonlinear_arith)
                requires
                    ti == di * k + r,
                    0 <= r < di,
                    ti < 0,
            ;
        }
        -(q as i128)
    }
}

/// Appends the digits after the decimal point of `f` thousandths.
fn push_fraction(s: &mut String, f: u128)
    requires
        0 < f < 1000,
    ensures
        final(s)@ == old(s)@ + fraction_digits(f as int),
{
    push_digit(s, f / 100);
    if f % 100 != 0 {
        push_digit(s, (f / 10) % 10);
        if f % 10 != 0 {
            push_digit(s, f % 10);
        }
    }
}

/// Appends the text of `m` thousandths.
pub fn push_milli(s: &mut String, m: i128)
    requires
        -0x100_0000_0000_0000_0000_0000_0000_0000 <= m <= 0x100_0000_0000_0000_0000_0000_0000_0000,
    ensures
        final(s)@ == old(s)@ + milli_text(m as int),
{
    proof { reveal_strlit("-"); reveal_strlit("."); }
    let a: u128 = if m < 0 {
        s.append("-");
        (-m) as u128
    } else {
        m as u128
    };
    push_nat(s, a / 1000);
    if a % 1000 != 0 {
        s.append(".");
        push_fraction(s, a % 1000);
    }
    assert(final(s)@ =~= old(s)@ + milli_text(m as int));
}

/// Appends the text of the rational number `v / den`, to three decimals.
pub fn push_number(s: &mut String, v: i128, den: i128)
    requires
        0 < den <= 0x1_0000_0000,
        -numerator_bound() <= v <= numerator_bound(),
    ensures
        final(s)@ == old(s)@ + number_text(v as int, den as int),
{
    let t: i128 = 2000 * v + den;
    let m = floor_div(t, 2 * den);
    proof {
        let ti = t as int;
        let di = 2 * den as int;
        vstd::arithmetic::div_mod::lemma_fundamental_div_mod(ti, di);
        let mi = m as int;
        let r = ti % di;
        assert(-0x100_0000_0000_0000_0000_0000_0000_0000 <= mi <= 0x100_0000_0000_0000_0000_0000_0000_0000) by (nonlinear_arith)
            requires
                ti == di * mi + r,
                0 <= r < di,
                di >= 2,
                -0x100_0000_0000_0000_0000_0000_0000_0000 + 0x1_0000_0000_0000 <= ti <= 0x100_0000_0000_0000_0000_0000_0000_0000 - 0x1_0000_0000_0000,
        ;
    }
    push_milli(s, m);
}

} // verus!
