//! Two-decimal rendering of ratios, in exact integer arithmetic.

use vstd::arithmetic::div_mod::{
    lemma_div_is_ordered, lemma_fundamental_div_mod, lemma_mod_bound,
};
use vstd::prelude::*;
use vstd::string::*;

use crate::text::{decimal_digits, digit_char, push_decimal};

verus! {

/// `n / d` rounded to the nearest whole number; a quotient that lies
/// exactly between two whole numbers goes to the even one.
pub open spec fn round_half_even(n: nat, d: nat) -> nat
    recommends
        d > 0,
{
    let q = n / d;
    let r = n % d;
    if 2 * r > d || (2 * r == d && q % 2 == 1) {
        q + 1
    } else {
        q
    }
}

/// The rounded quotient is a nearest whole number: it lies no further than
/// one half from `n / d`, and exactly one half away only when it is even.
pub proof fn lemma_round_half_even_nearest(n: nat, d: nat)
    requires
        d > 0,
    ensures
        2 * (round_half_even(n, d) * d - n) <= d,
        2 * (n - round_half_even(n, d) * d) <= d,
        (2 * (round_half_even(n, d) * d - n) == d || 2 * (n - round_half_even(n, d) * d) == d)
            ==> round_half_even(n, d) % 2 == 0,
        n % d == 0 ==> round_half_even(n, d) == n / d,
{
    let q = n / d;
    let r = n % d;
    lemma_fundamental_div_mod(n as int, d as int);
    lemma_mod_bound(n as int, d as int);
    assert((q + 1) * d == q * d + d) by (nonlinear_arith);
}

/// Rounding keeps the order: a larger numerator never gives a smaller
/// rounded quotient.
pub proof fn lemma_round_half_even_monotonic(a: nat, b: nat, d: nat)
    requires
        d > 0,
        a <= b,
    ensures
        round_half_even(a, d) <= round_half_even(b, d),
{
    lemma_div_is_ordered(a as int, b as int, d as int);
    lemma_fundamental_div_mod(a as int, d as int);
    lemma_fundamental_div_mod(b as int, d as int);
    lemma_mod_bound(a as int, d as int);
    lemma_mod_bound(b as int, d as int);
    if a / d == b / d {
        assert(a % d <= b % d);
    } else {
        assert(a / d + 1 <= b / d);
    }
}

/// A part of a whole is at most one hundred percent.
pub proof fn lemma_percent_bounded(part: nat, whole: nat)
    requires
        whole > 0,
        part <= whole,
    ensures
        round_half_even(10000 * part, whole) <= 10000,
{
    lemma_round_half_even_monotonic(10000 * part, 10000 * whole, whole);
    assert((10000 * whole) % whole == 0 && (10000 * whole) / whole == 10000) by (nonlinear_arith)
        requires
            whole > 0,
    ;
}

/// Computes `n / d` rounded half to even.
pub fn rounded_quotient(n: u128, d: u128) -> (q: u128)
    requires
        d > 0,
    ensures
        q == round_half_even(n as nat, d as nat),
{
    let q: u128 = n / d;
    let r: u128 = n % d;
    proof {
        lemma_fundamental_div_mod(n as int, d as int);
        lemma_mod_bound(n as int, d as int);
        assert(r > 0 ==> q < u128::MAX) by (nonlinear_arith)
            requires
                n == d * q + r,
                0 <= r < d,
                n <= u128::MAX,
        ;
    }
    let rest: u128 = d - r;
    if r > rest || (r == rest && q % 2 == 1) {
        q + 1
    } else {
        q
    }
}

/// `hundredths / 100` written with exactly two decimals: the whole part as
/// a numeral, a point, and two digits.
pub open spec fn two_decimals(hundredths: nat) -> Seq<char> {
    decimal_digits(hundredths / 100) + seq![
        '.',
        digit_char((hundredths / 10) % 10),
        digit_char(hundredths % 10),
    ]
}

/// Appends `hundredths / 100`, written with two decimals, to `out`.
pub fn push_two_decimals(out: &mut String, hundredths: u128)
    ensures
        final(out)@ == old(out)@ + two_decimals(hundredths as nat),
{
    push_decimal(out, hundredths / 100);
    out.append(".");
    push_decimal(out, (hundredths / 10) % 10);
    push_decimal(out, hundredths % 10);
    proof {
        reveal_strlit(".");
    }
}

/// `100 * part / whole` with two decimals and a percent sign. A zero
/// `whole` has no quotient: `"NaN%"` stands for zero of zero, `"inf%"` for
/// anything else of zero.
pub open spec fn percent_text(part: nat, whole: nat) -> Seq<char> {
    if whole == 0 {
        if part == 0 {
            "NaN%"@
        } else {
            "inf%"@
        }
    } else {
        two_decimals(round_half_even(10000 * part, whole)) + "%"@
    }
}

/// Renders `part` as a percentage of `whole`.
pub fn percent_string(part: u64, whole: u64) -> (text: String)
    ensures
        text@ == percent_text(part as nat, whole as nat),
{
    if whole == 0 {
        if part == 0 {
            String::from_str("NaN%")
        } else {
            String::from_str("inf%")
        }
    } else {
        let scaled: u128 = 10000 * (part as u128);
        let hundredths: u128 = rounded_quotient(scaled, whole as u128);
        let mut text = String::new();
        push_two_decimals(&mut text, hundredths);
        text.append("%");
        text
    }
}

/// The number of bytes in one GiB.
pub const GIB: u64 = 1073741824;

/// A byte count in GiB with two decimals, followed by the unit.
pub open spec fn gib_text(bytes: nat) -> Seq<char> {
    two_decimals(round_half_even(100 * bytes, GIB as nat)) + " GiB"@
}

/// Renders a byte count in GiB.
pub fn gib_string(bytes: u64) -> (text: String)
    ensures
        text@ == gib_text(bytes as nat),
{
    let scaled: u128 = 100 * (bytes as u128);
    let hundredths: u128 = rounded_quotient(scaled, GIB as u128);
    let mut text = String::new();
    push_two_decimals(&mut text, hundredths);
    text.append(" GiB");
    text
}

} // verus!
