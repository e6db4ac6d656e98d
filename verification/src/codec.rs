//! What the two wire formats of the regulator's numeric registers share:
//! the bytes of a word, and division rounded to the nearest.
//!
//! Every quantity is held as a whole number of thousandths of its unit
//! (millivolts, milliamperes, millidegrees), so that the panel's edit steps
//! are exact and no rounding hides in the cache. Two 16-bit formats carry
//! such quantities over the bus: an unsigned one with a fixed scale, used for
//! voltages, and a signed one that carries its own exponent, used for
//! currents and temperatures.

use vstd::prelude::*;

verus! {

/// The 16-bit word that two bytes off the bus stand for, low byte first.
pub open spec fn word_of(lo: u8, hi: u8) -> int {
    hi as int * 256 + lo as int
}

/// Joins the two bytes of a register reply into its word, low byte first.
pub fn to_u16(val: [u8; 2]) -> (word: u16)
    ensures
        word as int == word_of(val[0], val[1]),
{
    let lo: u16 = val[0] as u16;
    let hi: u16 = val[1] as u16;
    assert((hi << 8 | lo) as int == hi as int * 256 + lo as int) by (bit_vector)
        requires
            hi < 256,
            lo < 256,
    ;
    hi << 8 | lo
}

/// Splits a word into the two bytes that go on the bus, low byte first.
pub fn to_bytes(word: u16) -> (val: [u8; 2])
    ensures
        word as int == word_of(val[0], val[1]),
        val[0] as int == word as int % 256,
        val[1] as int == word as int / 256,
{
    let lo: u8 = (word % 256) as u8;
    let hi: u8 = (word / 256) as u8;
    [lo, hi]
}

/// `n / d` rounded to the nearest whole number, a tie going away from zero.
pub open spec fn round_div(n: int, d: int) -> int
    recommends
        d > 0,
{
    if n >= 0 {
        (2 * n + d) / (2 * d)
    } else {
        -((2 * (-n) + d) / (2 * d))
    }
}

/// The rounded quotient is never further than half a divisor from the exact one.
pub proof fn lemma_round_div_near(n: int, d: int)
    requires
        d > 0,
    ensures
        -d <= 2 * (round_div(n, d) * d - n) <= d,
        n >= 0 ==> round_div(n, d) >= 0,
        n <= 0 ==> round_div(n, d) <= 0,
{
    let m = if n >= 0 { n } else { -n };
    let q = (2 * m + d) / (2 * d);
    assert(0 <= (2 * m + d) - q * (2 * d) < 2 * d && q >= 0) by (nonlinear_arith)
        requires
            q == (2 * m + d) / (2 * d),
            d > 0,
            m >= 0,
    ;
    assert(q * (2 * d) == 2 * (q * d)) by (nonlinear_arith);
    assert((-q) * d == -(q * d)) by (nonlinear_arith);
    assert(m == 0 ==> q == 0) by (nonlinear_arith)
        requires
            0 <= (2 * m + d) - q * (2 * d),
            q >= 0,
            d > 0,
    ;
}

/// A whole number that is nearer to the exact quotient than half a divisor
/// is the rounded quotient.
pub proof fn lemma_round_div_unique(n: int, d: int, q: int)
    requires
        d > 0,
        -d < 2 * (q * d - n) < d,
    ensures
        round_div(n, d) == q,
{
    let r = round_div(n, d);
    lemma_round_div_near(n, d);
    assert(r == q) by (nonlinear_arith)
        requires
            d > 0,
            -d < 2 * (q * d - n) < d,
            -d <= 2 * (r * d - n) <= d,
    ;
}

/// Rounded division on machine integers.
pub fn rounded_quotient(n: i64, d: i64) -> (q: i64)
    requires
        d > 0,
        -0x2000_0000_0000_0000 <= n <= 0x2000_0000_0000_0000,
        d <= 0x2000_0000_0000_0000,
    ensures
        q as int == round_div(n as int, d as int),
{
    proof {
        lemma_round_div_near(n as int, d as int);
    }
    if n >= 0 {
        let q: i64 = (2 * n + d) / (2 * d);
        q
    } else {
        let m: i64 = -n;
        let q: i64 = (2 * m + d) / (2 * d);
        assert(0 <= q <= 2 * m + d) by (nonlinear_arith)
            requires
                q == (2 * m + d) / (2 * d),
                d > 0,
                m >= 0,
        ;
        -q
    }
}

} // verus!
