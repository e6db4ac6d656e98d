//! The signed wire format: a 5-bit two's-complement exponent above an 11-bit
//! two's-complement mantissa, standing for `mantissa * 2^exponent` units.

use vstd::prelude::*;
use crate::codec::{lemma_round_div_near, lemma_round_div_unique, round_div, rounded_quotient};

verus! {

/// The largest quantity the signed format can carry, in thousandths:
/// mantissa 1023 at exponent 15.
pub const MAX: i64 = 33_521_664_000;

/// The smallest quantity the signed format can carry, in thousandths:
/// mantissa -1024 at exponent 15.
pub const MIN: i64 = -33_554_432_000;

/// The word that carries `MAX`.
pub const MAX_WORD: u16 = 0x7BFF;

/// The word that carries `MIN`.
pub const MIN_WORD: u16 = 0x7C00;

/// Two to the power `k`.
pub open spec fn two_to(k: nat) -> int
    decreases k,
{
    if k == 0 {
        1
    } else {
        2 * two_to((k - 1) as nat)
    }
}

/// Powers of two are positive and grow with the exponent.
pub proof fn lemma_two_to_grows(j: nat, k: nat)
    requires
        j <= k,
    ensures
        0 < two_to(j) <= two_to(k),
    decreases k,
{
    if j == 0 && k == 0 {
    } else if j < k {
        lemma_two_to_grows(j, (k - 1) as nat);
    } else {
        lemma_two_to_grows((j - 1) as nat, (k - 1) as nat);
    }
}

/// The powers of two that the format's exponents reach.
pub proof fn lemma_two_to_values()
    ensures
        two_to(0) == 1,
        two_to(16) == 0x1_0000,
        two_to(30) == 0x4000_0000,
        two_to(31) == 0x8000_0000,
{
    reveal_with_fuel(two_to, 32);
}

/// Two to the power `k`, for the exponents that the format reaches.
pub fn power_of_two(k: u32) -> (p: i64)
    requires
        k <= 31,
    ensures
        p as int == two_to(k as nat),
        1 <= p <= 0x8000_0000,
{
    let mut p: i64 = 1;
    let mut i: u32 = 0;
    proof {
        lemma_two_to_values();
    }
    while i < k
        invariant
            i <= k <= 31,
            p as int == two_to(i as nat),
            two_to(31) == 0x8000_0000,
        decreases k - i,
    {
        proof {
            lemma_two_to_grows((i + 1) as nat, 31);
        }
        p = p * 2;
        i = i + 1;
    }
    proof {
        lemma_two_to_grows(k as nat, 31);
    }
    p
}

/// The exponent that a word carries in its upper five bits.
pub open spec fn exponent_spec(word: int) -> int {
    if word / 2048 >= 16 {
        word / 2048 - 32
    } else {
        word / 2048
    }
}

/// The mantissa that a word carries in its lower eleven bits.
pub open spec fn mantissa_spec(word: int) -> int {
    if word % 2048 >= 1024 {
        word % 2048 - 2048
    } else {
        word % 2048
    }
}

/// The word that carries an exponent and a mantissa.
pub open spec fn pack_spec(exponent: int, mantissa: int) -> int
    recommends
        -16 <= exponent <= 15,
        -1024 <= mantissa <= 1023,
{
    (if exponent < 0 {
        exponent + 32
    } else {
        exponent
    }) * 2048 + (if mantissa < 0 {
        mantissa + 2048
    } else {
        mantissa
    })
}

/// Reads the exponent of a word.
pub fn exponent(word: u16) -> (e: i8)
    ensures
        e as int == exponent_spec(word as int),
        -16 <= e <= 15,
{
    let high: u16 = word / 2048;
    if high >= 16 {
        (high as i8) - 32
    } else {
        high as i8
    }
}

/// Reads the mantissa of a word.
pub fn mantissa(word: u16) -> (y: i16)
    ensures
        y as int == mantissa_spec(word as int),
        -1024 <= y <= 1023,
{
    let low: u16 = word % 2048;
    if low >= 1024 {
        (low as i16) - 2048
    } else {
        low as i16
    }
}

/// Builds the word that carries an exponent and a mantissa.
pub fn pack(exponent: i8, mantissa: i16) -> (word: u16)
    requires
        -16 <= exponent <= 15,
        -1024 <= mantissa <= 1023,
    ensures
        word as int == pack_spec(exponent as int, mantissa as int),
        exponent_spec(word as int) == exponent,
        mantissa_spec(word as int) == mantissa,
{
    let high: u16 = if exponent < 0 {
        (exponent + 32) as u16
    } else {
        exponent as u16
    };
    let low: u16 = if mantissa < 0 {
        (mantissa + 2048) as u16
    } else {
        mantissa as u16
    };
    high * 2048 + low
}

/// A word's two fields determine it, and the two fields of a packed word are
/// the ones that were packed.
pub proof fn lemma_fields_round_trip(word: int, exponent: int, mantissa: int)
    requires
        0 <= word <= 0xFFFF,
        -16 <= exponent <= 15,
        -1024 <= mantissa <= 1023,
    ensures
        pack_spec(exponent_spec(word), mantissa_spec(word)) == word,
        exponent_spec(pack_spec(exponent, mantissa)) == exponent,
        mantissa_spec(pack_spec(exponent, mantissa)) == mantissa,
        0 <= pack_spec(exponent, mantissa) <= 0xFFFF,
{
}

/// What a word of the signed format stands for, in thousandths, rounded to
/// the nearest.
pub open spec fn decode_spec(word: int) -> int {
    round_div(
        mantissa_spec(word) * 1000 * two_to((exponent_spec(word) + 16) as nat),
        0x1_0000,
    )
}

/// Reads a word of the signed format. Every word has a value.
pub fn decode(word: u16) -> (milli: i64)
    ensures
        milli as int == decode_spec(word as int),
        MIN <= milli <= MAX,
{
    let y: i16 = mantissa(word);
    let e: i8 = exponent(word);
    let k: u32 = (e + 16) as u32;
    let p: i64 = power_of_two(k);
    let scaled: i64 = y as i64 * 1000;
    assert(-1_024_000 * 0x8000_0000 <= scaled * p <= 1_023_000 * 0x8000_0000) by (nonlinear_arith)
        requires
            -1_024_000 <= scaled <= 1_023_000,
            1 <= p <= 0x8000_0000,
    ;
    proof {
        lemma_round_div_near(scaled * p, 0x1_0000);
    }
    rounded_quotient(scaled * p, 0x1_0000)
}

/// Whether a mantissa has room in eleven bits.
pub open spec fn fits(mantissa: int) -> bool {
    -1024 <= mantissa <= 1023
}

/// The mantissa nearest to a quantity when the exponent is `k - 16`.
pub open spec fn mantissa_at(milli: int, k: nat) -> int {
    round_div(milli * 0x1_0000, 1000 * two_to(k))
}

/// The least `j >= k` at which the quantity's mantissa has room, or 31.
pub open spec fn first_fit(milli: int, k: nat) -> nat
    decreases 31 - k,
{
    if k >= 31 || fits(mantissa_at(milli, k)) {
        k
    } else {
        first_fit(milli, k + 1)
    }
}

/// A quantity brought into the range that the format can carry.
pub open spec fn clamp_spec(milli: int) -> int {
    if milli < MIN {
        MIN as int
    } else if milli > MAX {
        MAX as int
    } else {
        milli
    }
}

/// The word of the signed format for a quantity in thousandths: zero is the
/// zero word; anything else is brought into range and takes the finest
/// exponent at which its mantissa has room.
pub open spec fn encode_spec(milli: int) -> int {
    if milli == 0 {
        0
    } else {
        let k = first_fit(clamp_spec(milli), 0);
        pack_spec(k - 16, mantissa_at(clamp_spec(milli), k))
    }
}

/// At the coarsest exponent every quantity in range has room.
pub proof fn lemma_fits_at_coarsest(milli: int)
    requires
        MIN <= milli <= MAX,
    ensures
        fits(mantissa_at(milli, 31)),
{
    lemma_two_to_values();
    let y = mantissa_at(milli, 31);
    lemma_round_div_near(milli * 0x1_0000, 1000 * two_to(31));
    assert(y * (1000 * two_to(31)) == y * 2_147_483_648_000);
}

/// The exponent that `first_fit` settles on is one of the format's, and the
/// mantissa has room there.
pub proof fn lemma_first_fit_fits(milli: int, k: nat)
    requires
        MIN <= milli <= MAX,
        k <= 31,
    ensures
        k <= first_fit(milli, k) <= 31,
        fits(mantissa_at(milli, first_fit(milli, k))),
    decreases 31 - k,
{
    if k >= 31 {
        lemma_fits_at_coarsest(milli);
    } else if !fits(mantissa_at(milli, k)) {
        lemma_first_fit_fits(milli, k + 1);
    }
}

/// Writes a quantity in the signed format, saturating at both ends.
pub fn encode(milli: i64) -> (word: u16)
    ensures
        word as int == encode_spec(milli as int),
{
    if milli == 0 {
        return 0;
    }
    let m: i64 = if milli < MIN {
        MIN
    } else if milli > MAX {
        MAX
    } else {
        milli
    };
    let n: i64 = m * 0x1_0000;
    let mut k: u32 = 0;
    let mut y: i64 = 0;
    let mut found: bool = false;
    proof {
        lemma_two_to_values();
    }
    while !found
        invariant
            k <= 31,
            m as int == clamp_spec(milli as int),
            n as int == m as int * 0x1_0000,
            MIN <= m <= MAX,
            first_fit(m as int, 0) == first_fit(m as int, k as nat),
            found ==> y as int == mantissa_at(m as int, k as nat) && fits(y as int),
            two_to(31) == 0x8000_0000,
        decreases 32 - k + (if found { 0int } else { 1int }),
    {
        let p: i64 = power_of_two(k);
        y = rounded_quotient(n, 1000 * p);
        if (-1024 <= y && y <= 1023) || k == 31 {
            proof {
                lemma_fits_at_coarsest(m as int);
            }
            found = true;
        } else {
            k = k + 1;
        }
    }
    pack((k as i8) - 16, y as i16)
}

/// The two ends of the range have no room at any exponent but the coarsest.
proof fn lemma_ends_need_coarsest(milli: int, k: nat)
    requires
        milli == MAX || milli == MIN,
        k <= 31,
    ensures
        first_fit(milli, k) == 31,
    decreases 31 - k,
{
    if k < 31 {
        lemma_two_to_values();
        lemma_two_to_grows(k, 30);
        let t = two_to(k);
        let y = mantissa_at(milli, k);
        lemma_round_div_near(milli * 0x1_0000, 1000 * t);
        assert(!fits(y)) by (nonlinear_arith)
            requires
                1 <= t <= 0x4000_0000,
                -(1000 * t) <= 2 * (y * (1000 * t) - milli * 0x1_0000) <= 1000 * t,
                milli == 33_521_664_000 || milli == -33_554_432_000,
        ;
        lemma_ends_need_coarsest(milli, k + 1);
    }
}

/// Outside its range the signed format saturates: what lies above becomes
/// the word of the largest quantity, what lies below the word of the
/// smallest, and those two words stand for exactly those quantities.
pub proof fn lemma_saturates(milli: int)
    ensures
        milli >= MAX ==> encode_spec(milli) == MAX_WORD,
        milli <= MIN ==> encode_spec(milli) == MIN_WORD,
        decode_spec(MAX_WORD as int) == MAX,
        decode_spec(MIN_WORD as int) == MIN,
        encode_spec(0) == 0,
        decode_spec(0) == 0,
{
    lemma_two_to_values();
    lemma_ends_need_coarsest(MAX as int, 0);
    lemma_ends_need_coarsest(MIN as int, 0);
    assert(1000 * two_to(31) == 2_147_483_648_000);
    assert(mantissa_at(MAX as int, 31) == 1023);
    assert(mantissa_at(MIN as int, 31) == -1024);
    assert(exponent_spec(0x7BFF) == 15 && mantissa_spec(0x7BFF) == 1023);
    assert(exponent_spec(0x7C00) == 15 && mantissa_spec(0x7C00) == -1024);
    assert(1023 * 1000 * two_to(31) == 2_196_875_771_904_000);
    assert((-1024) * 1000 * two_to(31) == -2_199_023_255_552_000);
    assert(decode_spec(0x7BFF) == round_div(2_196_875_771_904_000, 0x1_0000));
    assert(decode_spec(0x7C00) == round_div(-2_199_023_255_552_000, 0x1_0000));
    lemma_round_div_near(2_196_875_771_904_000, 0x1_0000);
    lemma_round_div_near(-2_199_023_255_552_000, 0x1_0000);
}

/// The distance between two neighbouring quantities at a word's exponent, in
/// 65536ths of a thousandth.
pub open spec fn step_spec(word: int) -> int {
    1000 * two_to((exponent_spec(word) + 16) as nat)
}

/// A quantity inside the signed format's range comes back from the wire no
/// further from what was sent than half a step of the exponent it was sent
/// at, and half a thousandth for the rounding on the way back.
pub proof fn lemma_round_trip_within_half_step(milli: int)
    requires
        MIN <= milli <= MAX,
    ensures
        ({
            let word = encode_spec(milli);
            let back = decode_spec(word);
            &&& 0 <= word <= 0xFFFF
            &&& -(step_spec(word) + 0x1_0000) <= 2 * 0x1_0000 * (back - milli)
            &&& 2 * 0x1_0000 * (back - milli) <= step_spec(word) + 0x1_0000
        }),
{
    lemma_two_to_values();
    if milli != 0 {
        lemma_first_fit_fits(milli, 0);
        let k = first_fit(milli, 0);
        let y = mantissa_at(milli, k);
        let word = pack_spec(k - 16, y);
        lemma_fields_round_trip(0, k - 16, y);
        let t = two_to(k);
        lemma_two_to_grows(0, k);
        lemma_round_div_near(milli * 0x1_0000, 1000 * t);
        lemma_round_div_near(y * 1000 * t, 0x1_0000);
        assert(y * (1000 * t) == y * 1000 * t) by (nonlinear_arith);
        assert(exponent_spec(word) == k - 16 && mantissa_spec(word) == y);
        assert(step_spec(word) == 1000 * t);
        assert(encode_spec(milli) == word);
        assert(decode_spec(word) == round_div(y * 1000 * t, 0x1_0000));
    } else {
        assert(exponent_spec(0) == 0 && mantissa_spec(0) == 0);
        lemma_two_to_grows(0, 16);
    }
}

/// Powers of two multiply as their exponents add.
pub proof fn lemma_two_to_adds(j: nat, k: nat)
    ensures
        two_to(j + k) == two_to(j) * two_to(k),
    decreases k,
{
    if k == 0 {
        assert(two_to(j) * 1 == two_to(j));
    } else {
        lemma_two_to_adds(j, (k - 1) as nat);
        assert(two_to(j + k) == 2 * two_to((j + k - 1) as nat));
        assert(2 * (two_to(j) * two_to((k - 1) as nat)) == two_to(j) * (2 * two_to(
            (k - 1) as nat,
        ))) by (nonlinear_arith);
    }
}

/// A quantity whose mantissa has room at some exponent is given that
/// exponent or a finer one.
proof fn lemma_first_fit_at_most(milli: int, k: nat, j: nat)
    requires
        k <= j <= 31,
        fits(mantissa_at(milli, j)),
    ensures
        k <= first_fit(milli, k) <= j,
        fits(mantissa_at(milli, first_fit(milli, k))),
    decreases 31 - k,
{
    if k < j && !fits(mantissa_at(milli, k)) {
        lemma_first_fit_at_most(milli, k + 1, j);
    }
}

/// What a word stands for is within the format's range.
pub proof fn lemma_decode_in_range(word: int)
    requires
        0 <= word <= 0xFFFF,
    ensures
        MIN <= decode_spec(word) <= MAX,
{
    lemma_two_to_values();
    let y = mantissa_spec(word);
    let k = (exponent_spec(word) + 16) as nat;
    let t = two_to(k);
    lemma_two_to_grows(k, 31);
    lemma_round_div_near(y * 1000 * t, 0x1_0000);
    assert(-1024 * 1000 * 0x8000_0000 <= y * 1000 * t <= 1023 * 1000 * 0x8000_0000)
        by (nonlinear_arith)
        requires
            -1024 <= y <= 1023,
            1 <= t <= 0x8000_0000,
    ;
}

/// What a word stands for survives being written and read back: on the
/// quantities that the signed format can carry, writing and reading are
/// exact inverses.
pub proof fn lemma_carried_value_round_trip(word: int)
    requires
        0 <= word <= 0xFFFF,
    ensures
        decode_spec(encode_spec(decode_spec(word))) == decode_spec(word),
{
    lemma_two_to_values();
    let y = mantissa_spec(word);
    let k = (exponent_spec(word) + 16) as nat;
    let t = two_to(k);
    let a = y * 1000 * t;
    let v = decode_spec(word);
    lemma_decode_in_range(word);
    lemma_two_to_grows(0, k);
    lemma_two_to_grows(k, 31);
    lemma_round_div_near(a, 0x1_0000);
    if v == 0 {
        assert(exponent_spec(0) == 0 && mantissa_spec(0) == 0);
        assert(0 * 1000 * two_to(16) == 0);
    } else {
        // Some exponent no coarser than the word's own, or than 2^-10, has room.
        let j: nat = if k >= 7 {
            k
        } else {
            6
        };
        if k >= 7 {
            lemma_two_to_grows(7, k);
            assert(two_to(7) == 128) by {
                reveal_with_fuel(two_to, 8);
            }
            assert(y * (1000 * t) == a) by (nonlinear_arith)
                requires
                    a == y * 1000 * t,
            ;
            lemma_round_div_unique(v * 0x1_0000, 1000 * t, y);
        } else {
            lemma_two_to_grows(k, 6);
            assert(two_to(6) == 64) by {
                reveal_with_fuel(two_to, 7);
            }
            assert(-1024 * 1000 * 64 <= a <= 1023 * 1000 * 64) by (nonlinear_arith)
                requires
                    a == y * 1000 * t,
                    -1024 <= y <= 1023,
                    1 <= t <= 64,
            ;
            lemma_round_div_near(v * 0x1_0000, 1000 * two_to(6));
            assert(mantissa_at(v, 6) * (1000 * two_to(6)) == mantissa_at(v, 6) * 64000);
        }
        assert(fits(mantissa_at(v, j)));
        lemma_first_fit_at_most(v, 0, j);
        let kk = first_fit(v, 0);
        let yy = mantissa_at(v, kk);
        let tt = two_to(kk);
        lemma_two_to_grows(0, kk);
        lemma_two_to_grows(kk, 31);
        lemma_fields_round_trip(0, kk - 16, yy);
        let back = pack_spec(kk - 16, yy);
        assert(encode_spec(v) == back);
        assert(decode_spec(back) == round_div(yy * 1000 * tt, 0x1_0000));
        lemma_round_div_near(v * 0x1_0000, 1000 * tt);
        assert(yy * (1000 * tt) == yy * 1000 * tt) by (nonlinear_arith);
        if kk <= 6 {
            // The step is finer than a thousandth: the mantissa pins the quantity.
            lemma_two_to_grows(kk, 6);
            assert(two_to(6) == 64) by {
                reveal_with_fuel(two_to, 7);
            }
            assert(1000 * tt <= 64000);
            lemma_round_div_unique(yy * 1000 * tt, 0x1_0000, v);
        } else {
            // The word's own mantissa, shifted, is the mantissa at the finer
            // exponent, so the very same quantity is read back.
            assert(k >= 7 && kk <= k);
            lemma_two_to_adds(kk, (k - kk) as nat);
            let shift = two_to((k - kk) as nat);
            lemma_two_to_grows(0, (k - kk) as nat);
            lemma_two_to_grows(7, kk);
            assert(two_to(7) == 128) by {
                reveal_with_fuel(two_to, 8);
            }
            assert(t == tt * shift);
            assert((y * shift) * (1000 * tt) == a) by (nonlinear_arith)
                requires
                    a == y * 1000 * t,
                    t == tt * shift,
            ;
            lemma_round_div_unique(v * 0x1_0000, 1000 * tt, y * shift);
            assert(yy == y * shift);
            assert(yy * 1000 * tt == a);
        }
    }
}

} // verus!
