//! The unsigned wire format: a 16-bit count of 512ths of a unit, used for
//! voltages.

use vstd::prelude::*;
use crate::codec::{lemma_round_div_near, round_div, rounded_quotient};

verus! {

/// Steps of the unsigned format in one unit: the format counts in 1/512 of a volt.
pub const STEPS: i64 = 512;

/// The largest quantity the unsigned format can carry, in thousandths.
pub const MAX: i64 = 127_998;

/// What a word of the unsigned format stands for, in thousandths.
pub open spec fn decode_spec(word: int) -> int {
    round_div(word * 1000, 512)
}

/// The word of the unsigned format nearest to a quantity in thousandths: what
/// lies below the format's range becomes the lowest word, what lies above it
/// the highest.
pub open spec fn encode_spec(milli: int) -> int {
    if milli <= 0 {
        0
    } else if round_div(milli * 512, 1000) >= 0xFFFF {
        0xFFFF
    } else {
        round_div(milli * 512, 1000)
    }
}

/// Reads a word of the unsigned format.
pub fn decode(word: u16) -> (milli: i64)
    ensures
        milli as int == decode_spec(word as int),
        0 <= milli <= MAX,
{
    proof {
        lemma_round_div_near(word as int * 1000, 512);
    }
    rounded_quotient(word as i64 * 1000, STEPS)
}

/// Writes a quantity in the unsigned format, saturating at both ends.
pub fn encode(milli: i64) -> (word: u16)
    ensures
        word as int == encode_spec(milli as int),
{
    proof {
        lemma_round_div_near(milli as int * 512, 1000);
    }
    if milli <= 0 {
        0
    } else if milli >= 128_000 {
        0xFFFF
    } else {
        let q: i64 = rounded_quotient(milli * STEPS, 1000);
        if q >= 0xFFFF {
            0xFFFF
        } else {
            q as u16
        }
    }
}

/// Every word of the unsigned format survives being read and written back.
pub proof fn lemma_word_round_trip(word: int)
    requires
        0 <= word <= 0xFFFF,
    ensures
        encode_spec(decode_spec(word)) == word,
{
    let milli = decode_spec(word);
    lemma_round_div_near(word * 1000, 512);
    lemma_round_div_near(milli * 512, 1000);
}

/// A quantity inside the unsigned format's range comes back from the wire at
/// most one thousandth away from what was sent.
pub proof fn lemma_round_trip_within_one(milli: int)
    requires
        0 <= milli <= MAX,
    ensures
        -1 <= decode_spec(encode_spec(milli)) - milli <= 1,
{
    let word = encode_spec(milli);
    lemma_round_div_near(milli * 512, 1000);
    lemma_round_div_near(word * 1000, 512);
}

/// Outside its range the unsigned format saturates, and it never reorders
/// two quantities.
pub proof fn lemma_saturates(milli: int, other: int)
    ensures
        milli <= 0 ==> encode_spec(milli) == 0,
        milli >= MAX ==> encode_spec(milli) == 0xFFFF,
        0 <= encode_spec(milli) <= 0xFFFF,
        milli <= other ==> encode_spec(milli) <= encode_spec(other),
{
    lemma_round_div_near(milli * 512, 1000);
    lemma_round_div_near(other * 512, 1000);
}

} // verus!
