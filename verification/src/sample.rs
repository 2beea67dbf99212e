//! Ordered integer keys for single-precision measurements.
//!
//! The stages of this library only ever compare measurements, so they work on
//! a key per measurement: a signed integer whose order is the numeric order of
//! the IEEE 754 binary32 value it stands for. A binary32 value is a sign bit
//! and a 31-bit magnitude, and values of one sign are ordered by magnitude;
//! the key is the magnitude, negated for a set sign bit. Both zeros share the
//! key 0, the infinities are the extreme keys, and a NaN has no key.

use vstd::prelude::*;

verus! {

/// The key of positive infinity, which is also its bit pattern.
pub const SAMPLE_MAX: i32 = 0x7F80_0000;

/// The key of negative infinity.
pub const SAMPLE_MIN: i32 = -0x7F80_0000;

/// The sign bit of a binary32 bit pattern.
pub const SIGN_BIT: u32 = 0x8000_0000;

/// Whether `key` stands for a binary32 value.
pub open spec fn is_sample(key: int) -> bool {
    SAMPLE_MIN <= key <= SAMPLE_MAX
}

/// The bit pattern without its sign bit.
pub open spec fn magnitude(bits: u32) -> int {
    if bits >= SIGN_BIT {
        bits - SIGN_BIT
    } else {
        bits as int
    }
}

/// Whether the bit pattern is a NaN: an all-ones exponent with a non-zero
/// fraction.
pub open spec fn is_nan(bits: u32) -> bool {
    magnitude(bits) > SAMPLE_MAX
}

/// The key of a bit pattern that is not a NaN: its magnitude, negated when the
/// sign bit is set.
pub open spec fn key_of_bits(bits: u32) -> int {
    if bits >= SIGN_BIT {
        -magnitude(bits)
    } else {
        magnitude(bits)
    }
}

/// The bit pattern of a key. The key 0 gives positive zero.
pub open spec fn bits_of_key(key: int) -> int {
    if key >= 0 {
        key
    } else {
        SIGN_BIT - key
    }
}

/// The key of the binary32 value with the given bit pattern, or `None` for a
/// NaN.
pub fn sample_from_bits(bits: u32) -> (key: Option<i32>)
    ensures
        key.is_some() <==> !is_nan(bits),
        key matches Some(k) ==> k == key_of_bits(bits) && is_sample(k as int),
{
    let negative = bits >= SIGN_BIT;
    let magnitude: u32 = if negative {
        bits - SIGN_BIT
    } else {
        bits
    };
    if magnitude > 0x7F80_0000 {
        None
    } else if negative {
        Some(-(magnitude as i32))
    } else {
        Some(magnitude as i32)
    }
}

/// The bit pattern of the binary32 value that `key` stands for, or `None` if
/// it stands for none.
pub fn sample_to_bits(key: i32) -> (bits: Option<u32>)
    ensures
        bits.is_some() <==> is_sample(key as int),
        bits matches Some(b) ==> b == bits_of_key(key as int),
{
    if key < SAMPLE_MIN || key > SAMPLE_MAX {
        None
    } else if key >= 0 {
        Some(key as u32)
    } else {
        Some(SIGN_BIT + ((-key) as u32))
    }
}

/// A key gives back the bit pattern it came from, but for negative zero, whose
/// key is that of positive zero.
pub proof fn lemma_bits_round_trip(bits: u32)
    requires
        !is_nan(bits),
    ensures
        is_sample(key_of_bits(bits)),
        bits_of_key(key_of_bits(bits)) == if bits == SIGN_BIT {
            0
        } else {
            bits as int
        },
{
}

/// The bit pattern of a key is no NaN and has that key again.
pub proof fn lemma_key_round_trip(key: int)
    requires
        is_sample(key),
    ensures
        0 <= bits_of_key(key) <= u32::MAX,
        !is_nan(bits_of_key(key) as u32),
        key_of_bits(bits_of_key(key) as u32) == key,
{
}

/// Keys are ordered as the values are: a set sign bit puts a pattern below
/// every pattern with a clear one (the two zeros apart, which are equal), a
/// larger magnitude is larger among clear sign bits and smaller among set
/// ones.
pub proof fn lemma_key_order(a: u32, b: u32)
    requires
        !is_nan(a),
        !is_nan(b),
    ensures
        a < SIGN_BIT && b < SIGN_BIT ==> (key_of_bits(a) < key_of_bits(b) <==> a < b),
        a >= SIGN_BIT && b >= SIGN_BIT ==> (key_of_bits(a) < key_of_bits(b) <==> a > b),
        a >= SIGN_BIT && b < SIGN_BIT ==> key_of_bits(a) <= key_of_bits(b),
        key_of_bits(a) == key_of_bits(b) <==> a == b || (magnitude(a) == 0 && magnitude(b) == 0),
{
}

} // verus!
