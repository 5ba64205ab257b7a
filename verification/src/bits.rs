//! Numeric order on IEEE-754 binary64 bit patterns.
//!
//! Coordinates cross the library boundary as the raw 64-bit patterns of
//! IEEE-754 binary64 values. This module defines, in pure integer terms,
//! the numeric order that the binary64 format gives those patterns: for
//! same-signed values the order of the magnitude bits is the numeric
//! order (this covers zeros, subnormals, normals and infinities), every
//! negative value is below every positive one, the two zeros are equal,
//! and a NaN compares below or above nothing.

use vstd::prelude::*;

verus! {

/// Sign bit mask of a binary64 pattern.
pub const SIGN_BIT: u64 = 0x8000_0000_0000_0000;

/// Bit pattern of positive infinity.
pub const POS_INF_BITS: u64 = 0x7ff0_0000_0000_0000;

/// Bit pattern of negative infinity.
pub const NEG_INF_BITS: u64 = 0xfff0_0000_0000_0000;

/// Bit pattern of the machine epsilon of binary64 (2^-52).
pub const EPSILON_BITS: u64 = 0x3cb0_0000_0000_0000;

/// Bit pattern of positive one.
pub const ONE_BITS: u64 = 0x3ff0_0000_0000_0000;

/// True when the sign bit of the pattern is set.
pub open spec fn sign_bits(a: u64) -> bool {
    a >= SIGN_BIT
}

/// The magnitude bits of the pattern: the pattern with its sign bit cleared.
pub open spec fn mag_bits(a: u64) -> u64 {
    if sign_bits(a) {
        (a - SIGN_BIT) as u64
    } else {
        a
    }
}

/// True when the pattern encodes a NaN: magnitude above positive infinity.
pub open spec fn nan_bits(a: u64) -> bool {
    mag_bits(a) > POS_INF_BITS
}

/// Numeric strict order of two binary64 patterns; false whenever either is NaN.
pub open spec fn lt_bits(a: u64, b: u64) -> bool {
    if nan_bits(a) || nan_bits(b) {
        false
    } else if sign_bits(a) && sign_bits(b) {
        mag_bits(b) < mag_bits(a)
    } else if !sign_bits(a) && !sign_bits(b) {
        mag_bits(a) < mag_bits(b)
    } else if sign_bits(a) && !sign_bits(b) {
        mag_bits(a) != 0 || mag_bits(b) != 0
    } else {
        false
    }
}

/// Numeric `>=` of two binary64 patterns; false whenever either is NaN.
pub open spec fn ge_bits(a: u64, b: u64) -> bool {
    !nan_bits(a) && !nan_bits(b) && !lt_bits(a, b)
}

/// The magnitude bits of a pattern, as executable code.
pub fn magnitude(a: u64) -> (r: u64)
    ensures
        r == mag_bits(a),
{
    if a >= SIGN_BIT {
        a - SIGN_BIT
    } else {
        a
    }
}

/// True when the pattern encodes a NaN, as executable code.
pub fn is_nan(a: u64) -> (r: bool)
    ensures
        r == nan_bits(a),
{
    magnitude(a) > POS_INF_BITS
}

/// Numeric strict order of two patterns, as executable code.
pub fn lt(a: u64, b: u64) -> (r: bool)
    ensures
        r == lt_bits(a, b),
{
    if is_nan(a) || is_nan(b) {
        false
    } else {
        let sa = a >= SIGN_BIT;
        let sb = b >= SIGN_BIT;
        let ma = magnitude(a);
        let mb = magnitude(b);
        if sa && sb {
            mb < ma
        } else if !sa && !sb {
            ma < mb
        } else if sa && !sb {
            ma != 0 || mb != 0
        } else {
            false
        }
    }
}

/// Numeric `>=` of two patterns, as executable code.
pub fn ge(a: u64, b: u64) -> (r: bool)
    ensures
        r == ge_bits(a, b),
{
    !is_nan(a) && !is_nan(b) && !lt(a, b)
}

/// Law: the numeric order is irreflexive; no pattern is below itself.
pub proof fn lemma_lt_irreflexive(a: u64)
    ensures
        !lt_bits(a, a),
{
}

/// Law: the numeric order is transitive.
pub proof fn lemma_lt_transitive(a: u64, b: u64, c: u64)
    requires
        lt_bits(a, b),
        lt_bits(b, c),
    ensures
        lt_bits(a, c),
{
}

} // verus!
