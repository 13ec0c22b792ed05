//! Floating-point numbers held by their IEEE-754 bit patterns, with the
//! comparisons that the analyzers make on them. The arithmetic that produces
//! such numbers (entropies, scores) is done by the caller.
use vstd::prelude::*;

verus! {

/// The sign bit of a double.
pub const SIGN_BIT: u64 = 0x8000_0000_0000_0000;

/// The bits of positive infinity; larger magnitudes are NaNs.
pub const INFINITY_BITS: u64 = 0x7FF0_0000_0000_0000;

/// The bits of the double 6.5.
pub const SIX_AND_HALF: u64 = 0x401A_0000_0000_0000;

/// The bits of the double 7.0.
pub const SEVEN: u64 = 0x401C_0000_0000_0000;

/// The bits of the double 8.0.
pub const EIGHT: u64 = 0x4020_0000_0000_0000;

/// The sign bit is set.
pub open spec fn negative_bits(b: u64) -> bool {
    b >= SIGN_BIT
}

/// The magnitude bits (all but the sign).
pub open spec fn magnitude(b: u64) -> int {
    if negative_bits(b) {
        b - SIGN_BIT
    } else {
        b as int
    }
}

/// The bits are those of a NaN.
pub open spec fn is_nan_bits(b: u64) -> bool {
    magnitude(b) > INFINITY_BITS
}

/// IEEE-754 `a <= b` on the doubles with bits `a` and `b`.
pub open spec fn f64_le(a: u64, b: u64) -> bool {
    &&& !is_nan_bits(a)
    &&& !is_nan_bits(b)
    &&& {
        ||| (magnitude(a) == 0 && magnitude(b) == 0)
        ||| (negative_bits(a) && !negative_bits(b))
        ||| (negative_bits(a) && negative_bits(b) && magnitude(a) >= magnitude(b))
        ||| (!negative_bits(a) && !negative_bits(b) && magnitude(a) <= magnitude(b))
    }
}

/// IEEE-754 `a < b` on the doubles with bits `a` and `b`.
pub open spec fn f64_lt(a: u64, b: u64) -> bool {
    f64_le(a, b) && !f64_le(b, a)
}

fn magnitude_of(b: u64) -> (r: u64)
    ensures
        r == magnitude(b),
{
    if b >= SIGN_BIT {
        b - SIGN_BIT
    } else {
        b
    }
}

/// IEEE-754 `a <= b` on bit patterns.
pub fn le_bits(a: u64, b: u64) -> (r: bool)
    ensures
        r == f64_le(a, b),
{
    let ma = magnitude_of(a);
    let mb = magnitude_of(b);
    if ma > INFINITY_BITS || mb > INFINITY_BITS {
        return false;
    }
    let na = a >= SIGN_BIT;
    let nb = b >= SIGN_BIT;
    (ma == 0 && mb == 0) || (na && !nb) || (na && nb && ma >= mb) || (!na && !nb && ma <= mb)
}

/// IEEE-754 `a < b` on bit patterns.
pub fn lt_bits(a: u64, b: u64) -> (r: bool)
    ensures
        r == f64_lt(a, b),
{
    le_bits(a, b) && !le_bits(b, a)
}

/// The sign bit of a single-precision number.
pub const SIGN_BIT32: u32 = 0x8000_0000;

/// The bits of single-precision positive infinity; larger magnitudes are
/// NaNs.
pub const INFINITY_BITS32: u32 = 0x7F80_0000;

/// The magnitude bits of a single-precision number (all but the sign).
pub open spec fn magnitude32(b: u32) -> int {
    if b >= SIGN_BIT32 {
        b - SIGN_BIT32
    } else {
        b as int
    }
}

/// IEEE-754 `a <= b` on the single-precision numbers with bits `a` and `b`.
pub open spec fn f32_le(a: u32, b: u32) -> bool {
    &&& magnitude32(a) <= INFINITY_BITS32
    &&& magnitude32(b) <= INFINITY_BITS32
    &&& {
        ||| (magnitude32(a) == 0 && magnitude32(b) == 0)
        ||| (a >= SIGN_BIT32 && b < SIGN_BIT32)
        ||| (a >= SIGN_BIT32 && b >= SIGN_BIT32 && magnitude32(a) >= magnitude32(b))
        ||| (a < SIGN_BIT32 && b < SIGN_BIT32 && magnitude32(a) <= magnitude32(b))
    }
}

/// IEEE-754 `a <= b` on single-precision bit patterns.
pub fn le_bits32(a: u32, b: u32) -> (r: bool)
    ensures
        r == f32_le(a, b),
{
    let ma = if a >= SIGN_BIT32 { a - SIGN_BIT32 } else { a };
    let mb = if b >= SIGN_BIT32 { b - SIGN_BIT32 } else { b };
    if ma > INFINITY_BITS32 || mb > INFINITY_BITS32 {
        return false;
    }
    let na = a >= SIGN_BIT32;
    let nb = b >= SIGN_BIT32;
    (ma == 0 && mb == 0) || (na && !nb) || (na && nb && ma >= mb) || (!na && !nb && ma <= mb)
}

} // verus!
