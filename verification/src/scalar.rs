//! Numbers as the library holds them: IEEE 754 bit patterns in plain integers.

use vstd::prelude::*;

verus! {

/// The binary64 pattern of four hundred, the linear speed a player starts with
/// (units per second): sign 0, exponent 8, fraction 1.5625.
pub const INITIAL_SPEED: u64 = 0x4079_0000_0000_0000;

/// The binary64 pattern nearest to pi, the angular speed a player starts with
/// (radians per second).
pub const INITIAL_ANGULAR_SPEED: u64 = 0x4009_21FB_5444_2D18;

/// The eleven exponent bits of a binary64 pattern.
pub const EXPONENT_BITS: u64 = 0x7FF0_0000_0000_0000;

/// A binary64 pattern stands for a finite number exactly when its exponent
/// bits are not all set; the patterns left out are the infinities and the NaNs.
pub open spec fn is_finite(bits: u64) -> bool {
    bits & EXPONENT_BITS != EXPONENT_BITS
}

/// Both starting speeds are finite numbers.
pub proof fn initial_speeds_are_finite()
    ensures
        is_finite(INITIAL_SPEED),
        is_finite(INITIAL_ANGULAR_SPEED),
{
    assert(0x4079_0000_0000_0000u64 & 0x7FF0_0000_0000_0000u64 != 0x7FF0_0000_0000_0000u64)
        by (bit_vector);
    assert(0x4009_21FB_5444_2D18u64 & 0x7FF0_0000_0000_0000u64 != 0x7FF0_0000_0000_0000u64)
        by (bit_vector);
}

} // verus!
