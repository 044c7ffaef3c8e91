//! Facts about 16-bit linear samples shared by both companding laws.

use vstd::prelude::*;

verus! {

/// The magnitude that G.711 assigns to a linear sample: the sample itself when
/// it is non-negative, its one's complement (`-1 - linear`) when negative.
///
/// This is deliberately not the absolute value: `-1` and `0` share magnitude 0.
pub open spec fn magnitude(linear: i16) -> u16 {
    if linear < 0 {
        (-1 - linear) as u16
    } else {
        linear as u16
    }
}

/// The distance between two linear values.
pub open spec fn distance(a: i16, b: i16) -> int {
    if a >= b {
        a - b
    } else {
        b - a
    }
}

/// Computes `magnitude(linear)` by complementing negative samples.
pub fn one_complement_magnitude(linear: i16) -> (m: u16)
    ensures
        m == magnitude(linear),
{
    if linear < 0 {
        let flipped: i16 = !linear;
        assert(linear < 0 ==> !linear == -1 - linear) by (bit_vector);
        flipped as u16
    } else {
        linear as u16
    }
}

} // verus!
