//! The A-law transform of ITU-T G.711.

use vstd::prelude::*;

use crate::linear::{magnitude, one_complement_magnitude};
use crate::traits::Compander;

verus! {

/// The mask that A-law applies to every code: it inverts the even bits.
pub const ALTERNATE_BITS: u8 = 0x55;

/// The segment (0 to 7) of a magnitude shifted right by four bits: segment 0
/// holds the values below 16, and segment `e > 0` those from `2^(e + 3)` up to
/// `2^(e + 4)`.
pub open spec fn alaw_segment(ix: u16) -> u16 {
    if ix < 0x10 {
        0
    } else if ix < 0x20 {
        1
    } else if ix < 0x40 {
        2
    } else if ix < 0x80 {
        3
    } else if ix < 0x100 {
        4
    } else if ix < 0x200 {
        5
    } else if ix < 0x400 {
        6
    } else {
        7
    }
}

/// The low seven bits of an A-law code before the alternate-bit inversion,
/// for `ix = magnitude >> 4`, laid out as `eee mmmm`: `eee` is the segment of
/// `ix` and `mmmm` the four bits of `ix` below its leading one (in segment 0,
/// `ix` itself).
pub open spec fn alaw_magnitude_code(ix: u16) -> u16 {
    let segment = alaw_segment(ix);
    if segment == 0 {
        ix
    } else {
        (16 * segment + ((ix >> (segment - 1) as u16) & 0xF)) as u16
    }
}

/// The A-law code of a linear sample as an integer, before the alternate-bit
/// inversion: the sign bit (set for non-negative samples) above the magnitude
/// code.
pub open spec fn alaw_code(linear: i16) -> int {
    let sign: int = if linear < 0 { 0 } else { 0x80 };
    sign + alaw_magnitude_code(magnitude(linear) >> 4u16)
}

/// The A-law code of a linear sample: its plain code with the alternate bits
/// inverted.
pub open spec fn alaw_compress_spec(linear: i16) -> u8 {
    (alaw_code(linear) as u8) ^ ALTERNATE_BITS
}

/// Compresses a linear sample to its A-law code.
pub fn compress(linear: i16) -> (log: u8)
    ensures
        log == alaw_compress_spec(linear),
{
    let is_negative = linear < 0;
    let m = one_complement_magnitude(linear);
    let ix: u16 = m >> 4u16;
    let zeros: u32 = ix.leading_zeros();
    proof {
        broadcast use vstd::std_specs::bits::axiom_u16_leading_zeros;
        lemma_segment_from_leading_zeros(m, ix, zeros);
    }
    let sign_bit: u8 = if is_negative { 0 } else { 0x80 };
    let code: u8 = if zeros < 12 {
        let shift: u16 = (11 - zeros) as u16;
        let low: u16 = (ix >> shift) & 0xF;
        let exponent: u8 = ((12 - zeros) as u8) << 4u8;
        assert(low <= 15 && (low as u8) | exponent == alaw_magnitude_code(ix)) by (bit_vector)
            requires
                1 <= alaw_segment(ix) <= 7,
                12 - zeros == alaw_segment(ix),
                shift == (11 - zeros) as u16,
                low == (ix >> shift) & 0xF,
                exponent == ((12 - zeros) as u8) << 4u8,
        ;
        (low as u8) | exponent
    } else {
        ix as u8
    };
    assert((code | sign_bit) ^ ALTERNATE_BITS == alaw_compress_spec(linear)) by (bit_vector)
        requires
            ix == magnitude(linear) >> 4u16,
            code == alaw_magnitude_code(ix),
            sign_bit == (if linear < 0 { 0u8 } else { 0x80u8 }),
    ;
    (code | sign_bit) ^ ALTERNATE_BITS
}

/// The exponent field of an A-law code: bits 4 to 6 once the alternate bits
/// are restored.
pub open spec fn alaw_exponent(log: u8) -> u16 {
    (((log ^ ALTERNATE_BITS) & 0x7Fu8) >> 4u8) as u16
}

/// The mantissa field of an A-law code: the low four bits once the alternate
/// bits are restored.
pub open spec fn alaw_mantissa(log: u8) -> u16 {
    ((log ^ ALTERNATE_BITS) & 0xFu8) as u16
}

/// The quantization step of an A-law code: 16 in the two lowest segments,
/// doubling with each segment above them.
pub open spec fn alaw_step(log: u8) -> u16 {
    let exponent = alaw_exponent(log);
    if exponent > 1 {
        16u16 << (exponent - 1) as u16
    } else {
        16
    }
}

/// The linear value of an A-law code as an integer: the middle of its
/// quantization interval. The mantissa gains an implicit leading one above
/// segment 0, is placed above a half-step of 8, and is shifted left by
/// `exponent - 1` above segment 1; the result is negated when the sign bit is
/// clear.
pub open spec fn alaw_value(log: u8) -> int {
    let exponent = alaw_exponent(log);
    let mantissa = alaw_mantissa(log);
    let base: u16 = ((if exponent > 0 { mantissa + 16 } else { mantissa as int }) * 16 + 8) as u16;
    let magnitude: u16 = if exponent > 1 { base << (exponent - 1) as u16 } else { base };
    if log < 0x80 {
        -magnitude
    } else {
        magnitude as int
    }
}

/// The linear sample of an A-law code.
pub open spec fn alaw_expand_spec(log: u8) -> i16 {
    alaw_value(log) as i16
}

/// Expands an A-law code to its linear sample.
pub fn expand(log: u8) -> (linear: i16)
    ensures
        linear == alaw_expand_spec(log),
{
    let ix: u8 = (log ^ ALTERNATE_BITS) & 0x7F;
    let exponent: u8 = ix >> 4u8;
    let low_nibble: u8 = ix & 0xF;
    assert(exponent <= 7) by (bit_vector)
        requires
            exponent == ((log ^ ALTERNATE_BITS) & 0x7F) >> 4u8,
    ;
    let leading_one: u8 = if exponent > 0 { 0x10 } else { 0 };
    let base: u16 = (((low_nibble | leading_one) as u16) << 4u16) | 8;
    let magnitude: u16 = if exponent > 1 { base << (exponent - 1) as u16 } else { base };
    assert(magnitude <= 0x7E00 && (log < 0x80 ==> -magnitude == alaw_expand_spec(log)) && (log
        >= 0x80 ==> magnitude == alaw_expand_spec(log))) by (bit_vector)
        requires
            ix == (log ^ ALTERNATE_BITS) & 0x7F,
            exponent == ix >> 4u8,
            low_nibble == ix & 0xF,
            leading_one == (if exponent > 0 { 0x10u8 } else { 0u8 }),
            base == (((low_nibble | leading_one) as u16) << 4u16) | 8,
            magnitude == (if exponent > 1 { base << (exponent - 1) as u16 } else { base }),
    ;
    let value: i16 = magnitude as i16;
    if log < 0x80 {
        -value
    } else {
        value
    }
}

/// The A-law companding strategy.
#[derive(Debug, Clone, Copy, Default, Hash, PartialEq, Eq, PartialOrd, Ord)]
pub struct ALaw;

impl Compander for ALaw {
    open spec fn spec_compress(linear: i16) -> u8 {
        alaw_compress_spec(linear)
    }

    open spec fn spec_expand(log: u8) -> i16 {
        alaw_expand_spec(log)
    }

    fn compress(linear: i16) -> (log: u8) {
        compress(linear)
    }

    fn expand(log: u8) -> (linear: i16) {
        expand(log)
    }
}

/// `12 - leading_zeros` is the segment of `ix`, when it has fewer than twelve
/// leading zeros; otherwise `ix` is below 16.
proof fn lemma_segment_from_leading_zeros(m: u16, ix: u16, zeros: u32)
    requires
        m <= 0x7FFF,
        ix == m >> 4u16,
        zeros <= 16,
        zeros < 16 ==> (ix >> vstd::prelude::sub(15u16, zeros as u16)) & 1u16 != 0u16,
        ix >> vstd::prelude::sub(16, zeros as u16) == 0,
    ensures
        5 <= zeros,
        zeros < 12 <==> ix >= 16,
        zeros < 12 ==> 12 - zeros == alaw_segment(ix),
{
    let z = zeros as u16;
    assert(5 <= z && (z < 12 <==> ix >= 16) && (z < 12 ==> 12 - z == alaw_segment(ix)))
        by (bit_vector)
        requires
            m <= 0x7FFF,
            ix == m >> 4u16,
            z <= 16,
            z < 16 ==> (ix >> vstd::prelude::sub(15u16, z)) & 1u16 != 0u16,
            ix >> vstd::prelude::sub(16, z) == 0,
    ;
}

} // verus!
