//! The μ-law transform of ITU-T G.711.

use vstd::prelude::*;

use crate::buffer::{compress_buffer, compressed_over, expand_buffer, expanded_over, processed};
use crate::linear::{magnitude, one_complement_magnitude};
use crate::traits::Compander;

verus! {

/// The bias that μ-law adds to the (right-aligned) magnitude before finding
/// its segment.
pub const BIAS: u16 = 0x21;

/// The largest biased magnitude; larger values are clipped to it.
pub const CLIP: u16 = 0x1FFF;

/// The biased magnitude of a sample: its magnitude shifted right by two bits,
/// plus [`BIAS`], clipped to [`CLIP`].
pub open spec fn ulaw_biased(linear: i16) -> u16 {
    let b = magnitude(linear) / 4 + BIAS;
    if b > CLIP {
        CLIP
    } else {
        b as u16
    }
}

/// The segment (1 to 8) of a biased magnitude: segment `s` holds the values
/// below `2^(s + 5)` that no lower segment holds.
pub open spec fn ulaw_segment(biased: u16) -> u16 {
    if biased < 0x40 {
        1
    } else if biased < 0x80 {
        2
    } else if biased < 0x100 {
        3
    } else if biased < 0x200 {
        4
    } else if biased < 0x400 {
        5
    } else if biased < 0x800 {
        6
    } else if biased < 0x1000 {
        7
    } else {
        8
    }
}

/// The μ-law code of a linear sample as an integer, laid out as `s eee mmmm`:
/// `s` is set for non-negative samples, `eee` is `8 - segment` and `mmmm` is
/// the complement of the four bits of the biased magnitude just below its
/// leading one.
pub open spec fn ulaw_code(linear: i16) -> int {
    let biased = ulaw_biased(linear);
    let segment = ulaw_segment(biased);
    let mantissa = (biased >> segment) & 0xF;
    let sign: int = if linear < 0 { 0 } else { 0x80 };
    sign + 16 * (8 - segment) + (15 - mantissa)
}

/// The μ-law code of a linear sample.
pub open spec fn ulaw_compress_spec(linear: i16) -> u8 {
    ulaw_code(linear) as u8
}

/// Compresses a linear sample to its μ-law code.
pub fn compress(linear: i16) -> (log: u8)
    ensures
        log == ulaw_compress_spec(linear),
{
    let is_negative = linear < 0;
    let m = one_complement_magnitude(linear);
    let quarter: u16 = m >> 2u16;
    assert(quarter == m / 4 && quarter <= 0x3FFF) by (bit_vector)
        requires
            quarter == m >> 2u16,
    ;
    let shifted: u16 = quarter + BIAS;
    let offset: u16 = if shifted > CLIP { CLIP } else { shifted };
    let zeros: u32 = offset.leading_zeros();
    proof {
        broadcast use vstd::std_specs::bits::axiom_u16_leading_zeros;
        lemma_segment_from_leading_zeros(offset, zeros);
    }
    let segment: u16 = 11 - zeros as u16;
    let mantissa: u16 = (offset >> segment) & 0xF;
    assert(mantissa <= 15) by (bit_vector)
        requires
            mantissa == (offset >> segment) & 0xF,
    ;
    let low_nibble: u8 = 0xF - mantissa as u8;
    let high_nibble: u8 = ((8 - segment) as u8) << 4u8;
    let sign_bit: u8 = if is_negative { 0 } else { 0x80 };
    assert(high_nibble == 16 * (8 - segment) && high_nibble & 0x8F == 0) by (bit_vector)
        requires
            1 <= segment <= 8,
            high_nibble == ((8 - segment) as u8) << 4u8,
    ;
    let log = high_nibble | low_nibble | sign_bit;
    assert(log == sign_bit + high_nibble + low_nibble) by (bit_vector)
        requires
            low_nibble <= 15,
            high_nibble & 0x8F == 0,
            sign_bit == 0 || sign_bit == 0x80,
            log == high_nibble | low_nibble | sign_bit,
    ;
    log
}

/// The exponent field of a μ-law code: bits 4 to 6 of its complement.
pub open spec fn ulaw_exponent(log: u8) -> u16 {
    (((!log) >> 4u8) & 7u8) as u16
}

/// The mantissa field of a μ-law code: the low four bits of its complement.
pub open spec fn ulaw_mantissa(log: u8) -> u16 {
    ((!log) & 0xFu8) as u16
}

/// The quantization step of a μ-law code: the distance between the linear
/// values of adjacent codes that share its exponent.
pub open spec fn ulaw_step(log: u8) -> u16 {
    4u16 << (ulaw_exponent(log) + 1) as u16
}

/// The linear value of a μ-law code as an integer: the middle of its
/// quantization interval, `(0x80 << exponent) + step * mantissa + step / 2 -
/// 4 * BIAS`, negated when the sign bit is clear.
pub open spec fn ulaw_value(log: u8) -> int {
    let exponent = ulaw_exponent(log);
    let step = ulaw_step(log);
    let magnitude: int = (0x80u16 << exponent) + step * ulaw_mantissa(log) + step / 2 - 4 * BIAS;
    if log < 0x80 {
        -magnitude
    } else {
        magnitude
    }
}

/// The linear sample of a μ-law code.
pub open spec fn ulaw_expand_spec(log: u8) -> i16 {
    ulaw_value(log) as i16
}

/// Expands a μ-law code to its linear sample.
pub fn expand(log: u8) -> (linear: i16)
    ensures
        linear == ulaw_expand_spec(log),
{
    let inverted: u8 = !log;
    let exponent: u16 = ((inverted >> 4u8) & 7u8) as u16;
    let mantissa: u16 = (inverted & 0xFu8) as u16;
    assert(exponent <= 7 && mantissa <= 15) by (bit_vector)
        requires
            exponent == ((inverted >> 4u8) & 7u8) as u16,
            mantissa == (inverted & 0xFu8) as u16,
    ;
    let step: u16 = 4u16 << (exponent + 1);
    let base: u16 = 0x80u16 << exponent;
    assert(8 <= step <= 1024 && 0x80 <= base <= 0x4000) by (bit_vector)
        requires
            exponent <= 7,
            step == 4u16 << (exponent + 1),
            base == 0x80u16 << exponent,
    ;
    assert(step * mantissa <= 1024 * 15) by (nonlinear_arith)
        requires
            step <= 1024,
            mantissa <= 15,
    ;
    let magnitude: u16 = base + step * mantissa + step / 2 - 4 * BIAS;
    let value: i16 = magnitude as i16;
    if log < 0x80 {
        -value
    } else {
        value
    }
}

/// Compresses `linear_buf` into `log_buf` with μ-law, as far as the shorter of
/// the two reaches, and returns how many samples that was.
pub fn compress_slice(linear_buf: &[i16], log_buf: &mut [u8]) -> (n: usize)
    ensures
        n == processed(linear_buf@.len(), old(log_buf)@.len()),
        final(log_buf)@ == compressed_over::<ULaw>(linear_buf@, old(log_buf)@),
{
    compress_buffer::<ULaw>(linear_buf, log_buf)
}

/// Expands `log_buf` into `linear_buf` with μ-law, as far as the shorter of
/// the two reaches, and returns how many codes that was.
pub fn expand_slice(log_buf: &[u8], linear_buf: &mut [i16]) -> (n: usize)
    ensures
        n == processed(log_buf@.len(), old(linear_buf)@.len()),
        final(linear_buf)@ == expanded_over::<ULaw>(log_buf@, old(linear_buf)@),
{
    expand_buffer::<ULaw>(log_buf, linear_buf)
}

/// The μ-law companding strategy.
#[derive(Debug, Clone, Copy, Default, Hash, PartialEq, Eq, PartialOrd, Ord)]
pub struct ULaw;

impl Compander for ULaw {
    open spec fn spec_compress(linear: i16) -> u8 {
        ulaw_compress_spec(linear)
    }

    open spec fn spec_expand(log: u8) -> i16 {
        ulaw_expand_spec(log)
    }

    fn compress(linear: i16) -> (log: u8) {
        compress(linear)
    }

    fn expand(log: u8) -> (linear: i16) {
        expand(log)
    }
}

/// `11 - leading_zeros` is the segment of a biased magnitude.
proof fn lemma_segment_from_leading_zeros(biased: u16, zeros: u32)
    requires
        BIAS <= biased <= CLIP,
        zeros <= 16,
        zeros < 16 ==> (biased >> vstd::prelude::sub(15u16, zeros as u16)) & 1u16 != 0u16,
        biased >> vstd::prelude::sub(16, zeros as u16) == 0,
    ensures
        3 <= zeros <= 10,
        11 - zeros == ulaw_segment(biased),
{
    let z = zeros as u16;
    assert(11 - z == ulaw_segment(biased) && 3 <= z <= 10) by (bit_vector)
        requires
            0x21 <= biased <= 0x1FFF,
            z <= 16,
            z < 16 ==> (biased >> vstd::prelude::sub(15u16, z)) & 1u16 != 0u16,
            biased >> vstd::prelude::sub(16, z) == 0,
    ;
}

} // verus!
