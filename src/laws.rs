//! Laws that relate the compress and expand directions of each transform.

use vstd::prelude::*;

use crate::alaw::{alaw_code, alaw_compress_spec, alaw_expand_spec, alaw_step, alaw_value};
use crate::linear::{distance, magnitude};
use crate::ulaw::{ulaw_code, ulaw_compress_spec, ulaw_expand_spec, ulaw_step, ulaw_value};

verus! {

/// Compressing the linear value of a μ-law code gives the code back, for every
/// code but `0x7F`: that code ("negative zero") expands to 0, which compresses
/// to `0xFF`.
pub proof fn lemma_ulaw_round_trip(log: u8)
    requires
        log != 0x7F,
    ensures
        ulaw_compress_spec(ulaw_expand_spec(log)) == log,
{
    assert(ulaw_compress_spec(ulaw_expand_spec(log)) == log) by (bit_vector)
        requires
            log != 0x7F,
    ;
}

/// A linear sample is at most one quantization step of its μ-law code away
/// from the value that code expands to, and at most half a step away unless
/// its magnitude lies in the clipped range above 32635.
pub proof fn lemma_ulaw_error_bound(linear: i16)
    ensures
        distance(ulaw_expand_spec(ulaw_compress_spec(linear)), linear) <= ulaw_step(
            ulaw_compress_spec(linear),
        ),
        magnitude(linear) <= 32635 ==> 2 * distance(
            ulaw_expand_spec(ulaw_compress_spec(linear)),
            linear,
        ) <= ulaw_step(ulaw_compress_spec(linear)),
{
    let log = ulaw_compress_spec(linear);
    let back = ulaw_expand_spec(log);
    assert(distance(back, linear) <= ulaw_step(log) && (magnitude(linear) <= 32635 ==> 2
        * distance(back, linear) <= ulaw_step(log))) by (bit_vector)
        requires
            log == ulaw_compress_spec(linear),
            back == ulaw_expand_spec(log),
    ;
}

/// Compressing the linear value of an A-law code gives the code back, for
/// every code.
pub proof fn lemma_alaw_round_trip(log: u8)
    ensures
        alaw_compress_spec(alaw_expand_spec(log)) == log,
{
    assert(alaw_compress_spec(alaw_expand_spec(log)) == log) by (bit_vector);
}

/// A linear sample is at most half a quantization step of its A-law code away
/// from the value that code expands to.
pub proof fn lemma_alaw_error_bound(linear: i16)
    ensures
        2 * distance(alaw_expand_spec(alaw_compress_spec(linear)), linear) <= alaw_step(
            alaw_compress_spec(linear),
        ),
{
    let log = alaw_compress_spec(linear);
    let back = alaw_expand_spec(log);
    assert(2 * distance(back, linear) <= alaw_step(log)) by (bit_vector)
        requires
            log == alaw_compress_spec(linear),
            back == alaw_expand_spec(log),
    ;
}

/// The μ-law quantization step never shrinks as the magnitude grows.
pub proof fn lemma_ulaw_step_monotonic(a: i16, b: i16)
    requires
        magnitude(a) <= magnitude(b),
    ensures
        ulaw_step(ulaw_compress_spec(a)) <= ulaw_step(ulaw_compress_spec(b)),
{
    let (la, lb) = (ulaw_compress_spec(a), ulaw_compress_spec(b));
    assert(ulaw_step(la) <= ulaw_step(lb)) by (bit_vector)
        requires
            magnitude(a) <= magnitude(b),
            la == ulaw_compress_spec(a),
            lb == ulaw_compress_spec(b),
    ;
}

/// The A-law quantization step never shrinks as the magnitude grows.
pub proof fn lemma_alaw_step_monotonic(a: i16, b: i16)
    requires
        magnitude(a) <= magnitude(b),
    ensures
        alaw_step(alaw_compress_spec(a)) <= alaw_step(alaw_compress_spec(b)),
{
    let (la, lb) = (alaw_compress_spec(a), alaw_compress_spec(b));
    assert(alaw_step(la) <= alaw_step(lb)) by (bit_vector)
        requires
            magnitude(a) <= magnitude(b),
            la == alaw_compress_spec(a),
            lb == alaw_compress_spec(b),
    ;
}

/// Both μ-law transforms are total without wrapping: the code of every sample
/// lies in `0..=255` before it is stored in a byte, and the value of every
/// code lies in `-32124..=32124` before it is stored in an `i16`.
pub proof fn lemma_ulaw_no_wrap(linear: i16, log: u8)
    ensures
        0 <= ulaw_code(linear) <= 255,
        -32124 <= ulaw_value(log) <= 32124,
{
    assert(0 <= ulaw_code(linear) <= 255 && -32124 <= ulaw_value(log) <= 32124) by (bit_vector);
}

/// Both A-law transforms are total without wrapping: the code of every sample
/// lies in `0..=255` before it is stored in a byte, and the value of every
/// code lies in `-32256..=32256` before it is stored in an `i16`.
pub proof fn lemma_alaw_no_wrap(linear: i16, log: u8)
    ensures
        0 <= alaw_code(linear) <= 255,
        -32256 <= alaw_value(log) <= 32256,
{
    assert(0 <= alaw_code(linear) <= 255 && -32256 <= alaw_value(log) <= 32256) by (bit_vector);
}

} // verus!
