//! Element-wise companding of buffers: one loop per direction, shared by every
//! container and every law.

use vstd::prelude::*;

use crate::traits::Compander;

verus! {

/// The codes of a sequence of linear samples, in order.
pub open spec fn compressed<C: Compander>(linear: Seq<i16>) -> Seq<u8> {
    linear.map_values(|x: i16| C::spec_compress(x))
}

/// The linear samples of a sequence of codes, in order.
pub open spec fn expanded<C: Compander>(log: Seq<u8>) -> Seq<i16> {
    log.map_values(|b: u8| C::spec_expand(b))
}

/// A code buffer after compressing `linear` into it: each position that both
/// sequences have holds the code of the sample there, the rest keep their
/// old value.
pub open spec fn compressed_over<C: Compander>(linear: Seq<i16>, log: Seq<u8>) -> Seq<u8> {
    Seq::new(
        log.len(),
        |i: int|
            if i < linear.len() {
                C::spec_compress(linear[i])
            } else {
                log[i]
            },
    )
}

/// A linear buffer after expanding `log` into it: each position that both
/// sequences have holds the sample of the code there, the rest keep their
/// old value.
pub open spec fn expanded_over<C: Compander>(log: Seq<u8>, linear: Seq<i16>) -> Seq<i16> {
    Seq::new(
        linear.len(),
        |i: int|
            if i < log.len() {
                C::spec_expand(log[i])
            } else {
                linear[i]
            },
    )
}

/// The number of elements that a buffer transform processes.
pub open spec fn processed(source_len: nat, dest_len: nat) -> nat {
    if source_len < dest_len {
        source_len
    } else {
        dest_len
    }
}

/// Compresses `linear_buf` into `log_buf` element by element, as far as the
/// shorter of the two reaches, and returns how many elements that was.
/// Codes past that point are left as they were.
pub fn compress_buffer<C: Compander>(linear_buf: &[i16], log_buf: &mut [u8]) -> (n: usize)
    ensures
        n == processed(linear_buf@.len(), old(log_buf)@.len()),
        final(log_buf)@ == compressed_over::<C>(linear_buf@, old(log_buf)@),
{
    let n: usize = if linear_buf.len() < log_buf.len() {
        linear_buf.len()
    } else {
        log_buf.len()
    };
    let mut i: usize = 0;
    while i < n
        invariant
            n == processed(linear_buf@.len(), old(log_buf)@.len()),
            log_buf@.len() == old(log_buf)@.len(),
            i <= n,
            forall|j: int| 0 <= j < i ==> log_buf@[j] == C::spec_compress(linear_buf@[j]),
            forall|j: int| i <= j < log_buf@.len() ==> log_buf@[j] == old(log_buf)@[j],
        decreases n - i,
    {
        log_buf[i] = C::compress(linear_buf[i]);
        i += 1;
    }
    assert(log_buf@ =~= compressed_over::<C>(linear_buf@, old(log_buf)@));
    n
}

/// Expands `log_buf` into `linear_buf` element by element, as far as the
/// shorter of the two reaches, and returns how many elements that was.
/// Samples past that point are left as they were.
pub fn expand_buffer<C: Compander>(log_buf: &[u8], linear_buf: &mut [i16]) -> (n: usize)
    ensures
        n == processed(log_buf@.len(), old(linear_buf)@.len()),
        final(linear_buf)@ == expanded_over::<C>(log_buf@, old(linear_buf)@),
{
    let n: usize = if log_buf.len() < linear_buf.len() {
        log_buf.len()
    } else {
        linear_buf.len()
    };
    let mut i: usize = 0;
    while i < n
        invariant
            n == processed(log_buf@.len(), old(linear_buf)@.len()),
            linear_buf@.len() == old(linear_buf)@.len(),
            i <= n,
            forall|j: int| 0 <= j < i ==> linear_buf@[j] == C::spec_expand(log_buf@[j]),
            forall|j: int| i <= j < linear_buf@.len() ==> linear_buf@[j] == old(linear_buf)@[j],
        decreases n - i,
    {
        linear_buf[i] = C::expand(log_buf[i]);
        i += 1;
    }
    assert(linear_buf@ =~= expanded_over::<C>(log_buf@, old(linear_buf)@));
    n
}

} // verus!
