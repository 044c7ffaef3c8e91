//! The companding abstraction: a strategy that maps single samples, and the
//! traits that extend it to samples, fixed arrays, slices and vectors.

use vstd::prelude::*;

use crate::buffer::{
    compress_buffer, compressed, compressed_over, expand_buffer, expanded, expanded_over, processed,
};

verus! {

/// A companding law: a pair of total transforms between 16-bit linear samples
/// and 8-bit logarithmic codes.
pub trait Compander: Sized {
    /// The code that the law assigns to a linear sample.
    spec fn spec_compress(linear: i16) -> u8;

    /// The linear sample that the law assigns to a code.
    spec fn spec_expand(log: u8) -> i16;

    /// Compresses one linear sample.
    fn compress(linear: i16) -> (log: u8)
        ensures
            log == Self::spec_compress(linear),
    ;

    /// Expands one code.
    fn expand(log: u8) -> (linear: i16)
        ensures
            linear == Self::spec_expand(log),
    ;

    /// Appends the samples of `log` to `linear`.
    fn expand_into(log: &[u8], linear: &mut Vec<i16>)
        ensures
            final(linear)@.len() == old(linear)@.len() + log@.len(),
            final(linear)@.subrange(0, old(linear)@.len() as int) == old(linear)@,
            forall|i: int|
                0 <= i < log@.len() ==> #[trigger] final(linear)@[old(linear)@.len() + i]
                    == Self::spec_expand(log@[i]),
    {
        let mut i: usize = 0;
        while i < log.len()
            invariant
                i <= log@.len(),
                linear@.len() == old(linear)@.len() + i,
                linear@.subrange(0, old(linear)@.len() as int) == old(linear)@,
                forall|j: int|
                    0 <= j < i ==> #[trigger] linear@[old(linear)@.len() + j] == Self::spec_expand(
                        log@[j],
                    ),
            decreases log@.len() - i,
        {
            linear.push(Self::expand(log[i]));
            i += 1;
            assert(linear@.subrange(0, old(linear)@.len() as int) =~= old(linear)@);
        }
    }

    /// Appends the codes of `linear` to `log`.
    fn compress_into(linear: &[i16], log: &mut Vec<u8>)
        ensures
            final(log)@.len() == old(log)@.len() + linear@.len(),
            final(log)@.subrange(0, old(log)@.len() as int) == old(log)@,
            forall|i: int|
                0 <= i < linear@.len() ==> #[trigger] final(log)@[old(log)@.len() + i]
                    == Self::spec_compress(linear@[i]),
    {
        let mut i: usize = 0;
        while i < linear.len()
            invariant
                i <= linear@.len(),
                log@.len() == old(log)@.len() + i,
                log@.subrange(0, old(log)@.len() as int) == old(log)@,
                forall|j: int|
                    0 <= j < i ==> #[trigger] log@[old(log)@.len() + j] == Self::spec_compress(
                        linear@[j],
                    ),
            decreases linear@.len() - i,
        {
            log.push(Self::compress(linear[i]));
            i += 1;
            assert(log@.subrange(0, old(log)@.len() as int) =~= old(log)@);
        }
    }
}

/// A companding law applied to whole buffers: element by element, as far as
/// the shorter of source and destination reaches.
pub trait BufCompander: Compander {
    /// Compresses `linear_buf` into `log_buf`; returns how many samples that was.
    fn compress_buf(linear_buf: &[i16], log_buf: &mut [u8]) -> (n: usize)
        ensures
            n == processed(linear_buf@.len(), old(log_buf)@.len()),
            final(log_buf)@ == compressed_over::<Self>(linear_buf@, old(log_buf)@),
    ;

    /// Expands `log_buf` into `linear_buf`; returns how many codes that was.
    fn expand_buf(log_buf: &[u8], linear_buf: &mut [i16]) -> (n: usize)
        ensures
            n == processed(log_buf@.len(), old(linear_buf)@.len()),
            final(linear_buf)@ == expanded_over::<Self>(log_buf@, old(linear_buf)@),
    ;
}

impl<T: Compander> BufCompander for T {
    fn compress_buf(linear_buf: &[i16], log_buf: &mut [u8]) -> (n: usize) {
        compress_buffer::<T>(linear_buf, log_buf)
    }

    fn expand_buf(log_buf: &[u8], linear_buf: &mut [i16]) -> (n: usize) {
        expand_buffer::<T>(log_buf, linear_buf)
    }
}

/// Linear data that a companding law compresses as a whole: one sample, a
/// fixed array or a vector of samples.
pub trait Expanded: Sized {
    /// What the compressed form of `Self` is.
    type Compressed;

    /// Compresses `self` with the law `C`.
    fn compress<C: Compander>(self) -> Self::Compressed;

    /// Appends the codes of `self`, compressed with the law `C`, to `log`.
    fn compress_into<C: Compander>(&self, log: &mut Vec<u8>);
}

/// Compressed data that a companding law expands as a whole: one code, a
/// fixed array or a vector of codes.
pub trait Compressed: Sized {
    /// What the expanded form of `Self` is.
    type Expanded;

    /// Expands `self` with the law `C`.
    fn expand<C: Compander>(self) -> Self::Expanded;

    /// Appends the samples of `self`, expanded with the law `C`, to `linear`.
    fn expand_into<C: Compander>(&self, linear: &mut Vec<i16>);
}

impl Expanded for i16 {
    type Compressed = u8;

    fn compress<C: Compander>(self) -> (log: u8)
        ensures
            log == C::spec_compress(self),
    {
        C::compress(self)
    }

    fn compress_into<C: Compander>(&self, log: &mut Vec<u8>)
        ensures
            final(log)@ == old(log)@.push(C::spec_compress(*self)),
    {
        log.push(C::compress(*self));
    }
}

impl Compressed for u8 {
    type Expanded = i16;

    fn expand<C: Compander>(self) -> (linear: i16)
        ensures
            linear == C::spec_expand(self),
    {
        C::expand(self)
    }

    fn expand_into<C: Compander>(&self, linear: &mut Vec<i16>)
        ensures
            final(linear)@ == old(linear)@.push(C::spec_expand(*self)),
    {
        linear.push(C::expand(*self));
    }
}

impl<const N: usize> Expanded for [i16; N] {
    type Compressed = [u8; N];

    fn compress<C: Compander>(self) -> (log: [u8; N])
        ensures
            log@ == compressed::<C>(self@),
    {
        let mut log = [0u8; N];
        compress_buffer::<C>(&self, &mut log);
        assert(log@ =~= compressed::<C>(self@));
        log
    }

    fn compress_into<C: Compander>(&self, log: &mut Vec<u8>)
        ensures
            final(log)@ == old(log)@ + compressed::<C>(self@),
    {
        C::compress_into(self, log);
        assert(log@ =~= old(log)@ + compressed::<C>(self@)) by {
            assert forall|i: int| 0 <= i < self@.len() implies log@[old(log)@.len() + i]
                == C::spec_compress(self@[i]) by {}
        }
    }
}

impl<const N: usize> Compressed for [u8; N] {
    type Expanded = [i16; N];

    fn expand<C: Compander>(self) -> (linear: [i16; N])
        ensures
            linear@ == expanded::<C>(self@),
    {
        let mut linear = [0i16; N];
        expand_buffer::<C>(&self, &mut linear);
        assert(linear@ =~= expanded::<C>(self@));
        linear
    }

    fn expand_into<C: Compander>(&self, linear: &mut Vec<i16>)
        ensures
            final(linear)@ == old(linear)@ + expanded::<C>(self@),
    {
        C::expand_into(self, linear);
        assert(linear@ =~= old(linear)@ + expanded::<C>(self@)) by {
            assert forall|i: int| 0 <= i < self@.len() implies linear@[old(linear)@.len() + i]
                == C::spec_expand(self@[i]) by {}
        }
    }
}

impl Expanded for Vec<i16> {
    type Compressed = Vec<u8>;

    fn compress<C: Compander>(self) -> (log: Vec<u8>)
        ensures
            log@ == compressed::<C>(self@),
    {
        let mut log: Vec<u8> = Vec::new();
        C::compress_into(self.as_slice(), &mut log);
        assert forall|i: int| 0 <= i < self@.len() implies log@[i] == C::spec_compress(self@[i]) by {
            assert(log@[0 + i] == C::spec_compress(self@[i]));
        }
        assert(log@ =~= compressed::<C>(self@));
        log
    }

    fn compress_into<C: Compander>(&self, log: &mut Vec<u8>)
        ensures
            final(log)@ == old(log)@ + compressed::<C>(self@),
    {
        C::compress_into(self.as_slice(), log);
        assert(log@ =~= old(log)@ + compressed::<C>(self@)) by {
            assert forall|i: int| 0 <= i < self@.len() implies log@[old(log)@.len() + i]
                == C::spec_compress(self@[i]) by {}
        }
    }
}

impl Compressed for Vec<u8> {
    type Expanded = Vec<i16>;

    fn expand<C: Compander>(self) -> (linear: Vec<i16>)
        ensures
            linear@ == expanded::<C>(self@),
    {
        let mut linear: Vec<i16> = Vec::new();
        C::expand_into(self.as_slice(), &mut linear);
        assert forall|i: int| 0 <= i < self@.len() implies linear@[i] == C::spec_expand(self@[i]) by {
            assert(linear@[0 + i] == C::spec_expand(self@[i]));
        }
        assert(linear@ =~= expanded::<C>(self@));
        linear
    }

    fn expand_into<C: Compander>(&self, linear: &mut Vec<i16>)
        ensures
            final(linear)@ == old(linear)@ + expanded::<C>(self@),
    {
        C::expand_into(self.as_slice(), linear);
        assert(linear@ =~= old(linear)@ + expanded::<C>(self@)) by {
            assert forall|i: int| 0 <= i < self@.len() implies linear@[old(linear)@.len() + i]
                == C::spec_expand(self@[i]) by {}
        }
    }
}

/// A buffer of linear samples that compresses into a code buffer.
pub trait ExpandedBuf {
    /// Compresses `self` into `log` with the law `C`, as far as the shorter of
    /// the two reaches; returns how many samples that was.
    fn compress_buf<C: BufCompander>(&self, log: &mut [u8]) -> usize;
}

/// A buffer of codes that expands into a linear buffer.
pub trait CompressedBuf {
    /// Expands `self` into `linear` with the law `C`, as far as the shorter of
    /// the two reaches; returns how many codes that was.
    fn expand_buf<C: BufCompander>(&self, linear: &mut [i16]) -> usize;
}

impl ExpandedBuf for [i16] {
    fn compress_buf<C: BufCompander>(&self, log: &mut [u8]) -> (n: usize)
        ensures
            n == processed(self@.len(), old(log)@.len()),
            final(log)@ == compressed_over::<C>(self@, old(log)@),
    {
        C::compress_buf(self, log)
    }
}

impl CompressedBuf for [u8] {
    fn expand_buf<C: BufCompander>(&self, linear: &mut [i16]) -> (n: usize)
        ensures
            n == processed(self@.len(), old(linear)@.len()),
            final(linear)@ == expanded_over::<C>(self@, old(linear)@),
    {
        C::expand_buf(self, linear)
    }
}

} // verus!
