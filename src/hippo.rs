//! A receiver of μ-law audio that arrives base64-encoded: it decodes each
//! message and keeps the expanded samples in a buffer.

use vstd::prelude::*;

use base64::engine::GeneralPurpose;
use base64::DecodeError;

use crate::buffer::expanded;
use crate::traits::Compander;
use crate::ulaw::ULaw;

verus! {

/// base64's `GeneralPurpose` engine, carried through opaquely.
#[verifier::external_type_specification]
#[verifier::external_body]
pub struct ExGeneralPurpose(GeneralPurpose);

/// base64's `DecodeError`, carried through opaquely.
#[verifier::external_type_specification]
#[verifier::external_body]
pub struct ExDecodeError(DecodeError);

/// Relies on base64's `Engine::decode` for `GeneralPurpose`: it decodes
/// `encoded` with the engine's alphabet and padding rules, returning the bytes
/// or the reason they could not be decoded. What it returns depends on the
/// engine's configuration, so nothing more is stated of it here.
#[verifier::external_body]
fn decode_base64(engine: &GeneralPurpose, encoded: &[u8]) -> Result<Vec<u8>, DecodeError> {
    base64::Engine::decode(engine, encoded)
}

/// Why a message could not be taken in.
#[derive(Debug)]
pub enum Error {
    /// The message was not valid base64 for the configured engine.
    Base64Decode(DecodeError),
}

impl From<DecodeError> for Error {
    fn from(e: DecodeError) -> (r: Error)
        ensures
            r == Error::Base64Decode(e),
    {
        Error::Base64Decode(e)
    }
}

impl vstd::std_specs::convert::FromSpecImpl<DecodeError> for Error {
    open spec fn obeys_from_spec() -> bool {
        true
    }

    open spec fn from_spec(e: DecodeError) -> Error {
        Error::Base64Decode(e)
    }
}

/// Decodes base64 messages of μ-law audio and buffers their linear samples.
pub struct Hippo {
    buf: Vec<i16>,
    base64: GeneralPurpose,
}

impl Hippo {
    /// The linear samples buffered so far, oldest first.
    pub closed spec fn samples(&self) -> Seq<i16> {
        self.buf@
    }

    /// A receiver with an empty buffer that decodes with `base64`.
    pub fn new(base64: GeneralPurpose) -> (h: Hippo)
        ensures
            h.samples() == Seq::<i16>::empty(),
    {
        Hippo { buf: Vec::new(), base64 }
    }

    /// The linear samples buffered so far, oldest first.
    pub fn buffered(&self) -> (r: &[i16])
        ensures
            r@ == self.samples(),
    {
        self.buf.as_slice()
    }

    /// Takes in a message that is already decoded: expands its μ-law codes
    /// onto the end of the buffer, then hands the buffer on. No consumer of
    /// the buffered samples is attached, so no text comes back.
    pub fn push_ulaw(&mut self, log: &[u8]) -> (r: Result<Option<String>, Error>)
        ensures
            final(self).samples() == old(self).samples() + expanded::<ULaw>(log@),
            r matches Ok(None),
    {
        ULaw::expand_into(log, &mut self.buf);
        assert(self.buf@ =~= old(self).buf@ + expanded::<ULaw>(log@)) by {
            assert forall|i: int| 0 <= i < log@.len() implies self.buf@[old(self).buf@.len() + i]
                == ULaw::spec_expand(log@[i]) by {}
        }
        self.drive()
    }

    /// Decodes a base64 message and takes in the μ-law codes it holds. When
    /// the message is not valid base64, returns the decoding error and leaves
    /// the buffer as it was.
    pub fn process_base64_ulaw(&mut self, encoded: &[u8]) -> (r: Result<Option<String>, Error>)
        ensures
            r is Err ==> final(self).samples() == old(self).samples(),
            r is Ok ==> (r matches Ok(None)),
            r is Ok ==> exists|log: Seq<u8>|
                final(self).samples() == old(self).samples() + expanded::<ULaw>(log),
    {
        match decode_base64(&self.base64, encoded) {
            Ok(log) => self.push_ulaw(log.as_slice()),
            Err(e) => Err(Error::from(e)),
        }
    }

    /// Hands the buffered samples on; with no consumer attached there is no
    /// text to return.
    fn drive(&mut self) -> (r: Result<Option<String>, Error>)
        ensures
            *final(self) == *old(self),
            r matches Ok(None),
    {
        Ok(None)
    }
}

} // verus!
