//! G.711 companding: μ-law and A-law transforms between 16-bit linear PCM
//! samples and 8-bit logarithmic codes, bit-exact with the ITU-T reference,
//! with buffer-level helpers built on them.

pub mod alaw;
pub mod buffer;
pub mod hippo;
pub mod laws;
pub mod linear;
pub mod traits;
pub mod ulaw;

pub use alaw::ALaw;
pub use hippo::{Error, Hippo};
pub use traits::{BufCompander, Compander, Compressed, CompressedBuf, Expanded, ExpandedBuf};
pub use ulaw::{compress, compress_slice, expand, expand_slice, ULaw};
