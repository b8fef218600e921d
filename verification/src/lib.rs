//! The binary codec of the headers and footers of a forensic evidence container, and the
//! unwrapping of its encryption key.
//!
//! Every record is framed by an envelope ([`envelope`]) around a body that is built from the
//! primitive values of the value codec ([`value`], [`codec`]) and read through a forward-only
//! cursor ([`cursor`]). The records themselves are in [`header`] and [`footer`]; the schemes
//! of encryption and the key unwrap are in [`encryption`].
//!
//! For each record the library states what its bytes are and what bytes are taken for it,
//! and proves that decoding what was encoded gives the record back.

pub mod error;
pub mod constants;
pub mod codec;
pub mod cursor;
pub mod value;
pub mod envelope;
pub mod encryption;
pub mod header;
pub mod footer;

pub use cursor::ByteCursor;
pub use encryption::{EncryptionAlgorithm, KDFScheme, PBEScheme};
pub use envelope::{
    decode_and_validate, decode_envelope, encode_envelope, Envelope, HeaderCoding, LengthRule,
};
pub use error::{ZffError, ZffErrorKind};
pub use footer::MainFooter;
pub use header::{
    ChunkHeader, CompressionAlgorithm, CompressionHeader, EncryptionHeader, KDFParameters,
    PBEHeader, PBKDF2SHA256Parameters, SegmentHeader,
};
pub use value::{encode_key, encode_keyed, ValueCoding, ValueDecoder, ValueEncoder, ValueType};
