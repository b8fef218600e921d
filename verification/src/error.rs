//! The errors of the codec and of the key unwrap.

use vstd::prelude::*;

verus! {

/// The three classes of failure.
#[derive(Debug, Clone, Copy, PartialEq, Eq, Structural)]
pub enum ZffErrorKind {
    /// A read went past the end of the bytes at hand.
    Io,
    /// The bytes do not hold the record that was asked for.
    Decode,
    /// The encryption key could not be unwrapped.
    Crypto,
}

/// Every way in which a call of this library fails.
#[derive(Debug, Clone, Copy, PartialEq, Eq, Structural)]
pub enum ZffError {
    /// Fewer bytes were left than the value needs.
    UnexpectedEof,
    /// The identifier read is not the identifier of the record that was asked for.
    HeaderDecodeMismatchIdentifier,
    /// The identifier read is not the identifier of any known set of KDF parameters.
    HeaderDecodeMismatchIdentifierKdf,
    /// The length field does not fit the bytes that follow it.
    HeaderDecodeLength,
    /// The code of the compression algorithm is not known.
    UnknownCompressionAlgorithm,
    /// The code of the encryption algorithm is not known.
    UnknownEncryptionAlgorithm,
    /// The code of the key derivation scheme is not known.
    UnknownKdfScheme,
    /// The code of the password-based encryption scheme is not known.
    UnknownPbeScheme,
    /// The key could not be unwrapped; which step failed is not told.
    DecryptionFailed,
}

impl ZffError {
    /// The class of the error.
    pub open spec fn spec_kind(self) -> ZffErrorKind {
        match self {
            ZffError::UnexpectedEof => ZffErrorKind::Io,
            ZffError::DecryptionFailed => ZffErrorKind::Crypto,
            _ => ZffErrorKind::Decode,
        }
    }

    /// Whether a caller may go on and try the decoder of another record on the same bytes.
    pub open spec fn spec_is_identifier_mismatch(self) -> bool {
        self == ZffError::HeaderDecodeMismatchIdentifier || self
            == ZffError::HeaderDecodeMismatchIdentifierKdf
    }

    /// Returns the class of the error.
    pub fn kind(&self) -> (k: ZffErrorKind)
        ensures
            k == self.spec_kind(),
    {
        match self {
            ZffError::UnexpectedEof => ZffErrorKind::Io,
            ZffError::DecryptionFailed => ZffErrorKind::Crypto,
            _ => ZffErrorKind::Decode,
        }
    }

    /// Returns true if the bytes hold a record of another type, so that another decoder may be
    /// tried on them.
    pub fn is_identifier_mismatch(&self) -> (b: bool)
        ensures
            b == self.spec_is_identifier_mismatch(),
    {
        match self {
            ZffError::HeaderDecodeMismatchIdentifier => true,
            ZffError::HeaderDecodeMismatchIdentifierKdf => true,
            _ => false,
        }
    }

    /// The text that describes the error.
    pub open spec fn spec_message(self) -> Seq<char> {
        match self {
            ZffError::UnexpectedEof => "Unexpected end of data."@,
            ZffError::HeaderDecodeMismatchIdentifier => "The read identifier does not match the header identifier."@,
            ZffError::HeaderDecodeMismatchIdentifierKdf => "The read identifier does not match to any known KDF header identifier."@,
            ZffError::HeaderDecodeLength => "Unable to read header length from given data."@,
            ZffError::UnknownCompressionAlgorithm => "unknown compression algorithm value"@,
            ZffError::UnknownEncryptionAlgorithm => "Unknown encryption algorithm value."@,
            ZffError::UnknownKdfScheme => "Unknown KDF scheme value."@,
            ZffError::UnknownPbeScheme => "Unknown PBEncryption scheme value."@,
            ZffError::DecryptionFailed => "Decryption failed."@,
        }
    }

    /// Returns the text that describes the error.
    pub fn message(&self) -> (s: &'static str)
        ensures
            s@ == self.spec_message(),
    {
        match self {
            ZffError::UnexpectedEof => "Unexpected end of data.",
            ZffError::HeaderDecodeMismatchIdentifier => "The read identifier does not match the header identifier.",
            ZffError::HeaderDecodeMismatchIdentifierKdf => "The read identifier does not match to any known KDF header identifier.",
            ZffError::HeaderDecodeLength => "Unable to read header length from given data.",
            ZffError::UnknownCompressionAlgorithm => "unknown compression algorithm value",
            ZffError::UnknownEncryptionAlgorithm => "Unknown encryption algorithm value.",
            ZffError::UnknownKdfScheme => "Unknown KDF scheme value.",
            ZffError::UnknownPbeScheme => "Unknown PBEncryption scheme value.",
            ZffError::DecryptionFailed => "Decryption failed.",
        }
    }
}

} // verus!
