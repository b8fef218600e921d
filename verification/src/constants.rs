//! Magic identifiers, field widths and other fixed values of the container format.

use vstd::prelude::*;

verus! {

// identifier: magic bytes
pub const HEADER_IDENTIFIER_SEGMENT_HEADER: u32 = 0x7A666673;

pub const HEADER_IDENTIFIER_COMPRESSION_HEADER: u32 = 0x7A666663;

pub const HEADER_IDENTIFIER_PBE_HEADER: u32 = 0x7A666670;

pub const HEADER_IDENTIFIER_ENCRYPTION_HEADER: u32 = 0x7A666665;

pub const HEADER_IDENTIFIER_CHUNK_HEADER: u32 = 0x7A666643;

pub const FOOTER_IDENTIFIER_MAIN_FOOTER: u32 = 0x7A66664D;

pub const PBE_KDF_PARAMETERS: u32 = 0x6b646670;

// Encoding keys
pub const ENCODING_KEY_CASE_NUMBER: &'static str = "cn";

pub const ENCODING_KEY_EVIDENCE_NUMBER: &'static str = "ev";

pub const ENCODING_KEY_EXAMINER_NAME: &'static str = "ex";

pub const ENCODING_KEY_NOTES: &'static str = "no";

pub const ENCODING_KEY_ACQISITION_START: &'static str = "as";

pub const ENCODING_KEY_ACQISITION_END: &'static str = "ae";

pub const ENCODING_KEY_DESCRIPTION_NOTES: &'static str = "dn";

// Default values
/// the default chunk size as 2^x. This value is 15, so the default chunk size is 2^15 = 32768 bytes.
pub const DEFAULT_CHUNK_SIZE: u8 = 15;

/// the number of bytes of the identifier that opens every record.
pub const DEFAULT_LENGTH_HEADER_IDENTIFIER: usize = 4;

/// the number of bytes of the length field that follows the identifier.
pub const DEFAULT_LENGTH_VALUE_HEADER_LENGTH: usize = 8;

/// the default key length of a public signature key
pub const ED25519_DALEK_PUBKEY_LEN: usize = 32;

/// the default length of an ed25519 signature
pub const ED25519_DALEK_SIGNATURE_LEN: usize = 64;

} // verus!
