//! The schemes of encryption that a container can name, and the unwrapping of a key that
//! was wrapped under a password.
//!
//! The cryptography itself (PBKDF2 with HMAC-SHA256, AES in CBC mode with PKCS#7 padding) is
//! that of the `pkcs5` crate. This module trusts it and proves nothing of it: it gives the
//! plaintext that the crate computes a name, and states what the library does with it.

use crate::error::ZffError;
use vstd::prelude::*;

verus! {

/// The algorithms that encrypt the data of a container.
#[derive(Debug, Clone, Copy, PartialEq, Eq, Structural)]
pub enum EncryptionAlgorithm {
    /// AES (128-Bit) in Galois/Counter Mode operation with misuse resistance in the event of
    /// the reuse of a cryptographic nonce. Encoded with value 0.
    AES128GCMSIV,
    /// AES (256-Bit) in Galois/Counter Mode operation with misuse resistance in the event of
    /// the reuse of a cryptographic nonce. Encoded with value 1.
    AES256GCMSIV,
}

/// The schemes that derive a key from a password.
#[derive(Debug, Clone, Copy, PartialEq, Eq, Structural)]
pub enum KDFScheme {
    /// PBKDF2 with HMAC-SHA256. Encoded with value 0.
    PBKDF2SHA256,
}

/// The schemes that wrap the encryption key under the key derived from the password.
#[derive(Debug, Clone, Copy, PartialEq, Eq, Structural)]
pub enum PBEScheme {
    /// AES128-CBC. Encoded with value 0.
    AES128CBC,
    /// AES256-CBC. Encoded with value 1.
    AES256CBC,
}

impl EncryptionAlgorithm {
    /// The code of the algorithm.
    pub open spec fn raw_value(self) -> u8 {
        match self {
            EncryptionAlgorithm::AES128GCMSIV => 0,
            EncryptionAlgorithm::AES256GCMSIV => 1,
        }
    }

    /// The algorithm that a code stands for, if any.
    pub open spec fn of_raw_value(code: u8) -> Option<EncryptionAlgorithm> {
        if code == 0 {
            Some(EncryptionAlgorithm::AES128GCMSIV)
        } else if code == 1 {
            Some(EncryptionAlgorithm::AES256GCMSIV)
        } else {
            None
        }
    }

    /// The number of bytes of a key of the algorithm.
    pub open spec fn spec_key_length(self) -> nat {
        match self {
            EncryptionAlgorithm::AES128GCMSIV => 16,
            EncryptionAlgorithm::AES256GCMSIV => 32,
        }
    }

    /// Returns the code of the algorithm.
    pub fn as_raw_value(&self) -> (code: u8)
        ensures
            code == self.raw_value(),
            EncryptionAlgorithm::of_raw_value(code) == Some(*self),
    {
        match self {
            EncryptionAlgorithm::AES128GCMSIV => 0,
            EncryptionAlgorithm::AES256GCMSIV => 1,
        }
    }

    /// Returns the algorithm that `code` stands for. No code is taken for another.
    pub fn from_raw_value(code: u8) -> (r: Result<EncryptionAlgorithm, ZffError>)
        ensures
            r == match EncryptionAlgorithm::of_raw_value(code) {
                Some(algorithm) => Ok::<EncryptionAlgorithm, ZffError>(algorithm),
                None => Err(ZffError::UnknownEncryptionAlgorithm),
            },
    {
        match code {
            0 => Ok(EncryptionAlgorithm::AES128GCMSIV),
            1 => Ok(EncryptionAlgorithm::AES256GCMSIV),
            _ => Err(ZffError::UnknownEncryptionAlgorithm),
        }
    }

    /// Returns the number of bytes of a key of the algorithm.
    pub fn key_length(&self) -> (length: usize)
        ensures
            length == self.spec_key_length(),
    {
        match self {
            EncryptionAlgorithm::AES128GCMSIV => 16,
            EncryptionAlgorithm::AES256GCMSIV => 32,
        }
    }
}

impl KDFScheme {
    /// The code of the scheme.
    pub open spec fn raw_value(self) -> u8 {
        0
    }

    /// The scheme that a code stands for, if any.
    pub open spec fn of_raw_value(code: u8) -> Option<KDFScheme> {
        if code == 0 {
            Some(KDFScheme::PBKDF2SHA256)
        } else {
            None
        }
    }

    /// Returns the code of the scheme.
    pub fn as_raw_value(&self) -> (code: u8)
        ensures
            code == self.raw_value(),
            KDFScheme::of_raw_value(code) == Some(*self),
    {
        match self {
            KDFScheme::PBKDF2SHA256 => 0,
        }
    }

    /// Returns the scheme that `code` stands for. No code is taken for another.
    pub fn from_raw_value(code: u8) -> (r: Result<KDFScheme, ZffError>)
        ensures
            r == match KDFScheme::of_raw_value(code) {
                Some(scheme) => Ok::<KDFScheme, ZffError>(scheme),
                None => Err(ZffError::UnknownKdfScheme),
            },
    {
        match code {
            0 => Ok(KDFScheme::PBKDF2SHA256),
            _ => Err(ZffError::UnknownKdfScheme),
        }
    }
}

impl PBEScheme {
    /// The code of the scheme.
    pub open spec fn raw_value(self) -> u8 {
        match self {
            PBEScheme::AES128CBC => 0,
            PBEScheme::AES256CBC => 1,
        }
    }

    /// The scheme that a code stands for, if any.
    pub open spec fn of_raw_value(code: u8) -> Option<PBEScheme> {
        if code == 0 {
            Some(PBEScheme::AES128CBC)
        } else if code == 1 {
            Some(PBEScheme::AES256CBC)
        } else {
            None
        }
    }

    /// Returns the code of the scheme.
    pub fn as_raw_value(&self) -> (code: u8)
        ensures
            code == self.raw_value(),
            PBEScheme::of_raw_value(code) == Some(*self),
    {
        match self {
            PBEScheme::AES128CBC => 0,
            PBEScheme::AES256CBC => 1,
        }
    }

    /// Returns the scheme that `code` stands for. No code is taken for another.
    pub fn from_raw_value(code: u8) -> (r: Result<PBEScheme, ZffError>)
        ensures
            r == match PBEScheme::of_raw_value(code) {
                Some(scheme) => Ok::<PBEScheme, ZffError>(scheme),
                None => Err(ZffError::UnknownPbeScheme),
            },
    {
        match code {
            0 => Ok(PBEScheme::AES128CBC),
            1 => Ok(PBEScheme::AES256CBC),
            _ => Err(ZffError::UnknownPbeScheme),
        }
    }
}

/// The error of the `pkcs5` crate. Nothing is known of a value of it.
#[verifier::external_type_specification]
#[verifier::external_body]
pub struct ExPkcs5Error(pkcs5::Error);

/// The plaintext that `pkcs5` finds in `ciphertext` with the key that PBKDF2-HMAC-SHA256
/// derives from `password`, `salt` and `iterations`, under AES-128-CBC with the
/// initialisation vector `iv`; `None` where it finds none.
pub uninterp spec fn pbkdf2sha256_aes128cbc_plaintext(
    iterations: u32,
    salt: Seq<u8>,
    iv: Seq<u8>,
    password: Seq<u8>,
    ciphertext: Seq<u8>,
) -> Option<Seq<u8>>;

/// The same under AES-256-CBC.
pub uninterp spec fn pbkdf2sha256_aes256cbc_plaintext(
    iterations: u32,
    salt: Seq<u8>,
    iv: Seq<u8>,
    password: Seq<u8>,
    ciphertext: Seq<u8>,
) -> Option<Seq<u8>>;

/// Calls `pkcs5::pbes2::Parameters::generate_pbkdf2_sha256_aes128cbc` and then
/// `pkcs5::pbes2::Parameters::decrypt` on what it gave.
///
/// Trusted: that the outcome depends on the five arguments alone, so that it has a name. An
/// error of either call stands for "no plaintext". Neither call panics: parameters out of
/// range, a ciphertext that is no whole number of blocks and a padding that is not well
/// formed each come back as an error.
#[verifier::external_body]
pub(crate) fn decrypt_pbkdf2sha256_aes128cbc(
    iterations: u32,
    salt: &[u8; 32],
    iv: &[u8; 16],
    password: &[u8],
    ciphertext: &[u8],
) -> (r: Result<Vec<u8>, pkcs5::Error>)
    ensures
        match r {
            Ok(plaintext) => pbkdf2sha256_aes128cbc_plaintext(
                iterations,
                salt@,
                iv@,
                password@,
                ciphertext@,
            ) == Some(plaintext@),
            Err(_) => pbkdf2sha256_aes128cbc_plaintext(
                iterations,
                salt@,
                iv@,
                password@,
                ciphertext@,
            ) is None,
        },
{
    pkcs5::pbes2::Parameters::generate_pbkdf2_sha256_aes128cbc(iterations, salt, *iv)?.decrypt(
        password,
        ciphertext,
    )
}

/// Calls `pkcs5::pbes2::Parameters::generate_pbkdf2_sha256_aes256cbc` and then
/// `pkcs5::pbes2::Parameters::decrypt` on what it gave.
///
/// Trusted: that the outcome depends on the five arguments alone, so that it has a name. An
/// error of either call stands for "no plaintext". Neither call panics: parameters out of
/// range, a ciphertext that is no whole number of blocks and a padding that is not well
/// formed each come back as an error.
#[verifier::external_body]
pub(crate) fn decrypt_pbkdf2sha256_aes256cbc(
    iterations: u32,
    salt: &[u8; 32],
    iv: &[u8; 16],
    password: &[u8],
    ciphertext: &[u8],
) -> (r: Result<Vec<u8>, pkcs5::Error>)
    ensures
        match r {
            Ok(plaintext) => pbkdf2sha256_aes256cbc_plaintext(
                iterations,
                salt@,
                iv@,
                password@,
                ciphertext@,
            ) == Some(plaintext@),
            Err(_) => pbkdf2sha256_aes256cbc_plaintext(
                iterations,
                salt@,
                iv@,
                password@,
                ciphertext@,
            ) is None,
        },
{
    pkcs5::pbes2::Parameters::generate_pbkdf2_sha256_aes256cbc(iterations, salt, *iv)?.decrypt(
        password,
        ciphertext,
    )
}

/// What becomes of a plaintext that was unwrapped: it is the key if it has the length that
/// `algorithm` asks for. A missing plaintext and one of another length give the same
/// error, so that a caller cannot tell which check failed.
pub open spec fn unwrapped_key(plaintext: Option<Seq<u8>>, algorithm: EncryptionAlgorithm) -> Result<
    Seq<u8>,
    ZffError,
> {
    match plaintext {
        Some(key) => if key.len() == algorithm.spec_key_length() {
            Ok(key)
        } else {
            Err(ZffError::DecryptionFailed)
        },
        None => Err(ZffError::DecryptionFailed),
    }
}

/// Judges what the cipher gave back: returns the key if there is a plaintext of the length
/// that `algorithm` asks for, and the one error of the key unwrap otherwise.
pub fn check_unwrapped_key(plaintext: Option<Vec<u8>>, algorithm: EncryptionAlgorithm) -> (r:
    Result<Vec<u8>, ZffError>)
    ensures
        match unwrapped_key(
            match plaintext {
                Some(key) => Some(key@),
                None => None,
            },
            algorithm,
        ) {
            Ok(key) => r is Ok && r->Ok_0@ == key,
            Err(e) => r is Err && r->Err_0 == e,
        },
{
    match plaintext {
        Some(key) => {
            if key.len() == algorithm.key_length() {
                Ok(key)
            } else {
                Err(ZffError::DecryptionFailed)
            }
        },
        None => Err(ZffError::DecryptionFailed),
    }
}

/// A key that is handed out has the length that the algorithm asks for, whatever the cipher
/// gave back.
pub proof fn lemma_unwrapped_key_length(
    plaintext: Option<Seq<u8>>,
    algorithm: EncryptionAlgorithm,
)
    ensures
        unwrapped_key(plaintext, algorithm) matches Ok(key) ==> key.len()
            == algorithm.spec_key_length() && plaintext == Some(key),
        unwrapped_key(plaintext, algorithm) matches Err(e) ==> e == ZffError::DecryptionFailed,
{
}

} // verus!
