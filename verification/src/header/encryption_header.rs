//! The encryption header: which cipher encrypts the data, and the key for it, wrapped
//! under a password.

use crate::codec::{le_bytes, lemma_le_bytes_len, lemma_le_value_of_bytes, lemma_pow256_values};
use crate::constants::HEADER_IDENTIFIER_ENCRYPTION_HEADER;
use crate::cursor::{parse_bytes, ByteCursor};
use crate::encryption::{
    check_unwrapped_key,
    decrypt_pbkdf2sha256_aes128cbc,
    decrypt_pbkdf2sha256_aes256cbc,
    unwrapped_key,
    EncryptionAlgorithm,
    KDFScheme,
    PBEScheme,
};
use crate::envelope::{
    lemma_record_round_trip,
    parse_record,
    record,
    HeaderCoding,
    LengthRule,
};
use crate::error::ZffError;
use crate::header::pbe_header::{KDFParameters, PBEHeader, PBEHeaderView};
use crate::value::{ValueDecoder, ValueEncoder};
use vstd::prelude::*;

verus! {

/// The encryption header contains all informations (and the **encrypted** key) for the data and header encryption.\
/// The encryption header is the only optional header part of the main header.
#[derive(Debug, Clone)]
pub struct EncryptionHeader {
    header_version: u8,
    pbe_header: PBEHeader,
    algorithm: EncryptionAlgorithm,
    encrypted_encryption_key: Vec<u8>,
    encrypted_header_nonce: [u8; 12],
}

/// The mathematical value of an [`EncryptionHeader`]. The nonce has 12 bytes.
pub struct EncryptionHeaderView {
    pub header_version: u8,
    pub pbe_header: PBEHeaderView,
    pub algorithm: EncryptionAlgorithm,
    pub encrypted_encryption_key: Seq<u8>,
    pub encrypted_header_nonce: Seq<u8>,
}

impl View for EncryptionHeader {
    type V = EncryptionHeaderView;

    closed spec fn view(&self) -> EncryptionHeaderView {
        EncryptionHeaderView {
            header_version: self.header_version,
            pbe_header: self.pbe_header@,
            algorithm: self.algorithm,
            encrypted_encryption_key: self.encrypted_encryption_key@,
            encrypted_header_nonce: self.encrypted_header_nonce@,
        }
    }
}

/// The lower-case hexadecimal digit of a number below 16.
pub open spec fn hex_digit(nibble: int) -> char {
    seq!['0', '1', '2', '3', '4', '5', '6', '7', '8', '9', 'a', 'b', 'c', 'd', 'e', 'f'][nibble]
}

/// Bytes in hexadecimal: two lower-case digits for each byte, the high half first.
pub open spec fn hex_lower(bytes: Seq<u8>) -> Seq<char> {
    Seq::new(
        2 * bytes.len(),
        |i: int|
            if i % 2 == 0 {
                hex_digit(bytes[i / 2] as int / 16)
            } else {
                hex_digit(bytes[i / 2] as int % 16)
            },
    )
}

/// Calls `hex::encode`.
///
/// Trusted: that the string holds two lower-case hexadecimal digits for each byte, in the
/// order of the bytes, the high half of a byte first, as the documentation of the function
/// says.
#[verifier::external_body]
fn hex_encode(bytes: &[u8]) -> (s: String)
    ensures
        s@ == hex_lower(bytes@),
{
    hex::encode(bytes)
}

impl EncryptionHeaderView {
    /// What the unwrapping of the key under `password` gives: the plaintext that the cipher
    /// of the pbe header finds in the wrapped key, if it has the length of a key of the
    /// algorithm; the one error of the key unwrap otherwise.
    pub open spec fn decrypted_key(self, password: Seq<u8>) -> Result<Seq<u8>, ZffError> {
        unwrapped_key(
            self.pbe_header.plaintext(password, self.encrypted_encryption_key),
            self.algorithm,
        )
    }

    /// Unwrapping is a function of header and password: two calls on the same header with the
    /// same password cannot differ. And it hands out no key of another length than the
    /// algorithm asks for.
    pub proof fn lemma_decrypted_key_determined(
        self,
        password: Seq<u8>,
        first: Result<Seq<u8>, ZffError>,
        second: Result<Seq<u8>, ZffError>,
    )
        requires
            first == self.decrypted_key(password),
            second == self.decrypted_key(password),
        ensures
            first == second,
            first matches Ok(key) ==> key.len() == self.algorithm.spec_key_length(),
            first matches Err(e) ==> e == ZffError::DecryptionFailed,
    {
    }
}

impl EncryptionHeader {
    /// creates a new encryption header by the given values.
    pub fn new(
        header_version: u8,
        pbe_header: PBEHeader,
        algorithm: EncryptionAlgorithm,
        encrypted_encryption_key: Vec<u8>,  //encrypted with set password
        encrypted_header_nonce: [u8; 12],  //used for header encryption
    ) -> (header: EncryptionHeader)
        ensures
            header@ == (EncryptionHeaderView {
                header_version,
                pbe_header: pbe_header@,
                algorithm,
                encrypted_encryption_key: encrypted_encryption_key@,
                encrypted_header_nonce: encrypted_header_nonce@,
            }),
    {
        EncryptionHeader {
            header_version,
            pbe_header,
            algorithm,
            encrypted_encryption_key,
            encrypted_header_nonce,
        }
    }

    /// returns the version of the header.
    pub fn header_version(&self) -> (version: u8)
        ensures
            version == self@.header_version,
    {
        self.header_version
    }

    /// returns the used encryption algorithm.
    pub fn algorithm(&self) -> (algorithm: &EncryptionAlgorithm)
        ensures
            *algorithm == self@.algorithm,
    {
        &self.algorithm
    }

    /// returns a reference to the inner PBE header.
    pub fn pbe_header(&self) -> (pbe_header: &PBEHeader)
        ensures
            pbe_header@ == self@.pbe_header,
    {
        &self.pbe_header
    }

    /// returns the encrypted encryption key.
    pub fn encrypted_encryption_key(&self) -> (key: &Vec<u8>)
        ensures
            key@ == self@.encrypted_encryption_key,
    {
        &self.encrypted_encryption_key
    }

    /// returns the nonce, used for header encryption
    pub fn nonce(&self) -> (nonce: &[u8; 12])
        ensures
            nonce@ == self@.encrypted_header_nonce,
    {
        &self.encrypted_header_nonce
    }

    /// returns the encrypted encryption key in hexadecimal.
    pub fn encrypted_encryption_key_hex(&self) -> (s: String)
        ensures
            s@ == hex_lower(self@.encrypted_encryption_key),
    {
        hex_encode(self.encrypted_encryption_key.as_slice())
    }

    /// tries to decrypt the encryption key
    pub fn decrypt_encryption_key(&self, password: &[u8]) -> (r: Result<Vec<u8>, ZffError>)
        ensures
            match self@.decrypted_key(password@) {
                Ok(key) => r is Ok && r->Ok_0@ == key,
                Err(e) => r is Err && r->Err_0 == e,
            },
    {
        match self.pbe_header.kdf_scheme() {
            KDFScheme::PBKDF2SHA256 => match self.pbe_header.kdf_parameters() {
                KDFParameters::PBKDF2SHA256Parameters(parameters) => {
                    let iterations: u32 = parameters.iterations();
                    let salt = parameters.salt();
                    let decrypted = match self.pbe_header.encryption_scheme() {
                        PBEScheme::AES128CBC => decrypt_pbkdf2sha256_aes128cbc(
                            iterations,
                            salt,
                            self.pbe_header.nonce(),
                            password,
                            self.encrypted_encryption_key.as_slice(),
                        ),
                        PBEScheme::AES256CBC => decrypt_pbkdf2sha256_aes256cbc(
                            iterations,
                            salt,
                            self.pbe_header.nonce(),
                            password,
                            self.encrypted_encryption_key.as_slice(),
                        ),
                    };
                    let plaintext = match decrypted {
                        Ok(plaintext) => Some(plaintext),
                        Err(_) => None,
                    };
                    check_unwrapped_key(plaintext, self.algorithm)
                },
            },
        }
    }
}

impl HeaderCoding for EncryptionHeader {
    open spec fn spec_identifier() -> u32 {
        HEADER_IDENTIFIER_ENCRYPTION_HEADER
    }

    open spec fn spec_length_rule() -> LengthRule {
        LengthRule::BodyOnly
    }

    open spec fn well_formed(model: EncryptionHeaderView) -> bool {
        PBEHeader::well_formed(model.pbe_header) && model.encrypted_header_nonce.len() == 12
    }

    open spec fn encodable(model: EncryptionHeaderView) -> bool {
        model.encrypted_encryption_key.len() <= u32::MAX
    }

    proof fn lemma_well_formed(&self) {
        self.pbe_header.lemma_well_formed();
        assert(Self::well_formed(self@));
    }

    open spec fn body(model: EncryptionHeaderView) -> Seq<u8> {
        seq![model.header_version] + record::<PBEHeader>(model.pbe_header) + seq![
            model.algorithm.raw_value(),
        ] + le_bytes(model.encrypted_encryption_key.len(), 4) + model.encrypted_encryption_key
            + model.encrypted_header_nonce
    }

    open spec fn parse_body(body: Seq<u8>) -> Result<EncryptionHeaderView, ZffError> {
        if body.len() < 1 {
            Err(ZffError::UnexpectedEof)
        } else {
            match parse_record::<PBEHeader>(body.skip(1)) {
                Err(e) => Err(e),
                Ok((pbe_header, used)) => if body.len() < 2 + used {
                    Err(ZffError::UnexpectedEof)
                } else {
                    match EncryptionAlgorithm::of_raw_value(body[1 + used as int]) {
                        None => Err(ZffError::UnknownEncryptionAlgorithm),
                        Some(algorithm) => match Vec::<u8>::spec_decode(body.skip(2 + used as int)) {
                            Err(e) => Err(e),
                            Ok((key, key_used)) => match parse_bytes(
                                body.skip(2 + used as int + key_used as int),
                                12,
                            ) {
                                Err(e) => Err(e),
                                Ok((nonce, _)) => Ok(
                                    EncryptionHeaderView {
                                        header_version: body[0],
                                        pbe_header,
                                        algorithm,
                                        encrypted_encryption_key: key,
                                        encrypted_header_nonce: nonce,
                                    },
                                ),
                            },
                        },
                    }
                },
            }
        }
    }

    proof fn lemma_body_len(model: EncryptionHeaderView) {
        assert(Self::well_formed(model) && Self::encodable(model));
        lemma_record_round_trip::<PBEHeader>(model.pbe_header, Seq::empty());
        PBEHeader::lemma_body_len(model.pbe_header);
        model.pbe_header.kdf_parameters.lemma_round_trip(model.pbe_header.pbencryption_nonce);
        lemma_le_bytes_len(model.encrypted_encryption_key.len(), 4);
    }

    proof fn lemma_body_round_trip(model: EncryptionHeaderView) {
        assert(Self::well_formed(model) && Self::encodable(model));
        let body = Self::body(model);
        let pbe = record::<PBEHeader>(model.pbe_header);
        let key = model.encrypted_encryption_key;
        let key_bytes = le_bytes(key.len(), 4) + key;
        let after_pbe = seq![model.algorithm.raw_value()] + key_bytes
            + model.encrypted_header_nonce;
        lemma_record_round_trip::<PBEHeader>(model.pbe_header, after_pbe);
        lemma_le_bytes_len(key.len(), 4);
        assert(body.skip(1) =~= pbe + after_pbe);
        assert(body.skip(2 + pbe.len() as int) =~= key_bytes + model.encrypted_header_nonce);
        assert(Vec::<u8>::spec_decode(key_bytes + model.encrypted_header_nonce) == Ok::<
            (Seq<u8>, nat),
            ZffError,
        >((key, key_bytes.len()))) by {
            let whole = key_bytes + model.encrypted_header_nonce;
            lemma_pow256_values();
            lemma_le_value_of_bytes(key.len(), 4);
            assert(whole.subrange(0, 4) =~= le_bytes(key.len(), 4));
            assert(whole.skip(4).subrange(0, key.len() as int) =~= key);
        }
        assert(body.skip(2 + pbe.len() as int + key_bytes.len() as int).subrange(0, 12)
            =~= model.encrypted_header_nonce);
    }

    fn identifier() -> (identifier: u32) {
        HEADER_IDENTIFIER_ENCRYPTION_HEADER
    }

    fn length_rule() -> (rule: LengthRule) {
        LengthRule::BodyOnly
    }

    fn encode_header(&self) -> (v: Vec<u8>) {
        let mut v: Vec<u8> = Vec::new();
        v.push(self.header_version);
        let mut pbe_header = self.pbe_header.encode_directly();
        v.append(&mut pbe_header);
        v.push(self.algorithm.as_raw_value());
        let mut key = self.encrypted_encryption_key.encode_directly();
        v.append(&mut key);
        let mut nonce = self.encrypted_header_nonce.encode_directly();
        v.append(&mut nonce);
        proof {
            assert(v@ =~= Self::body(self@));
        }
        v
    }

    fn decode_content(data: Vec<u8>) -> (r: Result<EncryptionHeader, ZffError>) {
        let mut cursor = ByteCursor::new(data);
        proof {
            assert(cursor.rest() =~= data@);
        }
        let header_version = u8::decode_directly(&mut cursor)?;
        let pbe_header = PBEHeader::decode_directly(&mut cursor)?;
        let algorithm = EncryptionAlgorithm::from_raw_value(u8::decode_directly(&mut cursor)?)?;
        let encrypted_encryption_key = Vec::<u8>::decode_directly(&mut cursor)?;
        let encrypted_header_nonce = <[u8; 12]>::decode_directly(&mut cursor)?;
        Ok(
            EncryptionHeader::new(
                header_version,
                pbe_header,
                algorithm,
                encrypted_encryption_key,
                encrypted_header_nonce,
            ),
        )
    }
}

/// A body that holds, behind a pbe header that can be read, the code of no encryption
/// algorithm is rejected as such, whatever follows the code.
pub proof fn lemma_unknown_algorithm_rejected(body: Seq<u8>)
    requires
        body.len() >= 1,
        parse_record::<PBEHeader>(body.skip(1)) is Ok,
        body.len() >= 2 + parse_record::<PBEHeader>(body.skip(1))->Ok_0.1,
        body[1 + parse_record::<PBEHeader>(body.skip(1))->Ok_0.1 as int] > 1,
    ensures
        EncryptionHeader::parse_body(body) == Err::<EncryptionHeaderView, ZffError>(
            ZffError::UnknownEncryptionAlgorithm,
        ),
{
}

} // verus!
