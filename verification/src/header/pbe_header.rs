//! The header of the password-based encryption: how the key that wraps the encryption key
//! is derived from the password, and which cipher wraps with it.

use crate::codec::{
    le_bytes,
    le_value,
    lemma_le_bytes_len,
    lemma_le_value_of_bytes,
    lemma_pow256_values,
};
use crate::constants::{HEADER_IDENTIFIER_PBE_HEADER, PBE_KDF_PARAMETERS};
use crate::cursor::{decoded, parse_bytes, ByteCursor};
use crate::encryption::{
    pbkdf2sha256_aes128cbc_plaintext,
    pbkdf2sha256_aes256cbc_plaintext,
    KDFScheme,
    PBEScheme,
};
use crate::envelope::{
    lemma_record_round_trip,
    parse_record,
    record,
    HeaderCoding,
    LengthRule,
};
use crate::error::ZffError;
use crate::value::{ValueDecoder, ValueEncoder};
use vstd::prelude::*;

verus! {

/// The parameters of PBKDF2 with HMAC-SHA256.
#[derive(Debug, Clone)]
pub struct PBKDF2SHA256Parameters {
    iterations: u32,
    salt: [u8; 32],
}

/// The mathematical value of [`PBKDF2SHA256Parameters`]. The salt has 32 bytes.
pub struct PBKDF2SHA256ParametersView {
    pub iterations: u32,
    pub salt: Seq<u8>,
}

impl View for PBKDF2SHA256Parameters {
    type V = PBKDF2SHA256ParametersView;

    closed spec fn view(&self) -> PBKDF2SHA256ParametersView {
        PBKDF2SHA256ParametersView { iterations: self.iterations, salt: self.salt@ }
    }
}

impl PBKDF2SHA256Parameters {
    /// returns a new set of parameters with the given values.
    pub fn new(iterations: u32, salt: [u8; 32]) -> (parameters: PBKDF2SHA256Parameters)
        ensures
            parameters@ == (PBKDF2SHA256ParametersView { iterations, salt: salt@ }),
    {
        PBKDF2SHA256Parameters { iterations, salt }
    }

    /// returns the number of iterations.
    pub fn iterations(&self) -> (iterations: u32)
        ensures
            iterations == self@.iterations,
    {
        self.iterations
    }

    /// returns the salt.
    pub fn salt(&self) -> (salt: &[u8; 32])
        ensures
            salt@ == self@.salt,
    {
        &self.salt
    }
}

impl HeaderCoding for PBKDF2SHA256Parameters {
    open spec fn spec_identifier() -> u32 {
        PBE_KDF_PARAMETERS
    }

    open spec fn spec_length_rule() -> LengthRule {
        LengthRule::BodyOnly
    }

    open spec fn well_formed(model: PBKDF2SHA256ParametersView) -> bool {
        model.salt.len() == 32
    }

    open spec fn encodable(model: PBKDF2SHA256ParametersView) -> bool {
        true
    }

    proof fn lemma_well_formed(&self) {
        assert(Self::well_formed(self@));
    }

    open spec fn body(model: PBKDF2SHA256ParametersView) -> Seq<u8> {
        le_bytes(model.iterations as nat, 4) + model.salt
    }

    open spec fn parse_body(body: Seq<u8>) -> Result<PBKDF2SHA256ParametersView, ZffError> {
        if body.len() < 36 {
            Err(ZffError::UnexpectedEof)
        } else {
            Ok(
                PBKDF2SHA256ParametersView {
                    iterations: le_value(body.subrange(0, 4)) as u32,
                    salt: body.subrange(4, 36),
                },
            )
        }
    }

    proof fn lemma_body_len(model: PBKDF2SHA256ParametersView) {
        assert(Self::well_formed(model) && Self::encodable(model));
        lemma_le_bytes_len(model.iterations as nat, 4);
    }

    proof fn lemma_body_round_trip(model: PBKDF2SHA256ParametersView) {
        assert(Self::well_formed(model) && Self::encodable(model));
        let body = Self::body(model);
        lemma_pow256_values();
        lemma_le_bytes_len(model.iterations as nat, 4);
        lemma_le_value_of_bytes(model.iterations as nat, 4);
        assert(body.subrange(0, 4) =~= le_bytes(model.iterations as nat, 4));
        assert(body.subrange(4, 36) =~= model.salt);
    }

    fn identifier() -> (identifier: u32) {
        PBE_KDF_PARAMETERS
    }

    fn length_rule() -> (rule: LengthRule) {
        LengthRule::BodyOnly
    }

    fn encode_header(&self) -> (v: Vec<u8>) {
        let mut v = self.iterations.encode_directly();
        let mut salt = self.salt.encode_directly();
        v.append(&mut salt);
        v
    }

    fn decode_content(data: Vec<u8>) -> (r: Result<PBKDF2SHA256Parameters, ZffError>) {
        let mut cursor = ByteCursor::new(data);
        proof {
            assert(cursor.rest() =~= data@);
        }
        let iterations = u32::decode_directly(&mut cursor)?;
        proof {
            if data@.len() >= 36 {
                assert(cursor.rest().subrange(0, 32) =~= data@.subrange(4, 36));
            }
        }
        let salt = <[u8; 32]>::decode_directly(&mut cursor)?;
        Ok(PBKDF2SHA256Parameters::new(iterations, salt))
    }
}

/// The parameters of the key derivation, by scheme.
#[derive(Debug, Clone)]
pub enum KDFParameters {
    /// The parameters of PBKDF2 with HMAC-SHA256.
    PBKDF2SHA256Parameters(PBKDF2SHA256Parameters),
}

/// The mathematical value of [`KDFParameters`].
pub enum KDFParametersView {
    PBKDF2SHA256Parameters(PBKDF2SHA256ParametersView),
}

impl View for KDFParameters {
    type V = KDFParametersView;

    open spec fn view(&self) -> KDFParametersView {
        match self {
            KDFParameters::PBKDF2SHA256Parameters(parameters) => {
                KDFParametersView::PBKDF2SHA256Parameters(parameters@)
            },
        }
    }
}

impl KDFParametersView {
    /// Whether the fields of the parameters are within their domains.
    pub open spec fn well_formed(self) -> bool {
        match self {
            KDFParametersView::PBKDF2SHA256Parameters(parameters) => {
                PBKDF2SHA256Parameters::well_formed(parameters)
            },
        }
    }

    /// The parameters on disk: the record of the parameters of their scheme.
    pub open spec fn encoding(self) -> Seq<u8> {
        match self {
            KDFParametersView::PBKDF2SHA256Parameters(parameters) => {
                record::<PBKDF2SHA256Parameters>(parameters)
            },
        }
    }

    /// What the bytes `rest` hold at their start, read as parameters of a key derivation:
    /// the identifier tells the scheme. An identifier of no known scheme is an error of its
    /// own.
    pub open spec fn parse(rest: Seq<u8>) -> Result<(KDFParametersView, nat), ZffError> {
        match parse_record::<PBKDF2SHA256Parameters>(rest) {
            Ok((parameters, used)) => Ok(
                (KDFParametersView::PBKDF2SHA256Parameters(parameters), used),
            ),
            Err(e) => if e == ZffError::HeaderDecodeMismatchIdentifier {
                Err(ZffError::HeaderDecodeMismatchIdentifierKdf)
            } else {
                Err(e)
            },
        }
    }

    /// Parameters that were written are read back as they were, whatever follows them.
    pub proof fn lemma_round_trip(self, suffix: Seq<u8>)
        requires
            self.well_formed(),
        ensures
            KDFParametersView::parse(self.encoding() + suffix) == Ok::<
                (KDFParametersView, nat),
                ZffError,
            >((self, self.encoding().len())),
            self.encoding().len() == 48,
    {
        match self {
            KDFParametersView::PBKDF2SHA256Parameters(parameters) => {
                lemma_record_round_trip::<PBKDF2SHA256Parameters>(parameters, suffix);
                lemma_le_bytes_len(parameters.iterations as nat, 4);
            },
        }
    }
}

impl KDFParameters {
    /// The fields of parameters in memory are within their domains.
    pub proof fn lemma_well_formed(&self)
        ensures
            self@.well_formed(),
    {
        match self {
            KDFParameters::PBKDF2SHA256Parameters(parameters) => {
                parameters.lemma_well_formed();
            },
        }
    }

    /// Encodes the parameters with their envelope.
    pub fn encode_directly(&self) -> (v: Vec<u8>)
        ensures
            v@ == self@.encoding(),
    {
        match self {
            KDFParameters::PBKDF2SHA256Parameters(parameters) => parameters.encode_directly(),
        }
    }

    /// Decodes the parameters at the cursor.
    pub fn decode_directly(cursor: &mut ByteCursor) -> (r: Result<KDFParameters, ZffError>)
        ensures
            decoded(
                *old(cursor),
                *final(cursor),
                r,
                KDFParametersView::parse(old(cursor).rest()),
            ),
    {
        match PBKDF2SHA256Parameters::decode_directly(cursor) {
            Ok(parameters) => Ok(KDFParameters::PBKDF2SHA256Parameters(parameters)),
            Err(ZffError::HeaderDecodeMismatchIdentifier) => Err(
                ZffError::HeaderDecodeMismatchIdentifierKdf,
            ),
            Err(e) => Err(e),
        }
    }
}

/// The pbe header contains all informations for the encryption of the encryption key.
#[derive(Debug, Clone)]
pub struct PBEHeader {
    header_version: u8,
    kdf_scheme: KDFScheme,
    encryption_scheme: PBEScheme,
    kdf_parameters: KDFParameters,
    pbencryption_nonce: [u8; 16],
}

/// The mathematical value of a [`PBEHeader`]. The nonce has 16 bytes.
pub struct PBEHeaderView {
    pub header_version: u8,
    pub kdf_scheme: KDFScheme,
    pub encryption_scheme: PBEScheme,
    pub kdf_parameters: KDFParametersView,
    pub pbencryption_nonce: Seq<u8>,
}

impl View for PBEHeader {
    type V = PBEHeaderView;

    closed spec fn view(&self) -> PBEHeaderView {
        PBEHeaderView {
            header_version: self.header_version,
            kdf_scheme: self.kdf_scheme,
            encryption_scheme: self.encryption_scheme,
            kdf_parameters: self.kdf_parameters@,
            pbencryption_nonce: self.pbencryption_nonce@,
        }
    }
}

impl PBEHeaderView {
    /// The plaintext that the cipher of this header finds in `ciphertext` under `password`:
    /// the scheme picks the cipher, the parameters of the key derivation and the nonce
    /// of the header are handed to it.
    pub open spec fn plaintext(self, password: Seq<u8>, ciphertext: Seq<u8>) -> Option<Seq<u8>> {
        match self.kdf_parameters {
            KDFParametersView::PBKDF2SHA256Parameters(parameters) => match self.encryption_scheme {
                PBEScheme::AES128CBC => pbkdf2sha256_aes128cbc_plaintext(
                    parameters.iterations,
                    parameters.salt,
                    self.pbencryption_nonce,
                    password,
                    ciphertext,
                ),
                PBEScheme::AES256CBC => pbkdf2sha256_aes256cbc_plaintext(
                    parameters.iterations,
                    parameters.salt,
                    self.pbencryption_nonce,
                    password,
                    ciphertext,
                ),
            },
        }
    }
}

impl PBEHeader {
    /// returns a new pbe header with the given values.
    pub fn new(
        header_version: u8,
        kdf_scheme: KDFScheme,
        encryption_scheme: PBEScheme,
        kdf_parameters: KDFParameters,
        pbencryption_nonce: [u8; 16],
    ) -> (header: PBEHeader)
        ensures
            header@ == (PBEHeaderView {
                header_version,
                kdf_scheme,
                encryption_scheme,
                kdf_parameters: kdf_parameters@,
                pbencryption_nonce: pbencryption_nonce@,
            }),
    {
        PBEHeader {
            header_version,
            kdf_scheme,
            encryption_scheme,
            kdf_parameters,
            pbencryption_nonce,
        }
    }

    /// returns the version of the pbe header.
    pub fn header_version(&self) -> (version: u8)
        ensures
            version == self@.header_version,
    {
        self.header_version
    }

    /// returns the kdf scheme.
    pub fn kdf_scheme(&self) -> (scheme: &KDFScheme)
        ensures
            *scheme == self@.kdf_scheme,
    {
        &self.kdf_scheme
    }

    /// returns the encryption scheme.
    pub fn encryption_scheme(&self) -> (scheme: &PBEScheme)
        ensures
            *scheme == self@.encryption_scheme,
    {
        &self.encryption_scheme
    }

    /// returns the kdf parameters.
    pub fn kdf_parameters(&self) -> (parameters: &KDFParameters)
        ensures
            parameters@ == self@.kdf_parameters,
    {
        &self.kdf_parameters
    }

    /// returns the pbe nonce.
    pub fn nonce(&self) -> (nonce: &[u8; 16])
        ensures
            nonce@ == self@.pbencryption_nonce,
    {
        &self.pbencryption_nonce
    }
}

impl HeaderCoding for PBEHeader {
    open spec fn spec_identifier() -> u32 {
        HEADER_IDENTIFIER_PBE_HEADER
    }

    open spec fn spec_length_rule() -> LengthRule {
        LengthRule::BodyOnly
    }

    open spec fn well_formed(model: PBEHeaderView) -> bool {
        model.kdf_parameters.well_formed() && model.pbencryption_nonce.len() == 16
    }

    open spec fn encodable(model: PBEHeaderView) -> bool {
        true
    }

    proof fn lemma_well_formed(&self) {
        self.kdf_parameters.lemma_well_formed();
        assert(Self::well_formed(self@));
    }

    open spec fn body(model: PBEHeaderView) -> Seq<u8> {
        seq![
            model.header_version,
            model.kdf_scheme.raw_value(),
            model.encryption_scheme.raw_value(),
        ] + model.kdf_parameters.encoding() + model.pbencryption_nonce
    }

    open spec fn parse_body(body: Seq<u8>) -> Result<PBEHeaderView, ZffError> {
        if body.len() < 2 {
            Err(ZffError::UnexpectedEof)
        } else {
            match KDFScheme::of_raw_value(body[1]) {
                None => Err(ZffError::UnknownKdfScheme),
                Some(kdf_scheme) => if body.len() < 3 {
                    Err(ZffError::UnexpectedEof)
                } else {
                    match PBEScheme::of_raw_value(body[2]) {
                        None => Err(ZffError::UnknownPbeScheme),
                        Some(encryption_scheme) => match KDFParametersView::parse(body.skip(3)) {
                            Err(e) => Err(e),
                            Ok((kdf_parameters, used)) => match parse_bytes(
                                body.skip(3 + used as int),
                                16,
                            ) {
                                Err(e) => Err(e),
                                Ok((nonce, _)) => Ok(
                                    PBEHeaderView {
                                        header_version: body[0],
                                        kdf_scheme,
                                        encryption_scheme,
                                        kdf_parameters,
                                        pbencryption_nonce: nonce,
                                    },
                                ),
                            },
                        },
                    }
                },
            }
        }
    }

    proof fn lemma_body_len(model: PBEHeaderView) {
        assert(Self::well_formed(model) && Self::encodable(model));
        model.kdf_parameters.lemma_round_trip(model.pbencryption_nonce);
    }

    proof fn lemma_body_round_trip(model: PBEHeaderView) {
        assert(Self::well_formed(model) && Self::encodable(model));
        let body = Self::body(model);
        let parameters = model.kdf_parameters.encoding();
        model.kdf_parameters.lemma_round_trip(model.pbencryption_nonce);
        assert(body.skip(3) =~= parameters + model.pbencryption_nonce);
        assert(body.skip(3 + parameters.len() as int).subrange(0, 16)
            =~= model.pbencryption_nonce);
    }

    fn identifier() -> (identifier: u32) {
        HEADER_IDENTIFIER_PBE_HEADER
    }

    fn length_rule() -> (rule: LengthRule) {
        LengthRule::BodyOnly
    }

    fn encode_header(&self) -> (v: Vec<u8>) {
        let mut v: Vec<u8> = Vec::new();
        v.push(self.header_version);
        v.push(self.kdf_scheme.as_raw_value());
        v.push(self.encryption_scheme.as_raw_value());
        let mut parameters = self.kdf_parameters.encode_directly();
        v.append(&mut parameters);
        let mut nonce = self.pbencryption_nonce.encode_directly();
        v.append(&mut nonce);
        proof {
            assert(v@ =~= Self::body(self@));
        }
        v
    }

    fn decode_content(data: Vec<u8>) -> (r: Result<PBEHeader, ZffError>) {
        let mut cursor = ByteCursor::new(data);
        proof {
            assert(cursor.rest() =~= data@);
        }
        let header_version = u8::decode_directly(&mut cursor)?;
        let kdf_scheme = KDFScheme::from_raw_value(u8::decode_directly(&mut cursor)?)?;
        let encryption_scheme = PBEScheme::from_raw_value(u8::decode_directly(&mut cursor)?)?;
        let kdf_parameters = KDFParameters::decode_directly(&mut cursor)?;
        let pbencryption_nonce = <[u8; 16]>::decode_directly(&mut cursor)?;
        Ok(
            PBEHeader::new(
                header_version,
                kdf_scheme,
                encryption_scheme,
                kdf_parameters,
                pbencryption_nonce,
            ),
        )
    }
}

/// A body whose second byte is the code of no key derivation scheme, or whose third byte is
/// the code of no encryption scheme, is rejected as such, whatever else it holds.
pub proof fn lemma_unknown_scheme_rejected(body: Seq<u8>)
    requires
        body.len() >= 3,
    ensures
        body[1] > 0 ==> PBEHeader::parse_body(body) == Err::<PBEHeaderView, ZffError>(
            ZffError::UnknownKdfScheme,
        ),
        body[1] == 0 && body[2] > 1 ==> PBEHeader::parse_body(body) == Err::<
            PBEHeaderView,
            ZffError,
        >(ZffError::UnknownPbeScheme),
{
}

} // verus!
