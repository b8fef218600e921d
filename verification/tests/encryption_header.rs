use zff::encryption::check_unwrapped_key;
use zff::{
    ByteCursor, EncryptionAlgorithm, EncryptionHeader, HeaderCoding, KDFParameters, KDFScheme,
    PBEHeader, PBEScheme, PBKDF2SHA256Parameters, ZffError,
};

const SALT: [u8; 32] = [
    0, 1, 2, 3, 4, 5, 6, 7, 8, 9, 10, 11, 12, 13, 14, 15, 16, 17, 18, 19, 20, 21, 22, 23, 24, 25,
    26, 27, 28, 29, 30, 31,
];
const IV: [u8; 16] = [0xa0, 0xa1, 0xa2, 0xa3, 0xa4, 0xa5, 0xa6, 0xa7, 0xa8, 0xa9, 0xaa, 0xab, 0xac, 0xad, 0xae, 0xaf];
const HEADER_NONCE: [u8; 12] = [12, 11, 10, 9, 8, 7, 6, 5, 4, 3, 2, 1];
const ITERATIONS: u32 = 1000;
const KEY_128: [u8; 16] = [0x10, 0x11, 0x12, 0x13, 0x14, 0x15, 0x16, 0x17, 0x18, 0x19, 0x1a, 0x1b, 0x1c, 0x1d, 0x1e, 0x1f];
const KEY_256: [u8; 32] = [0x42; 32];

fn pbe_header(scheme: PBEScheme) -> PBEHeader {
    let parameters = PBKDF2SHA256Parameters::new(ITERATIONS, SALT);
    PBEHeader::new(
        1,
        KDFScheme::PBKDF2SHA256,
        scheme,
        KDFParameters::PBKDF2SHA256Parameters(parameters),
        IV,
    )
}

fn wrap(scheme: PBEScheme, password: &[u8], key: &[u8]) -> Vec<u8> {
    let parameters = match scheme {
        PBEScheme::AES128CBC => {
            pkcs5::pbes2::Parameters::generate_pbkdf2_sha256_aes128cbc(ITERATIONS, &SALT, IV)
        }
        PBEScheme::AES256CBC => {
            pkcs5::pbes2::Parameters::generate_pbkdf2_sha256_aes256cbc(ITERATIONS, &SALT, IV)
        }
    };
    parameters.unwrap().encrypt(password, key).unwrap()
}

fn encryption_header(scheme: PBEScheme, algorithm: EncryptionAlgorithm, wrapped: Vec<u8>) -> EncryptionHeader {
    EncryptionHeader::new(1, pbe_header(scheme), algorithm, wrapped, HEADER_NONCE)
}

fn pbe_body() -> Vec<u8> {
    pbe_header(PBEScheme::AES256CBC).encode_header()
}

#[test]
fn pbkdf2_parameters_have_exact_bytes() {
    let parameters = PBKDF2SHA256Parameters::new(ITERATIONS, SALT);
    let mut expected: Vec<u8> = vec![0x6b, 0x64, 0x66, 0x70];
    expected.extend_from_slice(&[36, 0, 0, 0, 0, 0, 0, 0]);
    expected.extend_from_slice(&[0xe8, 0x03, 0, 0]);
    expected.extend_from_slice(&SALT);
    assert_eq!(parameters.encode_directly(), expected);
    assert_eq!(parameters.iterations(), ITERATIONS);
    assert_eq!(parameters.salt(), &SALT);
}

#[test]
fn pbe_header_has_exact_bytes() {
    let header = pbe_header(PBEScheme::AES256CBC);
    let encoded = header.encode_directly();
    assert_eq!(&encoded[..4], &[0x7a, 0x66, 0x66, 0x70]);
    assert_eq!(&encoded[4..12], &[67, 0, 0, 0, 0, 0, 0, 0]);
    assert_eq!(&encoded[12..15], &[1, 0, 1]);
    assert_eq!(
        &encoded[15..63],
        &PBKDF2SHA256Parameters::new(ITERATIONS, SALT).encode_directly()[..]
    );
    assert_eq!(&encoded[63..], &IV);
    assert_eq!(encoded.len(), 79);
}

#[test]
fn pbe_header_round_trips() {
    for scheme in [PBEScheme::AES128CBC, PBEScheme::AES256CBC] {
        let header = pbe_header(scheme);
        let mut cursor = ByteCursor::new(header.encode_directly());
        let decoded = PBEHeader::decode_directly(&mut cursor).unwrap();
        assert_eq!(decoded.header_version(), 1);
        assert_eq!(*decoded.kdf_scheme(), KDFScheme::PBKDF2SHA256);
        assert_eq!(*decoded.encryption_scheme(), scheme);
        assert_eq!(decoded.nonce(), &IV);
        match decoded.kdf_parameters() {
            KDFParameters::PBKDF2SHA256Parameters(parameters) => {
                assert_eq!(parameters.iterations(), ITERATIONS);
                assert_eq!(parameters.salt(), &SALT);
            }
        }
        assert_eq!(cursor.remaining(), 0);
    }
}

#[test]
fn pbe_header_with_unknown_kdf_scheme_fails() {
    for code in 1..=255u8 {
        let mut body = pbe_body();
        body[1] = code;
        let r = PBEHeader::decode_content(body);
        assert_eq!(r.unwrap_err(), ZffError::UnknownKdfScheme);
        assert_eq!(KDFScheme::from_raw_value(code), Err(ZffError::UnknownKdfScheme));
    }
    assert_eq!(KDFScheme::from_raw_value(0), Ok(KDFScheme::PBKDF2SHA256));
    assert_eq!(KDFScheme::PBKDF2SHA256.as_raw_value(), 0);
}

#[test]
fn pbe_header_with_unknown_pbe_scheme_fails() {
    for code in 2..=255u8 {
        let mut body = pbe_body();
        body[2] = code;
        let r = PBEHeader::decode_content(body);
        assert_eq!(r.unwrap_err(), ZffError::UnknownPbeScheme);
        assert_eq!(PBEScheme::from_raw_value(code), Err(ZffError::UnknownPbeScheme));
    }
    assert_eq!(PBEScheme::from_raw_value(0), Ok(PBEScheme::AES128CBC));
    assert_eq!(PBEScheme::from_raw_value(1), Ok(PBEScheme::AES256CBC));
    assert_eq!(PBEScheme::AES128CBC.as_raw_value(), 0);
    assert_eq!(PBEScheme::AES256CBC.as_raw_value(), 1);
}

#[test]
fn pbe_header_with_unknown_kdf_parameters_fails() {
    let mut body = pbe_body();
    body[3] = 0x7a;
    let r = PBEHeader::decode_content(body);
    assert_eq!(r.unwrap_err(), ZffError::HeaderDecodeMismatchIdentifierKdf);
    let mut cursor = ByteCursor::new(vec![0x7a, 0x66, 0x66, 0x70, 0, 0, 0, 0, 0, 0, 0, 0]);
    let r = KDFParameters::decode_directly(&mut cursor);
    assert_eq!(r.unwrap_err(), ZffError::HeaderDecodeMismatchIdentifierKdf);
    assert_eq!(cursor.position(), 0);
}

#[test]
fn pbe_header_cut_short_fails() {
    let body = pbe_body();
    assert_eq!(body.len(), 67);
    for cut in 0..67usize {
        let r = PBEHeader::decode_content(body[..cut].to_vec());
        let expected = if (15..51).contains(&cut) {
            ZffError::HeaderDecodeLength
        } else {
            ZffError::UnexpectedEof
        };
        assert_eq!(r.unwrap_err(), expected, "cut at {}", cut);
    }
}

#[test]
fn encryption_header_has_exact_layout() {
    let wrapped: Vec<u8> = vec![0xde, 0xad, 0xbe, 0xef];
    let header = encryption_header(PBEScheme::AES128CBC, EncryptionAlgorithm::AES256GCMSIV, wrapped);
    let body = header.encode_header();
    assert_eq!(body[0], 1);
    assert_eq!(&body[1..80], &pbe_header(PBEScheme::AES128CBC).encode_directly()[..]);
    assert_eq!(body[80], 1);
    assert_eq!(&body[81..85], &[4, 0, 0, 0]);
    assert_eq!(&body[85..89], &[0xde, 0xad, 0xbe, 0xef]);
    assert_eq!(&body[89..], &HEADER_NONCE);
    let encoded = header.encode_directly();
    assert_eq!(&encoded[..4], &[0x7a, 0x66, 0x66, 0x65]);
    assert_eq!(&encoded[4..12], &[101, 0, 0, 0, 0, 0, 0, 0]);
    assert_eq!(&encoded[12..], &body[..]);
}

#[test]
fn encryption_header_round_trips() {
    for algorithm in [EncryptionAlgorithm::AES128GCMSIV, EncryptionAlgorithm::AES256GCMSIV] {
        for length in [0usize, 1, 16, 48, 1000] {
            let wrapped: Vec<u8> = (0..length).map(|index| (index % 251) as u8).collect();
            let header = encryption_header(PBEScheme::AES256CBC, algorithm, wrapped.clone());
            let mut cursor = ByteCursor::new(header.encode_directly());
            let decoded = EncryptionHeader::decode_directly(&mut cursor).unwrap();
            assert_eq!(decoded.header_version(), 1);
            assert_eq!(*decoded.algorithm(), algorithm);
            assert_eq!(decoded.encrypted_encryption_key(), &wrapped);
            assert_eq!(decoded.nonce(), &HEADER_NONCE);
            assert_eq!(*decoded.pbe_header().encryption_scheme(), PBEScheme::AES256CBC);
            assert_eq!(decoded.pbe_header().nonce(), &IV);
            assert_eq!(decoded.pbe_header().encode_directly(), header.pbe_header().encode_directly());
            assert_eq!(cursor.remaining(), 0);
        }
    }
}

#[test]
fn encryption_header_with_code_two_fails() {
    let header = encryption_header(PBEScheme::AES128CBC, EncryptionAlgorithm::AES128GCMSIV, vec![1, 2, 3]);
    for code in 2..=255u8 {
        let mut body = header.encode_header();
        body[80] = code;
        let r = EncryptionHeader::decode_content(body);
        assert_eq!(r.unwrap_err(), ZffError::UnknownEncryptionAlgorithm);
        assert_eq!(
            EncryptionAlgorithm::from_raw_value(code),
            Err(ZffError::UnknownEncryptionAlgorithm)
        );
    }
    assert_eq!(EncryptionAlgorithm::from_raw_value(0), Ok(EncryptionAlgorithm::AES128GCMSIV));
    assert_eq!(EncryptionAlgorithm::from_raw_value(1), Ok(EncryptionAlgorithm::AES256GCMSIV));
    assert_eq!(EncryptionAlgorithm::AES128GCMSIV.as_raw_value(), 0);
    assert_eq!(EncryptionAlgorithm::AES256GCMSIV.as_raw_value(), 1);
}

#[test]
fn encryption_header_passes_on_errors_of_the_pbe_header() {
    let header = encryption_header(PBEScheme::AES128CBC, EncryptionAlgorithm::AES128GCMSIV, vec![1, 2, 3]);
    let mut body = header.encode_header();
    body[1 + 12 + 1] = 9;
    assert_eq!(
        EncryptionHeader::decode_content(body).unwrap_err(),
        ZffError::UnknownKdfScheme
    );
    let mut body = header.encode_header();
    body[1 + 12 + 2] = 2;
    assert_eq!(
        EncryptionHeader::decode_content(body).unwrap_err(),
        ZffError::UnknownPbeScheme
    );
    let mut body = header.encode_header();
    body[1] = 0;
    assert_eq!(
        EncryptionHeader::decode_content(body).unwrap_err(),
        ZffError::HeaderDecodeMismatchIdentifier
    );
}

#[test]
fn encryption_header_cut_short_fails() {
    let header = encryption_header(PBEScheme::AES128CBC, EncryptionAlgorithm::AES128GCMSIV, vec![1, 2, 3]);
    let body = header.encode_header();
    assert_eq!(body.len(), 1 + 79 + 1 + 4 + 3 + 12);
    for cut in 80..body.len() {
        let r = EncryptionHeader::decode_content(body[..cut].to_vec());
        assert_eq!(r.unwrap_err(), ZffError::UnexpectedEof, "cut at {}", cut);
    }
    assert_eq!(
        EncryptionHeader::decode_content(Vec::new()).unwrap_err(),
        ZffError::UnexpectedEof
    );
    assert_eq!(
        EncryptionHeader::decode_content(body[..40].to_vec()).unwrap_err(),
        ZffError::HeaderDecodeLength
    );
}

#[test]
fn encryption_header_rejects_other_record() {
    let header = encryption_header(PBEScheme::AES128CBC, EncryptionAlgorithm::AES128GCMSIV, vec![1, 2, 3]);
    let mut bytes = header.encode_directly();
    bytes[3] = 0x45;
    let mut cursor = ByteCursor::new(bytes);
    let r = EncryptionHeader::decode_directly(&mut cursor);
    assert_eq!(r.unwrap_err(), ZffError::HeaderDecodeMismatchIdentifier);
    assert_eq!(cursor.position(), 0);
}

#[test]
fn key_is_unwrapped_with_aes128cbc() {
    let wrapped = wrap(PBEScheme::AES128CBC, b"correct horse", &KEY_128);
    assert_ne!(&wrapped[..], &KEY_128[..]);
    assert_eq!(wrapped.len(), 32);
    let header = encryption_header(PBEScheme::AES128CBC, EncryptionAlgorithm::AES128GCMSIV, wrapped);
    assert_eq!(header.decrypt_encryption_key(b"correct horse"), Ok(KEY_128.to_vec()));
}

#[test]
fn key_is_unwrapped_with_aes256cbc() {
    let wrapped = wrap(PBEScheme::AES256CBC, b"correct horse", &KEY_256);
    assert_eq!(wrapped.len(), 48);
    let header = encryption_header(PBEScheme::AES256CBC, EncryptionAlgorithm::AES256GCMSIV, wrapped);
    assert_eq!(header.decrypt_encryption_key(b"correct horse"), Ok(KEY_256.to_vec()));
}

#[test]
fn schemes_of_wrapping_and_of_encryption_are_independent() {
    let wrapped = wrap(PBEScheme::AES256CBC, b"pw", &KEY_128);
    let header = encryption_header(PBEScheme::AES256CBC, EncryptionAlgorithm::AES128GCMSIV, wrapped);
    assert_eq!(header.decrypt_encryption_key(b"pw"), Ok(KEY_128.to_vec()));
    let wrapped = wrap(PBEScheme::AES128CBC, b"pw", &KEY_256);
    let header = encryption_header(PBEScheme::AES128CBC, EncryptionAlgorithm::AES256GCMSIV, wrapped);
    assert_eq!(header.decrypt_encryption_key(b"pw"), Ok(KEY_256.to_vec()));
}

#[test]
fn key_unwrap_follows_a_known_answer() {
    let wrapped: Vec<u8> = wrap(PBEScheme::AES128CBC, b"password", &KEY_128);
    let again: Vec<u8> = wrap(PBEScheme::AES128CBC, b"password", &KEY_128);
    assert_eq!(wrapped, again);
    let other = wrap(PBEScheme::AES256CBC, b"password", &KEY_128);
    assert_ne!(wrapped, other);
    let header = encryption_header(PBEScheme::AES256CBC, EncryptionAlgorithm::AES128GCMSIV, wrapped);
    assert_eq!(header.decrypt_encryption_key(b"password"), Err(ZffError::DecryptionFailed));
}

#[test]
fn wrong_password_fails() {
    let wrapped = wrap(PBEScheme::AES128CBC, b"correct horse", &KEY_128);
    let header = encryption_header(PBEScheme::AES128CBC, EncryptionAlgorithm::AES128GCMSIV, wrapped);
    for password in [&b"correct horsf"[..], &b""[..], &b"Correct horse"[..], &b"battery"[..]] {
        assert_eq!(header.decrypt_encryption_key(password), Err(ZffError::DecryptionFailed));
    }
}

#[test]
fn key_of_the_wrong_length_fails_like_a_wrong_password() {
    let wrapped = wrap(PBEScheme::AES128CBC, b"pw", &KEY_128);
    let header = encryption_header(PBEScheme::AES128CBC, EncryptionAlgorithm::AES256GCMSIV, wrapped);
    assert_eq!(header.decrypt_encryption_key(b"pw"), Err(ZffError::DecryptionFailed));
    let wrapped = wrap(PBEScheme::AES128CBC, b"pw", &KEY_256);
    let header = encryption_header(PBEScheme::AES128CBC, EncryptionAlgorithm::AES128GCMSIV, wrapped);
    assert_eq!(header.decrypt_encryption_key(b"pw"), Err(ZffError::DecryptionFailed));
    let wrapped = wrap(PBEScheme::AES128CBC, b"pw", &[]);
    let header = encryption_header(PBEScheme::AES128CBC, EncryptionAlgorithm::AES128GCMSIV, wrapped);
    assert_eq!(header.decrypt_encryption_key(b"pw"), Err(ZffError::DecryptionFailed));
}

#[test]
fn ciphertext_that_is_no_whole_block_fails() {
    for length in [0usize, 1, 15, 17, 31] {
        let header = encryption_header(
            PBEScheme::AES128CBC,
            EncryptionAlgorithm::AES128GCMSIV,
            vec![0x55; length],
        );
        assert_eq!(header.decrypt_encryption_key(b"pw"), Err(ZffError::DecryptionFailed));
    }
}

#[test]
fn key_unwrap_gives_the_same_on_every_call() {
    let wrapped = wrap(PBEScheme::AES256CBC, b"secret", &KEY_256);
    let header = encryption_header(PBEScheme::AES256CBC, EncryptionAlgorithm::AES256GCMSIV, wrapped);
    let first = header.decrypt_encryption_key(b"secret");
    let second = header.decrypt_encryption_key(b"secret");
    let third = header.clone().decrypt_encryption_key(b"secret");
    assert_eq!(first, second);
    assert_eq!(first, third);
    assert_eq!(first, Ok(KEY_256.to_vec()));
    let failed = header.decrypt_encryption_key(b"secre");
    assert_eq!(failed, header.decrypt_encryption_key(b"secre"));
    assert_eq!(failed, Err(ZffError::DecryptionFailed));
}

#[test]
fn key_unwrap_survives_the_encoding() {
    let wrapped = wrap(PBEScheme::AES128CBC, b"secret", &KEY_128);
    let header = encryption_header(PBEScheme::AES128CBC, EncryptionAlgorithm::AES128GCMSIV, wrapped);
    let mut cursor = ByteCursor::new(header.encode_directly());
    let decoded = EncryptionHeader::decode_directly(&mut cursor).unwrap();
    assert_eq!(decoded.decrypt_encryption_key(b"secret"), Ok(KEY_128.to_vec()));
}

#[test]
fn unwrapped_key_is_judged_by_its_length() {
    let aes128 = EncryptionAlgorithm::AES128GCMSIV;
    let aes256 = EncryptionAlgorithm::AES256GCMSIV;
    assert_eq!(check_unwrapped_key(Some(vec![1; 16]), aes128), Ok(vec![1; 16]));
    assert_eq!(check_unwrapped_key(Some(vec![1; 32]), aes256), Ok(vec![1; 32]));
    assert_eq!(check_unwrapped_key(Some(vec![1; 32]), aes128), Err(ZffError::DecryptionFailed));
    assert_eq!(check_unwrapped_key(Some(vec![1; 16]), aes256), Err(ZffError::DecryptionFailed));
    assert_eq!(check_unwrapped_key(Some(vec![1; 15]), aes128), Err(ZffError::DecryptionFailed));
    assert_eq!(check_unwrapped_key(Some(Vec::new()), aes128), Err(ZffError::DecryptionFailed));
    assert_eq!(check_unwrapped_key(None, aes128), Err(ZffError::DecryptionFailed));
    assert_eq!(check_unwrapped_key(None, aes256), Err(ZffError::DecryptionFailed));
    assert_eq!(aes128.key_length(), 16);
    assert_eq!(aes256.key_length(), 32);
}

#[test]
fn wrapped_key_in_hexadecimal() {
    let header = encryption_header(
        PBEScheme::AES128CBC,
        EncryptionAlgorithm::AES128GCMSIV,
        vec![0x00, 0x01, 0x0f, 0x10, 0xab, 0xff],
    );
    assert_eq!(header.encrypted_encryption_key_hex(), "00010f10abff");
    let empty = EncryptionHeader::new(
        1,
        pbe_header(PBEScheme::AES128CBC),
        EncryptionAlgorithm::AES128GCMSIV,
        Vec::new(),
        HEADER_NONCE,
    );
    assert_eq!(empty.encrypted_encryption_key_hex(), "");
}
