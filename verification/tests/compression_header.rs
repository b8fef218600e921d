use zff::constants::DEFAULT_CHUNK_SIZE;
use zff::{ByteCursor, CompressionAlgorithm, CompressionHeader, HeaderCoding, ZffError};

#[test]
fn compression_header_example_bytes() {
    let header = CompressionHeader::new(1, CompressionAlgorithm::Zstd, 5);
    let encoded = header.encode_directly();
    assert_eq!(encoded.len(), 15);
    assert_eq!(&encoded[..4], &[0x7a, 0x66, 0x66, 0x63]);
    assert_eq!(&encoded[4..12], &[3, 0, 0, 0, 0, 0, 0, 0]);
    assert_eq!(&encoded[12..], &[1, 1, 5]);
    let mut cursor = ByteCursor::new(encoded);
    let decoded = CompressionHeader::decode_directly(&mut cursor).unwrap();
    assert_eq!(*decoded.header_version(), 1);
    assert_eq!(*decoded.compression_algorithm(), CompressionAlgorithm::Zstd);
    assert_eq!(*decoded.compression_level(), 5);
    assert_eq!(cursor.position(), 15);
}

#[test]
fn compression_header_round_trips() {
    for algorithm in [CompressionAlgorithm::NoCompression, CompressionAlgorithm::Zstd] {
        for version in [0u8, 1, 255] {
            for level in [0u8, 3, 22, 255] {
                let header = CompressionHeader::new(version, algorithm, level);
                let mut cursor = ByteCursor::new(header.encode_directly());
                let decoded = CompressionHeader::decode_directly(&mut cursor).unwrap();
                assert_eq!(*decoded.header_version(), version);
                assert_eq!(*decoded.compression_algorithm(), algorithm);
                assert_eq!(*decoded.compression_level(), level);
            }
        }
    }
}

#[test]
fn compression_header_body_is_three_bytes() {
    let header = CompressionHeader::new(7, CompressionAlgorithm::NoCompression, 9);
    assert_eq!(header.encode_header(), vec![7, 0, 9]);
    assert_eq!(CompressionHeader::identifier(), 0x7a66_6663);
}

#[test]
fn compression_header_with_code_two_fails() {
    let r = CompressionHeader::decode_content(vec![1, 2, 5]);
    assert_eq!(r.unwrap_err(), ZffError::UnknownCompressionAlgorithm);
    let mut bytes = CompressionHeader::new(1, CompressionAlgorithm::Zstd, 5).encode_directly();
    bytes[13] = 2;
    let mut cursor = ByteCursor::new(bytes);
    let r = CompressionHeader::decode_directly(&mut cursor);
    assert_eq!(r.unwrap_err(), ZffError::UnknownCompressionAlgorithm);
    assert_eq!(cursor.position(), 0);
}

#[test]
fn compression_header_rejects_every_unknown_code() {
    for code in 2..=255u8 {
        let r = CompressionHeader::decode_content(vec![1, code, 5]);
        assert_eq!(r.unwrap_err(), ZffError::UnknownCompressionAlgorithm);
        assert_eq!(
            CompressionAlgorithm::from_value(code),
            Err(ZffError::UnknownCompressionAlgorithm)
        );
    }
}

#[test]
fn compression_header_cut_short_fails() {
    assert_eq!(
        CompressionHeader::decode_content(vec![]).unwrap_err(),
        ZffError::UnexpectedEof
    );
    assert_eq!(
        CompressionHeader::decode_content(vec![1]).unwrap_err(),
        ZffError::UnexpectedEof
    );
    assert_eq!(
        CompressionHeader::decode_content(vec![1, 1]).unwrap_err(),
        ZffError::UnexpectedEof
    );
    assert_eq!(
        CompressionHeader::decode_content(vec![1, 9]).unwrap_err(),
        ZffError::UnknownCompressionAlgorithm
    );
}

#[test]
fn compression_header_rejects_other_record() {
    let mut bytes = CompressionHeader::new(1, CompressionAlgorithm::Zstd, 5).encode_directly();
    bytes[3] = 0x73;
    let mut cursor = ByteCursor::new(bytes);
    let r = CompressionHeader::decode_directly(&mut cursor);
    assert_eq!(r.unwrap_err(), ZffError::HeaderDecodeMismatchIdentifier);
}

#[test]
fn compression_algorithm_codes() {
    assert_eq!(CompressionAlgorithm::NoCompression.get_value(), 0);
    assert_eq!(CompressionAlgorithm::Zstd.get_value(), 1);
    assert_eq!(CompressionAlgorithm::from_value(0), Ok(CompressionAlgorithm::NoCompression));
    assert_eq!(CompressionAlgorithm::from_value(1), Ok(CompressionAlgorithm::Zstd));
}

#[test]
fn compression_header_for_key() {
    let header = CompressionHeader::new(1, CompressionAlgorithm::Zstd, 5);
    let keyed = header.encode_for_key("co");
    let mut expected: Vec<u8> = vec![2, b'c', b'o', 0];
    expected.extend(header.encode_directly());
    assert_eq!(keyed, expected);
}

#[test]
fn default_chunk_size_is_two_to_the_fifteenth() {
    assert_eq!(DEFAULT_CHUNK_SIZE, 15);
    assert_eq!(1u32 << DEFAULT_CHUNK_SIZE, 32768);
}
