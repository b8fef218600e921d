use zff::constants::{ENCODING_KEY_CASE_NUMBER, ENCODING_KEY_NOTES};
use zff::{encode_key, encode_keyed, ByteCursor, ValueDecoder, ValueEncoder, ValueType, ZffError};

#[test]
fn u8_is_one_byte() {
    assert_eq!(0x2au8.encode_directly(), vec![0x2a]);
}

#[test]
fn u32_is_little_endian() {
    assert_eq!(0x0102_0304u32.encode_directly(), vec![4, 3, 2, 1]);
    assert_eq!(u32::MAX.encode_directly(), vec![0xff; 4]);
    assert_eq!(0u32.encode_directly(), vec![0; 4]);
}

#[test]
fn u64_is_little_endian() {
    assert_eq!(
        0x0102_0304_0506_0708u64.encode_directly(),
        vec![8, 7, 6, 5, 4, 3, 2, 1]
    );
    assert_eq!(4096u64.encode_directly(), vec![0, 0x10, 0, 0, 0, 0, 0, 0]);
    assert_eq!(u64::MAX.encode_directly(), vec![0xff; 8]);
}

#[test]
fn i64_is_twos_complement() {
    assert_eq!((-1i64).encode_directly(), vec![0xff; 8]);
    assert_eq!((-2i64).encode_directly(), vec![0xfe, 0xff, 0xff, 0xff, 0xff, 0xff, 0xff, 0xff]);
    assert_eq!(i64::MIN.encode_directly(), vec![0, 0, 0, 0, 0, 0, 0, 0x80]);
    assert_eq!(i64::MAX.encode_directly(), vec![0xff, 0xff, 0xff, 0xff, 0xff, 0xff, 0xff, 0x7f]);
    assert_eq!(1i64.encode_directly(), vec![1, 0, 0, 0, 0, 0, 0, 0]);
}

#[test]
fn integers_agree_with_std() {
    let values: [u64; 6] = [0, 1, 255, 256, 0xdead_beef_0bad_f00d, u64::MAX];
    for value in values {
        assert_eq!(value.encode_directly(), value.to_le_bytes().to_vec());
        let as_signed: i64 = value as i64;
        assert_eq!(as_signed.encode_directly(), as_signed.to_le_bytes().to_vec());
        let as_small: u32 = (value & 0xffff_ffff) as u32;
        assert_eq!(as_small.encode_directly(), as_small.to_le_bytes().to_vec());
    }
}

#[test]
fn array_is_raw_bytes() {
    let nonce: [u8; 12] = [1, 2, 3, 4, 5, 6, 7, 8, 9, 10, 11, 12];
    assert_eq!(nonce.encode_directly(), nonce.to_vec());
    let empty: [u8; 0] = [];
    assert_eq!(empty.encode_directly(), Vec::<u8>::new());
}

#[test]
fn buffer_has_length_prefix() {
    let buffer: Vec<u8> = vec![0xaa, 0xbb, 0xcc];
    assert_eq!(buffer.encode_directly(), vec![3, 0, 0, 0, 0xaa, 0xbb, 0xcc]);
    let empty: Vec<u8> = Vec::new();
    assert_eq!(empty.encode_directly(), vec![0, 0, 0, 0]);
    let long: Vec<u8> = vec![7; 300];
    let encoded = long.encode_directly();
    assert_eq!(encoded.len(), 304);
    assert_eq!(&encoded[..4], &[0x2c, 0x01, 0, 0]);
}

#[test]
fn decoders_chain_on_one_cursor() {
    let mut bytes: Vec<u8> = Vec::new();
    bytes.extend(7u8.encode_directly());
    bytes.extend(0xdead_beefu32.encode_directly());
    bytes.extend((-42i64).encode_directly());
    bytes.extend(u64::MAX.encode_directly());
    bytes.extend([9u8; 12].encode_directly());
    bytes.extend(vec![1u8, 2, 3].encode_directly());
    let total: usize = bytes.len();
    let mut cursor = ByteCursor::new(bytes);
    assert_eq!(u8::decode_directly(&mut cursor), Ok(7));
    assert_eq!(cursor.position(), 1);
    assert_eq!(u32::decode_directly(&mut cursor), Ok(0xdead_beef));
    assert_eq!(i64::decode_directly(&mut cursor), Ok(-42));
    assert_eq!(u64::decode_directly(&mut cursor), Ok(u64::MAX));
    assert_eq!(<[u8; 12]>::decode_directly(&mut cursor), Ok([9u8; 12]));
    assert_eq!(Vec::<u8>::decode_directly(&mut cursor), Ok(vec![1, 2, 3]));
    assert_eq!(cursor.position(), total);
    assert_eq!(cursor.remaining(), 0);
    assert_eq!(u8::decode_directly(&mut cursor), Err(ZffError::UnexpectedEof));
}

#[test]
fn short_read_fails_and_leaves_cursor() {
    let mut cursor = ByteCursor::new(vec![1, 2, 3]);
    assert_eq!(u32::decode_directly(&mut cursor), Err(ZffError::UnexpectedEof));
    assert_eq!(cursor.position(), 0);
    assert_eq!(u64::decode_directly(&mut cursor), Err(ZffError::UnexpectedEof));
    assert_eq!(i64::decode_directly(&mut cursor), Err(ZffError::UnexpectedEof));
    assert_eq!(<[u8; 12]>::decode_directly(&mut cursor), Err(ZffError::UnexpectedEof));
    assert_eq!(Vec::<u8>::decode_directly(&mut cursor), Err(ZffError::UnexpectedEof));
    assert_eq!(cursor.position(), 0);
    assert_eq!(u8::decode_directly(&mut cursor), Ok(1));
    assert_eq!(cursor.position(), 1);
}

#[test]
fn buffer_shorter_than_its_prefix_says_fails() {
    let mut cursor = ByteCursor::new(vec![0xee, 5, 0, 0, 0, 1, 2, 3, 4]);
    assert_eq!(u8::decode_directly(&mut cursor), Ok(0xee));
    assert_eq!(Vec::<u8>::decode_directly(&mut cursor), Err(ZffError::UnexpectedEof));
    assert_eq!(cursor.position(), 1);
    let mut exact = ByteCursor::new(vec![4, 0, 0, 0, 1, 2, 3, 4, 0x77]);
    assert_eq!(Vec::<u8>::decode_directly(&mut exact), Ok(vec![1, 2, 3, 4]));
    assert_eq!(exact.position(), 8);
    assert_eq!(exact.remaining(), 1);
}

#[test]
fn values_round_trip() {
    let numbers: [i64; 7] = [0, 1, -1, 255, -256, i64::MIN, i64::MAX];
    for number in numbers {
        let mut cursor = ByteCursor::new(number.encode_directly());
        assert_eq!(i64::decode_directly(&mut cursor), Ok(number));
        let unsigned: u64 = number as u64;
        let mut cursor = ByteCursor::new(unsigned.encode_directly());
        assert_eq!(u64::decode_directly(&mut cursor), Ok(unsigned));
        let small: u32 = (unsigned >> 17) as u32;
        let mut cursor = ByteCursor::new(small.encode_directly());
        assert_eq!(u32::decode_directly(&mut cursor), Ok(small));
    }
    let buffer: Vec<u8> = (0..=255u8).collect();
    let mut cursor = ByteCursor::new(buffer.encode_directly());
    assert_eq!(Vec::<u8>::decode_directly(&mut cursor), Ok(buffer));
    let signature: [u8; 64] = [0x5a; 64];
    let mut cursor = ByteCursor::new(signature.encode_directly());
    assert_eq!(<[u8; 64]>::decode_directly(&mut cursor), Ok(signature));
}

#[test]
fn cursor_reads_raw_integers() {
    let mut cursor = ByteCursor::new(vec![0x7a, 0x66, 0x66, 0x63, 3, 0, 0, 0, 0, 0, 0, 0]);
    assert_eq!(cursor.read_uint_be(4), Ok(0x7a66_6663));
    assert_eq!(cursor.read_uint_le(8), Ok(3));
    assert_eq!(cursor.read_uint_le(1), Err(ZffError::UnexpectedEof));
    cursor.set_position(4);
    assert_eq!(cursor.read_exact(2), Ok(vec![3, 0]));
    assert_eq!(cursor.read_exact(7), Err(ZffError::UnexpectedEof));
    assert_eq!(cursor.position(), 6);
    assert_eq!(cursor.into_inner().len(), 12);
}

#[test]
fn key_is_written_behind_its_length() {
    assert_eq!(encode_key(ENCODING_KEY_CASE_NUMBER), vec![2, b'c', b'n']);
    assert_eq!(encode_key(""), vec![0]);
}

#[test]
fn value_for_key_has_key_kind_and_value() {
    assert_eq!(5u8.encode_for_key(ENCODING_KEY_CASE_NUMBER), vec![2, b'c', b'n', 1, 5]);
    assert_eq!(
        0x0102_0304u32.encode_for_key("ev"),
        vec![2, b'e', b'v', 2, 4, 3, 2, 1]
    );
    assert_eq!(
        1u64.encode_for_key("as"),
        vec![2, b'a', b's', 3, 1, 0, 0, 0, 0, 0, 0, 0]
    );
    assert_eq!(
        (-1i64).encode_for_key("ae"),
        vec![2, b'a', b'e', 4, 0xff, 0xff, 0xff, 0xff, 0xff, 0xff, 0xff, 0xff]
    );
    assert_eq!([1u8, 2].encode_for_key("ex"), vec![2, b'e', b'x', 5, 1, 2]);
    assert_eq!(
        b"hi".to_vec().encode_for_key(ENCODING_KEY_NOTES),
        vec![2, b'n', b'o', 6, 2, 0, 0, 0, b'h', b'i']
    );
}

#[test]
fn keyed_bytes_are_key_kind_and_value() {
    assert_eq!(
        encode_keyed("dn", ValueType::Object, &[9, 8, 7]),
        vec![2, b'd', b'n', 0, 9, 8, 7]
    );
    assert_eq!(ValueType::Object.as_raw_value(), 0);
    assert_eq!(ValueType::Uint8.as_raw_value(), 1);
    assert_eq!(ValueType::Uint32.as_raw_value(), 2);
    assert_eq!(ValueType::Uint64.as_raw_value(), 3);
    assert_eq!(ValueType::Int64.as_raw_value(), 4);
    assert_eq!(ValueType::ByteArray.as_raw_value(), 5);
    assert_eq!(ValueType::Bytes.as_raw_value(), 6);
}
