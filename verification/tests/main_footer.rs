use zff::{ByteCursor, HeaderCoding, MainFooter, ZffError};

#[test]
fn main_footer_example_round_trips() {
    let footer = MainFooter::new(2, 3, 10, 4096);
    let encoded = footer.encode_directly();
    assert_eq!(encoded.len(), 37);
    let mut cursor = ByteCursor::new(encoded);
    let decoded = MainFooter::decode_directly(&mut cursor).unwrap();
    assert_eq!(decoded.version(), 2);
    assert_eq!(decoded.number_of_segments(), 3);
    assert_eq!(decoded.number_of_objects(), 10);
    assert_eq!(decoded.footer_offset(), 4096);
    assert_eq!(cursor.position(), 37);
}

#[test]
fn main_footer_has_exact_bytes() {
    let footer = MainFooter::new(2, 3, 10, 4096);
    let mut expected: Vec<u8> = vec![0x7a, 0x66, 0x66, 0x4d];
    expected.extend_from_slice(&[25, 0, 0, 0, 0, 0, 0, 0]);
    expected.push(2);
    expected.extend_from_slice(&[3, 0, 0, 0, 0, 0, 0, 0]);
    expected.extend_from_slice(&[10, 0, 0, 0, 0, 0, 0, 0]);
    expected.extend_from_slice(&[0, 0x10, 0, 0, 0, 0, 0, 0]);
    assert_eq!(footer.encode_directly(), expected);
    assert_eq!(MainFooter::identifier(), 0x7a66_664d);
}

#[test]
fn main_footer_round_trips_at_the_limits() {
    let footer = MainFooter::new(255, u64::MAX, 0, u64::MAX - 1);
    let decoded = MainFooter::decode_content(footer.encode_header()).unwrap();
    assert_eq!(decoded.version(), 255);
    assert_eq!(decoded.number_of_segments(), u64::MAX);
    assert_eq!(decoded.number_of_objects(), 0);
    assert_eq!(decoded.footer_offset(), u64::MAX - 1);
}

#[test]
fn main_footer_cut_short_fails() {
    let bytes = MainFooter::new(2, 3, 10, 4096).encode_directly();
    for cut in 0..12usize {
        let mut cursor = ByteCursor::new(bytes[..cut].to_vec());
        let r = MainFooter::decode_directly(&mut cursor);
        assert_eq!(r.unwrap_err(), ZffError::UnexpectedEof);
        assert_eq!(cursor.position(), 0);
    }
    for cut in 12..37usize {
        let mut cursor = ByteCursor::new(bytes[..cut].to_vec());
        let r = MainFooter::decode_directly(&mut cursor);
        assert_eq!(r.unwrap_err(), ZffError::HeaderDecodeLength);
    }
    let r = MainFooter::decode_content(vec![0; 24]);
    assert_eq!(r.unwrap_err(), ZffError::UnexpectedEof);
}

#[test]
fn main_footer_is_not_a_segment_header() {
    let bytes = MainFooter::new(2, 3, 10, 4096).encode_directly();
    let mut cursor = ByteCursor::new(bytes);
    let r = zff::SegmentHeader::decode_directly(&mut cursor);
    assert_eq!(r.unwrap_err(), ZffError::HeaderDecodeMismatchIdentifier);
    let decoded = MainFooter::decode_directly(&mut cursor).unwrap();
    assert_eq!(decoded.number_of_objects(), 10);
}

#[test]
fn main_footer_is_found_behind_other_bytes() {
    let mut bytes: Vec<u8> = vec![0xab; 100];
    bytes.extend(MainFooter::new(1, 1, 1, 100).encode_directly());
    let mut cursor = ByteCursor::new(bytes);
    cursor.set_position(100);
    let decoded = MainFooter::decode_directly(&mut cursor).unwrap();
    assert_eq!(decoded.footer_offset(), 100);
    assert_eq!(cursor.remaining(), 0);
}
