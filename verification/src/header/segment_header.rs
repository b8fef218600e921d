//! The segment header: which acquisition a segment file belongs to, and which segment of
//! it the file is.

use crate::codec::{
    i64_bits,
    i64_of_bits,
    le_bytes,
    le_value,
    lemma_i64_bits_round_trip,
    lemma_le_bytes_len,
    lemma_le_value_of_bytes,
    lemma_pow256_values,
};
use crate::constants::HEADER_IDENTIFIER_SEGMENT_HEADER;
use crate::cursor::ByteCursor;
use crate::envelope::{HeaderCoding, LengthRule};
use crate::error::ZffError;
use crate::value::{ValueDecoder, ValueEncoder};
use vstd::prelude::*;
use vstd::std_specs::cmp::{PartialEqSpec, PartialEqSpecImpl};

verus! {

/// The segment header contains all informations about the specific segment. Each segment has his own segment header.\
/// This header is **not** a part of the main header.\
/// The segment header has the following layout:\
///
/// | Magic <br>bytes | Header<br>length | Header<br>version | Unique<br>identifier | Segment<br>number | Length of the<br>segment |
/// |-----------------|------------------|-------------------|----------------------|-------------------|--------------------------|
/// | 4 bytes         | 8 bytes          | 1 byte            | 8 bytes              | 8 bytes           | 8 bytes                  |
/// | 0x7A666673      | uint64           | uint8             | int64               | uint64            | uint64                   |
///
/// Two segment headers are equal (`==`) if they have the same segment number, whatever
/// their other fields hold.
#[derive(Debug, Clone, Eq)]
pub struct SegmentHeader {
    header_version: u8,
    unique_identifier: i64,
    segment_number: u64,
    length_of_segment: u64,
}

/// The mathematical value of a [`SegmentHeader`].
pub struct SegmentHeaderView {
    pub header_version: u8,
    pub unique_identifier: i64,
    pub segment_number: u64,
    pub length_of_segment: u64,
}

impl View for SegmentHeader {
    type V = SegmentHeaderView;

    closed spec fn view(&self) -> SegmentHeaderView {
        SegmentHeaderView {
            header_version: self.header_version,
            unique_identifier: self.unique_identifier,
            segment_number: self.segment_number,
            length_of_segment: self.length_of_segment,
        }
    }
}

impl SegmentHeaderView {
    /// The header of the segment that follows: same version, same acquisition, the next
    /// number, and a length that is not known yet.
    pub open spec fn next(self) -> SegmentHeaderView {
        SegmentHeaderView {
            header_version: self.header_version,
            unique_identifier: self.unique_identifier,
            segment_number: (self.segment_number + 1) as u64,
            length_of_segment: 0,
        }
    }
}

impl SegmentHeader {
    /// returns a new segment header with the given values.
    pub fn new(
        header_version: u8,
        unique_identifier: i64,
        segment_number: u64,
        length_of_segment: u64,
    ) -> (header: SegmentHeader)
        ensures
            header@ == (SegmentHeaderView {
                header_version,
                unique_identifier,
                segment_number,
                length_of_segment,
            }),
    {
        Self { header_version, unique_identifier, segment_number, length_of_segment }
    }

    /// returns the version of the segment header.
    pub fn header_version(&self) -> (version: u8)
        ensures
            version == self@.header_version,
    {
        self.header_version
    }

    /// returns the unique identifier of image (each segment should have the same identifier).
    pub fn unique_identifier(&self) -> (identifier: i64)
        ensures
            identifier == self@.unique_identifier,
    {
        self.unique_identifier
    }

    /// returns the segment number.
    pub fn segment_number(&self) -> (number: u64)
        ensures
            number == self@.segment_number,
    {
        self.segment_number
    }

    /// returns the length of the segment in bytes.
    pub fn length_of_segment(&self) -> (length: u64)
        ensures
            length == self@.length_of_segment,
    {
        self.length_of_segment
    }

    /// overwrites the length value in the header with the given value. This can be useful, if you create an 'empty'
    /// header (with length=0) and want to set the length value after reading the data from source to buffer.
    pub fn set_length_of_segment(&mut self, value: u64)
        ensures
            final(self)@ == (SegmentHeaderView { length_of_segment: value, ..old(self)@ }),
    {
        self.length_of_segment = value
    }

    /// sets the segment number to the next number. This can be useful, for example,
    /// if you clone a segment header from the previous one or something like that.
    pub fn next_header(&self) -> (next: SegmentHeader)
        requires
            self@.segment_number < u64::MAX,
        ensures
            next@ == self@.next(),
            next@.segment_number == self@.segment_number + 1,
    {
        SegmentHeader {
            header_version: self.header_version,
            unique_identifier: self.unique_identifier,
            segment_number: self.segment_number + 1,
            length_of_segment: 0,
        }
    }
}

impl PartialEq for SegmentHeader {
    fn eq(&self, other: &Self) -> (equal: bool) {
        self.segment_number == other.segment_number
    }
}

impl PartialEqSpecImpl for SegmentHeader {
    open spec fn obeys_eq_spec() -> bool {
        true
    }

    open spec fn eq_spec(&self, other: &Self) -> bool {
        self@.segment_number == other@.segment_number
    }
}

/// Equality of segment headers looks at the segment number and at nothing else: headers with
/// the same number are equal whatever version, identifier and length they hold, and headers
/// with different numbers are never equal.
pub proof fn lemma_equality_is_by_segment_number(first: SegmentHeader, second: SegmentHeader)
    ensures
        first@.segment_number == second@.segment_number ==> PartialEqSpec::eq_spec(
            &first,
            &second,
        ),
        first@.segment_number != second@.segment_number ==> !PartialEqSpec::eq_spec(
            &first,
            &second,
        ),
{
}

impl HeaderCoding for SegmentHeader {
    open spec fn spec_identifier() -> u32 {
        HEADER_IDENTIFIER_SEGMENT_HEADER
    }

    open spec fn spec_length_rule() -> LengthRule {
        LengthRule::BodyOnly
    }

    open spec fn well_formed(model: SegmentHeaderView) -> bool {
        true
    }

    open spec fn encodable(model: SegmentHeaderView) -> bool {
        true
    }

    proof fn lemma_well_formed(&self) {
        assert(Self::well_formed(self@));
    }

    open spec fn body(model: SegmentHeaderView) -> Seq<u8> {
        seq![model.header_version] + le_bytes(i64_bits(model.unique_identifier), 8) + le_bytes(
            model.segment_number as nat,
            8,
        ) + le_bytes(model.length_of_segment as nat, 8)
    }

    open spec fn parse_body(body: Seq<u8>) -> Result<SegmentHeaderView, ZffError> {
        if body.len() < 25 {
            Err(ZffError::UnexpectedEof)
        } else {
            Ok(
                SegmentHeaderView {
                    header_version: body[0],
                    unique_identifier: i64_of_bits(le_value(body.subrange(1, 9))),
                    segment_number: le_value(body.subrange(9, 17)) as u64,
                    length_of_segment: le_value(body.subrange(17, 25)) as u64,
                },
            )
        }
    }

    proof fn lemma_body_len(model: SegmentHeaderView) {
        assert(Self::well_formed(model) && Self::encodable(model));
        lemma_le_bytes_len(i64_bits(model.unique_identifier), 8);
        lemma_le_bytes_len(model.segment_number as nat, 8);
        lemma_le_bytes_len(model.length_of_segment as nat, 8);
    }

    proof fn lemma_body_round_trip(model: SegmentHeaderView) {
        assert(Self::well_formed(model) && Self::encodable(model));
        let body = Self::body(model);
        let identifier = le_bytes(i64_bits(model.unique_identifier), 8);
        let number = le_bytes(model.segment_number as nat, 8);
        let length = le_bytes(model.length_of_segment as nat, 8);
        lemma_le_bytes_len(i64_bits(model.unique_identifier), 8);
        lemma_le_bytes_len(model.segment_number as nat, 8);
        lemma_le_bytes_len(model.length_of_segment as nat, 8);
        lemma_pow256_values();
        lemma_i64_bits_round_trip(model.unique_identifier);
        lemma_le_value_of_bytes(i64_bits(model.unique_identifier), 8);
        lemma_le_value_of_bytes(model.segment_number as nat, 8);
        lemma_le_value_of_bytes(model.length_of_segment as nat, 8);
        assert(body.subrange(1, 9) =~= identifier);
        assert(body.subrange(9, 17) =~= number);
        assert(body.subrange(17, 25) =~= length);
    }

    fn identifier() -> (identifier: u32) {
        HEADER_IDENTIFIER_SEGMENT_HEADER
    }

    fn length_rule() -> (rule: LengthRule) {
        LengthRule::BodyOnly
    }

    fn encode_header(&self) -> (v: Vec<u8>) {
        let mut v: Vec<u8> = Vec::new();
        v.append(&mut self.header_version.encode_directly());
        v.append(&mut self.unique_identifier.encode_directly());
        v.append(&mut self.segment_number.encode_directly());
        v.append(&mut self.length_of_segment.encode_directly());
        proof {
            assert(v@ =~= Self::body(self@));
        }
        v
    }

    fn decode_content(data: Vec<u8>) -> (r: Result<SegmentHeader, ZffError>) {
        let mut cursor = ByteCursor::new(data);
        proof {
            assert(cursor.rest() =~= data@);
            if data@.len() >= 25 {
                assert(data@.skip(1).subrange(0, 8) =~= data@.subrange(1, 9));
                assert(data@.skip(9).subrange(0, 8) =~= data@.subrange(9, 17));
                assert(data@.skip(17).subrange(0, 8) =~= data@.subrange(17, 25));
            }
        }
        let header_version = u8::decode_directly(&mut cursor)?;
        let unique_identifier = i64::decode_directly(&mut cursor)?;
        let segment_number = u64::decode_directly(&mut cursor)?;
        let length = u64::decode_directly(&mut cursor)?;
        Ok(SegmentHeader::new(header_version, unique_identifier, segment_number, length))
    }
}

} // verus!
