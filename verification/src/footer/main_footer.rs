//! The main footer: the last record of the last segment of a container.

use crate::codec::{
    le_bytes,
    le_value,
    lemma_le_bytes_len,
    lemma_le_value_of_bytes,
    lemma_pow256_values,
};
use crate::constants::FOOTER_IDENTIFIER_MAIN_FOOTER;
use crate::cursor::ByteCursor;
use crate::envelope::{HeaderCoding, LengthRule};
use crate::error::ZffError;
use crate::value::{ValueDecoder, ValueEncoder};
use vstd::prelude::*;

verus! {

/// The main footer is the last thing, which is written at the end of the last segment.\
/// This footer contains a lot of variable information (e.g. number of segments, ...).
#[derive(Debug, Clone)]
pub struct MainFooter {
    version: u8,
    number_of_segments: u64,
    number_of_objects: u64,
    /// offset in the current segment, where the footer starts.
    footer_offset: u64,
}

/// The mathematical value of a [`MainFooter`].
pub struct MainFooterView {
    pub version: u8,
    pub number_of_segments: u64,
    pub number_of_objects: u64,
    pub footer_offset: u64,
}

impl View for MainFooter {
    type V = MainFooterView;

    closed spec fn view(&self) -> MainFooterView {
        MainFooterView {
            version: self.version,
            number_of_segments: self.number_of_segments,
            number_of_objects: self.number_of_objects,
            footer_offset: self.footer_offset,
        }
    }
}

impl MainFooter {
    /// creates a new main footer with the given values.
    pub fn new(
        version: u8,
        number_of_segments: u64,
        number_of_objects: u64,
        footer_offset: u64,
    ) -> (footer: MainFooter)
        ensures
            footer@ == (MainFooterView {
                version,
                number_of_segments,
                number_of_objects,
                footer_offset,
            }),
    {
        Self { version, number_of_segments, number_of_objects, footer_offset }
    }

    /// returns the version of the footer.
    pub fn version(&self) -> (version: u8)
        ensures
            version == self@.version,
    {
        self.version
    }

    /// returns the number of segments of the container.
    pub fn number_of_segments(&self) -> (count: u64)
        ensures
            count == self@.number_of_segments,
    {
        self.number_of_segments
    }

    /// returns the number of objects of the container.
    pub fn number_of_objects(&self) -> (count: u64)
        ensures
            count == self@.number_of_objects,
    {
        self.number_of_objects
    }

    /// returns the offset in the segment at which the footer starts.
    pub fn footer_offset(&self) -> (offset: u64)
        ensures
            offset == self@.footer_offset,
    {
        self.footer_offset
    }
}

impl HeaderCoding for MainFooter {
    open spec fn spec_identifier() -> u32 {
        FOOTER_IDENTIFIER_MAIN_FOOTER
    }

    open spec fn spec_length_rule() -> LengthRule {
        LengthRule::BodyOnly
    }

    open spec fn well_formed(model: MainFooterView) -> bool {
        true
    }

    open spec fn encodable(model: MainFooterView) -> bool {
        true
    }

    proof fn lemma_well_formed(&self) {
        assert(Self::well_formed(self@));
    }

    open spec fn body(model: MainFooterView) -> Seq<u8> {
        seq![model.version] + le_bytes(model.number_of_segments as nat, 8) + le_bytes(
            model.number_of_objects as nat,
            8,
        ) + le_bytes(model.footer_offset as nat, 8)
    }

    open spec fn parse_body(body: Seq<u8>) -> Result<MainFooterView, ZffError> {
        if body.len() < 25 {
            Err(ZffError::UnexpectedEof)
        } else {
            Ok(
                MainFooterView {
                    version: body[0],
                    number_of_segments: le_value(body.subrange(1, 9)) as u64,
                    number_of_objects: le_value(body.subrange(9, 17)) as u64,
                    footer_offset: le_value(body.subrange(17, 25)) as u64,
                },
            )
        }
    }

    proof fn lemma_body_len(model: MainFooterView) {
        assert(Self::well_formed(model) && Self::encodable(model));
        lemma_le_bytes_len(model.number_of_segments as nat, 8);
        lemma_le_bytes_len(model.number_of_objects as nat, 8);
        lemma_le_bytes_len(model.footer_offset as nat, 8);
    }

    proof fn lemma_body_round_trip(model: MainFooterView) {
        assert(Self::well_formed(model) && Self::encodable(model));
        let body = Self::body(model);
        lemma_le_bytes_len(model.number_of_segments as nat, 8);
        lemma_le_bytes_len(model.number_of_objects as nat, 8);
        lemma_le_bytes_len(model.footer_offset as nat, 8);
        lemma_pow256_values();
        lemma_le_value_of_bytes(model.number_of_segments as nat, 8);
        lemma_le_value_of_bytes(model.number_of_objects as nat, 8);
        lemma_le_value_of_bytes(model.footer_offset as nat, 8);
        assert(body.subrange(1, 9) =~= le_bytes(model.number_of_segments as nat, 8));
        assert(body.subrange(9, 17) =~= le_bytes(model.number_of_objects as nat, 8));
        assert(body.subrange(17, 25) =~= le_bytes(model.footer_offset as nat, 8));
    }

    fn identifier() -> (identifier: u32) {
        FOOTER_IDENTIFIER_MAIN_FOOTER
    }

    fn length_rule() -> (rule: LengthRule) {
        LengthRule::BodyOnly
    }

    fn encode_header(&self) -> (v: Vec<u8>) {
        let mut vec: Vec<u8> = Vec::new();
        vec.append(&mut self.version.encode_directly());
        vec.append(&mut self.number_of_segments.encode_directly());
        vec.append(&mut self.number_of_objects.encode_directly());
        vec.append(&mut self.footer_offset.encode_directly());

        proof {
            assert(vec@ =~= Self::body(self@));
        }
        vec
    }

    fn decode_content(data: Vec<u8>) -> (r: Result<MainFooter, ZffError>) {
        let mut cursor = ByteCursor::new(data);
        proof {
            assert(cursor.rest() =~= data@);
            if data@.len() >= 25 {
                assert(data@.skip(1).subrange(0, 8) =~= data@.subrange(1, 9));
                assert(data@.skip(9).subrange(0, 8) =~= data@.subrange(9, 17));
                assert(data@.skip(17).subrange(0, 8) =~= data@.subrange(17, 25));
            }
        }
        let footer_version = u8::decode_directly(&mut cursor)?;
        let number_of_segments = u64::decode_directly(&mut cursor)?;
        let number_of_objects = u64::decode_directly(&mut cursor)?;
        let footer_offset = u64::decode_directly(&mut cursor)?;
        Ok(MainFooter::new(footer_version, number_of_segments, number_of_objects, footer_offset))
    }
}

} // verus!
