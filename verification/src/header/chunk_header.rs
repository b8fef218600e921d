//! The chunk header: the number of a chunk, the size of what is stored for it, the
//! checksum of its data and, where the container is signed, its signature.

use crate::codec::{
    le_bytes,
    le_value,
    lemma_le_bytes_len,
    lemma_le_value_of_bytes,
    lemma_pow256_values,
};
use crate::constants::{ED25519_DALEK_SIGNATURE_LEN, HEADER_IDENTIFIER_CHUNK_HEADER};
use crate::cursor::ByteCursor;
use crate::envelope::{HeaderCoding, LengthRule};
use crate::error::ZffError;
use crate::value::{ValueDecoder, ValueEncoder};
use vstd::prelude::*;

verus! {

/// The header of a chunk. The length field of its envelope counts the 12 bytes of
/// identifier and length together with the body.
#[derive(Debug, Clone)]
pub struct ChunkHeader {
    header_version: u8,
    chunk_number: u64,
    chunk_size: u64,
    crc32: u32,
    ed25519_signature: Option<[u8; ED25519_DALEK_SIGNATURE_LEN]>,
}

/// The mathematical value of a [`ChunkHeader`]. A signature has 64 bytes.
pub struct ChunkHeaderView {
    pub header_version: u8,
    pub chunk_number: u64,
    pub chunk_size: u64,
    pub crc32: u32,
    pub ed25519_signature: Option<Seq<u8>>,
}

/// The bytes of a signature, where there is one.
pub open spec fn signature_view(signature: Option<[u8; ED25519_DALEK_SIGNATURE_LEN]>) -> Option<Seq<u8>> {
    match signature {
        Some(bytes) => Some(bytes@),
        None => None,
    }
}

impl View for ChunkHeader {
    type V = ChunkHeaderView;

    closed spec fn view(&self) -> ChunkHeaderView {
        ChunkHeaderView {
            header_version: self.header_version,
            chunk_number: self.chunk_number,
            chunk_size: self.chunk_size,
            crc32: self.crc32,
            ed25519_signature: signature_view(self.ed25519_signature),
        }
    }
}

impl ChunkHeaderView {
    /// The header of a chunk of which only version and number are known: size and checksum
    /// are 0, and there is no signature.
    pub open spec fn empty(header_version: u8, chunk_number: u64) -> ChunkHeaderView {
        ChunkHeaderView {
            header_version,
            chunk_number,
            chunk_size: 0,
            crc32: 0,
            ed25519_signature: None,
        }
    }

    /// The header for the chunk that follows: the next number, and nothing known of the
    /// data yet.
    pub open spec fn advanced(self) -> ChunkHeaderView {
        ChunkHeaderView::empty(self.header_version, (self.chunk_number + 1) as u64)
    }

    /// The header after `count` steps to the chunk that follows.
    pub open spec fn advanced_by(self, count: nat) -> ChunkHeaderView
        decreases count,
    {
        if count == 0 {
            self
        } else {
            self.advanced_by((count - 1) as nat).advanced()
        }
    }

    /// A header that starts at a number and is advanced `count` times holds that number plus
    /// `count`, and, once it was advanced at all, knows nothing of the data.
    pub proof fn lemma_advanced_by(self, count: nat)
        requires
            self.chunk_number + count <= u64::MAX,
        ensures
            self.advanced_by(count).chunk_number == self.chunk_number + count,
            self.advanced_by(count).header_version == self.header_version,
            count > 0 ==> self.advanced_by(count) == ChunkHeaderView::empty(
                self.header_version,
                (self.chunk_number + count) as u64,
            ),
        decreases count,
    {
        if count > 0 {
            self.lemma_advanced_by((count - 1) as nat);
        }
    }
}

impl ChunkHeader {
    /// returns a new chunk header with the given values.
    pub fn new(
        header_version: u8,
        chunk_number: u64,
        chunk_size: u64,
        crc32: u32,
        ed25519_signature: Option<[u8; ED25519_DALEK_SIGNATURE_LEN]>,
    ) -> (header: ChunkHeader)
        ensures
            header@ == (ChunkHeaderView {
                header_version,
                chunk_number,
                chunk_size,
                crc32,
                ed25519_signature: signature_view(ed25519_signature),
            }),
    {
        Self { header_version, chunk_number, chunk_size, crc32, ed25519_signature }
    }

    /// returns a new chunk header of which size, checksum and signature are not set yet.
    pub fn new_empty(header_version: u8, chunk_number: u64) -> (header: ChunkHeader)
        ensures
            header@ == ChunkHeaderView::empty(header_version, chunk_number),
    {
        Self { header_version, chunk_number, chunk_size: 0, crc32: 0, ed25519_signature: None }
    }

    /// overwrites the chunk size value in the header with the given value.
    pub fn set_chunk_size(&mut self, size: u64)
        ensures
            final(self)@ == (ChunkHeaderView { chunk_size: size, ..old(self)@ }),
    {
        self.chunk_size = size
    }

    /// overwrites the crc32 value in the header with the given value.
    pub fn set_crc32(&mut self, crc32: u32)
        ensures
            final(self)@ == (ChunkHeaderView { crc32, ..old(self)@ }),
    {
        self.crc32 = crc32
    }

    /// overwrites the signature in the header with the given value.
    pub fn set_signature(&mut self, signature: Option<[u8; ED25519_DALEK_SIGNATURE_LEN]>)
        ensures
            final(self)@ == (ChunkHeaderView {
                ed25519_signature: signature_view(signature),
                ..old(self)@
            }),
    {
        self.ed25519_signature = signature
    }

    /// sets size, checksum and signature at once, when the data of the chunk is there.
    pub fn finalize(&mut self, size: u64, crc32: u32, signature: Option<[u8; ED25519_DALEK_SIGNATURE_LEN]>)
        ensures
            final(self)@ == (ChunkHeaderView {
                chunk_size: size,
                crc32,
                ed25519_signature: signature_view(signature),
                ..old(self)@
            }),
    {
        self.chunk_size = size;
        self.crc32 = crc32;
        self.ed25519_signature = signature;
    }

    /// turns the header into the header for the next chunk: the chunk number grows by one,
    /// size, checksum and signature are unset.
    pub fn next_number(&mut self)
        requires
            old(self)@.chunk_number < u64::MAX,
        ensures
            final(self)@ == old(self)@.advanced(),
            final(self)@.chunk_number == old(self)@.chunk_number + 1,
    {
        self.chunk_number = self.chunk_number + 1;
        self.chunk_size = 0;
        self.crc32 = 0;
        self.ed25519_signature = None;
    }

    /// returns the version of the header.
    pub fn header_version(&self) -> (version: u8)
        ensures
            version == self@.header_version,
    {
        self.header_version
    }

    /// returns the chunk number.
    pub fn chunk_number(&self) -> (number: u64)
        ensures
            number == self@.chunk_number,
    {
        self.chunk_number
    }

    /// returns the size of the stored chunk.
    pub fn chunk_size(&self) -> (size: u64)
        ensures
            size == self@.chunk_size,
    {
        self.chunk_size
    }

    /// returns the checksum of the data of the chunk.
    pub fn crc32(&self) -> (crc32: u32)
        ensures
            crc32 == self@.crc32,
    {
        self.crc32
    }

    /// returns the signature, if there is one.
    pub fn signature(&self) -> (signature: &Option<[u8; ED25519_DALEK_SIGNATURE_LEN]>)
        ensures
            signature_view(*signature) == self@.ed25519_signature,
    {
        &self.ed25519_signature
    }
}

impl HeaderCoding for ChunkHeader {
    open spec fn spec_identifier() -> u32 {
        HEADER_IDENTIFIER_CHUNK_HEADER
    }

    open spec fn spec_length_rule() -> LengthRule {
        LengthRule::WithEnvelope
    }

    open spec fn well_formed(model: ChunkHeaderView) -> bool {
        model.ed25519_signature matches Some(signature) ==> signature.len() == 64
    }

    open spec fn encodable(model: ChunkHeaderView) -> bool {
        true
    }

    proof fn lemma_well_formed(&self) {
        assert(Self::well_formed(self@));
    }

    open spec fn body(model: ChunkHeaderView) -> Seq<u8> {
        seq![model.header_version] + le_bytes(model.chunk_number as nat, 8) + le_bytes(
            model.chunk_size as nat,
            8,
        ) + le_bytes(model.crc32 as nat, 4) + match model.ed25519_signature {
            Some(signature) => signature,
            None => Seq::empty(),
        }
    }

    open spec fn parse_body(body: Seq<u8>) -> Result<ChunkHeaderView, ZffError> {
        if body.len() < 21 || 21 < body.len() < 85 {
            Err(ZffError::UnexpectedEof)
        } else {
            Ok(
                ChunkHeaderView {
                    header_version: body[0],
                    chunk_number: le_value(body.subrange(1, 9)) as u64,
                    chunk_size: le_value(body.subrange(9, 17)) as u64,
                    crc32: le_value(body.subrange(17, 21)) as u32,
                    ed25519_signature: if body.len() == 21 {
                        None
                    } else {
                        Some(body.subrange(21, 85))
                    },
                },
            )
        }
    }

    proof fn lemma_body_len(model: ChunkHeaderView) {
        assert(Self::well_formed(model) && Self::encodable(model));
        lemma_le_bytes_len(model.chunk_number as nat, 8);
        lemma_le_bytes_len(model.chunk_size as nat, 8);
        lemma_le_bytes_len(model.crc32 as nat, 4);
    }

    proof fn lemma_body_round_trip(model: ChunkHeaderView) {
        assert(Self::well_formed(model) && Self::encodable(model));
        let body = Self::body(model);
        lemma_le_bytes_len(model.chunk_number as nat, 8);
        lemma_le_bytes_len(model.chunk_size as nat, 8);
        lemma_le_bytes_len(model.crc32 as nat, 4);
        lemma_pow256_values();
        lemma_le_value_of_bytes(model.chunk_number as nat, 8);
        lemma_le_value_of_bytes(model.chunk_size as nat, 8);
        lemma_le_value_of_bytes(model.crc32 as nat, 4);
        assert(body.subrange(1, 9) =~= le_bytes(model.chunk_number as nat, 8));
        assert(body.subrange(9, 17) =~= le_bytes(model.chunk_size as nat, 8));
        assert(body.subrange(17, 21) =~= le_bytes(model.crc32 as nat, 4));
        if let Some(signature) = model.ed25519_signature {
            assert(body.subrange(21, 85) =~= signature);
        }
    }

    fn identifier() -> (identifier: u32) {
        HEADER_IDENTIFIER_CHUNK_HEADER
    }

    fn length_rule() -> (rule: LengthRule) {
        LengthRule::WithEnvelope
    }

    fn encode_header(&self) -> (v: Vec<u8>) {
        let mut v: Vec<u8> = Vec::new();
        v.push(self.header_version);
        v.append(&mut self.chunk_number.encode_directly());
        v.append(&mut self.chunk_size.encode_directly());
        v.append(&mut self.crc32.encode_directly());
        match &self.ed25519_signature {
            None => (),
            Some(signature) => v.append(&mut signature.encode_directly()),
        };
        proof {
            assert(v@ =~= Self::body(self@));
        }
        v
    }

    fn decode_content(data: Vec<u8>) -> (r: Result<ChunkHeader, ZffError>) {
        let mut cursor = ByteCursor::new(data);
        proof {
            assert(cursor.rest() =~= data@);
            if data@.len() >= 21 {
                assert(data@.skip(1).subrange(0, 8) =~= data@.subrange(1, 9));
                assert(data@.skip(9).subrange(0, 8) =~= data@.subrange(9, 17));
                assert(data@.skip(17).subrange(0, 4) =~= data@.subrange(17, 21));
            }
            if data@.len() >= 85 {
                assert(data@.skip(21).subrange(0, 64) =~= data@.subrange(21, 85));
            }
        }
        let header_version = u8::decode_directly(&mut cursor)?;
        let chunk_number = u64::decode_directly(&mut cursor)?;
        let chunk_size = u64::decode_directly(&mut cursor)?;
        let crc32 = u32::decode_directly(&mut cursor)?;
        let ed25519_signature = if cursor.remaining() == 0 {
            None
        } else {
            Some(<[u8; ED25519_DALEK_SIGNATURE_LEN]>::decode_directly(&mut cursor)?)
        };
        Ok(ChunkHeader::new(header_version, chunk_number, chunk_size, crc32, ed25519_signature))
    }
}

} // verus!
