//! The compression header: which algorithm compresses the data, and at which level.

use crate::constants::HEADER_IDENTIFIER_COMPRESSION_HEADER;
use crate::cursor::ByteCursor;
use crate::envelope::{HeaderCoding, LengthRule};
use crate::error::ZffError;
use crate::value::ValueDecoder;
use vstd::prelude::*;

verus! {

/// The algorithms that compress the data of a container.
#[derive(Debug, Clone, Copy, PartialEq, Eq, Structural)]
pub enum CompressionAlgorithm {
    /// No compression. Encoded with value 0.
    NoCompression,
    /// Zstandard. Encoded with value 1.
    Zstd,
}

impl CompressionAlgorithm {
    /// The code of the algorithm.
    pub open spec fn raw_value(self) -> u8 {
        match self {
            CompressionAlgorithm::NoCompression => 0,
            CompressionAlgorithm::Zstd => 1,
        }
    }

    /// The algorithm that a code stands for, if any.
    pub open spec fn of_raw_value(code: u8) -> Option<CompressionAlgorithm> {
        if code == 0 {
            Some(CompressionAlgorithm::NoCompression)
        } else if code == 1 {
            Some(CompressionAlgorithm::Zstd)
        } else {
            None
        }
    }

    /// Returns the code of the algorithm.
    pub fn get_value(&self) -> (code: u8)
        ensures
            code == self.raw_value(),
            CompressionAlgorithm::of_raw_value(code) == Some(*self),
    {
        match self {
            CompressionAlgorithm::NoCompression => 0,
            CompressionAlgorithm::Zstd => 1,
        }
    }

    /// Returns the algorithm that `code` stands for. No code is taken for another.
    pub fn from_value(code: u8) -> (r: Result<CompressionAlgorithm, ZffError>)
        ensures
            r == match CompressionAlgorithm::of_raw_value(code) {
                Some(algorithm) => Ok::<CompressionAlgorithm, ZffError>(algorithm),
                None => Err(ZffError::UnknownCompressionAlgorithm),
            },
    {
        match code {
            0 => Ok(CompressionAlgorithm::NoCompression),
            1 => Ok(CompressionAlgorithm::Zstd),
            _ => Err(ZffError::UnknownCompressionAlgorithm),
        }
    }
}

/// The header of the compression: algorithm and level. The level means what the algorithm
/// makes of it, and nothing where there is no compression.
#[derive(Debug, Clone)]
pub struct CompressionHeader {
    header_version: u8,
    compression_algorithm: CompressionAlgorithm,
    compression_level: u8,
}

/// The mathematical value of a [`CompressionHeader`].
pub struct CompressionHeaderView {
    pub header_version: u8,
    pub compression_algorithm: CompressionAlgorithm,
    pub compression_level: u8,
}

impl View for CompressionHeader {
    type V = CompressionHeaderView;

    closed spec fn view(&self) -> CompressionHeaderView {
        CompressionHeaderView {
            header_version: self.header_version,
            compression_algorithm: self.compression_algorithm,
            compression_level: self.compression_level,
        }
    }
}

impl CompressionHeader {
    /// returns a new compression header with the given values.
    pub fn new(
        header_version: u8,
        compression_algo: CompressionAlgorithm,
        compression_level: u8,
    ) -> (header: CompressionHeader)
        ensures
            header@ == (CompressionHeaderView {
                header_version,
                compression_algorithm: compression_algo,
                compression_level,
            }),
    {
        Self { header_version, compression_algorithm: compression_algo, compression_level }
    }

    /// returns the version of the header.
    pub fn header_version(&self) -> (version: &u8)
        ensures
            *version == self@.header_version,
    {
        &self.header_version
    }

    /// returns the compression algorithm.
    pub fn compression_algorithm(&self) -> (algorithm: &CompressionAlgorithm)
        ensures
            *algorithm == self@.compression_algorithm,
    {
        &self.compression_algorithm
    }

    /// returns the compression level.
    pub fn compression_level(&self) -> (level: &u8)
        ensures
            *level == self@.compression_level,
    {
        &self.compression_level
    }
}

impl HeaderCoding for CompressionHeader {
    open spec fn spec_identifier() -> u32 {
        HEADER_IDENTIFIER_COMPRESSION_HEADER
    }

    open spec fn spec_length_rule() -> LengthRule {
        LengthRule::BodyOnly
    }

    open spec fn well_formed(model: CompressionHeaderView) -> bool {
        true
    }

    open spec fn encodable(model: CompressionHeaderView) -> bool {
        true
    }

    proof fn lemma_well_formed(&self) {
        assert(Self::well_formed(self@));
    }

    open spec fn body(model: CompressionHeaderView) -> Seq<u8> {
        seq![
            model.header_version,
            model.compression_algorithm.raw_value(),
            model.compression_level,
        ]
    }

    open spec fn parse_body(body: Seq<u8>) -> Result<CompressionHeaderView, ZffError> {
        if body.len() < 2 {
            Err(ZffError::UnexpectedEof)
        } else {
            match CompressionAlgorithm::of_raw_value(body[1]) {
                None => Err(ZffError::UnknownCompressionAlgorithm),
                Some(compression_algorithm) => if body.len() < 3 {
                    Err(ZffError::UnexpectedEof)
                } else {
                    Ok(
                        CompressionHeaderView {
                            header_version: body[0],
                            compression_algorithm,
                            compression_level: body[2],
                        },
                    )
                },
            }
        }
    }

    proof fn lemma_body_len(model: CompressionHeaderView) {
        assert(Self::well_formed(model) && Self::encodable(model));
    }

    proof fn lemma_body_round_trip(model: CompressionHeaderView) {
        assert(Self::well_formed(model) && Self::encodable(model));
    }

    fn identifier() -> (identifier: u32) {
        HEADER_IDENTIFIER_COMPRESSION_HEADER
    }

    fn length_rule() -> (rule: LengthRule) {
        LengthRule::BodyOnly
    }

    fn encode_header(&self) -> (v: Vec<u8>) {
        let mut vec: Vec<u8> = Vec::new();

        vec.push(self.header_version);
        vec.push(self.compression_algorithm.get_value());
        vec.push(self.compression_level);

        proof {
            assert(vec@ =~= Self::body(self@));
        }
        vec
    }

    fn decode_content(data: Vec<u8>) -> (r: Result<CompressionHeader, ZffError>) {
        let mut cursor = ByteCursor::new(data);
        proof {
            assert(cursor.rest() =~= data@);
        }
        let header_version = u8::decode_directly(&mut cursor)?;
        let compression_algorithm = CompressionAlgorithm::from_value(
            u8::decode_directly(&mut cursor)?,
        )?;
        let compression_level = u8::decode_directly(&mut cursor)?;
        Ok(CompressionHeader::new(header_version, compression_algorithm, compression_level))
    }
}

/// A body whose second byte is the code of no compression algorithm is rejected as such,
/// whatever else it holds.
pub proof fn lemma_unknown_algorithm_rejected(body: Seq<u8>)
    requires
        body.len() >= 2,
        body[1] > 1,
    ensures
        CompressionHeader::parse_body(body) == Err::<CompressionHeaderView, ZffError>(
            ZffError::UnknownCompressionAlgorithm,
        ),
{
}

} // verus!
