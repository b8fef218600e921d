//! The headers of a container.

pub mod chunk_header;
pub mod compression_header;
pub mod encryption_header;
pub mod pbe_header;
pub mod segment_header;

pub use chunk_header::{ChunkHeader, ChunkHeaderView};
pub use compression_header::{CompressionAlgorithm, CompressionHeader, CompressionHeaderView};
pub use encryption_header::{EncryptionHeader, EncryptionHeaderView};
pub use pbe_header::{
    KDFParameters, KDFParametersView, PBEHeader, PBEHeaderView, PBKDF2SHA256Parameters,
    PBKDF2SHA256ParametersView,
};
pub use segment_header::{SegmentHeader, SegmentHeaderView};
