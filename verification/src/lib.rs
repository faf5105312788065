//! Decoder for the fixed-layout binary header of a crossword-puzzle
//! container: it locates the start of puzzle data behind an optional
//! preamble, extracts the fixed-width header fields in little-endian
//! order, and classifies the enumerated fields into closed variant sets.

pub mod error;
pub mod layout;
pub mod parse;
pub mod types;

pub use error::ParsePuzError;
pub use types::Crc16Checksum;
pub use types::PuzFile;
pub use types::PuzGarbage;
pub use types::PuzVersion;
pub use types::PuzzleType;
pub use types::SolutionType;
