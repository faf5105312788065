//! The validated header types: the closed variant sets for the puzzle
//! and solution type codes, the carried 16-bit checksum, and the version
//! tuple, each with a spec-level table that its constructor is proved
//! against.

use vstd::prelude::*;

use crate::error::ParsePuzError;

verus! {

/// The kind of puzzle the container holds.
#[derive(Debug, Clone, Copy, PartialEq, Eq, Structural)]
pub enum PuzzleType {
    Normal,
    Diagramless,
}

/// The exact table from 16-bit puzzle-type codes to variants: only
/// `0x0001` and `0x0401` are legal, every other code is rejected with
/// the code echoed back.
pub open spec fn puzzle_type_of(code: u16) -> Result<PuzzleType, ParsePuzError> {
    if code == 0x0001 {
        Ok(PuzzleType::Normal)
    } else if code == 0x0401 {
        Ok(PuzzleType::Diagramless)
    } else {
        Err(ParsePuzError::UnknownPuzzleType(code))
    }
}

impl PuzzleType {
    /// Maps a raw 16-bit code to its variant by exact lookup; codes are
    /// matched whole, never masked, and an unknown code fails closed.
    pub fn try_from(value: u16) -> (r: Result<PuzzleType, ParsePuzError>)
        ensures
            r == puzzle_type_of(value),
            value != 0x0001 && value != 0x0401 ==> r == Err::<PuzzleType, ParsePuzError>(
                ParsePuzError::UnknownPuzzleType(value),
            ),
    {
        match value {
            0x0001 => Ok(PuzzleType::Normal),
            0x0401 => Ok(PuzzleType::Diagramless),
            _ => Err(ParsePuzError::UnknownPuzzleType(value)),
        }
    }
}

/// How the solution is stored in the container.
#[derive(Debug, Clone, Copy, PartialEq, Eq, Structural)]
pub enum SolutionType {
    Normal,
    Scrambled,
    Missing,
}

/// The exact table from 16-bit solution-type codes to variants: only
/// `0x0000`, `0x0002` and `0x0004` are legal, every other code is
/// rejected with the code echoed back.
pub open spec fn solution_type_of(code: u16) -> Result<SolutionType, ParsePuzError> {
    if code == 0x0000 {
        Ok(SolutionType::Normal)
    } else if code == 0x0002 {
        Ok(SolutionType::Missing)
    } else if code == 0x0004 {
        Ok(SolutionType::Scrambled)
    } else {
        Err(ParsePuzError::UnknownSolutionType(code))
    }
}

impl SolutionType {
    /// Maps a raw 16-bit code to its variant by exact lookup; codes are
    /// matched whole, never masked, and an unknown code fails closed.
    pub fn try_from(value: u16) -> (r: Result<SolutionType, ParsePuzError>)
        ensures
            r == solution_type_of(value),
            value != 0x0000 && value != 0x0002 && value != 0x0004 ==> r == Err::<
                SolutionType,
                ParsePuzError,
            >(ParsePuzError::UnknownSolutionType(value)),
    {
        match value {
            0x0000 => Ok(SolutionType::Normal),
            0x0002 => Ok(SolutionType::Missing),
            0x0004 => Ok(SolutionType::Scrambled),
            _ => Err(ParsePuzError::UnknownSolutionType(value)),
        }
    }
}

/// An opaque stored 16-bit checksum: carried verbatim from the file,
/// never recomputed or verified here.
#[derive(Debug, Clone, Copy, PartialEq, Eq, Structural)]
pub struct Crc16Checksum(u16);

impl Crc16Checksum {
    /// The stored 16-bit value.
    pub closed spec fn value(self) -> u16 {
        self.0
    }

    /// Wraps a raw little-endian-read 16-bit value.
    pub fn from(value: u16) -> (r: Crc16Checksum)
        ensures
            r.value() == value,
    {
        Crc16Checksum(value)
    }
}

/// Whether a byte is an ASCII decimal digit, `'0'` through `'9'`.
pub open spec fn is_ascii_digit_byte(b: u8) -> bool {
    0x30 <= b && b <= 0x39
}

/// The version tuple stored in the header as four raw bytes.
#[derive(Debug, Clone, Copy, PartialEq, Eq)]
pub struct PuzVersion {
    /// First number of the version tuple.
    pub major: u8,
    /// Second number of the version tuple.
    pub minor: u8,
    /// The last version byte is zero in most files, but was reported to
    /// sometimes carry other data, e.g. a `'c'`; such a byte is
    /// surfaced as a character.
    pub extension: Option<char>,
}

/// The total map from four raw version bytes to a version tuple or a
/// rejection: the first and third byte must be ASCII digits and the
/// second exactly `'.'`; the fourth byte `0` means "no extension" and
/// any other value is carried as a character. A window that does not
/// match fails closed with all four bytes unchanged.
pub open spec fn version_of(major: u8, dot: u8, minor: u8, ext: u8) -> Result<
    PuzVersion,
    ParsePuzError,
> {
    if is_ascii_digit_byte(major) && dot == 0x2e && is_ascii_digit_byte(minor) {
        Ok(
            PuzVersion {
                major: (major - 0x30) as u8,
                minor: (minor - 0x30) as u8,
                extension: if ext == 0 {
                    None
                } else {
                    Some(ext as char)
                },
            },
        )
    } else {
        Err(ParsePuzError::UnexpectedVersionFormat(major, dot, minor, ext))
    }
}

impl PuzVersion {
    /// Validates the four raw version bytes `[major, dot, minor, ext]`
    /// against the digit-dot-digit pattern; no partial recovery is
    /// attempted on a mismatch.
    pub fn try_from(bytes: [u8; 4]) -> (r: Result<PuzVersion, ParsePuzError>)
        ensures
            r == version_of(bytes[0], bytes[1], bytes[2], bytes[3]),
            is_ascii_digit_byte(bytes[0]) && bytes[1] == 0x2e && is_ascii_digit_byte(bytes[2])
                ==> (r matches Ok(v) && v.major == bytes[0] - 0x30 && v.minor == bytes[2] - 0x30
                && (v.extension is None <==> bytes[3] == 0) && (bytes[3] != 0 ==> v.extension
                == Some(bytes[3] as char))),
            !(is_ascii_digit_byte(bytes[0]) && bytes[1] == 0x2e && is_ascii_digit_byte(bytes[2]))
                ==> r == Err::<PuzVersion, ParsePuzError>(
                ParsePuzError::UnexpectedVersionFormat(bytes[0], bytes[1], bytes[2], bytes[3]),
            ),
    {
        let major = bytes[0];
        let dot = bytes[1];
        let minor = bytes[2];
        let ext = bytes[3];
        if 0x30 <= major && major <= 0x39 && dot == 0x2e && 0x30 <= minor && minor <= 0x39 {
            Ok(
                PuzVersion {
                    major: major - 0x30,
                    minor: minor - 0x30,
                    extension: if ext == 0 {
                        None
                    } else {
                        Some(ext as char)
                    },
                },
            )
        } else {
            Err(ParsePuzError::UnexpectedVersionFormat(major, dot, minor, ext))
        }
    }
}

/// Bytes of unknown use carried verbatim, so that a future writer could
/// reproduce the original file exactly.
#[derive(Debug, PartialEq, Eq)]
pub struct PuzGarbage {
    /// Bytes preceding the discovered start of puzzle data, preserved
    /// uninterpreted; `None` exactly when the data starts at offset 0.
    pub preamble: Option<Vec<u8>>,
    /// 2 bytes of unknown use between the version and the scrambled
    /// checksum; sometimes looks like uninitialized data.
    pub unknown_header_data_1: [u8; 2],
    /// 12 bytes of unknown use before the dimensions; sometimes looks
    /// like uninitialized data.
    pub unknown_header_data_2: [u8; 12],
}

/// The validated header record of a puzzle container, assembled once,
/// atomically, by a single parse over an immutable buffer.
#[derive(Debug, PartialEq, Eq)]
pub struct PuzFile {
    /// Uninterpreted byte regions, kept for fidelity.
    pub garbage: PuzGarbage,
    /// Overall file checksum.
    pub checksum: Crc16Checksum,
    /// Checksum of the metadata fields.
    pub checksum_board_configuration: Crc16Checksum,
    /// 8-byte block of masked checksums, carried opaquely.
    pub masked_checksums: [u8; 8],
    /// The validated version tuple.
    pub version: PuzVersion,
    /// Checksum of the scrambled solution; absent when the raw field
    /// is zero.
    pub checksum_scrambled: Option<Crc16Checksum>,
    /// Width of the diagram in squares; carried raw, with no range
    /// validation.
    pub width: u8,
    /// Height of the diagram in squares; carried raw, with no range
    /// validation.
    pub height: u8,
    /// Number of clues.
    pub clue_count: u16,
    /// The validated puzzle type.
    pub puzzle_type: PuzzleType,
    /// The validated solution type.
    pub solution_type: SolutionType,
}

} // verus!
