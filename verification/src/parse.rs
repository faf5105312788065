//! The decoding pass itself: the forward scan that locates the start of
//! puzzle data, the cursor-style fixed-width field reads, and the single
//! linear parse that assembles the validated header record.

use vstd::prelude::*;
use vstd::slice::slice_subrange;
use vstd::slice::slice_to_vec;

use crate::error::ParsePuzError;
use crate::layout::first_offset_is;
use crate::layout::has_magic;
use crate::layout::le16;
use crate::layout::lemma_first_offset_unique;
use crate::layout::magic_at;
use crate::types::puzzle_type_of;
use crate::types::solution_type_of;
use crate::types::version_of;
use crate::types::Crc16Checksum;
use crate::types::PuzFile;
use crate::types::PuzGarbage;
use crate::types::PuzVersion;
use crate::types::PuzzleType;
use crate::types::SolutionType;

verus! {

/// Whether the magic marker's window sits at offset `i` of the buffer,
/// checked byte for byte.
fn is_magic_at(b: &[u8], i: usize) -> (r: bool)
    requires
        i + 14 <= b@.len(),
        b@.len() <= usize::MAX,
    ensures
        r == magic_at(b@, i as int),
{
    b[i + 2] == 0x41 && b[i + 3] == 0x43 && b[i + 4] == 0x52 && b[i + 5] == 0x4f && b[i + 6]
        == 0x53 && b[i + 7] == 0x53 && b[i + 8] == 0x26 && b[i + 9] == 0x44 && b[i + 10] == 0x4f
        && b[i + 11] == 0x57 && b[i + 12] == 0x4e && b[i + 13] == 0x00
}

/// Scans the buffer forward one byte at a time for the magic marker and
/// returns the smallest offset whose window holds it; a buffer in which
/// no window matches, including any buffer too short to hold one, is
/// not a recognized container.
pub fn get_puz_start_offset(puz_bytes: &[u8]) -> (r: Result<usize, ParsePuzError>)
    ensures
        match r {
            Ok(i) => first_offset_is(puz_bytes@, i as int),
            Err(e) => e == ParsePuzError::NotAPuz && !has_magic(puz_bytes@),
        },
{
    let n: usize = puz_bytes.len();
    if n < 14 {
        return Err(ParsePuzError::NotAPuz);
    }
    let mut i: usize = 0;
    while i <= n - 14
        invariant
            n == puz_bytes@.len(),
            14 <= n,
            i <= n - 13,
            forall|j: int| 0 <= j < i ==> !magic_at(puz_bytes@, j),
        decreases n - i,
    {
        if is_magic_at(puz_bytes, i) {
            return Ok(i);
        }
        i = i + 1;
    }
    Err(ParsePuzError::NotAPuz)
}

/// Reads the 16-bit little-endian field that starts `off` bytes past
/// `base`; a buffer exhausted before both bytes are available is
/// malformed.
fn read_u16_field(b: &[u8], base: usize, off: usize) -> (r: Result<u16, ParsePuzError>)
    requires
        base <= b@.len(),
        off <= 64,
    ensures
        base + off + 2 <= b@.len() ==> r == Ok::<u16, ParsePuzError>(
            le16(b@[base + off], b@[base + off + 1]),
        ),
        base + off + 2 > b@.len() ==> r == Err::<u16, ParsePuzError>(ParsePuzError::Malformed),
{
    if b.len() - base >= off + 2 {
        let lo = b[base + off];
        let hi = b[base + off + 1];
        Ok((lo as u16) + (hi as u16) * 256)
    } else {
        Err(ParsePuzError::Malformed)
    }
}

/// Reads the single byte that sits `off` bytes past `base`; a buffer
/// exhausted before it is malformed.
fn read_u8_field(b: &[u8], base: usize, off: usize) -> (r: Result<u8, ParsePuzError>)
    requires
        base <= b@.len(),
        off <= 64,
    ensures
        base + off + 1 <= b@.len() ==> r == Ok::<u8, ParsePuzError>(b@[base + off]),
        base + off + 1 > b@.len() ==> r == Err::<u8, ParsePuzError>(ParsePuzError::Malformed),
{
    if b.len() - base >= off + 1 {
        Ok(b[base + off])
    } else {
        Err(ParsePuzError::Malformed)
    }
}

/// Reads the 2-byte block that starts `off` bytes past `base` into a
/// fixed-size array; a buffer exhausted before both bytes are available
/// is malformed.
fn read_array2(b: &[u8], base: usize, off: usize) -> (r: Result<[u8; 2], ParsePuzError>)
    requires
        base <= b@.len(),
        off <= 64,
    ensures
        base + off + 2 <= b@.len() ==> (r matches Ok(a) && a@ == b@.subrange(
            base + off,
            base + off + 2,
        )),
        base + off + 2 > b@.len() ==> r == Err::<[u8; 2], ParsePuzError>(ParsePuzError::Malformed),
{
    if b.len() - base >= off + 2 {
        let p = base + off;
        let a = [b[p], b[p + 1]];
        proof {
            assert(a@ =~= b@.subrange(base + off, base + off + 2));
        }
        Ok(a)
    } else {
        Err(ParsePuzError::Malformed)
    }
}

/// Reads the 4-byte block that starts `off` bytes past `base` into a
/// fixed-size array; a buffer exhausted before all four bytes are
/// available is malformed.
fn read_array4(b: &[u8], base: usize, off: usize) -> (r: Result<[u8; 4], ParsePuzError>)
    requires
        base <= b@.len(),
        off <= 64,
    ensures
        base + off + 4 <= b@.len() ==> (r matches Ok(a) && a@ == b@.subrange(
            base + off,
            base + off + 4,
        )),
        base + off + 4 > b@.len() ==> r == Err::<[u8; 4], ParsePuzError>(ParsePuzError::Malformed),
{
    if b.len() - base >= off + 4 {
        let p = base + off;
        let a = [b[p], b[p + 1], b[p + 2], b[p + 3]];
        proof {
            assert(a@ =~= b@.subrange(base + off, base + off + 4));
        }
        Ok(a)
    } else {
        Err(ParsePuzError::Malformed)
    }
}

/// Reads the 8-byte block that starts `off` bytes past `base` into a
/// fixed-size array; a buffer exhausted before all eight bytes are
/// available is malformed.
fn read_array8(b: &[u8], base: usize, off: usize) -> (r: Result<[u8; 8], ParsePuzError>)
    requires
        base <= b@.len(),
        off <= 64,
    ensures
        base + off + 8 <= b@.len() ==> (r matches Ok(a) && a@ == b@.subrange(
            base + off,
            base + off + 8,
        )),
        base + off + 8 > b@.len() ==> r == Err::<[u8; 8], ParsePuzError>(ParsePuzError::Malformed),
{
    if b.len() - base >= off + 8 {
        let p = base + off;
        let a = [b[p], b[p + 1], b[p + 2], b[p + 3], b[p + 4], b[p + 5], b[p + 6], b[p + 7]];
        proof {
            assert(a@ =~= b@.subrange(base + off, base + off + 8));
        }
        Ok(a)
    } else {
        Err(ParsePuzError::Malformed)
    }
}

/// Reads the 12-byte block that starts `off` bytes past `base` into a
/// fixed-size array; a buffer exhausted before all twelve bytes are
/// available is malformed.
fn read_array12(b: &[u8], base: usize, off: usize) -> (r: Result<[u8; 12], ParsePuzError>)
    requires
        base <= b@.len(),
        off <= 64,
    ensures
        base + off + 12 <= b@.len() ==> (r matches Ok(a) && a@ == b@.subrange(
            base + off,
            base + off + 12,
        )),
        base + off + 12 > b@.len() ==> r == Err::<[u8; 12], ParsePuzError>(
            ParsePuzError::Malformed,
        ),
{
    if b.len() - base >= off + 12 {
        let p = base + off;
        let a = [
            b[p],
            b[p + 1],
            b[p + 2],
            b[p + 3],
            b[p + 4],
            b[p + 5],
            b[p + 6],
            b[p + 7],
            b[p + 8],
            b[p + 9],
            b[p + 10],
            b[p + 11],
        ];
        proof {
            assert(a@ =~= b@.subrange(base + off, base + off + 12));
        }
        Ok(a)
    } else {
        Err(ParsePuzError::Malformed)
    }
}

/// The outcome of reading and validating the header fields of `b`
/// behind the start offset `i`: which error, if any, a sequential pass
/// meets first. Fields are read in a fixed order, each validated right
/// after its bytes are available, so a truncation is reported at the
/// read it interrupts and a validation failure at the field it
/// concerns.
pub open spec fn header_outcome(b: Seq<u8>, i: int) -> Result<(), ParsePuzError> {
    if b.len() < i + 28 {
        Err(ParsePuzError::Malformed)
    } else {
        match version_of(b[i + 24], b[i + 25], b[i + 26], b[i + 27]) {
            Err(e) => Err(e),
            Ok(_) => if b.len() < i + 50 {
                Err(ParsePuzError::Malformed)
            } else {
                match puzzle_type_of(le16(b[i + 48], b[i + 49])) {
                    Err(e) => Err(e),
                    Ok(_) => if b.len() < i + 52 {
                        Err(ParsePuzError::Malformed)
                    } else {
                        match solution_type_of(le16(b[i + 50], b[i + 51])) {
                            Err(e) => Err(e),
                            Ok(_) => Ok(()),
                        }
                    },
                }
            },
        }
    }
}

/// How a successfully parsed record and the remainder slice relate to
/// the raw buffer `b` and the discovered start offset `i`: every field
/// comes verbatim from its place in the fixed layout, and the remainder
/// is exactly the bytes past the 52-byte header.
pub open spec fn file_matches(b: Seq<u8>, i: int, f: PuzFile, rest: Seq<u8>) -> bool {
    &&& (match f.garbage.preamble {
        None => i == 0,
        Some(p) => i > 0 && p@ == b.subrange(0, i),
    })
    &&& f.garbage.unknown_header_data_1@ == b.subrange(i + 28, i + 30)
    &&& f.garbage.unknown_header_data_2@ == b.subrange(i + 32, i + 44)
    &&& f.checksum.value() == le16(b[i], b[i + 1])
    &&& f.checksum_board_configuration.value() == le16(b[i + 14], b[i + 15])
    &&& f.masked_checksums@ == b.subrange(i + 16, i + 24)
    &&& version_of(b[i + 24], b[i + 25], b[i + 26], b[i + 27]) == Ok::<PuzVersion, ParsePuzError>(
        f.version,
    )
    &&& (match f.checksum_scrambled {
        None => le16(b[i + 30], b[i + 31]) == 0,
        Some(c) => le16(b[i + 30], b[i + 31]) != 0 && c.value() == le16(b[i + 30], b[i + 31]),
    })
    &&& f.width == b[i + 44]
    &&& f.height == b[i + 45]
    &&& f.clue_count == le16(b[i + 46], b[i + 47])
    &&& puzzle_type_of(le16(b[i + 48], b[i + 49])) == Ok::<PuzzleType, ParsePuzError>(
        f.puzzle_type,
    )
    &&& solution_type_of(le16(b[i + 50], b[i + 51])) == Ok::<SolutionType, ParsePuzError>(
        f.solution_type,
    )
    &&& rest == b.subrange(i + 52, b.len() as int)
}

/// Reads and validates the header fields behind an already discovered
/// first offset, in the fixed order of the layout.
fn parse_at<'a>(b: &'a [u8], start: usize) -> (r: Result<(PuzFile, &'a [u8]), ParsePuzError>)
    requires
        first_offset_is(b@, start as int),
    ensures
        match header_outcome(b@, start as int) {
            Ok(_) => r matches Ok(p) && file_matches(b@, start as int, p.0, p.1@),
            Err(e) => r matches Err(e2) && e2 == e,
        },
{
    let n: usize = b.len();
    let preamble = if start > 0 {
        Some(slice_to_vec(slice_subrange(b, 0, start)))
    } else {
        None
    };

    let checksum_raw = read_u16_field(b, start, 0)?;
    let checksum = Crc16Checksum::from(checksum_raw);

    // The 12 bytes at offsets 2..14 are the magic window itself; the
    // cursor skips them.
    let cib_raw = read_u16_field(b, start, 14)?;
    let checksum_board_configuration = Crc16Checksum::from(cib_raw);

    let masked_checksums = read_array8(b, start, 16)?;

    let version_bytes = read_array4(b, start, 24)?;
    let version = PuzVersion::try_from(version_bytes)?;

    let unknown_header_data_1 = read_array2(b, start, 28)?;

    let scrambled_raw = read_u16_field(b, start, 30)?;
    let checksum_scrambled = if scrambled_raw == 0 {
        None
    } else {
        Some(Crc16Checksum::from(scrambled_raw))
    };

    let unknown_header_data_2 = read_array12(b, start, 32)?;

    let width = read_u8_field(b, start, 44)?;
    let height = read_u8_field(b, start, 45)?;
    let clue_count = read_u16_field(b, start, 46)?;

    let puzzle_type_raw = read_u16_field(b, start, 48)?;
    let puzzle_type = PuzzleType::try_from(puzzle_type_raw)?;

    let solution_type_raw = read_u16_field(b, start, 50)?;
    let solution_type = SolutionType::try_from(solution_type_raw)?;

    let rest = slice_subrange(b, start + 52, n);

    Ok(
        (
            PuzFile {
                garbage: PuzGarbage { preamble, unknown_header_data_1, unknown_header_data_2 },
                checksum,
                checksum_board_configuration,
                masked_checksums,
                version,
                checksum_scrambled,
                width,
                height,
                clue_count,
                puzzle_type,
                solution_type,
            },
            rest,
        ),
    )
}

/// Decodes the header of a puzzle container out of an arbitrary byte
/// buffer: locates the start of puzzle data behind any preamble,
/// extracts the fixed-layout fields in little-endian order, validates
/// the enumerated fields, and hands back the record together with the
/// unconsumed remainder of the buffer. A buffer without the magic
/// marker is not a recognized container; past the marker, the first
/// failing read or validation decides the error.
pub fn parse_a_puz<'a>(puz_bytes: &'a [u8]) -> (r: Result<(PuzFile, &'a [u8]), ParsePuzError>)
    ensures
        !has_magic(puz_bytes@) ==> (r matches Err(e) && e == ParsePuzError::NotAPuz),
        (r matches Err(e) && e == ParsePuzError::NotAPuz) ==> !has_magic(puz_bytes@),
        forall|i: int|
            first_offset_is(puz_bytes@, i) ==> match header_outcome(puz_bytes@, i) {
                Ok(_) => r matches Ok(p) && file_matches(puz_bytes@, i, p.0, p.1@),
                Err(e) => r matches Err(e2) && e2 == e,
            },
{
    match get_puz_start_offset(puz_bytes) {
        Err(e) => Err(e),
        Ok(start) => {
            let r = parse_at(puz_bytes, start);
            proof {
                assert forall|i: int| first_offset_is(puz_bytes@, i) implies match header_outcome(
                    puz_bytes@,
                    i,
                ) {
                    Ok(_) => r matches Ok(p) && file_matches(puz_bytes@, i, p.0, p.1@),
                    Err(e) => r matches Err(e2) && e2 == e,
                } by {
                    lemma_first_offset_unique(puz_bytes@, i, start as int);
                }
            }
            r
        },
    }
}

} // verus!
