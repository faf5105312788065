//! The mathematical model of the container's byte layout: little-endian
//! 16-bit fields, the magic-marker window, and the first offset at which
//! the marker appears.

use vstd::prelude::*;

verus! {

/// The 16-bit value stored little-endian as the two bytes `lo`, `hi`.
pub open spec fn le16(lo: u8, hi: u8) -> u16 {
    (lo + 256 * hi) as u16
}

/// Whether the 12-byte magic marker `"ACROSS&DOWN\0"` starts at index
/// `i + 2` of `b`, i.e. whether `i` is a candidate start offset of the
/// puzzle data. The window covers `b[i + 2 .. i + 14]`.
pub open spec fn magic_at(b: Seq<u8>, i: int) -> bool {
    &&& 0 <= i
    &&& i + 14 <= b.len()
    &&& b[i + 2] == 0x41  // 'A'
    &&& b[i + 3] == 0x43  // 'C'
    &&& b[i + 4] == 0x52  // 'R'
    &&& b[i + 5] == 0x4f  // 'O'
    &&& b[i + 6] == 0x53  // 'S'
    &&& b[i + 7] == 0x53  // 'S'
    &&& b[i + 8] == 0x26  // '&'
    &&& b[i + 9] == 0x44  // 'D'
    &&& b[i + 10] == 0x4f  // 'O'
    &&& b[i + 11] == 0x57  // 'W'
    &&& b[i + 12] == 0x4e  // 'N'
    &&& b[i + 13] == 0x00
}

/// Whether the magic marker appears anywhere in `b`.
pub open spec fn has_magic(b: Seq<u8>) -> bool {
    exists|i: int| magic_at(b, i)
}

/// Whether `i` is the smallest offset at which the marker's window
/// starts in `b`.
pub open spec fn first_offset_is(b: Seq<u8>, i: int) -> bool {
    &&& magic_at(b, i)
    &&& forall|j: int| 0 <= j < i ==> !magic_at(b, j)
}

/// Wherever the marker appears, it appears a first time: a buffer that
/// holds the marker anywhere has a smallest offset for it.
pub proof fn lemma_first_offset_exists(b: Seq<u8>)
    requires
        has_magic(b),
    ensures
        exists|i: int| first_offset_is(b, i),
{
    let i = choose|i: int| magic_at(b, i);
    lemma_earliest_magic(b, i);
}

/// From any offset that holds the marker, a smallest one below or at it
/// can be found.
proof fn lemma_earliest_magic(b: Seq<u8>, i: int)
    requires
        magic_at(b, i),
    ensures
        exists|j: int| first_offset_is(b, j),
    decreases i,
{
    if forall|k: int| 0 <= k < i ==> !magic_at(b, k) {
        assert(first_offset_is(b, i));
    } else {
        let k = choose|k: int| 0 <= k < i && magic_at(b, k);
        lemma_earliest_magic(b, k);
    }
}

/// The smallest offset of the marker is unique.
pub proof fn lemma_first_offset_unique(b: Seq<u8>, i: int, j: int)
    requires
        first_offset_is(b, i),
        first_offset_is(b, j),
    ensures
        i == j,
{
    if i < j {
        assert(!magic_at(b, i));
    } else if j < i {
        assert(!magic_at(b, j));
    }
}

/// A buffer shorter than the 14 bytes that the scan window needs can
/// never hold the magic marker, so such a buffer is never recognized.
pub proof fn lemma_short_buffer_has_no_magic(b: Seq<u8>)
    requires
        b.len() < 14,
    ensures
        !has_magic(b),
{
}

} // verus!
