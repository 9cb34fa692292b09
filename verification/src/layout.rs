//! Alignment record layout navigation and the in-place quality transform.
//!
//! One packed alignment record lays out, in fixed order: a fixed-size
//! header, the read name (terminator included in its declared length),
//! the CIGAR operation array (4 bytes per operation), the packed
//! nucleotide sequence (2 bases per byte), the quality-score region
//! (1 byte per base), and an optional trailing tag block. The variable
//! part of the record is navigated from three scalar lengths taken from
//! the already-parsed header; no scanning is needed, since the order of
//! the field groups is fixed.

use vstd::prelude::*;

use crate::tables::{BinMode, bin, bin_spec};

verus! {

/// Byte offset of the quality region inside the record's variable part:
/// the name (with terminator), the CIGAR slots and the packed sequence
/// precede it.
pub open spec fn quality_offset_spec(name_len: int, cigar_count: int, seq_len: int) -> int {
    name_len + 4 * cigar_count + (seq_len + 1) / 2
}

/// The quality region is exactly one byte per base.
pub open spec fn quality_len_spec(seq_len: int) -> int {
    seq_len
}

/// Compute the byte offset of the quality region from the three header
/// lengths: name length (terminator included), CIGAR operation count,
/// and sequence length in bases.
pub fn quality_offset(name_len: usize, cigar_count: usize, seq_len: usize) -> (off: usize)
    requires
        quality_offset_spec(name_len as int, cigar_count as int, seq_len as int)
            <= usize::MAX,
    ensures
        off == quality_offset_spec(name_len as int, cigar_count as int, seq_len as int),
{
    name_len + 4 * cigar_count + (seq_len / 2 + seq_len % 2)
}

/// What the transform leaves behind: inside `[off, off + len)` every byte
/// is the selected table's image of the old byte; outside, every byte is
/// unchanged, and the buffer's length is unchanged.
pub open spec fn binned_region(
    mode: BinMode,
    old_buf: Seq<u8>,
    new_buf: Seq<u8>,
    off: int,
    len: int,
) -> bool {
    &&& new_buf.len() == old_buf.len()
    &&& forall|i: int|
        off <= i < off + len ==> new_buf[i] as int == bin_spec(mode, old_buf[i] as int)
    &&& forall|i: int|
        0 <= i < old_buf.len() && !(off <= i < off + len) ==> new_buf[i] == old_buf[i]
}

/// Rewrite the bytes of `buf` in `[off, off + len)` through the selected
/// binning table, touching no other byte.
pub fn bin_region(buf: &mut Vec<u8>, off: usize, len: usize, mode: BinMode)
    requires
        off + len <= old(buf).len(),
    ensures
        binned_region(mode, old(buf)@, final(buf)@, off as int, len as int),
{
    let mut i: usize = 0;
    while i < len
        invariant
            i <= len,
            off + len <= buf.len(),
            buf.len() == old(buf).len(),
            forall|j: int|
                off <= j < off + i ==> buf@[j] as int == bin_spec(mode, old(buf)@[j] as int),
            forall|j: int|
                0 <= j < buf.len() && !(off <= j < off + i) ==> buf@[j] == old(buf)@[j],
        decreases len - i,
    {
        let b = buf[off + i];
        buf.set(off + i, bin(mode, b));
        i = i + 1;
    }
}

/// Transform one record's quality bytes in place.
///
/// `buf` is the record's variable part (everything after the fixed
/// header); `name_len`, `cigar_count` and `seq_len` are the header's
/// authoritative lengths. The caller must hand in a well-formed record:
/// the quality region derived from the three lengths lies within the
/// buffer. Every byte outside that region is left untouched, and the
/// buffer never changes length. A zero `seq_len` makes the region empty
/// and the transform a no-op.
pub fn transform_record(
    buf: &mut Vec<u8>,
    name_len: usize,
    cigar_count: usize,
    seq_len: usize,
    mode: BinMode,
) -> (off: usize)
    requires
        quality_offset_spec(name_len as int, cigar_count as int, seq_len as int)
            + quality_len_spec(seq_len as int) <= old(buf).len(),
    ensures
        off == quality_offset_spec(name_len as int, cigar_count as int, seq_len as int),
        binned_region(mode, old(buf)@, final(buf)@, off as int, seq_len as int),
{
    let off = quality_offset(name_len, cigar_count, seq_len);
    bin_region(buf, off, seq_len, mode);
    off
}

} // verus!
