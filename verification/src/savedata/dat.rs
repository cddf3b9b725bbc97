//! The header of dat-based save files.
use vstd::prelude::*;
use crate::bytes::{lemma_read_at, lemma_u32_le, push_u32_le, read_u32_le, u32_le, u32_le_bytes};

verus! {

/// The kinds of dat-based files.
#[derive(Debug, PartialEq, Eq, Structural, Clone, Copy)]
pub enum DatFileType {
    /// GEARSET.DAT
    Gearset,
}

/// The number that marks a gear set file.
pub const GEARSET_MAGIC: u32 = 0x006d0005;

/// How many bytes a dat header takes.
pub const DAT_HEADER_SIZE: usize = 17;

/// The header of a dat-based file.
#[derive(Debug, PartialEq, Eq, Structural, Clone, Copy)]
pub struct DatHeader {
    /// The kind of file.
    pub file_type: DatFileType,
    /// The largest size the content may have.
    pub max_size: u32,
    /// The size of the content, the byte that ends the header included.
    pub content_size: u32,
}

/// The header stored at the start of `b`: the gear set mark, the largest size and the size of
/// the content, four empty bytes and a byte that ends the header.
pub open spec fn dat_header_of(b: Seq<u8>) -> Option<DatHeader> {
    if b.len() < DAT_HEADER_SIZE || u32_le(b, 0) != GEARSET_MAGIC {
        None
    } else {
        Some(
            DatHeader {
                file_type: DatFileType::Gearset,
                max_size: u32_le(b, 4),
                content_size: u32_le(b, 8),
            },
        )
    }
}

/// How a header is stored; the byte that ends it is 0xFF.
pub open spec fn dat_header_bytes(h: DatHeader) -> Seq<u8> {
    u32_le_bytes(GEARSET_MAGIC) + u32_le_bytes(h.max_size) + u32_le_bytes(h.content_size)
        + seq![0u8, 0u8, 0u8, 0u8, 0xFFu8]
}

impl DatHeader {
    /// Reads the header at the start of `b`.
    pub fn read(b: &[u8]) -> (r: Option<DatHeader>)
        ensures
            r == dat_header_of(b@),
    {
        if b.len() < DAT_HEADER_SIZE || read_u32_le(b, 0) != GEARSET_MAGIC {
            return None;
        }
        Some(
            DatHeader {
                file_type: DatFileType::Gearset,
                max_size: read_u32_le(b, 4),
                content_size: read_u32_le(b, 8),
            },
        )
    }

    /// Appends the stored form of the header.
    pub fn write(&self, out: &mut Vec<u8>)
        ensures
            final(out)@ == old(out)@ + dat_header_bytes(*self),
    {
        push_u32_le(out, GEARSET_MAGIC);
        push_u32_le(out, self.max_size);
        push_u32_le(out, self.content_size);
        out.push(0u8);
        out.push(0u8);
        out.push(0u8);
        out.push(0u8);
        out.push(0xFFu8);
        assert(final(out)@ =~= old(out)@ + dat_header_bytes(*self));
    }
}

/// A header read back from its stored form is the same.
pub proof fn law_dat_header_round_trip(h: DatHeader)
    ensures
        dat_header_bytes(h).len() == DAT_HEADER_SIZE,
        dat_header_of(dat_header_bytes(h)) == Some(h),
{
    let b = dat_header_bytes(h);
    lemma_u32_le(GEARSET_MAGIC);
    lemma_u32_le(h.max_size);
    lemma_u32_le(h.content_size);
    assert(b.subrange(0, 4) =~= u32_le_bytes(GEARSET_MAGIC));
    assert(b.subrange(4, 8) =~= u32_le_bytes(h.max_size));
    assert(b.subrange(8, 12) =~= u32_le_bytes(h.content_size));
    lemma_read_at(b, 0, u32_le_bytes(GEARSET_MAGIC));
    lemma_read_at(b, 4, u32_le_bytes(h.max_size));
    lemma_read_at(b, 8, u32_le_bytes(h.content_size));
}

} // verus!
