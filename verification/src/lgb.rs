//! Layer group files (LGB): their header, and where their first layer chunk starts.
use vstd::prelude::*;
use crate::bytes::{read_u32, u32_at, Endian};
use crate::common::{platform_endian, Platform};
use crate::layer::Layer;
use crate::model::file_header::{push_u32, u32_bytes};

verus! {

/// The header of a layer group file, after its magic `LGB1`.
#[derive(Debug, PartialEq, Eq, Structural, Clone, Copy)]
pub struct LgbHeader {
    /// The size of the file, this header included.
    pub file_size: i32,
    /// How many chunks the file has.
    pub total_chunk_count: i32,
}

/// The numbers of the header of a layer chunk, after its magic `LGP1`. Its name is kept in
/// the chunk's string heap.
#[derive(Debug, PartialEq, Eq, Structural, Clone, Copy)]
pub struct LayerChunkHeader {
    /// The size of the chunk.
    pub chunk_size: i32,
    /// The ID of the chunk.
    pub layer_group_id: i32,
    /// Where its name is in the string heap.
    pub name_offset: u32,
    /// Where its layers' offsets are.
    pub layer_offset: i32,
    /// How many layers it has.
    pub layer_count: i32,
}

impl LgbHeader {
    /// How many bytes the header takes, its magic included.
    pub const SIZE: usize = 12;
}

impl LayerChunkHeader {
    /// How many bytes the header takes, its magic included.
    pub const SIZE: usize = 24;
}

/// A chunk of layers.
#[derive(Debug, PartialEq, Clone)]
pub struct LayerChunk {
    /// The ID of this chunk.
    pub layer_group_id: i32,
    /// Name of this layer chunk.
    pub name: String,
    /// The layers in this chunk.
    pub layers: Vec<Layer>,
}

/// Layer group binary file, usually with the `.lgb` file extension. Contains information about
/// where game objects are placed.
#[derive(Debug, PartialEq, Clone)]
pub struct Lgb {
    /// Its chunks.
    pub chunks: Vec<LayerChunk>,
}

/// The numbers of the layer chunk header stored at `p` in `b` in the byte order `e`, where it
/// starts with the chunk magic and fits in `b`: the chunk size, the group ID, the offset of its
/// name, where its layers' offsets are, and how many layers it has.
pub open spec fn chunk_header_at(b: Seq<u8>, p: int, e: Endian) -> Option<LayerChunkHeader> {
    if magic_at(b, p, chunk_magic()) && p + 24 <= b.len() {
        Some(
            LayerChunkHeader {
                chunk_size: u32_at(b, p + 4, e) as i32,
                layer_group_id: u32_at(b, p + 8, e) as i32,
                name_offset: u32_at(b, p + 12, e),
                layer_offset: u32_at(b, p + 16, e) as i32,
                layer_count: u32_at(b, p + 20, e) as i32,
            },
        )
    } else {
        None
    }
}

/// Whether the magic `m` (four ASCII letters) is stored at `p` in `b`.
pub open spec fn magic_at(b: Seq<u8>, p: int, m: Seq<u8>) -> bool {
    &&& 0 <= p
    &&& p + 4 <= b.len()
    &&& b[p] == m[0] && b[p + 1] == m[1] && b[p + 2] == m[2] && b[p + 3] == m[3]
}

/// The magic of a layer group file.
pub open spec fn lgb_magic() -> Seq<u8> {
    seq![0x4Cu8, 0x47u8, 0x42u8, 0x31u8]
}

/// The magic of a layer chunk.
pub open spec fn chunk_magic() -> Seq<u8> {
    seq![0x4Cu8, 0x47u8, 0x50u8, 0x31u8]
}

/// The header stored at the start of `b` in the byte order `e`, where `b` starts with the
/// magic and holds the header.
pub open spec fn lgb_header_at(b: Seq<u8>, e: Endian) -> Option<LgbHeader> {
    if b.len() >= 12 && magic_at(b, 0, lgb_magic()) {
        Some(LgbHeader { file_size: u32_at(b, 4, e) as i32, total_chunk_count: u32_at(b, 8, e) as i32 })
    } else {
        None
    }
}

/// The bytes of a header: the magic, then its two numbers.
pub open spec fn lgb_header_bytes(h: LgbHeader, e: Endian) -> Seq<u8> {
    lgb_magic() + u32_bytes(h.file_size as u32, e) + u32_bytes(h.total_chunk_count as u32, e)
}

/// Where the first layer chunk starts, looking at `p` and every fourth byte after it: the
/// first place that holds the chunk magic, or `None` where the bytes end before one is found.
pub open spec fn chunk_start(b: Seq<u8>, p: int) -> Option<int>
    decreases b.len() - p,
{
    if p < 0 || p + 4 > b.len() {
        None
    } else if magic_at(b, p, chunk_magic()) {
        Some(p)
    } else {
        chunk_start(b, p + 4)
    }
}

/// Where the first layer chunk of the file `b` starts: after a header whose size and chunk
/// count are positive, the first place from its end on, in steps of four bytes, that holds
/// the chunk magic.
pub open spec fn first_chunk_at(b: Seq<u8>, e: Endian) -> Option<int> {
    match lgb_header_at(b, e) {
        Some(h) => if h.file_size <= 0 || h.total_chunk_count <= 0 {
            None
        } else {
            chunk_start(b, 12)
        },
        None => None,
    }
}

fn magic_in(b: &[u8], p: usize, m0: u8, m1: u8, m2: u8, m3: u8) -> (r: bool)
    requires
        p + 4 <= b@.len(),
    ensures
        r == (b@[p as int] == m0 && b@[p + 1] == m1 && b@[p + 2] == m2 && b@[p + 3] == m3),
{
    b[p] == m0 && b[p + 1] == m1 && b[p + 2] == m2 && b[p + 3] == m3
}

impl LgbHeader {
    /// Reads the header at the start of `b` in the byte order `e`; `None` where `b` is shorter
    /// than a header or does not start with the magic.
    pub fn read(b: &[u8], e: Endian) -> (r: Option<LgbHeader>)
        ensures
            r == lgb_header_at(b@, e),
    {
        if b.len() < 12 || !magic_in(b, 0, 0x4C, 0x47, 0x42, 0x31) {
            return None;
        }
        Some(LgbHeader { file_size: read_u32(b, 4, e) as i32, total_chunk_count: read_u32(b, 8, e) as i32 })
    }

    /// Writes the header in the byte order `e`; see `lgb_header_bytes`.
    pub fn write(&self, e: Endian) -> (r: Vec<u8>)
        ensures
            r@ == lgb_header_bytes(*self, e),
    {
        let mut out: Vec<u8> = Vec::new();
        out.push(0x4Cu8);
        out.push(0x47u8);
        out.push(0x42u8);
        out.push(0x31u8);
        push_u32(&mut out, self.file_size as u32, e);
        push_u32(&mut out, self.total_chunk_count as u32, e);
        assert(out@ =~= lgb_header_bytes(*self, e));
        out
    }
}

impl LayerChunkHeader {
    /// Reads the layer chunk header stored at `p`; see `chunk_header_at`.
    pub fn read(b: &[u8], p: usize, e: Endian) -> (r: Option<LayerChunkHeader>)
        ensures
            r == chunk_header_at(b@, p as int, e),
    {
        if p > b.len() || b.len() - p < 24 || !magic_in(b, p, 0x4C, 0x47, 0x50, 0x31) {
            return None;
        }
        Some(
            LayerChunkHeader {
                chunk_size: read_u32(b, p + 4, e) as i32,
                layer_group_id: read_u32(b, p + 8, e) as i32,
                name_offset: read_u32(b, p + 12, e),
                layer_offset: read_u32(b, p + 16, e) as i32,
                layer_count: read_u32(b, p + 20, e) as i32,
            },
        )
    }
}

/// Finds the chunk magic at `p` or a later place in steps of four bytes; see `chunk_start`.
fn find_chunk(b: &[u8], p: usize) -> (r: Option<usize>)
    ensures
        r matches Some(q) ==> chunk_start(b@, p as int) == Some(q as int),
        r is None ==> chunk_start(b@, p as int) is None,
{
    let mut i: usize = p;
    while i <= b.len() && b.len() - i >= 4
        invariant
            p <= i,
            (i - p) % 4 == 0,
            chunk_start(b@, p as int) == chunk_start(b@, i as int),
        decreases b@.len() - i,
    {
        if magic_in(b, i, 0x4C, 0x47, 0x50, 0x31) {
            return Some(i);
        }
        i = i + 4;
    }
    None
}

impl Lgb {
    /// Where the first layer chunk of the layer group file `buffer` starts: the file has to
    /// start with a header whose file size and chunk count are positive; the chunk is the
    /// first place after the header, in steps of four bytes, that holds the chunk magic.
    /// `None` where the header is missing or invalid, or the bytes end before a chunk.
    pub fn first_chunk_offset(platform: Platform, buffer: &[u8]) -> (r: Option<usize>)
        ensures
            r matches Some(q) ==> first_chunk_at(buffer@, platform_endian(platform)) == Some(q as int),
            r is None ==> first_chunk_at(buffer@, platform_endian(platform)) is None,
    {
        let e = platform.endianness();
        match LgbHeader::read(buffer, e) {
            Some(h) => {
                if h.file_size <= 0 || h.total_chunk_count <= 0 {
                    None
                } else {
                    find_chunk(buffer, 12)
                }
            },
            None => None,
        }
    }
}

/// A layer group file header read back from the bytes written for it is the same header.
pub proof fn law_lgb_header_round_trip(h: LgbHeader, e: Endian)
    ensures
        lgb_header_at(lgb_header_bytes(h, e), e) == Some(h),
{
    let b = lgb_header_bytes(h, e);
    let x = h.file_size as u32;
    let y = h.total_chunk_count as u32;
    crate::model::file_header::lemma_number_bytes(x, 0, e);
    crate::model::file_header::lemma_number_bytes(y, 0, e);
    assert(b.len() == 12);
    assert(b.subrange(4, 8) =~= u32_bytes(x, e));
    assert(b.subrange(8, 12) =~= u32_bytes(y, e));
    crate::model::file_header::lemma_at(b, 4, u32_bytes(x, e), e);
    crate::model::file_header::lemma_at(b, 8, u32_bytes(y, e), e);
    let f = h.file_size;
    let c = h.total_chunk_count;
    assert((f as u32) as i32 == f) by (bit_vector);
    assert((c as u32) as i32 == c) by (bit_vector);
}

} // verus!
