//! The file header of a model, read and written in either byte order.
use vstd::prelude::*;
use crate::bytes::{
    holds_at, push_u32_be, push_u32_le, read_u16, read_u32, u16_at, u16_be, u16_le, u16_le_bytes,
    u32_at, u32_be, u32_be_bytes, u32_le, u32_le_bytes, Endian,
};
use crate::model::ModelFileHeader;

verus! {

/// How many bytes a model file header takes.
pub const MODEL_FILE_HEADER_BYTES: usize = 68;

/// The bytes of `x` in the byte order `e`.
pub open spec fn u16_bytes(x: u16, e: Endian) -> Seq<u8> {
    match e {
        Endian::Big => seq![(x >> 8u16) as u8, (x & 0xff) as u8],
        Endian::Little => u16_le_bytes(x),
    }
}

/// The bytes of `x` in the byte order `e`.
pub open spec fn u32_bytes(x: u32, e: Endian) -> Seq<u8> {
    match e {
        Endian::Big => u32_be_bytes(x),
        Endian::Little => u32_le_bytes(x),
    }
}

/// A flag byte: one where it is set.
pub open spec fn flag_byte(f: bool) -> u8 {
    if f {
        1
    } else {
        0
    }
}

/// The bytes of a model file header in the byte order `e`: its numbers in the order of its
/// fields, the level count, the two flags, and a byte of padding.
pub open spec fn file_header_bytes(h: ModelFileHeader, e: Endian) -> Seq<u8> {
    u32_bytes(h.version, e) + u32_bytes(h.stack_size, e) + u32_bytes(h.runtime_size, e)
        + u16_bytes(h.vertex_declaration_count, e) + u16_bytes(h.material_count, e)
        + u32_bytes(h.vertex_offsets@[0], e) + u32_bytes(h.vertex_offsets@[1], e)
        + u32_bytes(h.vertex_offsets@[2], e) + u32_bytes(h.index_offsets@[0], e)
        + u32_bytes(h.index_offsets@[1], e) + u32_bytes(h.index_offsets@[2], e)
        + u32_bytes(h.vertex_buffer_size@[0], e) + u32_bytes(h.vertex_buffer_size@[1], e)
        + u32_bytes(h.vertex_buffer_size@[2], e) + u32_bytes(h.index_buffer_size@[0], e)
        + u32_bytes(h.index_buffer_size@[1], e) + u32_bytes(h.index_buffer_size@[2], e) + seq![
        h.lod_count,
        flag_byte(h.index_buffer_streaming_enabled),
        flag_byte(h.has_edge_geometry),
        0u8,
    ]
}

/// Whether `h` is the model file header stored at the start of `b` in the byte order `e`: its
/// numbers at their places, and each flag set where its byte is one.
pub open spec fn is_file_header_at(h: ModelFileHeader, b: Seq<u8>, e: Endian) -> bool {
    &&& h.version == u32_at(b, 0, e)
    &&& h.stack_size == u32_at(b, 4, e)
    &&& h.runtime_size == u32_at(b, 8, e)
    &&& h.vertex_declaration_count == u16_at(b, 12, e)
    &&& h.material_count == u16_at(b, 14, e)
    &&& h.vertex_offsets@ == seq![u32_at(b, 16, e), u32_at(b, 20, e), u32_at(b, 24, e)]
    &&& h.index_offsets@ == seq![u32_at(b, 28, e), u32_at(b, 32, e), u32_at(b, 36, e)]
    &&& h.vertex_buffer_size@ == seq![u32_at(b, 40, e), u32_at(b, 44, e), u32_at(b, 48, e)]
    &&& h.index_buffer_size@ == seq![u32_at(b, 52, e), u32_at(b, 56, e), u32_at(b, 60, e)]
    &&& h.lod_count == b[64]
    &&& h.index_buffer_streaming_enabled == (b[65] == 1)
    &&& h.has_edge_geometry == (b[66] == 1)
}

/// Reading back the bytes of a number in a byte order gives it again.
pub(crate) proof fn lemma_number_bytes(x: u32, y: u16, e: Endian)
    ensures
        u32_at(u32_bytes(x, e), 0, e) == x,
        u32_bytes(x, e).len() == 4,
        u16_at(u16_bytes(y, e), 0, e) == y,
        u16_bytes(y, e).len() == 2,
{
    crate::bytes::lemma_u32_le(x);
    crate::bytes::lemma_u32_be(x);
    crate::bytes::lemma_u16_le(y);
    let b0 = (y >> 8u16) as u8;
    let b1 = (y & 0xff) as u8;
    assert(((b0 as u16) << 8u16) | (b1 as u16) == y) by (bit_vector)
        requires
            b0 == (y >> 8u16) as u8,
            b1 == (y & 0xff) as u8,
    ;
}

/// Reading at `i` in a byte order depends on the bytes at `i` alone.
pub(crate) proof fn lemma_at(b: Seq<u8>, i: int, p: Seq<u8>, e: Endian)
    requires
        holds_at(b, i, p),
    ensures
        p.len() >= 2 ==> u16_at(b, i, e) == u16_at(p, 0, e),
        p.len() >= 4 ==> u32_at(b, i, e) == u32_at(p, 0, e),
{
    assert forall|k: int| 0 <= k < p.len() implies b[i + k] == p[k] by {
        assert(b.subrange(i, i + p.len())[k] == b[i + k]);
    }
}

/// A model file header read back from the bytes written for it is the same header.
pub proof fn law_file_header_round_trip(h: ModelFileHeader, e: Endian)
    ensures
        file_header_bytes(h, e).len() == MODEL_FILE_HEADER_BYTES,
        is_file_header_at(h, file_header_bytes(h, e), e),
{
    let b = file_header_bytes(h, e);
    let w = |x: u32| u32_bytes(x, e);
    lemma_number_bytes(h.version, h.vertex_declaration_count, e);
    lemma_number_bytes(h.stack_size, h.material_count, e);
    lemma_number_bytes(h.runtime_size, 0, e);
    lemma_number_bytes(h.vertex_offsets@[0], 0, e);
    lemma_number_bytes(h.vertex_offsets@[1], 0, e);
    lemma_number_bytes(h.vertex_offsets@[2], 0, e);
    lemma_number_bytes(h.index_offsets@[0], 0, e);
    lemma_number_bytes(h.index_offsets@[1], 0, e);
    lemma_number_bytes(h.index_offsets@[2], 0, e);
    lemma_number_bytes(h.vertex_buffer_size@[0], 0, e);
    lemma_number_bytes(h.vertex_buffer_size@[1], 0, e);
    lemma_number_bytes(h.vertex_buffer_size@[2], 0, e);
    lemma_number_bytes(h.index_buffer_size@[0], 0, e);
    lemma_number_bytes(h.index_buffer_size@[1], 0, e);
    lemma_number_bytes(h.index_buffer_size@[2], 0, e);
    assert(b.len() == 68);
    assert(b.subrange(0, 4) =~= u32_bytes(h.version, e));
    assert(b.subrange(4, 8) =~= u32_bytes(h.stack_size, e));
    assert(b.subrange(8, 12) =~= u32_bytes(h.runtime_size, e));
    assert(b.subrange(12, 14) =~= u16_bytes(h.vertex_declaration_count, e));
    assert(b.subrange(14, 16) =~= u16_bytes(h.material_count, e));
    assert(b.subrange(16, 20) =~= u32_bytes(h.vertex_offsets@[0], e));
    assert(b.subrange(20, 24) =~= u32_bytes(h.vertex_offsets@[1], e));
    assert(b.subrange(24, 28) =~= u32_bytes(h.vertex_offsets@[2], e));
    assert(b.subrange(28, 32) =~= u32_bytes(h.index_offsets@[0], e));
    assert(b.subrange(32, 36) =~= u32_bytes(h.index_offsets@[1], e));
    assert(b.subrange(36, 40) =~= u32_bytes(h.index_offsets@[2], e));
    assert(b.subrange(40, 44) =~= u32_bytes(h.vertex_buffer_size@[0], e));
    assert(b.subrange(44, 48) =~= u32_bytes(h.vertex_buffer_size@[1], e));
    assert(b.subrange(48, 52) =~= u32_bytes(h.vertex_buffer_size@[2], e));
    assert(b.subrange(52, 56) =~= u32_bytes(h.index_buffer_size@[0], e));
    assert(b.subrange(56, 60) =~= u32_bytes(h.index_buffer_size@[1], e));
    assert(b.subrange(60, 64) =~= u32_bytes(h.index_buffer_size@[2], e));
    lemma_at(b, 0, u32_bytes(h.version, e), e);
    lemma_at(b, 4, u32_bytes(h.stack_size, e), e);
    lemma_at(b, 8, u32_bytes(h.runtime_size, e), e);
    lemma_at(b, 12, u16_bytes(h.vertex_declaration_count, e), e);
    lemma_at(b, 14, u16_bytes(h.material_count, e), e);
    lemma_at(b, 16, u32_bytes(h.vertex_offsets@[0], e), e);
    lemma_at(b, 20, u32_bytes(h.vertex_offsets@[1], e), e);
    lemma_at(b, 24, u32_bytes(h.vertex_offsets@[2], e), e);
    lemma_at(b, 28, u32_bytes(h.index_offsets@[0], e), e);
    lemma_at(b, 32, u32_bytes(h.index_offsets@[1], e), e);
    lemma_at(b, 36, u32_bytes(h.index_offsets@[2], e), e);
    lemma_at(b, 40, u32_bytes(h.vertex_buffer_size@[0], e), e);
    lemma_at(b, 44, u32_bytes(h.vertex_buffer_size@[1], e), e);
    lemma_at(b, 48, u32_bytes(h.vertex_buffer_size@[2], e), e);
    lemma_at(b, 52, u32_bytes(h.index_buffer_size@[0], e), e);
    lemma_at(b, 56, u32_bytes(h.index_buffer_size@[1], e), e);
    lemma_at(b, 60, u32_bytes(h.index_buffer_size@[2], e), e);
    assert(h.vertex_offsets@ =~= seq![u32_at(b, 16, e), u32_at(b, 20, e), u32_at(b, 24, e)]);
    assert(h.index_offsets@ =~= seq![u32_at(b, 28, e), u32_at(b, 32, e), u32_at(b, 36, e)]);
    assert(h.vertex_buffer_size@ =~= seq![u32_at(b, 40, e), u32_at(b, 44, e), u32_at(b, 48, e)]);
    assert(h.index_buffer_size@ =~= seq![u32_at(b, 52, e), u32_at(b, 56, e), u32_at(b, 60, e)]);
}

/// Appends the bytes of `x` in the byte order `e`.
pub(crate) fn push_u16(out: &mut Vec<u8>, x: u16, e: Endian)
    ensures
        final(out)@ == old(out)@ + u16_bytes(x, e),
{
    match e {
        Endian::Big => {
            out.push((x >> 8u16) as u8);
            out.push((x & 0xff) as u8);
        },
        Endian::Little => {
            out.push((x & 0xff) as u8);
            out.push((x >> 8u16) as u8);
        },
    }
    assert(out@ =~= old(out)@ + u16_bytes(x, e));
}

/// Appends the bytes of `x` in the byte order `e`.
pub(crate) fn push_u32(out: &mut Vec<u8>, x: u32, e: Endian)
    ensures
        final(out)@ == old(out)@ + u32_bytes(x, e),
{
    match e {
        Endian::Big => push_u32_be(out, x),
        Endian::Little => push_u32_le(out, x),
    }
}

impl ModelFileHeader {
    /// Reads the header at the start of `b` in the byte order `e`; `None` where `b` is shorter
    /// than a header.
    pub fn read(b: &[u8], e: Endian) -> (r: Option<ModelFileHeader>)
        ensures
            r is Some <==> b@.len() >= MODEL_FILE_HEADER_BYTES,
            r matches Some(h) ==> is_file_header_at(h, b@, e),
    {
        if b.len() < MODEL_FILE_HEADER_BYTES {
            return None;
        }
        let h = ModelFileHeader {
            version: read_u32(b, 0, e),
            stack_size: read_u32(b, 4, e),
            runtime_size: read_u32(b, 8, e),
            vertex_declaration_count: read_u16(b, 12, e),
            material_count: read_u16(b, 14, e),
            vertex_offsets: [read_u32(b, 16, e), read_u32(b, 20, e), read_u32(b, 24, e)],
            index_offsets: [read_u32(b, 28, e), read_u32(b, 32, e), read_u32(b, 36, e)],
            vertex_buffer_size: [read_u32(b, 40, e), read_u32(b, 44, e), read_u32(b, 48, e)],
            index_buffer_size: [read_u32(b, 52, e), read_u32(b, 56, e), read_u32(b, 60, e)],
            lod_count: b[64],
            index_buffer_streaming_enabled: b[65] == 1,
            has_edge_geometry: b[66] == 1,
        };
        Some(h)
    }

    /// Writes the header in the byte order `e`; see `file_header_bytes`.
    pub fn write(&self, e: Endian) -> (r: Vec<u8>)
        ensures
            r@ == file_header_bytes(*self, e),
    {
        let mut out: Vec<u8> = Vec::new();
        push_u32(&mut out, self.version, e);
        push_u32(&mut out, self.stack_size, e);
        push_u32(&mut out, self.runtime_size, e);
        push_u16(&mut out, self.vertex_declaration_count, e);
        push_u16(&mut out, self.material_count, e);
        push_u32(&mut out, self.vertex_offsets[0], e);
        push_u32(&mut out, self.vertex_offsets[1], e);
        push_u32(&mut out, self.vertex_offsets[2], e);
        push_u32(&mut out, self.index_offsets[0], e);
        push_u32(&mut out, self.index_offsets[1], e);
        push_u32(&mut out, self.index_offsets[2], e);
        push_u32(&mut out, self.vertex_buffer_size[0], e);
        push_u32(&mut out, self.vertex_buffer_size[1], e);
        push_u32(&mut out, self.vertex_buffer_size[2], e);
        push_u32(&mut out, self.index_buffer_size[0], e);
        push_u32(&mut out, self.index_buffer_size[1], e);
        push_u32(&mut out, self.index_buffer_size[2], e);
        out.push(self.lod_count);
        out.push(if self.index_buffer_streaming_enabled { 1u8 } else { 0u8 });
        out.push(if self.has_edge_geometry { 1u8 } else { 0u8 });
        out.push(0u8);
        assert(out@ =~= file_header_bytes(*self, e));
        out
    }
}

} // verus!
