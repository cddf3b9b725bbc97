//! Integers in little- and big-endian byte order, as the file formats store them.
use vstd::prelude::*;

verus! {

/// The byte order of a file.
#[derive(Debug, PartialEq, Eq, Structural, Clone, Copy)]
pub enum Endian {
    /// Most significant byte first, as on the PS3.
    Big,
    /// Least significant byte first.
    Little,
}

/// The `u16` stored little-endian at `i` in `b`.
pub open spec fn u16_le(b: Seq<u8>, i: int) -> u16 {
    (b[i] as u16) | ((b[i + 1] as u16) << 8u16)
}

/// The `u32` stored little-endian at `i` in `b`.
pub open spec fn u32_le(b: Seq<u8>, i: int) -> u32 {
    (b[i] as u32) | ((b[i + 1] as u32) << 8u32) | ((b[i + 2] as u32) << 16u32) | ((b[i + 3] as u32)
        << 24u32)
}

/// The `u32` stored big-endian at `i` in `b`.
pub open spec fn u32_be(b: Seq<u8>, i: int) -> u32 {
    ((b[i] as u32) << 24u32) | ((b[i + 1] as u32) << 16u32) | ((b[i + 2] as u32) << 8u32) | (b[i
        + 3] as u32)
}

/// The `u64` stored little-endian at `i` in `b`.
pub open spec fn u64_le(b: Seq<u8>, i: int) -> u64 {
    (u32_le(b, i) as u64) | ((u32_le(b, i + 4) as u64) << 32u64)
}

/// The little-endian bytes of `x`.
pub open spec fn u16_le_bytes(x: u16) -> Seq<u8> {
    seq![(x & 0xff) as u8, (x >> 8u16) as u8]
}

/// The little-endian bytes of `x`.
pub open spec fn u32_le_bytes(x: u32) -> Seq<u8> {
    seq![(x & 0xff) as u8, ((x >> 8u32) & 0xff) as u8, ((x >> 16u32) & 0xff) as u8, (x >> 24u32) as u8]
}

/// The big-endian bytes of `x`.
pub open spec fn u32_be_bytes(x: u32) -> Seq<u8> {
    seq![(x >> 24u32) as u8, ((x >> 16u32) & 0xff) as u8, ((x >> 8u32) & 0xff) as u8, (x & 0xff) as u8]
}

/// The little-endian bytes of `x`.
pub open spec fn u64_le_bytes(x: u64) -> Seq<u8> {
    u32_le_bytes(x as u32) + u32_le_bytes((x >> 32u64) as u32)
}

/// Reading back the bytes of a `u16` gives it again.
pub proof fn lemma_u16_le(x: u16)
    ensures
        u16_le(u16_le_bytes(x), 0) == x,
        u16_le_bytes(x).len() == 2,
{
    let b0 = (x & 0xff) as u8;
    let b1 = (x >> 8u16) as u8;
    assert((b0 as u16) | ((b1 as u16) << 8u16) == x) by (bit_vector)
        requires
            b0 == (x & 0xff) as u8,
            b1 == (x >> 8u16) as u8,
    ;
}

/// Reading back the bytes of a `u32` gives it again.
pub proof fn lemma_u32_le(x: u32)
    ensures
        u32_le(u32_le_bytes(x), 0) == x,
        u32_le_bytes(x).len() == 4,
{
    let b0 = (x & 0xff) as u8;
    let b1 = ((x >> 8u32) & 0xff) as u8;
    let b2 = ((x >> 16u32) & 0xff) as u8;
    let b3 = (x >> 24u32) as u8;
    assert((b0 as u32) | ((b1 as u32) << 8u32) | ((b2 as u32) << 16u32) | ((b3 as u32) << 24u32)
        == x) by (bit_vector)
        requires
            b0 == (x & 0xff) as u8,
            b1 == ((x >> 8u32) & 0xff) as u8,
            b2 == ((x >> 16u32) & 0xff) as u8,
            b3 == (x >> 24u32) as u8,
    ;
}

/// Reading back the bytes of a `u32` gives it again.
pub proof fn lemma_u32_be(x: u32)
    ensures
        u32_be(u32_be_bytes(x), 0) == x,
        u32_be_bytes(x).len() == 4,
{
    let b0 = (x >> 24u32) as u8;
    let b1 = ((x >> 16u32) & 0xff) as u8;
    let b2 = ((x >> 8u32) & 0xff) as u8;
    let b3 = (x & 0xff) as u8;
    assert(((b0 as u32) << 24u32) | ((b1 as u32) << 16u32) | ((b2 as u32) << 8u32) | (b3 as u32)
        == x) by (bit_vector)
        requires
            b0 == (x >> 24u32) as u8,
            b1 == ((x >> 16u32) & 0xff) as u8,
            b2 == ((x >> 8u32) & 0xff) as u8,
            b3 == (x & 0xff) as u8,
    ;
}

/// Reading back the bytes of a `u64` gives it again.
pub proof fn lemma_u64_le(x: u64)
    ensures
        u64_le(u64_le_bytes(x), 0) == x,
        u64_le_bytes(x).len() == 8,
{
    let lo = x as u32;
    let hi = (x >> 32u64) as u32;
    lemma_u32_le(lo);
    lemma_u32_le(hi);
    let b = u64_le_bytes(x);
    assert(u32_le(b, 0) == u32_le(u32_le_bytes(lo), 0));
    assert(u32_le(b, 4) == u32_le(u32_le_bytes(hi), 0));
    assert((lo as u64) | ((hi as u64) << 32u64) == x) by (bit_vector)
        requires
            lo == x as u32,
            hi == (x >> 32u64) as u32,
    ;
}

/// Whether `b` holds the bytes `p` at `i`.
pub open spec fn holds_at(b: Seq<u8>, i: int, p: Seq<u8>) -> bool {
    0 <= i && i + p.len() <= b.len() && b.subrange(i, i + p.len()) == p
}

/// Reading at `i` depends on the bytes at `i` alone.
pub proof fn lemma_read_at(b: Seq<u8>, i: int, p: Seq<u8>)
    requires
        holds_at(b, i, p),
    ensures
        p.len() >= 2 ==> u16_le(b, i) == u16_le(p, 0),
        p.len() >= 4 ==> u32_le(b, i) == u32_le(p, 0) && u32_be(b, i) == u32_be(p, 0),
        p.len() >= 8 ==> u64_le(b, i) == u64_le(p, 0),
{
    assert forall|k: int| 0 <= k < p.len() implies b[i + k] == p[k] by {
        assert(b.subrange(i, i + p.len())[k] == b[i + k]);
    }
    if p.len() >= 8 {
        assert(u32_le(b, i + 4) == u32_le(p, 4));
    }
}

/// The `u16` stored little-endian at `i` in `b`.
pub fn read_u16_le(b: &[u8], i: usize) -> (r: u16)
    requires
        i + 2 <= b@.len(),
    ensures
        r == u16_le(b@, i as int),
{
    (b[i] as u16) | ((b[i + 1] as u16) << 8u16)
}

/// The `u32` stored little-endian at `i` in `b`.
pub fn read_u32_le(b: &[u8], i: usize) -> (r: u32)
    requires
        i + 4 <= b@.len(),
    ensures
        r == u32_le(b@, i as int),
{
    (b[i] as u32) | ((b[i + 1] as u32) << 8u32) | ((b[i + 2] as u32) << 16u32) | ((b[i + 3] as u32)
        << 24u32)
}

/// The `u32` stored big-endian at `i` in `b`.
pub fn read_u32_be(b: &[u8], i: usize) -> (r: u32)
    requires
        i + 4 <= b@.len(),
    ensures
        r == u32_be(b@, i as int),
{
    ((b[i] as u32) << 24u32) | ((b[i + 1] as u32) << 16u32) | ((b[i + 2] as u32) << 8u32) | (b[i
        + 3] as u32)
}

/// The `u64` stored little-endian at `i` in `b`.
pub fn read_u64_le(b: &[u8], i: usize) -> (r: u64)
    requires
        i + 8 <= b@.len(),
    ensures
        r == u64_le(b@, i as int),
{
    let _len = b.len();
    (read_u32_le(b, i) as u64) | ((read_u32_le(b, i + 4) as u64) << 32u64)
}

/// Appends the little-endian bytes of `x`.
pub fn push_u16_le(out: &mut Vec<u8>, x: u16)
    ensures
        final(out)@ == old(out)@ + u16_le_bytes(x),
{
    out.push((x & 0xff) as u8);
    out.push((x >> 8u16) as u8);
    assert(final(out)@ =~= old(out)@ + u16_le_bytes(x));
}

/// Appends the little-endian bytes of `x`.
pub fn push_u32_le(out: &mut Vec<u8>, x: u32)
    ensures
        final(out)@ == old(out)@ + u32_le_bytes(x),
{
    out.push((x & 0xff) as u8);
    out.push(((x >> 8u32) & 0xff) as u8);
    out.push(((x >> 16u32) & 0xff) as u8);
    out.push((x >> 24u32) as u8);
    assert(final(out)@ =~= old(out)@ + u32_le_bytes(x));
}

/// Appends the big-endian bytes of `x`.
pub fn push_u32_be(out: &mut Vec<u8>, x: u32)
    ensures
        final(out)@ == old(out)@ + u32_be_bytes(x),
{
    out.push((x >> 24u32) as u8);
    out.push(((x >> 16u32) & 0xff) as u8);
    out.push(((x >> 8u32) & 0xff) as u8);
    out.push((x & 0xff) as u8);
    assert(final(out)@ =~= old(out)@ + u32_be_bytes(x));
}

/// Appends the little-endian bytes of `x`.
pub fn push_u64_le(out: &mut Vec<u8>, x: u64)
    ensures
        final(out)@ == old(out)@ + u64_le_bytes(x),
{
    push_u32_le(out, x as u32);
    push_u32_le(out, (x >> 32u64) as u32);
    assert(final(out)@ =~= old(out)@ + u64_le_bytes(x));
}

/// Appends `n` zero bytes.
pub fn push_zeros(out: &mut Vec<u8>, n: usize)
    ensures
        final(out)@ == old(out)@ + Seq::new(n as nat, |i: int| 0u8),
{
    let mut k: usize = 0;
    while k < n
        invariant
            k <= n,
            out@ == old(out)@ + Seq::new(k as nat, |i: int| 0u8),
        decreases n - k,
    {
        out.push(0u8);
        k = k + 1;
        assert(out@ =~= old(out)@ + Seq::new(k as nat, |i: int| 0u8));
    }
}

/// Appends the bytes of `p`.
pub fn push_bytes(out: &mut Vec<u8>, p: &[u8])
    ensures
        final(out)@ == old(out)@ + p@,
{
    let mut k: usize = 0;
    while k < p.len()
        invariant
            k <= p@.len(),
            out@ == old(out)@ + p@.take(k as int),
        decreases p@.len() - k,
    {
        out.push(p[k]);
        k = k + 1;
        assert(out@ =~= old(out)@ + p@.take(k as int));
    }
    assert(p@.take(p@.len() as int) =~= p@);
}

/// The `u32` stored at `i` in `b` in the byte order `endian`.
pub open spec fn u32_at(b: Seq<u8>, i: int, endian: Endian) -> u32 {
    match endian {
        Endian::Big => u32_be(b, i),
        Endian::Little => u32_le(b, i),
    }
}

/// The `u32` stored at `i` in `b` in the byte order `endian`.
pub fn read_u32(b: &[u8], i: usize, endian: Endian) -> (r: u32)
    requires
        i + 4 <= b@.len(),
    ensures
        r == u32_at(b@, i as int, endian),
{
    match endian {
        Endian::Big => read_u32_be(b, i),
        Endian::Little => read_u32_le(b, i),
    }
}

/// The `u16` stored big-endian at `i` in `b`.
pub open spec fn u16_be(b: Seq<u8>, i: int) -> u16 {
    ((b[i] as u16) << 8u16) | (b[i + 1] as u16)
}

/// The `u16` stored at `i` in `b` in the byte order `endian`.
pub open spec fn u16_at(b: Seq<u8>, i: int, endian: Endian) -> u16 {
    match endian {
        Endian::Big => u16_be(b, i),
        Endian::Little => u16_le(b, i),
    }
}

/// The `u16` stored at `i` in `b` in the byte order `endian`.
pub fn read_u16(b: &[u8], i: usize, endian: Endian) -> (r: u16)
    requires
        i + 2 <= b@.len(),
    ensures
        r == u16_at(b@, i as int, endian),
{
    match endian {
        Endian::Big => ((b[i] as u16) << 8u16) | (b[i + 1] as u16),
        Endian::Little => read_u16_le(b, i),
    }
}


/// The bytes of `b` from `a` up to, not including, `e`.
pub fn bytes_in(b: &[u8], a: usize, e: usize) -> (r: Vec<u8>)
    requires
        a <= e <= b@.len(),
    ensures
        r@ == b@.subrange(a as int, e as int),
{
    let mut r: Vec<u8> = Vec::new();
    let mut k = a;
    while k < e
        invariant
            a <= k <= e,
            e <= b@.len(),
            r@ == b@.subrange(a as int, k as int),
        decreases e - k,
    {
        r.push(b[k]);
        k = k + 1;
        assert(r@ =~= b@.subrange(a as int, k as int));
    }
    r
}


/// The `u16` stored big-endian at `i` in `b`.
pub fn read_u16_be(b: &[u8], i: usize) -> (r: u16)
    requires
        i + 2 <= b@.len(),
    ensures
        r == u16_be(b@, i as int),
{
    ((b[i] as u16) << 8u16) | (b[i + 1] as u16)
}

/// The `u64` stored big-endian at `i` in `b`.
pub open spec fn u64_be(b: Seq<u8>, i: int) -> u64 {
    ((u32_be(b, i) as u64) << 32u64) | (u32_be(b, i + 4) as u64)
}

/// The `u64` stored big-endian at `i` in `b`.
pub fn read_u64_be(b: &[u8], i: usize) -> (r: u64)
    requires
        i + 8 <= b@.len(),
    ensures
        r == u64_be(b@, i as int),
{
    let _len = b.len();
    ((read_u32_be(b, i) as u64) << 32u64) | (read_u32_be(b, i + 4) as u64)
}

} // verus!
