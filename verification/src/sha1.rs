//! A minimal implementation of SHA-1.
//!
//! The hash object can be updated multiple times; its digest only depends on
//! the concatenation of everything it was fed.
use vstd::prelude::*;
use crate::text::{chars_of, string_from_chars};
use vstd::string::StringSliceAdditionalSpecFns;

verus! {

// ---------------------------------------------------------------------------
// The SHA-1 algorithm as a mathematical function (FIPS 180-4, section 6.1).
// ---------------------------------------------------------------------------

/// 32-bit addition modulo 2^32.
pub open spec fn add32(x: u32, y: u32) -> u32 {
    (x + y) as u32
}

/// Rotation of a 32-bit word to the left by `n` bits, `0 < n < 32`.
pub open spec fn rotl(x: u32, n: u32) -> u32 {
    (x << n) | (x >> ((32 - n) as u32))
}

/// The SHA-1 "Ch" function.
pub open spec fn f_ch(x: u32, y: u32, z: u32) -> u32 {
    (x & y) ^ (!x & z)
}

/// The SHA-1 "Parity" function.
pub open spec fn f_parity(x: u32, y: u32, z: u32) -> u32 {
    x ^ y ^ z
}

/// The SHA-1 "Maj" function.
pub open spec fn f_maj(x: u32, y: u32, z: u32) -> u32 {
    (x & y) ^ (x & z) ^ (y & z)
}

/// The round function used in round `t` (0 <= t < 80).
pub open spec fn f_round(t: int, x: u32, y: u32, z: u32) -> u32 {
    if t < 20 {
        f_ch(x, y, z)
    } else if t < 40 {
        f_parity(x, y, z)
    } else if t < 60 {
        f_maj(x, y, z)
    } else {
        f_parity(x, y, z)
    }
}

/// The round constant used in round `t` (0 <= t < 80).
pub open spec fn k_round(t: int) -> u32 {
    if t < 20 {
        0x5A827999u32
    } else if t < 40 {
        0x6ED9EBA1u32
    } else if t < 60 {
        0x8F1BBCDCu32
    } else {
        0xCA62C1D6u32
    }
}

/// The big-endian 32-bit word made of the four bytes of `b` at `i`.
pub open spec fn be_word(b: Seq<u8>, i: int) -> u32 {
    ((b[i] as u32) << 24u32) | ((b[i + 1] as u32) << 16u32) | ((b[i + 2] as u32) << 8u32) | (
    b[i + 3] as u32)
}

/// The sixteen big-endian words of a 64-byte block.
pub open spec fn block_words(block: Seq<u8>) -> Seq<u32> {
    Seq::new(16, |i: int| be_word(block, 4 * i))
}

/// The message schedule word `W_t` of a block with the words `m`.
pub open spec fn schedule_word(m: Seq<u32>, t: nat) -> u32
    decreases t,
{
    if t < 16 {
        m[t as int]
    } else {
        rotl(
            schedule_word(m, (t - 3) as nat) ^ schedule_word(m, (t - 8) as nat) ^ schedule_word(
                m,
                (t - 14) as nat,
            ) ^ schedule_word(m, (t - 16) as nat),
            1,
        )
    }
}

/// The working variables `(a, b, c, d, e)` of the compression function.
pub type Working = (u32, u32, u32, u32, u32);

/// One SHA-1 round `t` with the schedule word `wt`.
pub open spec fn sha1_round(s: Working, t: int, wt: u32) -> Working {
    let temp = add32(add32(add32(add32(rotl(s.0, 5), f_round(t, s.1, s.2, s.3)), s.4), k_round(t)), wt);
    (temp, s.0, rotl(s.1, 30), s.2, s.3)
}

/// The working variables after the first `t` rounds on the schedule of `m`.
pub open spec fn sha1_rounds(s: Working, m: Seq<u32>, t: nat) -> Working
    decreases t,
{
    if t == 0 {
        s
    } else {
        sha1_round(sha1_rounds(s, m, (t - 1) as nat), t - 1, schedule_word(m, (t - 1) as nat))
    }
}

/// The SHA-1 compression function on the five-word state `h` and a 64-byte block.
pub open spec fn compress(h: Seq<u32>, block: Seq<u8>) -> Seq<u32> {
    let r = sha1_rounds((h[0], h[1], h[2], h[3], h[4]), block_words(block), 80);
    seq![add32(h[0], r.0), add32(h[1], r.1), add32(h[2], r.2), add32(h[3], r.3), add32(h[4], r.4)]
}

/// The state after compressing every full 64-byte block at the start of `m`, in order.
pub open spec fn compress_all(h: Seq<u32>, m: Seq<u8>) -> Seq<u32>
    decreases m.len(),
{
    if m.len() < 64 {
        h
    } else {
        compress_all(compress(h, m.take(64)), m.skip(64))
    }
}

/// The initial hash value.
pub open spec fn initial_state() -> Seq<u32> {
    seq![0x67452301u32, 0xefcdab89u32, 0x98badcfeu32, 0x10325476u32, 0xc3d2e1f0u32]
}

/// The eight big-endian bytes of `v`.
pub open spec fn be_bytes64(v: u64) -> Seq<u8> {
    seq![
        (v >> 56u64) as u8,
        (v >> 48u64) as u8,
        (v >> 40u64) as u8,
        (v >> 32u64) as u8,
        (v >> 24u64) as u8,
        (v >> 16u64) as u8,
        (v >> 8u64) as u8,
        v as u8,
    ]
}

/// Number of zero bytes between the `0x80` marker and the length in the padding of a
/// message of `len` bytes.
pub open spec fn pad_zeros(len: nat) -> nat {
    if len % 64 < 56 {
        (55 - len % 64) as nat
    } else {
        (119 - len % 64) as nat
    }
}

/// The padded message: `m`, the byte `0x80`, zeros, and the bit length of `m` as a
/// big-endian 64-bit number, so that the total is a multiple of 64 bytes.
pub open spec fn pad(m: Seq<u8>) -> Seq<u8> {
    m + seq![0x80u8] + Seq::new(pad_zeros(m.len()), |i: int| 0u8) + be_bytes64((m.len() * 8) as u64)
}

/// The SHA-1 hash of `m`, as five words.
pub open spec fn sha1(m: Seq<u8>) -> Seq<u32> {
    compress_all(initial_state(), pad(m))
}

/// The twenty big-endian bytes of the five words of a digest.
pub open spec fn digest_bytes(h: Seq<u32>) -> Seq<u8> {
    Seq::new(20, |i: int| (h[i / 4] >> ((24 - 8 * (i % 4)) as u32)) as u8)
}

// ---------------------------------------------------------------------------
// Executable helpers.
// ---------------------------------------------------------------------------

/// Rotates `x` to the left by `n` bits.
fn rotate_left(x: u32, n: u32) -> (r: u32)
    requires
        0 < n < 32,
    ensures
        r == rotl(x, n),
{
    (x << n) | (x >> (32 - n))
}

/// Adds `x` and `y` modulo 2^32.
fn wrapping_add(x: u32, y: u32) -> (r: u32)
    ensures
        r == add32(x, y),
{
    let r = x.wrapping_add(y);
    assert(r == add32(x, y)) by (bit_vector)
        requires
            r == (if x + y > u32::MAX {
                (x + y - 4294967296) as u32
            } else {
                (x + y) as u32
            }),
    ;
    r
}

/// Subtracts `y` from `x` modulo 2^32.
fn wrapping_sub(x: u32, y: u32) -> (r: u32)
    ensures
        r == (x - y) as u32,
{
    let r = x.wrapping_sub(y);
    assert(r == (x - y) as u32) by (bit_vector)
        requires
            r == (if x - y < 0 {
                (x - y + 4294967296) as u32
            } else {
                (x - y) as u32
            }),
    ;
    r
}


// ---------------------------------------------------------------------------
// Four-lane vectors of words, and the four-round building blocks.
// ---------------------------------------------------------------------------

/// Four 32-bit lanes.
#[allow(non_camel_case_types)]
#[derive(Clone, Copy, PartialEq, Eq, Structural)]
pub struct u32x4(pub u32, pub u32, pub u32, pub u32);

/// Two 64-bit lanes.
#[allow(non_camel_case_types)]
#[derive(Clone, Copy)]
pub struct u64x2(pub u64, pub u64);

impl u32x4 {
    /// Lane-wise addition modulo 2^32.
    pub fn add(self, rhs: u32x4) -> (r: u32x4)
        ensures
            r == u32x4(
                add32(self.0, rhs.0),
                add32(self.1, rhs.1),
                add32(self.2, rhs.2),
                add32(self.3, rhs.3),
            ),
    {
        u32x4(
            wrapping_add(self.0, rhs.0),
            wrapping_add(self.1, rhs.1),
            wrapping_add(self.2, rhs.2),
            wrapping_add(self.3, rhs.3),
        )
    }

    /// Lane-wise subtraction modulo 2^32.
    pub fn sub(self, rhs: u32x4) -> (r: u32x4)
        ensures
            r == u32x4(
                (self.0 - rhs.0) as u32,
                (self.1 - rhs.1) as u32,
                (self.2 - rhs.2) as u32,
                (self.3 - rhs.3) as u32,
            ),
    {
        u32x4(
            wrapping_sub(self.0, rhs.0),
            wrapping_sub(self.1, rhs.1),
            wrapping_sub(self.2, rhs.2),
            wrapping_sub(self.3, rhs.3),
        )
    }

    /// Lane-wise bitwise and.
    pub fn bitand(self, rhs: u32x4) -> (r: u32x4)
        ensures
            r == u32x4(self.0 & rhs.0, self.1 & rhs.1, self.2 & rhs.2, self.3 & rhs.3),
    {
        u32x4(self.0 & rhs.0, self.1 & rhs.1, self.2 & rhs.2, self.3 & rhs.3)
    }

    /// Lane-wise bitwise or.
    pub fn bitor(self, rhs: u32x4) -> (r: u32x4)
        ensures
            r == u32x4(self.0 | rhs.0, self.1 | rhs.1, self.2 | rhs.2, self.3 | rhs.3),
    {
        u32x4(self.0 | rhs.0, self.1 | rhs.1, self.2 | rhs.2, self.3 | rhs.3)
    }

    /// Lane-wise bitwise exclusive or.
    pub fn bitxor(self, rhs: u32x4) -> (r: u32x4)
        ensures
            r == u32x4(self.0 ^ rhs.0, self.1 ^ rhs.1, self.2 ^ rhs.2, self.3 ^ rhs.3),
    {
        u32x4(self.0 ^ rhs.0, self.1 ^ rhs.1, self.2 ^ rhs.2, self.3 ^ rhs.3)
    }

    /// Shifts every lane left by `amt` bits.
    pub fn shl(self, amt: usize) -> (r: u32x4)
        requires
            amt < 32,
        ensures
            r == u32x4(self.0 << amt, self.1 << amt, self.2 << amt, self.3 << amt),
    {
        u32x4(self.0 << amt, self.1 << amt, self.2 << amt, self.3 << amt)
    }

    /// Shifts every lane right by `amt` bits.
    pub fn shr(self, amt: usize) -> (r: u32x4)
        requires
            amt < 32,
        ensures
            r == u32x4(self.0 >> amt, self.1 >> amt, self.2 >> amt, self.3 >> amt),
    {
        u32x4(self.0 >> amt, self.1 >> amt, self.2 >> amt, self.3 >> amt)
    }
}

impl u64x2 {
    /// Lane-wise addition modulo 2^64.
    pub fn add(self, rhs: u64x2) -> (r: u64x2)
        ensures
            r == u64x2((self.0 + rhs.0) as u64, (self.1 + rhs.1) as u64),
    {
        let a = self.0.wrapping_add(rhs.0);
        let b = self.1.wrapping_add(rhs.1);
        let x = self.0;
        let y = rhs.0;
        let z = self.1;
        let w = rhs.1;
        assert(a == (x + y) as u64) by (bit_vector)
            requires
                a == (if x + y > u64::MAX {
                    (x + y - 18446744073709551616) as u64
                } else {
                    (x + y) as u64
                }),
        ;
        assert(b == (z + w) as u64) by (bit_vector)
            requires
                b == (if z + w > u64::MAX {
                    (z + w - 18446744073709551616) as u64
                } else {
                    (z + w) as u64
                }),
        ;
        u64x2(a, b)
    }
}

/// Lane-wise equality as a mask.
pub trait SimdExt: Sized {
    /// All lanes set where `self` equals `rhs` as a whole, all lanes clear otherwise.
    fn simd_eq(self, rhs: Self) -> Self;
}

impl SimdExt for u32x4 {
    fn simd_eq(self, rhs: Self) -> (r: Self)
        ensures
            r == (if self == rhs {
                u32x4(0xffffffff, 0xffffffff, 0xffffffff, 0xffffffff)
            } else {
                u32x4(0, 0, 0, 0)
            }),
    {
        if self == rhs {
            u32x4(0xffffffff, 0xffffffff, 0xffffffff, 0xffffffff)
        } else {
            u32x4(0, 0, 0, 0)
        }
    }
}

/// One round with the word-plus-constant `wk` already summed, as the four-round
/// building blocks compute it; `t` selects the round function.
pub open spec fn step(t: int, s: Working, wk: u32) -> Working {
    let temp = add32(add32(add32(s.4, rotl(s.0, 5)), f_round(t, s.1, s.2, s.3)), wk);
    (temp, s.0, rotl(s.1, 30), s.2, s.3)
}

/// Four steps with the four words of `msg`.
pub open spec fn four_steps(t: int, s: Working, msg: u32x4) -> Working {
    step(t, step(t, step(t, step(t, s, msg.0), msg.1), msg.2), msg.3)
}

/// The first four working variables of the result of four steps from `(a, b, c, d, 0)`.
pub open spec fn four_steps_x4(t: int, abcd: u32x4, msg: u32x4) -> u32x4 {
    let r = four_steps(t, (abcd.0, abcd.1, abcd.2, abcd.3, 0u32), msg);
    u32x4(r.0, r.1, r.2, r.3)
}

/// The Ch function as the four-round block computes it.
fn ch_word(x: u32, y: u32, z: u32) -> (r: u32)
    ensures
        r == f_ch(x, y, z),
{
    let r = z ^ (x & (y ^ z));
    assert(r == f_ch(x, y, z)) by (bit_vector)
        requires
            r == z ^ (x & (y ^ z)),
    ;
    r
}

/// The Parity function.
fn parity(x: u32, y: u32, z: u32) -> (r: u32)
    ensures
        r == f_parity(x, y, z),
{
    x ^ y ^ z
}

/// The Maj function.
fn majority(x: u32, y: u32, z: u32) -> (r: u32)
    ensures
        r == f_maj(x, y, z),
{
    (x & y) ^ (x & z) ^ (y & z)
}

/// The first lane of a vector.
fn sha1_first(w0: u32x4) -> (r: u32)
    ensures
        r == w0.0,
{
    w0.0
}

/// Adds a word to the first lane of a vector.
fn sha1_first_add(e: u32, w0: u32x4) -> (r: u32x4)
    ensures
        r == u32x4(add32(e, w0.0), w0.1, w0.2, w0.3),
{
    let u32x4(a, b, c, d) = w0;
    u32x4(wrapping_add(e, a), b, c, d)
}

/// First part of the message schedule of four words.
fn sha1msg1(a: u32x4, b: u32x4) -> (r: u32x4)
    ensures
        r == u32x4(a.0 ^ a.2, a.1 ^ a.3, a.2 ^ b.0, a.3 ^ b.1),
{
    let u32x4(_, _, w2, w3) = a;
    let u32x4(w4, w5, _, _) = b;
    a.bitxor(u32x4(w2, w3, w4, w5))
}

/// Second part of the message schedule of four words.
fn sha1msg2(a: u32x4, b: u32x4) -> (r: u32x4)
    ensures
        r.0 == rotl(a.0 ^ b.1, 1),
        r.1 == rotl(a.1 ^ b.2, 1),
        r.2 == rotl(a.2 ^ b.3, 1),
        r.3 == rotl(a.3 ^ rotl(a.0 ^ b.1, 1), 1),
{
    let u32x4(x0, x1, x2, x3) = a;
    let u32x4(_, w13, w14, w15) = b;

    let w16 = rotate_left(x0 ^ w13, 1);
    let w17 = rotate_left(x1 ^ w14, 1);
    let w18 = rotate_left(x2 ^ w15, 1);
    let w19 = rotate_left(x3 ^ w16, 1);

    u32x4(w16, w17, w18, w19)
}

/// Adds the rotated first lane of `abcd` to the first lane of `msg`.
fn sha1_first_half(abcd: u32x4, msg: u32x4) -> (r: u32x4)
    ensures
        r == u32x4(add32(rotl(abcd.0, 30), msg.0), msg.1, msg.2, msg.3),
{
    sha1_first_add(rotate_left(sha1_first(abcd), 30), msg)
}

/// Four rounds with the Ch function.
fn sha1rnds4c(abcd: u32x4, msg: u32x4) -> (r: u32x4)
    ensures
        r == four_steps_x4(0, abcd, msg),
{
    let u32x4(mut a, mut b, mut c, mut d) = abcd;
    let u32x4(t, u, v, w) = msg;
    let mut e = 0u32;

    e = wrapping_add(wrapping_add(wrapping_add(e, rotate_left(a, 5)), ch_word(b, c, d)), t);
    b = rotate_left(b, 30);

    d = wrapping_add(wrapping_add(wrapping_add(d, rotate_left(e, 5)), ch_word(a, b, c)), u);
    a = rotate_left(a, 30);

    c = wrapping_add(wrapping_add(wrapping_add(c, rotate_left(d, 5)), ch_word(e, a, b)), v);
    e = rotate_left(e, 30);

    b = wrapping_add(wrapping_add(wrapping_add(b, rotate_left(c, 5)), ch_word(d, e, a)), w);
    d = rotate_left(d, 30);

    u32x4(b, c, d, e)
}

/// Four rounds with the Parity function.
fn sha1rnds4p(abcd: u32x4, msg: u32x4) -> (r: u32x4)
    ensures
        r == four_steps_x4(20, abcd, msg),
        r == four_steps_x4(60, abcd, msg),
{
    let u32x4(mut a, mut b, mut c, mut d) = abcd;
    let u32x4(t, u, v, w) = msg;
    let mut e = 0u32;

    e = wrapping_add(wrapping_add(wrapping_add(e, rotate_left(a, 5)), parity(b, c, d)), t);
    b = rotate_left(b, 30);

    d = wrapping_add(wrapping_add(wrapping_add(d, rotate_left(e, 5)), parity(a, b, c)), u);
    a = rotate_left(a, 30);

    c = wrapping_add(wrapping_add(wrapping_add(c, rotate_left(d, 5)), parity(e, a, b)), v);
    e = rotate_left(e, 30);

    b = wrapping_add(wrapping_add(wrapping_add(b, rotate_left(c, 5)), parity(d, e, a)), w);
    d = rotate_left(d, 30);

    u32x4(b, c, d, e)
}

/// Four rounds with the Maj function.
fn sha1rnds4m(abcd: u32x4, msg: u32x4) -> (r: u32x4)
    ensures
        r == four_steps_x4(40, abcd, msg),
{
    let u32x4(mut a, mut b, mut c, mut d) = abcd;
    let u32x4(t, u, v, w) = msg;
    let mut e = 0u32;

    e = wrapping_add(wrapping_add(wrapping_add(e, rotate_left(a, 5)), majority(b, c, d)), t);
    b = rotate_left(b, 30);

    d = wrapping_add(wrapping_add(wrapping_add(d, rotate_left(e, 5)), majority(a, b, c)), u);
    a = rotate_left(a, 30);

    c = wrapping_add(wrapping_add(wrapping_add(c, rotate_left(d, 5)), majority(e, a, b)), v);
    e = rotate_left(e, 30);

    b = wrapping_add(wrapping_add(wrapping_add(b, rotate_left(c, 5)), majority(d, e, a)), w);
    d = rotate_left(d, 30);

    u32x4(b, c, d, e)
}

/// Lane-wise addition modulo 2^32.
pub open spec fn add_vec(a: u32x4, b: u32x4) -> u32x4 {
    u32x4(add32(a.0, b.0), add32(a.1, b.1), add32(a.2, b.2), add32(a.3, b.3))
}

/// The four-lane vector of a round constant.
pub open spec fn k_vec(t: int) -> u32x4 {
    u32x4(k_round(t), k_round(t), k_round(t), k_round(t))
}

/// Four rounds of the group `i` (0 to 3) of twenty rounds, with the constant of that group
/// added to the words.
fn sha1_digest_round_x4(abcd: u32x4, work: u32x4, i: i8) -> (r: u32x4)
    requires
        0 <= i <= 3,
    ensures
        r == four_steps_x4(20 * i, abcd, add_vec(work, k_vec(20 * i))),
{
    let k0: u32 = 0x5A827999u32;
    let k1: u32 = 0x6ED9EBA1u32;
    let k2: u32 = 0x8F1BBCDCu32;
    let k3: u32 = 0xCA62C1D6u32;

    if i == 0 {
        sha1rnds4c(abcd, work.add(u32x4(k0, k0, k0, k0)))
    } else if i == 1 {
        sha1rnds4p(abcd, work.add(u32x4(k1, k1, k1, k1)))
    } else if i == 2 {
        sha1rnds4m(abcd, work.add(u32x4(k2, k2, k2, k2)))
    } else {
        sha1rnds4p(abcd, work.add(u32x4(k3, k3, k3, k3)))
    }
}


// ---------------------------------------------------------------------------
// The compression function.
// ---------------------------------------------------------------------------

proof fn lemma_add_reorder(e: u32, r5: u32, f: u32, w: u32, k: u32)
    ensures
        add32(add32(add32(e, r5), f), add32(w, k)) == add32(
            add32(add32(add32(r5, f), e), k),
            w,
        ),
{
    assert(add32(add32(add32(e, r5), f), add32(w, k)) == add32(
        add32(add32(add32(r5, f), e), k),
        w,
    )) by (bit_vector);
}

proof fn lemma_add_reorder_first(e: u32, r5: u32, f: u32, w: u32, k: u32)
    ensures
        add32(add32(add32(0u32, r5), f), add32(add32(e, w), k)) == add32(
            add32(add32(add32(r5, f), e), k),
            w,
        ),
{
    assert(add32(add32(add32(0u32, r5), f), add32(add32(e, w), k)) == add32(
        add32(add32(add32(r5, f), e), k),
        w,
    )) by (bit_vector);
}

proof fn lemma_xor4(a: u32, b: u32, c: u32, d: u32)
    ensures
        ((a ^ b) ^ c) ^ d == ((d ^ c) ^ b) ^ a,
{
    assert(((a ^ b) ^ c) ^ d == ((d ^ c) ^ b) ^ a) by (bit_vector);
}

/// Four rounds starting at a multiple of four are four steps of a block.
proof fn lemma_group(s0: Working, m: Seq<u32>, t: nat)
    requires
        t % 4 == 0,
        t + 4 <= 80,
    ensures
        ({
            let s = sha1_rounds(s0, m, t);
            let s4 = sha1_rounds(s0, m, t + 4);
            let msg = u32x4(
                add32(s.4, schedule_word(m, t)),
                schedule_word(m, t + 1),
                schedule_word(m, t + 2),
                schedule_word(m, t + 3),
            );
            &&& four_steps_x4(t as int, u32x4(s.0, s.1, s.2, s.3), add_vec(msg, k_vec(t as int)))
                == u32x4(s4.0, s4.1, s4.2, s4.3)
            &&& s4.4 == rotl(s.0, 30)
        }),
{
    let ti = t as int;
    let s = sha1_rounds(s0, m, t);
    let s1 = sha1_rounds(s0, m, t + 1);
    let s2 = sha1_rounds(s0, m, t + 2);
    let s3 = sha1_rounds(s0, m, t + 3);
    let s4 = sha1_rounds(s0, m, t + 4);
    let k = k_round(t as int);
    assert(k_round(ti + 1) == k && k_round(ti + 2) == k && k_round(ti + 3) == k);
    assert(forall|x: u32, y: u32, z: u32|
        f_round(ti + 1, x, y, z) == f_round(t as int, x, y, z) && f_round(ti + 2, x, y, z)
            == f_round(t as int, x, y, z) && f_round(ti + 3, x, y, z) == f_round(
            t as int,
            x,
            y,
            z,
        ));
    let w0 = schedule_word(m, t);
    let w1 = schedule_word(m, t + 1);
    let w2 = schedule_word(m, t + 2);
    let w3 = schedule_word(m, t + 3);
    assert(s1 == sha1_round(s, t as int, w0));
    assert(s2 == sha1_round(s1, ti + 1, w1));
    assert(s3 == sha1_round(s2, ti + 2, w2));
    assert(s4 == sha1_round(s3, ti + 3, w3));
    lemma_add_reorder_first(s.4, rotl(s.0, 5), f_round(t as int, s.1, s.2, s.3), w0, k);
    lemma_add_reorder(s1.4, rotl(s1.0, 5), f_round(t as int, s1.1, s1.2, s1.3), w1, k);
    lemma_add_reorder(s2.4, rotl(s2.0, 5), f_round(t as int, s2.1, s2.2, s2.3), w2, k);
    lemma_add_reorder(s3.4, rotl(s3.0, 5), f_round(t as int, s3.1, s3.2, s3.3), w3, k);
    let msg = u32x4(add32(s.4, w0), w1, w2, w3);
    let kmsg = add_vec(msg, k_vec(t as int));
    let q1 = step(t as int, (s.0, s.1, s.2, s.3, 0u32), kmsg.0);
    assert(q1 == s1);
    let q2 = step(t as int, q1, kmsg.1);
    assert(q2 == s2);
    let q3 = step(t as int, q2, kmsg.2);
    assert(q3 == s3);
    let q4 = step(t as int, q3, kmsg.3);
    assert(q4 == s4);
}

/// The four schedule words after a window of sixteen, as the message schedule helpers
/// compute them.
proof fn lemma_schedule(m: Seq<u32>, t: nat)
    ensures
        ({
            let w = |j: nat| schedule_word(m, t + j);
            let x0 = (w(0) ^ w(2)) ^ w(8);
            let x1 = (w(1) ^ w(3)) ^ w(9);
            let x2 = (w(2) ^ w(4)) ^ w(10);
            let x3 = (w(3) ^ w(5)) ^ w(11);
            &&& w(16) == rotl(x0 ^ w(13), 1)
            &&& w(17) == rotl(x1 ^ w(14), 1)
            &&& w(18) == rotl(x2 ^ w(15), 1)
            &&& w(19) == rotl(x3 ^ rotl(x0 ^ w(13), 1), 1)
        }),
{
    let w = |j: nat| schedule_word(m, t + j);
    lemma_xor4(w(0), w(2), w(8), w(13));
    lemma_xor4(w(1), w(3), w(9), w(14));
    lemma_xor4(w(2), w(4), w(10), w(15));
    lemma_xor4(w(3), w(5), w(11), w(16));
    assert(schedule_word(m, t + 16) == rotl(w(13) ^ w(8) ^ w(2) ^ w(0), 1));
    assert(schedule_word(m, t + 17) == rotl(w(14) ^ w(9) ^ w(3) ^ w(1), 1));
    assert(schedule_word(m, t + 18) == rotl(w(15) ^ w(10) ^ w(4) ^ w(2), 1));
    assert(schedule_word(m, t + 19) == rotl(w(16) ^ w(11) ^ w(5) ^ w(3), 1));
}

/// The five-word hash state.
#[derive(Copy, Clone)]
struct Sha1State {
    state: [u32; 5],
}

impl Sha1State {
    /// Compresses one 64-byte block into the state.
    fn process(&mut self, block: &[u8])
        requires
            block@.len() == 64,
        ensures
            final(self).state@ == compress(old(self).state@, block@),
    {
        let ghost m = block_words(block@);
        let mut words: Vec<u32> = Vec::new();
        let mut i: usize = 0;
        while i < 16
            invariant
                block@.len() == 64,
                i <= 16,
                words@ == m.take(i as int),
                m == block_words(block@),
            decreases 16 - i,
        {
            let off = i * 4;
            let word = ((block[off] as u32) << 24u32) | ((block[off + 1] as u32) << 16u32) | ((
            block[off + 2] as u32) << 8u32) | (block[off + 3] as u32);
            words.push(word);
            i = i + 1;
            assert(words@ == m.take(i as int));
        }
        assert(forall|j: int| 0 <= j < 16 ==> words@[j] == schedule_word(m, j as nat));

        let ghost s0: Working = (
            self.state[0],
            self.state[1],
            self.state[2],
            self.state[3],
            self.state[4],
        );
        let e0 = self.state[4];
        let mut h = u32x4(self.state[0], self.state[1], self.state[2], self.state[3]);
        let mut hprev = h;
        let mut w0 = u32x4(words[0], words[1], words[2], words[3]);
        let mut w1 = u32x4(words[4], words[5], words[6], words[7]);
        let mut w2 = u32x4(words[8], words[9], words[10], words[11]);
        let mut w3 = u32x4(words[12], words[13], words[14], words[15]);

        let mut g: usize = 0;
        while g < 20
            invariant
                g <= 20,
                s0.4 == e0,
                ({
                    let s = sha1_rounds(s0, m, (4 * g) as nat);
                    &&& h == u32x4(s.0, s.1, s.2, s.3)
                    &&& s.4 == (if g == 0 {
                        e0
                    } else {
                        rotl(hprev.0, 30)
                    })
                }),
                w0 == u32x4(
                    schedule_word(m, (4 * g) as nat),
                    schedule_word(m, (4 * g + 1) as nat),
                    schedule_word(m, (4 * g + 2) as nat),
                    schedule_word(m, (4 * g + 3) as nat),
                ),
                w1 == u32x4(
                    schedule_word(m, (4 * g + 4) as nat),
                    schedule_word(m, (4 * g + 5) as nat),
                    schedule_word(m, (4 * g + 6) as nat),
                    schedule_word(m, (4 * g + 7) as nat),
                ),
                w2 == u32x4(
                    schedule_word(m, (4 * g + 8) as nat),
                    schedule_word(m, (4 * g + 9) as nat),
                    schedule_word(m, (4 * g + 10) as nat),
                    schedule_word(m, (4 * g + 11) as nat),
                ),
                w3 == u32x4(
                    schedule_word(m, (4 * g + 12) as nat),
                    schedule_word(m, (4 * g + 13) as nat),
                    schedule_word(m, (4 * g + 14) as nat),
                    schedule_word(m, (4 * g + 15) as nat),
                ),
            decreases 20 - g,
        {
            let ghost t: nat = (4 * g) as nat;
            let i: i8 = (g / 5) as i8;
            let msg = if g == 0 {
                sha1_first_add(e0, w0)
            } else {
                sha1_first_half(hprev, w0)
            };
            let nh = sha1_digest_round_x4(h, msg, i);
            proof {
                lemma_group(s0, m, t);
                assert(20 * i <= t < 20 * i + 20);
                assert(k_vec(20 * i) == k_vec(t as int));
                assert(forall|x: u32, y: u32, z: u32|
                    f_round(20 * i, x, y, z) == f_round(t as int, x, y, z));
                assert(nh == four_steps_x4(t as int, h, add_vec(msg, k_vec(t as int))));
            }
            hprev = h;
            h = nh;
            let w4 = sha1msg2(sha1msg1(w0, w1).bitxor(w2), w3);
            proof {
                lemma_schedule(m, t);
            }
            w0 = w1;
            w1 = w2;
            w2 = w3;
            w3 = w4;
            g = g + 1;
        }
        let e = rotate_left(sha1_first(hprev), 30);
        let u32x4(a, b, c, d) = h;
        let ghost old_state = self.state@;
        let n0 = wrapping_add(self.state[0], a);
        let n1 = wrapping_add(self.state[1], b);
        let n2 = wrapping_add(self.state[2], c);
        let n3 = wrapping_add(self.state[3], d);
        let n4 = wrapping_add(self.state[4], e);
        self.state = [n0, n1, n2, n3, n4];
        assert(self.state@ =~= compress(old_state, block@));
    }
}


// ---------------------------------------------------------------------------
// Buffering input into blocks.
// ---------------------------------------------------------------------------

/// Compressing a message made of whole blocks and then more is compressing the
/// blocks first.
pub proof fn lemma_compress_all_append(h: Seq<u32>, a: Seq<u8>, b: Seq<u8>)
    requires
        a.len() % 64 == 0,
    ensures
        compress_all(h, a + b) == compress_all(compress_all(h, a), b),
    decreases a.len(),
{
    if a.len() == 0 {
        assert(a + b =~= b);
    } else {
        assert((a + b).take(64) =~= a.take(64));
        assert((a + b).skip(64) =~= a.skip(64) + b);
        lemma_compress_all_append(compress(h, a.take(64)), a.skip(64), b);
    }
}

/// Compressing exactly one block.
proof fn lemma_compress_all_one(h: Seq<u32>, b: Seq<u8>)
    requires
        b.len() == 64,
    ensures
        compress_all(h, b) == compress(h, b),
{
    assert(b.take(64) =~= b);
    assert(b.skip(64).len() == 0);
    assert(compress_all(compress(h, b), b.skip(64)) == compress(h, b));
}

/// The bytes that wait for a block to be complete.
struct Blocks {
    len: u32,
    block: [u8; 64],
}

impl Blocks {
    spec fn pending(&self) -> Seq<u8> {
        self.block@.take(self.len as int)
    }

    /// Adds `input` to the pending bytes, compressing every block that becomes complete
    /// into `state` and counting its bytes in `total`.
    fn input(&mut self, input: &[u8], state: &mut Sha1State, total: &mut u64)
        requires
            old(self).len < 64,
            *old(total) + old(self).len + input@.len() <= u64::MAX,
        ensures
            ({
                let all = old(self).pending() + input@;
                let n = (64 * (all.len() / 64)) as int;
                &&& final(state).state@ == compress_all(old(state).state@, all.take(n))
                &&& *final(total) == *old(total) + n
                &&& final(self).len < 64
                &&& final(self).pending() == all.skip(n)
            }),
    {
        let ghost all = self.pending() + input@;
        let ghost state0 = state.state@;
        let ghost total0 = *total;
        let mut pos: usize = 0;
        if self.len > 0 {
            let len = self.len as usize;
            let amt = if input.len() < 64 - len {
                input.len()
            } else {
                64 - len
            };
            let mut j: usize = 0;
            while j < amt
                invariant
                    j <= amt,
                    len + amt <= 64,
                    amt <= input@.len(),
                    self.len == len,
                    self.block@.take(len + j) == all.take(len + j),
                    all == old(self).pending() + input@,
                    old(self).len == len,
                decreases amt - j,
            {
                self.block[len + j] = input[j];
                j = j + 1;
                assert(self.block@.take(len + j) =~= all.take(len + j));
            }
            if len + amt == 64 {
                assert(self.block@ =~= all.take(64));
                state.process(self.block.as_slice());
                proof {
                    lemma_compress_all_one(state0, all.take(64));
                }
                *total = *total + 64;
                self.len = 0;
                pos = amt;
            } else {
                self.len = self.len + amt as u32;
                assert(self.pending() =~= all.skip(0));
                return ;
            }
        }
        assert(state.state@ == compress_all(state0, all.take(all.len() - (input@.len() - pos))))
            by {
            if old(self).len == 0 {
                assert(all.take(0).len() == 0);
            }
        };
        while pos < input.len()
            invariant
                pos <= input@.len(),
                all == old(self).pending() + input@,
                (all.len() - (input@.len() - pos)) % 64 == 0,
                all.len() - (input@.len() - pos) >= 0,
                state.state@ == compress_all(state0, all.take(all.len() - (input@.len() - pos))),
                *total == total0 + (all.len() - (input@.len() - pos)),
                total0 + all.len() <= u64::MAX,
                state0 == old(state).state@,
                total0 == *old(total),
                old(self).len < 64,
                self.len == 0,
            decreases input@.len() - pos,
        {
            let ghost done = all.len() - (input@.len() - pos);
            let rem = input.len() - pos;
            if rem >= 64 {
                let chunk = vstd::slice::slice_subrange(input, pos, pos + 64);
                let ghost before = state.state@;
                state.process(chunk);
                proof {
                    assert(chunk@ =~= all.subrange(done, done + 64));
                    assert(all.take(done + 64) =~= all.take(done) + all.subrange(done, done + 64));
                    lemma_compress_all_append(state0, all.take(done), all.subrange(done, done + 64));
                    lemma_compress_all_one(before, all.subrange(done, done + 64));
                }
                *total = *total + 64;
                pos = pos + 64;
            } else {
                let mut j: usize = 0;
                while j < rem
                    invariant
                        j <= rem,
                        rem < 64,
                        pos + rem == input@.len(),
                        pos + rem == input.len(),
                        self.block@.take(j as int) == input@.subrange(pos as int, pos + j),
                    decreases rem - j,
                {
                    self.block[j] = input[pos + j];
                    j = j + 1;
                    assert(self.block@.take(j as int) =~= input@.subrange(pos as int, pos + j));
                }
                self.len = rem as u32;
                pos = input.len();
                proof {
                    assert(all.len() / 64 * 64 == done) by (nonlinear_arith)
                        requires
                            done % 64 == 0,
                            0 <= all.len() - done < 64,
                            done >= 0,
                    ;
                    assert(self.pending() =~= all.skip(done));
                }
                return ;
            }
        }
        proof {
            assert(all.len() / 64 * 64 == all.len()) by (nonlinear_arith)
                requires
                    all.len() % 64 == 0,
            ;
            assert(all.take(all.len() as int) =~= all);
            assert(self.pending() =~= all.skip(all.len() as int));
        }
    }
}

// ---------------------------------------------------------------------------
// The hash object.
// ---------------------------------------------------------------------------

/// A SHA-1 hash object in memory.
pub struct Sha1 {
    state: Sha1State,
    blocks: Blocks,
    len: u64,
    absorbed: Ghost<Seq<u8>>,
}

impl View for Sha1 {
    type V = Seq<u8>;

    /// Everything that was fed to this object so far.
    closed spec fn view(&self) -> Seq<u8> {
        self.absorbed@
    }
}

impl Default for Sha1 {
    /// A fresh hash object.
    fn default() -> (r: Sha1)
        ensures
            r.wf(),
            r@ == Seq::<u8>::empty(),
    {
        Sha1::new()
    }
}

impl Sha1 {
    /// The internal consistency of a hash object.
    pub closed spec fn wf(&self) -> bool {
        &&& self.blocks.len < 64
        &&& self.len % 64 == 0
        &&& self.absorbed@.len() == self.len + self.blocks.len
        &&& self.state.state@ == compress_all(initial_state(), self.absorbed@.take(self.len as int))
        &&& self.blocks.pending() == self.absorbed@.skip(self.len as int)
    }

    /// Creates a fresh hash object.
    pub fn new() -> (r: Sha1)
        ensures
            r.wf(),
            r@ == Seq::<u8>::empty(),
    {
        let r = Sha1 {
            state: Sha1State {
                state: [0x67452301u32, 0xefcdab89u32, 0x98badcfeu32, 0x10325476u32, 0xc3d2e1f0u32],
            },
            len: 0,
            blocks: Blocks { len: 0, block: [0u8; 64] },
            absorbed: Ghost(Seq::empty()),
        };
        assert(r.state.state@ =~= initial_state());
        assert(r.blocks.pending() =~= Seq::<u8>::empty());
        assert(r.absorbed@.take(0) =~= Seq::<u8>::empty());
        assert(compress_all(initial_state(), Seq::<u8>::empty()) == initial_state());
        assert(r.absorbed@.skip(0) =~= Seq::<u8>::empty());
        r
    }

    /// Creates a hash object fed with `data`, as `new` and one `update` would.
    pub fn from(data: &[u8]) -> (r: Sha1)
        requires
            data@.len() <= u64::MAX,
        ensures
            r.wf(),
            r@ == data@,
    {
        let mut rv = Sha1::new();
        rv.update(data);
        assert(Seq::<u8>::empty() + data@ =~= data@);
        rv
    }

    /// Feeds `data` to the hash object.
    pub fn update(&mut self, data: &[u8])
        requires
            old(self).wf(),
            old(self)@.len() + data@.len() <= u64::MAX,
        ensures
            final(self).wf(),
            final(self)@ == old(self)@ + data@,
    {
        let ghost old_abs = self.absorbed@;
        let ghost old_len = self.len;
        let ghost old_state = self.state.state@;
        let ghost all = self.blocks.pending() + data@;
        self.blocks.input(data, &mut self.state, &mut self.len);
        self.absorbed = Ghost(old_abs + data@);
        proof {
            let n = (64 * (all.len() / 64)) as int;
            let na = self.absorbed@;
            assert(old_abs =~= old_abs.take(old_len as int) + old_abs.skip(old_len as int));
            assert(na.take(self.len as int) =~= old_abs.take(old_len as int) + all.take(n));
            lemma_compress_all_append(initial_state(), old_abs.take(old_len as int), all.take(n));
            assert(na.skip(self.len as int) =~= all.skip(n));
        }
    }

    /// The digest of everything fed so far.
    pub fn digest(&self) -> (d: Digest)
        requires
            self.wf(),
            self@.len() * 8 <= u64::MAX,
        ensures
            d@ == sha1(self@),
    {
        let mut state = self.state;
        let bits: u64 = (self.len + self.blocks.len as u64) * 8;
        let extra: [u8; 8] = [
            (bits >> 56u64) as u8,
            (bits >> 48u64) as u8,
            (bits >> 40u64) as u8,
            (bits >> 32u64) as u8,
            (bits >> 24u64) as u8,
            (bits >> 16u64) as u8,
            (bits >> 8u64) as u8,
            bits as u8,
        ];
        assert(extra@ =~= be_bytes64(bits));
        let ghost msg = self@;
        let ghost full = msg.take(self.len as int);
        let ghost pending = self.blocks.pending();
        let mut last = [0u8; 128];
        let blocklen = self.blocks.len as usize;
        let mut i: usize = 0;
        while i < blocklen
            invariant
                i <= blocklen,
                blocklen < 64,
                blocklen == self.blocks.len,
                pending == self.blocks.block@.take(blocklen as int),
                forall|j: int| 0 <= j < i ==> last@[j] == pending[j],
                forall|j: int| i <= j < 128 ==> last@[j] == 0u8,
            decreases blocklen - i,
        {
            last[i] = self.blocks.block[i];
            i = i + 1;
        }
        last[blocklen] = 0x80;
        let ghost tail_len: int = if blocklen < 56 {
            64
        } else {
            128
        };
        let end: usize = if blocklen < 56 {
            64
        } else {
            128
        };
        let mut k: usize = 0;
        while k < 8
            invariant
                k <= 8,
                end == tail_len,
                end == 64 || end == 128,
                blocklen < 64,
                blocklen < 56 ==> end == 64,
                blocklen >= 56 ==> end == 128,
                forall|j: int| 0 <= j < blocklen ==> last@[j] == pending[j],
                last@[blocklen as int] == 0x80u8,
                forall|j: int| blocklen < j < end - 8 ==> last@[j] == 0u8,
                forall|j: int| 0 <= j < k ==> last@[end - 8 + j] == extra@[j],
                forall|j: int| end - 8 + k <= j < 128 ==> last@[j] == 0u8,
            decreases 8 - k,
        {
            last[end - 8 + k] = extra[k];
            k = k + 1;
        }
        let ghost tail = pending + seq![0x80u8] + Seq::new(pad_zeros(msg.len()), |j: int| 0u8)
            + be_bytes64((msg.len() * 8) as u64);
        proof {
            assert(msg.len() == self.len + blocklen);
            assert(msg.len() % 64 == blocklen) by {
                assert((self.len + blocklen) % 64 == blocklen) by (nonlinear_arith)
                    requires
                        self.len % 64 == 0,
                        blocklen < 64,
                ;
            }
            assert(bits == (msg.len() * 8) as u64);
            assert(tail.len() == tail_len);
            assert(last@.take(tail_len) =~= tail);
            assert(msg =~= full + pending);
            assert(pad(msg) =~= full + tail);
            lemma_compress_all_append(initial_state(), full, tail);
        }
        let lastv = last.as_slice();
        if blocklen < 56 {
            let b0 = vstd::slice::slice_subrange(lastv, 0, 64);
            assert(b0@ =~= tail);
            state.process(b0);
            proof {
                lemma_compress_all_one(self.state.state@, tail);
            }
        } else {
            let b0 = vstd::slice::slice_subrange(lastv, 0, 64);
            let b1 = vstd::slice::slice_subrange(lastv, 64, 128);
            let ghost mid = state.state@;
            state.process(b0);
            let ghost mid2 = state.state@;
            state.process(b1);
            proof {
                assert(tail =~= b0@ + b1@);
                lemma_compress_all_append(mid, b0@, b1@);
                lemma_compress_all_one(mid, b0@);
                lemma_compress_all_one(mid2, b1@);
            }
        }
        Digest { data: state }
    }
}

/// The digest of a [Sha1] object.
#[derive(Clone, Copy)]
pub struct Digest {
    data: Sha1State,
}

impl View for Digest {
    type V = Seq<u32>;

    /// The five words of the digest.
    closed spec fn view(&self) -> Seq<u32> {
        self.data.state@
    }
}

impl Digest {
    /// The 160-bit digest as twenty big-endian bytes.
    pub fn bytes(&self) -> (r: [u8; 20])
        ensures
            r@ == digest_bytes(self@),
    {
        let s = self.data.state;
        let r: [u8; 20] = [
            (s[0] >> 24u32) as u8,
            (s[0] >> 16u32) as u8,
            (s[0] >> 8u32) as u8,
            (s[0] >> 0u32) as u8,
            (s[1] >> 24u32) as u8,
            (s[1] >> 16u32) as u8,
            (s[1] >> 8u32) as u8,
            (s[1] >> 0u32) as u8,
            (s[2] >> 24u32) as u8,
            (s[2] >> 16u32) as u8,
            (s[2] >> 8u32) as u8,
            (s[2] >> 0u32) as u8,
            (s[3] >> 24u32) as u8,
            (s[3] >> 16u32) as u8,
            (s[3] >> 8u32) as u8,
            (s[3] >> 0u32) as u8,
            (s[4] >> 24u32) as u8,
            (s[4] >> 16u32) as u8,
            (s[4] >> 8u32) as u8,
            (s[4] >> 0u32) as u8,
        ];
        assert(r@ =~= digest_bytes(self@));
        r
    }
}


// ---------------------------------------------------------------------------
// Hexadecimal text of a digest.
// ---------------------------------------------------------------------------

/// The lower-case hexadecimal digit of `n < 16`.
pub open spec fn hex_char(n: u32) -> char {
    if n < 10 {
        (('0' as u32) + n) as char
    } else {
        (('a' as u32) + n - 10) as char
    }
}

/// The forty lower-case hexadecimal digits of a five-word digest: each word as eight
/// digits, most significant first.
pub open spec fn hex_of(h: Seq<u32>) -> Seq<char> {
    Seq::new(40, |i: int| hex_char((h[i / 8] >> ((28 - 4 * (i % 8)) as u32)) & 0xfu32))
}

/// Whether `c` is a hexadecimal digit of either case.
pub open spec fn is_hex_digit(c: char) -> bool {
    ('0' <= c <= '9') || ('a' <= c <= 'f') || ('A' <= c <= 'F')
}

/// The value of a hexadecimal digit.
pub open spec fn hex_digit_value(c: char) -> nat {
    if '0' <= c <= '9' {
        (c as int - '0' as int) as nat
    } else if 'a' <= c <= 'f' {
        (c as int - 'a' as int + 10) as nat
    } else {
        (c as int - 'A' as int + 10) as nat
    }
}

/// The value of a sequence of hexadecimal digits, most significant first.
pub open spec fn hex_value(d: Seq<char>) -> nat
    decreases d.len(),
{
    if d.len() == 0 {
        0
    } else {
        hex_value(d.drop_last()) * 16 + hex_digit_value(d.last())
    }
}

/// The digits of a base-16 number with an optional leading `+`.
pub open spec fn hex_digits_of(c: Seq<char>) -> Seq<char> {
    if c.len() > 0 && c[0] == '+' {
        c.drop_first()
    } else {
        c
    }
}

/// What reading the digits `d` as a base-16 unsigned 32-bit number gives: at least one
/// hexadecimal digit, and a value that fits.
pub open spec fn hex_digits_u32(d: Seq<char>) -> Option<u32> {
    if d.len() == 0 || !(forall|i: int| 0 <= i < d.len() ==> is_hex_digit(#[trigger] d[i])) {
        None
    } else if hex_value(d) > u32::MAX {
        None
    } else {
        Some(hex_value(d) as u32)
    }
}

/// What reading `c` as a base-16 unsigned 32-bit number gives: an optional `+`, then at
/// least one hexadecimal digit, and a value that fits.
pub open spec fn parse_hex_u32(c: Seq<char>) -> Option<u32> {
    hex_digits_u32(hex_digits_of(c))
}

/// The digest that forty ASCII characters spell: five base-16 numbers of eight characters
/// each, or `None` if one of them is not one.
pub open spec fn digest_from_hex(c: Seq<char>) -> Option<Seq<u32>> {
    let w = |i: int| parse_hex_u32(c.subrange(8 * i, 8 * i + 8));
    if c.len() == 40 && w(0) is Some && w(1) is Some && w(2) is Some && w(3) is Some && w(4) is Some {
        Some(seq![w(0)->0, w(1)->0, w(2)->0, w(3)->0, w(4)->0])
    } else {
        None
    }
}

/// The lower-case hexadecimal digit of `n < 16`.
fn hex_digit(n: u32) -> (c: char)
    requires
        n < 16,
    ensures
        c == hex_char(n),
{
    if n < 10 {
        ((48u32 + n) as u8) as char
    } else {
        ((97u32 + n - 10) as u8) as char
    }
}

/// Reads eight characters starting at `start` as a base-16 unsigned 32-bit number.
fn parse_hex_word(c: &Vec<char>, start: usize) -> (r: Option<u32>)
    requires
        start + 8 <= c@.len(),
    ensures
        r == parse_hex_u32(c@.subrange(start as int, start + 8)),
{
    let len = c.len();
    assert(start + 8 <= len);
    let ghost chunk = c@.subrange(start as int, start + 8);
    let mut i: usize = start;
    if c[start] == '+' {
        i = start + 1;
    }
    let ghost d = c@.subrange(i as int, start + 8);
    assert(d =~= (if chunk.len() > 0 && chunk[0] == '+' {
        chunk.drop_first()
    } else {
        chunk
    }));
    let first = i;
    let end = start + 8;
    let mut value: u64 = 0;
    while i < end
        invariant
            end == start + 8,
            first <= i <= start + 8,
            chunk == c@.subrange(start as int, start + 8),
            d =~= (if chunk.len() > 0 && chunk[0] == '+' {
                chunk.drop_first()
            } else {
                chunk
            }),
            start + 8 <= c@.len(),
            first == start || first == start + 1,
            d == c@.subrange(first as int, start + 8),
            forall|j: int| first <= j < i ==> is_hex_digit(#[trigger] c@[j]),
            value == hex_value(c@.subrange(first as int, i as int)),
            value <= 0xffff_ffff,
        decreases start + 8 - i,
    {
        let ch = c[i];
        let digit: u64 = if '0' <= ch && ch <= '9' {
            (ch as u64) - ('0' as u64)
        } else if 'a' <= ch && ch <= 'f' {
            (ch as u64) - ('a' as u64) + 10
        } else if 'A' <= ch && ch <= 'F' {
            (ch as u64) - ('A' as u64) + 10
        } else {
            proof {
                let dd = if chunk.len() > 0 && chunk[0] == '+' {
                    chunk.drop_first()
                } else {
                    chunk
                };
                assert(dd == d);
                assert(dd[i - first] == ch);
                assert(!is_hex_digit(dd[i - first]));
                lemma_parse_non_digit(chunk, i - first);
            }
            return None;
        };
        assert(hex_digit_value(ch) == digit);
        let ghost prefix = c@.subrange(first as int, i + 1);
        assert(prefix.drop_last() =~= c@.subrange(first as int, i as int));
        assert(prefix.last() == ch);
        if value > 0x0fff_ffff {
            proof {
                assert(hex_value(prefix) == value * 16 + digit);
                assert(hex_value(prefix) > u32::MAX);
                lemma_hex_value_grows(d, (i + 1 - first) as nat);
                assert(d.take((i + 1 - first) as int) =~= prefix);
                let dd = if chunk.len() > 0 && chunk[0] == '+' {
                    chunk.drop_first()
                } else {
                    chunk
                };
                assert(dd == d);
                if forall|j: int| 0 <= j < d.len() ==> is_hex_digit(#[trigger] d[j]) {
                    assert(hex_value(d) > u32::MAX);
                    assert(hex_value(dd) > u32::MAX);
                    assert(dd.len() != 0);
                } else {
                    assert(!(forall|j: int| 0 <= j < dd.len() ==> is_hex_digit(#[trigger] dd[j])));
                }
                assert(parse_hex_u32(chunk) is None);
            }
            return None;
        }
        value = value * 16 + digit;
        i = i + 1;
    }
    if i == first {
        return None;
    }
    assert(c@.subrange(first as int, i as int) =~= d);
    Some(value as u32)
}

/// A character that is not a digit makes reading fail.
proof fn lemma_parse_non_digit(c: Seq<char>, k: int)
    requires
        ({
            let d = if c.len() > 0 && c[0] == '+' {
                c.drop_first()
            } else {
                c
            };
            0 <= k < d.len() && !is_hex_digit(d[k])
        }),
    ensures
        parse_hex_u32(c) is None,
{
    let d = if c.len() > 0 && c[0] == '+' {
        c.drop_first()
    } else {
        c
    };
    assert(!is_hex_digit(d[k]));
    assert(!(forall|i: int| 0 <= i < d.len() ==> is_hex_digit(#[trigger] d[i])));
    assert(d.len() == 0 || !(forall|i: int| 0 <= i < d.len() ==> is_hex_digit(#[trigger] d[i])));
}

/// Adding digits never makes the value of a prefix larger than the value of the whole.
proof fn lemma_hex_value_grows(d: Seq<char>, n: nat)
    requires
        n <= d.len(),
    ensures
        hex_value(d.take(n as int)) <= hex_value(d),
    decreases d.len(),
{
    if n < d.len() {
        assert(d.drop_last().take(n as int) =~= d.take(n as int));
        lemma_hex_value_grows(d.drop_last(), n);
    } else {
        assert(d.take(n as int) =~= d);
    }
}

/// A digit character reads back as its value.
proof fn lemma_hex_char(n: u32)
    requires
        n < 16,
    ensures
        is_hex_digit(hex_char(n)),
        hex_digit_value(hex_char(n)) == n,
        hex_char(n) != '+',
{
}

/// The digit characters of a word read back give the word.
proof fn lemma_hex_word(w: u32)
    ensures
        parse_hex_u32(Seq::new(8, |i: int| hex_char((w >> ((28 - 4 * i) as u32)) & 0xfu32)))
            == Some(w),
{
    let c = Seq::new(8, |i: int| hex_char((w >> ((28 - 4 * i) as u32)) & 0xfu32));
    let n0 = (w >> 28u32) & 0xfu32;
    let n1 = (w >> 24u32) & 0xfu32;
    let n2 = (w >> 20u32) & 0xfu32;
    let n3 = (w >> 16u32) & 0xfu32;
    let n4 = (w >> 12u32) & 0xfu32;
    let n5 = (w >> 8u32) & 0xfu32;
    let n6 = (w >> 4u32) & 0xfu32;
    let n7 = (w >> 0u32) & 0xfu32;
    assert(n0 < 16 && n1 < 16 && n2 < 16 && n3 < 16 && n4 < 16 && n5 < 16 && n6 < 16 && n7 < 16)
        by (bit_vector)
        requires
            n0 == (w >> 28u32) & 0xfu32,
            n1 == (w >> 24u32) & 0xfu32,
            n2 == (w >> 20u32) & 0xfu32,
            n3 == (w >> 16u32) & 0xfu32,
            n4 == (w >> 12u32) & 0xfu32,
            n5 == (w >> 8u32) & 0xfu32,
            n6 == (w >> 4u32) & 0xfu32,
            n7 == (w >> 0u32) & 0xfu32,
    ;
    lemma_hex_char(n0);
    lemma_hex_char(n1);
    lemma_hex_char(n2);
    lemma_hex_char(n3);
    lemma_hex_char(n4);
    lemma_hex_char(n5);
    lemma_hex_char(n6);
    lemma_hex_char(n7);
    assert(c[0] == hex_char(n0) && c[1] == hex_char(n1) && c[2] == hex_char(n2) && c[3]
        == hex_char(n3));
    assert(c[4] == hex_char(n4) && c[5] == hex_char(n5) && c[6] == hex_char(n6) && c[7]
        == hex_char(n7));
    assert(forall|i: int| 0 <= i < 8 ==> is_hex_digit(#[trigger] c[i]));
    assert(c[0] != '+');
    reveal_with_fuel(hex_value, 9);
    assert(c.take(1).drop_last() =~= c.take(0));
    assert(c.take(2).drop_last() =~= c.take(1));
    assert(c.take(3).drop_last() =~= c.take(2));
    assert(c.take(4).drop_last() =~= c.take(3));
    assert(c.take(5).drop_last() =~= c.take(4));
    assert(c.take(6).drop_last() =~= c.take(5));
    assert(c.take(7).drop_last() =~= c.take(6));
    assert(c.drop_last() =~= c.take(7));
    assert(hex_value(c.take(1)) == n0);
    assert(hex_value(c.take(2)) == n0 * 16 + n1);
    assert(hex_value(c.take(3)) == (n0 * 16 + n1) * 16 + n2);
    assert(hex_value(c.take(4)) == ((n0 * 16 + n1) * 16 + n2) * 16 + n3);
    assert(hex_value(c.take(5)) == (((n0 * 16 + n1) * 16 + n2) * 16 + n3) * 16 + n4);
    assert(hex_value(c.take(6)) == ((((n0 * 16 + n1) * 16 + n2) * 16 + n3) * 16 + n4) * 16 + n5);
    assert(hex_value(c.take(7)) == (((((n0 * 16 + n1) * 16 + n2) * 16 + n3) * 16 + n4) * 16 + n5)
        * 16 + n6);
    assert(hex_value(c) == ((((((n0 * 16 + n1) * 16 + n2) * 16 + n3) * 16 + n4) * 16 + n5) * 16
        + n6) * 16 + n7);
    assert(((((((n0 * 16 + n1) * 16 + n2) * 16 + n3) * 16 + n4) * 16 + n5) * 16 + n6) * 16 + n7
        == w) by (bit_vector)
        requires
            n0 == (w >> 28u32) & 0xfu32,
            n1 == (w >> 24u32) & 0xfu32,
            n2 == (w >> 20u32) & 0xfu32,
            n3 == (w >> 16u32) & 0xfu32,
            n4 == (w >> 12u32) & 0xfu32,
            n5 == (w >> 8u32) & 0xfu32,
            n6 == (w >> 4u32) & 0xfu32,
            n7 == (w >> 0u32) & 0xfu32,
    ;
}

/// Reading the hexadecimal text of a digest gives the digest back.
pub proof fn law_hex_round_trip(h: Seq<u32>)
    requires
        h.len() == 5,
    ensures
        digest_from_hex(hex_of(h)) == Some(h),
{
    let c = hex_of(h);
    assert forall|k: int| 0 <= k < 5 implies parse_hex_u32(#[trigger] c.subrange(8 * k, 8 * k + 8))
        == Some(h[k]) by {
        let sub = c.subrange(8 * k, 8 * k + 8);
        let wc = Seq::new(8, |i: int| hex_char((h[k] >> ((28 - 4 * i) as u32)) & 0xfu32));
        assert forall|i: int| 0 <= i < 8 implies sub[i] == wc[i] by {
            assert((8 * k + i) / 8 == k);
            assert((8 * k + i) % 8 == i);
        }
        assert(sub =~= wc);
        lemma_hex_word(h[k]);
    }
    let w = |i: int| parse_hex_u32(c.subrange(8 * i, 8 * i + 8));
    assert(w(0) == Some(h[0]));
    assert(w(1) == Some(h[1]));
    assert(w(2) == Some(h[2]));
    assert(w(3) == Some(h[3]));
    assert(w(4) == Some(h[4]));
    assert(seq![h[0], h[1], h[2], h[3], h[4]] =~= h);
}

/// Indicates that a digest could not be parsed from text.
#[derive(Copy, Clone, Debug, PartialEq, Eq)]
pub struct DigestParseError(());

impl Digest {
    /// The digest as forty lower-case hexadecimal digits.
    pub fn to_string(&self) -> (r: String)
        ensures
            r@ == hex_of(self@),
    {
        let s = self.data.state;
        let mut v: Vec<char> = Vec::new();
        let mut w: usize = 0;
        while w < 5
            invariant
                w <= 5,
                s@ == self@,
                v@ == hex_of(self@).take(8 * w as int),
            decreases 5 - w,
        {
            let word = s[w];
            let mut j: u32 = 0;
            while j < 8
                invariant
                    j <= 8,
                    w < 5,
                    word == self@[w as int],
                    v@ == hex_of(self@).take(8 * w + j as int),
                decreases 8 - j,
            {
                let sh: u32 = 28 - 4 * j;
                let n = (word >> sh) & 0xf;
                assert(n < 16) by (bit_vector)
                    requires
                        n == (word >> sh) & 0xf,
                ;
                v.push(hex_digit(n));
                proof {
                    let idx = 8 * w + j as int;
                    assert(idx / 8 == w);
                    assert(idx % 8 == j);
                }
                j = j + 1;
                assert(v@ =~= hex_of(self@).take(8 * w + j as int));
            }
            w = w + 1;
        }
        assert(v@ =~= hex_of(self@));
        string_from_chars(&v)
    }

    /// Parses a digest from forty hexadecimal characters.
    pub fn from_str(s: &str) -> (r: Result<Digest, DigestParseError>)
        ensures
            r is Ok <==> (s.spec_bytes().len() == 40 && vstd::string::is_ascii(s)
                && digest_from_hex(s@) is Some),
            r matches Ok(d) ==> Some(d@) == digest_from_hex(s@),
    {
        if s.len() != 40 {
            return Err(DigestParseError(()));
        }
        if !s.is_ascii() {
            return Err(DigestParseError(()));
        }
        proof {
            vstd::string::is_ascii_spec_bytes(s);
        }
        let c = chars_of(s);
        assert(c@.len() == 40);
        let mut words: [u32; 5] = [0u32; 5];
        let mut idx: usize = 0;
        while idx < 5
            invariant
                idx <= 5,
                c@ == s@,
                c@.len() == 40,
                forall|k: int|
                    0 <= k < idx ==> parse_hex_u32(#[trigger] c@.subrange(8 * k, 8 * k + 8))
                        == Some(words@[k]),
            decreases 5 - idx,
        {
            match parse_hex_word(&c, idx * 8) {
                Some(v) => {
                    words[idx] = v;
                },
                None => {
                    return Err(DigestParseError(()));
                },
            }
            idx = idx + 1;
        }
        let ghost cw = |i: int| parse_hex_u32(c@.subrange(8 * i, 8 * i + 8));
        assert(cw(0) == Some(words@[0]));
        assert(cw(1) == Some(words@[1]));
        assert(cw(2) == Some(words@[2]));
        assert(cw(3) == Some(words@[3]));
        assert(cw(4) == Some(words@[4]));
        assert(seq![words@[0], words@[1], words@[2], words@[3], words@[4]] =~= words@);
        Ok(Digest { data: Sha1State { state: words } })
    }
}

impl Sha1 {
    /// The digest of everything fed so far, as forty lower-case hexadecimal digits.
    pub fn hexdigest(&self) -> (r: String)
        requires
            self.wf(),
            self@.len() * 8 <= u64::MAX,
        ensures
            r@ == hex_of(sha1(self@)),
    {
        self.digest().to_string()
    }
}

/// The lower-case hexadecimal text of bytes: two digits for each, the high one first.
pub open spec fn hex_of_bytes(b: Seq<u8>) -> Seq<char> {
    Seq::new(
        2 * b.len(),
        |i: int|
            if i % 2 == 0 {
                hex_char((b[i / 2] >> 4u8) as u32)
            } else {
                hex_char((b[i / 2] & 0xfu8) as u32)
            },
    )
}

/// The two digits of a byte taken `s` bits down from the top of a word are the nibbles of the
/// word at `s + 4` and `s` bits.
proof fn lemma_byte_nibbles(x: u32, s: u32)
    requires
        s == 0 || s == 8 || s == 16 || s == 24,
    ensures
        (((x >> s) as u8) >> 4u8) as u32 == (x >> (s + 4) as u32) & 0xfu32,
        (((x >> s) as u8) & 0xfu8) as u32 == (x >> s) & 0xfu32,
{
    assert((((x >> s) as u8) >> 4u8) as u32 == (x >> (s + 4) as u32) & 0xfu32) by (bit_vector)
        requires
            s == 0 || s == 8 || s == 16 || s == 24,
    ;
    assert((((x >> s) as u8) & 0xfu8) as u32 == (x >> s) & 0xfu32) by (bit_vector);
}

/// The hexadecimal text of the twenty bytes of five words is the text of the words.
proof fn lemma_bytes_hex_is_text(h: Seq<u32>)
    requires
        h.len() == 5,
    ensures
        hex_of_bytes(digest_bytes(h)) == hex_of(h),
{
    let b = digest_bytes(h);
    assert forall|i: int| 0 <= i < 40 implies #[trigger] hex_of_bytes(b)[i] == hex_of(h)[i] by {
        let j = i / 2;
        let s = (24 - 8 * (j % 4)) as u32;
        assert(i / 8 == j / 4);
        lemma_byte_nibbles(h[j / 4], s);
        if i % 2 == 0 {
            assert(28 - 4 * (i % 8) == s + 4);
        } else {
            assert(28 - 4 * (i % 8) == s);
        }
    }
    assert(hex_of_bytes(b) =~= hex_of(h));
}

/// The hexadecimal text of the twenty bytes of a digest is the text of the digest: writing
/// `bytes` out two digits a byte gives what `to_string` gives.
pub proof fn law_bytes_hex_is_text(d: &Digest)
    ensures
        hex_of_bytes(digest_bytes(d@)) == hex_of(d@),
{
    lemma_bytes_hex_is_text(d@);
}

/// Feeding a hash object in two parts gives the digest of feeding both at once: the digest
/// depends only on the bytes fed, however they were split between calls of `update`.
pub proof fn law_update_in_parts(fed: Seq<u8>, a: Seq<u8>, b: Seq<u8>)
    ensures
        sha1((fed + a) + b) == sha1(fed + (a + b)),
{
    assert((fed + a) + b =~= fed + (a + b));
}

} // verus!
