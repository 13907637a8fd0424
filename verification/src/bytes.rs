//! Byte-level helpers shared by key handling and the record codec: copying,
//! comparing and concatenating byte vectors, and little-endian integer
//! encodings.

use vstd::prelude::*;

verus! {

/// A sequence of `n` zero bytes, used for fixed-buffer padding.
pub open spec fn zero_bytes(n: nat) -> Seq<u8> {
    Seq::new(n, |i: int| 0u8)
}

/// `s` padded with zero bytes on the right to the fixed width `n`.
pub open spec fn zero_pad(s: Seq<u8>, n: nat) -> Seq<u8>
    recommends
        s.len() <= n,
{
    s + zero_bytes((n - s.len()) as nat)
}

/// Copies a byte vector.
pub fn copy_bytes(src: &Vec<u8>) -> (r: Vec<u8>)
    ensures
        r@ == src@,
{
    let mut out: Vec<u8> = Vec::new();
    let mut i: usize = 0;
    while i < src.len()
        invariant
            i <= src@.len(),
            out@ == src@.subrange(0, i as int),
        decreases src@.len() - i,
    {
        out.push(src[i]);
        i = i + 1;
        assert(out@ =~= src@.subrange(0, i as int));
    }
    assert(out@ =~= src@);
    out
}

/// Compares two byte vectors for equality of contents.
pub fn bytes_eq(a: &Vec<u8>, b: &Vec<u8>) -> (r: bool)
    ensures
        r == (a@ == b@),
{
    if a.len() != b.len() {
        assert(a@ !~= b@);
        return false;
    }
    let mut i: usize = 0;
    while i < a.len()
        invariant
            i <= a@.len(),
            a@.len() == b@.len(),
            forall|j: int| 0 <= j < i ==> a@[j] == b@[j],
        decreases a@.len() - i,
    {
        if a[i] != b[i] {
            return false;
        }
        i = i + 1;
    }
    assert(a@ =~= b@);
    true
}

/// Appends the whole of `src` to `dst`.
pub fn push_bytes(dst: &mut Vec<u8>, src: &Vec<u8>)
    ensures
        final(dst)@ == old(dst)@ + src@,
{
    let mut i: usize = 0;
    while i < src.len()
        invariant
            i <= src@.len(),
            dst@ == old(dst)@ + src@.subrange(0, i as int),
        decreases src@.len() - i,
    {
        dst.push(src[i]);
        i = i + 1;
        assert(dst@ =~= old(dst)@ + src@.subrange(0, i as int));
    }
    assert(dst@ =~= old(dst)@ + src@);
}

/// Appends `n` zero bytes to `dst`.
pub fn push_zero_bytes(dst: &mut Vec<u8>, n: usize)
    ensures
        final(dst)@ == old(dst)@ + zero_bytes(n as nat),
{
    let mut i: usize = 0;
    while i < n
        invariant
            i <= n,
            dst@ == old(dst)@ + zero_bytes(i as nat),
        decreases n - i,
    {
        dst.push(0u8);
        i = i + 1;
        assert(dst@ =~= old(dst)@ + zero_bytes(i as nat));
    }
}

/// The `count` bytes of `src` starting at `start`, as a fresh vector.
pub fn read_bytes(src: &Vec<u8>, start: usize, count: usize) -> (r: Vec<u8>)
    requires
        start + count <= src@.len(),
    ensures
        r@ == src@.subrange(start as int, start as int + count as int),
{
    let n = src.len();
    let mut out: Vec<u8> = Vec::new();
    let mut i: usize = 0;
    while i < count
        invariant
            i <= count,
            start + count <= n,
            n == src@.len(),
            out@ == src@.subrange(start as int, start as int + i as int),
        decreases count - i,
    {
        out.push(src[start + i]);
        i = i + 1;
        assert(out@ =~= src@.subrange(start as int, start as int + i as int));
    }
    out
}

/// True when every byte of `src` in `[start, start + count)` is zero.
pub fn all_zero(src: &Vec<u8>, start: usize, count: usize) -> (r: bool)
    requires
        start + count <= src@.len(),
    ensures
        r == (src@.subrange(start as int, start as int + count as int) == zero_bytes(
            count as nat,
        )),
{
    let n = src.len();
    let mut i: usize = 0;
    while i < count
        invariant
            i <= count,
            start + count <= n,
            n == src@.len(),
            forall|j: int| 0 <= j < i ==> #[trigger] src@[start + j] == 0u8,
        decreases count - i,
    {
        if src[start + i] != 0u8 {
            assert(src@.subrange(start as int, start as int + count as int)[i as int] != 0u8);
            assert(src@.subrange(start as int, start as int + count as int) !~= zero_bytes(
                count as nat,
            ));
            return false;
        }
        i = i + 1;
    }
    proof {
        let sub = src@.subrange(start as int, start as int + count as int);
        assert forall|j: int| 0 <= j < count implies sub[j] == 0u8 by {
            assert(src@[start + j] == 0u8);
        }
        assert(sub =~= zero_bytes(count as nat));
    }
    true
}

/// The little-endian encoding of a 64-bit unsigned integer.
pub open spec fn spec_u64_le(x: u64) -> Seq<u8> {
    seq![
        (x & 0xff) as u8,
        ((x >> 8) & 0xff) as u8,
        ((x >> 16) & 0xff) as u8,
        ((x >> 24) & 0xff) as u8,
        ((x >> 32) & 0xff) as u8,
        ((x >> 40) & 0xff) as u8,
        ((x >> 48) & 0xff) as u8,
        ((x >> 56) & 0xff) as u8,
    ]
}

/// The 64-bit unsigned integer read from 8 little-endian bytes.
pub open spec fn spec_u64_from_le(s: Seq<u8>) -> u64
    recommends
        s.len() == 8,
{
    (s[0] as u64) | ((s[1] as u64) << 8) | ((s[2] as u64) << 16) | ((s[3] as u64) << 24) | ((
    s[4] as u64) << 32) | ((s[5] as u64) << 40) | ((s[6] as u64) << 48) | ((s[7] as u64) << 56)
}

/// The little-endian encoding of a 32-bit unsigned integer.
pub open spec fn spec_u32_le(x: u32) -> Seq<u8> {
    seq![
        (x & 0xff) as u8,
        ((x >> 8) & 0xff) as u8,
        ((x >> 16) & 0xff) as u8,
        ((x >> 24) & 0xff) as u8,
    ]
}

/// The 32-bit unsigned integer read from 4 little-endian bytes.
pub open spec fn spec_u32_from_le(s: Seq<u8>) -> u32
    recommends
        s.len() == 4,
{
    (s[0] as u32) | ((s[1] as u32) << 8) | ((s[2] as u32) << 16) | ((s[3] as u32) << 24)
}

/// The little-endian encoding of a signed 64-bit integer: the encoding of its
/// two's-complement bit pattern.
pub open spec fn spec_i64_le(x: i64) -> Seq<u8> {
    spec_u64_le(x as u64)
}

/// Reading 8 little-endian bytes as a signed 64-bit integer.
pub open spec fn spec_i64_from_le(s: Seq<u8>) -> i64
    recommends
        s.len() == 8,
{
    spec_u64_from_le(s) as i64
}

/// Every little-endian 64-bit encoding decodes back to the number it encodes.
pub proof fn lemma_u64_le_round_trip(x: u64)
    ensures
        spec_u64_from_le(spec_u64_le(x)) == x,
{
    assert((x & 0xff) | (((x >> 8) & 0xff) << 8) | (((x >> 16) & 0xff) << 16) | (((x >> 24)
        & 0xff) << 24) | (((x >> 32) & 0xff) << 32) | (((x >> 40) & 0xff) << 40) | (((x >> 48)
        & 0xff) << 48) | (((x >> 56) & 0xff) << 56) == x) by (bit_vector);
    assert(forall|y: u64| y & 0xff < 256 ==> ((y & 0xff) as u8) as u64 == y & 0xff);
    assert(forall|y: u64| #![auto] y & 0xff < 256) by (bit_vector);
}

/// Every little-endian 32-bit encoding decodes back to the number it encodes.
pub proof fn lemma_u32_le_round_trip(x: u32)
    ensures
        spec_u32_from_le(spec_u32_le(x)) == x,
{
    assert((x & 0xff) | (((x >> 8) & 0xff) << 8) | (((x >> 16) & 0xff) << 16) | (((x >> 24)
        & 0xff) << 24) == x) by (bit_vector);
    assert(forall|y: u32| #![auto] y & 0xff < 256) by (bit_vector);
}

/// Every little-endian encoding of a signed 64-bit integer decodes back to it.
pub proof fn lemma_i64_le_round_trip(x: i64)
    ensures
        spec_i64_from_le(spec_i64_le(x)) == x,
{
    lemma_u64_le_round_trip(x as u64);
    assert((x as u64) as i64 == x) by (bit_vector);
}

/// Appends the 8-byte little-endian encoding of `x` to `dst`.
pub fn push_u64_le(dst: &mut Vec<u8>, x: u64)
    ensures
        final(dst)@ == old(dst)@ + spec_u64_le(x),
{
    proof {
        assert(forall|y: u64| #![auto] y & 0xff < 256) by (bit_vector);
    }
    dst.push((x & 0xff) as u8);
    dst.push(((x >> 8) & 0xff) as u8);
    dst.push(((x >> 16) & 0xff) as u8);
    dst.push(((x >> 24) & 0xff) as u8);
    dst.push(((x >> 32) & 0xff) as u8);
    dst.push(((x >> 40) & 0xff) as u8);
    dst.push(((x >> 48) & 0xff) as u8);
    dst.push(((x >> 56) & 0xff) as u8);
    assert(dst@ =~= old(dst)@ + spec_u64_le(x));
}

/// Appends the 4-byte little-endian encoding of `x` to `dst`.
pub fn push_u32_le(dst: &mut Vec<u8>, x: u32)
    ensures
        final(dst)@ == old(dst)@ + spec_u32_le(x),
{
    proof {
        assert(forall|y: u32| #![auto] y & 0xff < 256) by (bit_vector);
    }
    dst.push((x & 0xff) as u8);
    dst.push(((x >> 8) & 0xff) as u8);
    dst.push(((x >> 16) & 0xff) as u8);
    dst.push(((x >> 24) & 0xff) as u8);
    assert(dst@ =~= old(dst)@ + spec_u32_le(x));
}

/// Reads the 64-bit unsigned integer stored little-endian at `off`.
pub fn read_u64_le(src: &Vec<u8>, off: usize) -> (r: u64)
    requires
        off + 8 <= src@.len(),
    ensures
        r == spec_u64_from_le(src@.subrange(off as int, off as int + 8)),
{
    let n = src.len();
    assert(off + 8 <= n);
    let b0 = src[off] as u64;
    let b1 = src[off + 1] as u64;
    let b2 = src[off + 2] as u64;
    let b3 = src[off + 3] as u64;
    let b4 = src[off + 4] as u64;
    let b5 = src[off + 5] as u64;
    let b6 = src[off + 6] as u64;
    let b7 = src[off + 7] as u64;
    let r = b0 | (b1 << 8) | (b2 << 16) | (b3 << 24) | (b4 << 32) | (b5 << 40) | (b6 << 48) | (b7
        << 56);
    proof {
        let s = src@.subrange(off as int, off as int + 8);
        assert(s[0] == src@[off as int] && s[1] == src@[off as int + 1] && s[2] == src@[off as int
            + 2] && s[3] == src@[off as int + 3] && s[4] == src@[off as int + 4] && s[5]
            == src@[off as int + 5] && s[6] == src@[off as int + 6] && s[7] == src@[off as int
            + 7]);
    }
    r
}

/// Reads the 32-bit unsigned integer stored little-endian at `off`.
pub fn read_u32_le(src: &Vec<u8>, off: usize) -> (r: u32)
    requires
        off + 4 <= src@.len(),
    ensures
        r == spec_u32_from_le(src@.subrange(off as int, off as int + 4)),
{
    let n = src.len();
    assert(off + 4 <= n);
    let b0 = src[off] as u32;
    let b1 = src[off + 1] as u32;
    let b2 = src[off + 2] as u32;
    let b3 = src[off + 3] as u32;
    let r = b0 | (b1 << 8) | (b2 << 16) | (b3 << 24);
    proof {
        let s = src@.subrange(off as int, off as int + 4);
        assert(s[0] == src@[off as int] && s[1] == src@[off as int + 1] && s[2] == src@[off as int
            + 2] && s[3] == src@[off as int + 3]);
    }
    r
}

} // verus!
