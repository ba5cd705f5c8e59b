//! Byte-level helpers shared by every layout: little- and big-endian integers,
//! and the four-byte alignment used throughout the protocol.
use vstd::prelude::*;
use byteorder::{BigEndian, ByteOrder, LittleEndian};

verus! {

/// The value of the little-endian `u16` stored at `off` in `s`.
pub open spec fn le_u16_at(s: Seq<u8>, off: int) -> int {
    s[off] as int + 256 * (s[off + 1] as int)
}

/// The value of the big-endian `u16` stored at `off` in `s`.
pub open spec fn be_u16_at(s: Seq<u8>, off: int) -> int {
    256 * (s[off] as int) + s[off + 1] as int
}

/// The value of the little-endian `u32` stored at `off` in `s`.
pub open spec fn le_u32_at(s: Seq<u8>, off: int) -> int {
    le_u16_at(s, off) + 65536 * le_u16_at(s, off + 2)
}

/// The two bytes of `v`, least significant first.
pub open spec fn le16(v: u16) -> Seq<u8> {
    seq![(v % 256) as u8, (v / 256) as u8]
}

/// The four bytes of `v`, least significant first.
pub open spec fn le32(v: u32) -> Seq<u8> {
    le16((v % 65536) as u16) + le16((v / 65536) as u16)
}

/// `n` rounded up to the next multiple of four.
pub open spec fn pad4(n: int) -> int {
    (n + 3) / 4 * 4
}

/// Relies on byteorder's `LittleEndian::read_u16`: the first two bytes of the
/// slice it is given, least significant first (it panics on fewer than two).
#[verifier::external_body]
pub(crate) fn read_le_u16(buf: &[u8], off: usize) -> (r: u16)
    requires
        off + 2 <= buf@.len(),
    ensures
        r as int == le_u16_at(buf@, off as int),
{
    LittleEndian::read_u16(&buf[off..])
}

/// Relies on byteorder's `BigEndian::read_u16`: the first two bytes of the
/// slice it is given, most significant first (it panics on fewer than two).
#[verifier::external_body]
pub(crate) fn read_be_u16(buf: &[u8], off: usize) -> (r: u16)
    requires
        off + 2 <= buf@.len(),
    ensures
        r as int == be_u16_at(buf@, off as int),
{
    BigEndian::read_u16(&buf[off..])
}

/// Relies on byteorder's `LittleEndian::read_u32`: the first four bytes of the
/// slice it is given, least significant first (it panics on fewer than four).
#[verifier::external_body]
pub(crate) fn read_le_u32(buf: &[u8], off: usize) -> (r: u32)
    requires
        off + 4 <= buf@.len(),
    ensures
        r as int == le_u32_at(buf@, off as int),
{
    LittleEndian::read_u32(&buf[off..])
}

/// Appends the two little-endian bytes of `v`.
pub fn push_u16_le(out: &mut Vec<u8>, v: u16)
    ensures
        final(out)@ == old(out)@ + le16(v),
{
    out.push((v % 256) as u8);
    out.push((v / 256) as u8);
    assert(final(out)@ =~= old(out)@ + le16(v));
}

/// Appends the four little-endian bytes of `v`.
pub fn push_u32_le(out: &mut Vec<u8>, v: u32)
    ensures
        final(out)@ == old(out)@ + le32(v),
{
    push_u16_le(out, (v % 65536) as u16);
    push_u16_le(out, (v / 65536) as u16);
    assert(final(out)@ =~= old(out)@ + le32(v));
}

/// Appends `n` zero bytes.
pub fn push_zeros(out: &mut Vec<u8>, n: usize)
    ensures
        final(out)@ == old(out)@ + Seq::new(n as nat, |_i: int| 0u8),
{
    let ghost start = out@;
    let mut i: usize = 0;
    while i < n
        invariant
            i <= n,
            out@ == start + Seq::new(i as nat, |_k: int| 0u8),
        decreases n - i,
    {
        out.push(0u8);
        i = i + 1;
        assert(out@ =~= start + Seq::new(i as nat, |_k: int| 0u8));
    }
}

/// Appends every byte of `src`.
pub fn push_all(out: &mut Vec<u8>, src: &[u8])
    ensures
        final(out)@ == old(out)@ + src@,
{
    let ghost start = out@;
    let mut i: usize = 0;
    while i < src.len()
        invariant
            i <= src@.len(),
            out@ == start + src@.subrange(0, i as int),
        decreases src@.len() - i,
    {
        out.push(src[i]);
        i = i + 1;
        assert(out@ =~= start + src@.subrange(0, i as int));
    }
    assert(src@.subrange(0, src@.len() as int) =~= src@);
}

/// A copy of the `len` bytes of `buf` that start at `start`.
pub fn copy_range(buf: &[u8], start: usize, len: usize) -> (r: Vec<u8>)
    requires
        start + len <= buf@.len(),
    ensures
        r@ == buf@.subrange(start as int, start + len),
{
    let total: usize = buf.len();
    let mut r: Vec<u8> = Vec::new();
    let mut i: usize = 0;
    while i < len
        invariant
            i <= len,
            start + len <= buf@.len(),
            total == buf@.len(),
            r@ == buf@.subrange(start as int, start + i),
        decreases len - i,
    {
        r.push(buf[start + i]);
        i = i + 1;
        assert(r@ =~= buf@.subrange(start as int, start + i));
    }
    r
}

/// Whether `a` and `b` hold the same bytes.
pub fn bytes_equal(a: &[u8], b: &[u8]) -> (r: bool)
    ensures
        r == (a@ == b@),
{
    if a.len() != b.len() {
        return false;
    }
    let mut i: usize = 0;
    while i < a.len()
        invariant
            i <= a@.len(),
            a@.len() == b@.len(),
            a@.subrange(0, i as int) == b@.subrange(0, i as int),
        decreases a@.len() - i,
    {
        if a[i] != b[i] {
            assert(a@[i as int] != b@[i as int]);
            return false;
        }
        assert(a@.subrange(0, i + 1) =~= a@.subrange(0, i as int).push(a@[i as int]));
        assert(b@.subrange(0, i + 1) =~= b@.subrange(0, i as int).push(b@[i as int]));
        i = i + 1;
    }
    assert(a@ =~= a@.subrange(0, i as int));
    assert(b@ =~= b@.subrange(0, i as int));
    true
}

/// `n` rounded up to the next multiple of four, as `(n + 3) & !3`.
pub fn round_up_4(n: u32) -> (r: u32)
    requires
        n <= u32::MAX - 3,
    ensures
        r as int == pad4(n as int),
        r % 4 == 0,
        n <= r < n + 4,
{
    let m: u32 = n + 3;
    let r: u32 = m & !3u32;
    assert(r == m / 4 * 4) by (bit_vector)
        requires
            r == m & !3u32,
    ;
    r
}

/// Rounding up to a multiple of four yields a multiple of four no smaller than
/// the input and less than four above it, leaves multiples of four unchanged,
/// and so does nothing the second time.
pub proof fn lemma_pad4(n: int)
    requires
        0 <= n,
    ensures
        pad4(n) % 4 == 0,
        n <= pad4(n) < n + 4,
        n % 4 == 0 ==> pad4(n) == n,
        pad4(pad4(n)) == pad4(n),
{
}

} // verus!
