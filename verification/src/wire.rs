//! Fixed-width integer encodings used on the wire (big and little endian).
use vstd::prelude::*;

verus! {

/// Big-endian encoding of a 16-bit value.
pub open spec fn be16(x: u16) -> Seq<u8> {
    seq![(x / 0x100) as u8, (x % 0x100) as u8]
}

/// Big-endian encoding of a 32-bit value.
pub open spec fn be32(x: u32) -> Seq<u8> {
    seq![
        (x / 0x1000000) as u8,
        ((x / 0x10000) % 0x100) as u8,
        ((x / 0x100) % 0x100) as u8,
        (x % 0x100) as u8,
    ]
}

/// Little-endian encoding of a 16-bit value.
pub open spec fn le16(x: u16) -> Seq<u8> {
    seq![(x % 0x100) as u8, (x / 0x100) as u8]
}

/// Little-endian encoding of a 32-bit value.
pub open spec fn le32(x: u32) -> Seq<u8> {
    seq![
        (x % 0x100) as u8,
        ((x / 0x100) % 0x100) as u8,
        ((x / 0x10000) % 0x100) as u8,
        (x / 0x1000000) as u8,
    ]
}

/// Little-endian encoding of a 64-bit value.
pub open spec fn le64(x: u64) -> Seq<u8> {
    le32((x % 0x1_0000_0000) as u32) + le32((x / 0x1_0000_0000) as u32)
}

/// Value of two bytes read big-endian.
pub open spec fn from_be16(b0: u8, b1: u8) -> u16 {
    (b0 * 0x100 + b1) as u16
}

/// Value of four bytes read big-endian.
pub open spec fn from_be32(b0: u8, b1: u8, b2: u8, b3: u8) -> u32 {
    (b0 * 0x1000000 + b1 * 0x10000 + b2 * 0x100 + b3) as u32
}

/// Value of two bytes read little-endian.
pub open spec fn from_le16(b0: u8, b1: u8) -> u16 {
    (b1 * 0x100 + b0) as u16
}

/// Value of four bytes read little-endian.
pub open spec fn from_le32(b0: u8, b1: u8, b2: u8, b3: u8) -> u32 {
    from_be32(b3, b2, b1, b0)
}

/// Value of eight little-endian bytes `s[0..8]`.
pub open spec fn from_le64(s: Seq<u8>) -> u64 {
    (from_le32(s[0], s[1], s[2], s[3]) + from_le32(s[4], s[5], s[6], s[7]) * 0x1_0000_0000) as u64
}

/// Reading back a big-endian 16-bit encoding gives the value.
pub proof fn lemma_be16_roundtrip(x: u16)
    ensures
        from_be16(be16(x)[0], be16(x)[1]) == x,
{
}

/// Reading back a big-endian 32-bit encoding gives the value.
pub proof fn lemma_be32_roundtrip(x: u32)
    ensures
        from_be32(be32(x)[0], be32(x)[1], be32(x)[2], be32(x)[3]) == x,
{
}

/// Reading back a little-endian 16-bit encoding gives the value.
pub proof fn lemma_le16_roundtrip(x: u16)
    ensures
        from_le16(le16(x)[0], le16(x)[1]) == x,
{
}

/// Reading back a little-endian 32-bit encoding gives the value.
pub proof fn lemma_le32_roundtrip(x: u32)
    ensures
        from_le32(le32(x)[0], le32(x)[1], le32(x)[2], le32(x)[3]) == x,
{
}

/// Reading back a little-endian 64-bit encoding gives the value.
pub proof fn lemma_le64_roundtrip(x: u64)
    ensures
        le64(x).len() == 8,
        from_le64(le64(x)) == x,
{
    let lo = (x % 0x1_0000_0000) as u32;
    let hi = (x / 0x1_0000_0000) as u32;
    lemma_le32_roundtrip(lo);
    lemma_le32_roundtrip(hi);
    assert(le64(x)[4] == le32(hi)[0]);
}

pub fn push_be16(buf: &mut Vec<u8>, x: u16)
    ensures
        final(buf)@ == old(buf)@ + be16(x),
{
    buf.push((x / 0x100) as u8);
    buf.push((x % 0x100) as u8);
    assert(final(buf)@ =~= old(buf)@ + be16(x));
}

pub fn push_be32(buf: &mut Vec<u8>, x: u32)
    ensures
        final(buf)@ == old(buf)@ + be32(x),
{
    buf.push((x / 0x1000000) as u8);
    buf.push(((x / 0x10000) % 0x100) as u8);
    buf.push(((x / 0x100) % 0x100) as u8);
    buf.push((x % 0x100) as u8);
    assert(final(buf)@ =~= old(buf)@ + be32(x));
}

pub fn push_le16(buf: &mut Vec<u8>, x: u16)
    ensures
        final(buf)@ == old(buf)@ + le16(x),
{
    buf.push((x % 0x100) as u8);
    buf.push((x / 0x100) as u8);
    assert(final(buf)@ =~= old(buf)@ + le16(x));
}

pub fn push_le32(buf: &mut Vec<u8>, x: u32)
    ensures
        final(buf)@ == old(buf)@ + le32(x),
{
    buf.push((x % 0x100) as u8);
    buf.push(((x / 0x100) % 0x100) as u8);
    buf.push(((x / 0x10000) % 0x100) as u8);
    buf.push((x / 0x1000000) as u8);
    assert(final(buf)@ =~= old(buf)@ + le32(x));
}

pub fn push_le64(buf: &mut Vec<u8>, x: u64)
    ensures
        final(buf)@ == old(buf)@ + le64(x),
{
    push_le32(buf, (x % 0x1_0000_0000) as u32);
    push_le32(buf, (x / 0x1_0000_0000) as u32);
    assert(final(buf)@ =~= old(buf)@ + le64(x));
}

/// Appends all of `src` to `buf`.
pub fn push_slice(buf: &mut Vec<u8>, src: &[u8])
    ensures
        final(buf)@ == old(buf)@ + src@,
{
    let mut i: usize = 0;
    while i < src.len()
        invariant
            i <= src@.len(),
            buf@ == old(buf)@ + src@.subrange(0, i as int),
        decreases src@.len() - i,
    {
        buf.push(src[i]);
        i = i + 1;
        assert(buf@ =~= old(buf)@ + src@.subrange(0, i as int));
    }
    assert(src@.subrange(0, src@.len() as int) =~= src@);
}

/// Copies `src[start..end]` into a fresh vector.
pub fn copy_range(src: &[u8], start: usize, end: usize) -> (out: Vec<u8>)
    requires
        start <= end <= src@.len(),
    ensures
        out@ == src@.subrange(start as int, end as int),
{
    let mut out: Vec<u8> = Vec::new();
    let mut i: usize = start;
    while i < end
        invariant
            start <= i <= end <= src@.len(),
            out@ == src@.subrange(start as int, i as int),
        decreases end - i,
    {
        out.push(src[i]);
        i = i + 1;
        assert(out@ =~= src@.subrange(start as int, i as int));
    }
    out
}

pub fn read_be16(b: &[u8], at: usize) -> (r: u16)
    requires
        at + 2 <= b.len(),
    ensures
        r == from_be16(b@[at as int], b@[at + 1]),
{
    (b[at] as u16) * 0x100 + (b[at + 1] as u16)
}

pub fn read_be32(b: &[u8], at: usize) -> (r: u32)
    requires
        at + 4 <= b.len(),
    ensures
        r == from_be32(b@[at as int], b@[at + 1], b@[at + 2], b@[at + 3]),
{
    (b[at] as u32) * 0x1000000 + (b[at + 1] as u32) * 0x10000 + (b[at + 2] as u32) * 0x100 + (b[at + 3] as u32)
}

fn read_be32_parts(b0: u8, b1: u8, b2: u8, b3: u8) -> (r: u32)
    ensures
        r == from_be32(b0, b1, b2, b3),
{
    (b0 as u32) * 0x1000000 + (b1 as u32) * 0x10000 + (b2 as u32) * 0x100 + (b3 as u32)
}

pub fn read_le16(b: &[u8], at: usize) -> (r: u16)
    requires
        at + 2 <= b.len(),
    ensures
        r == from_le16(b@[at as int], b@[at + 1]),
{
    let hi = b[at + 1] as u16;
    let lo = b[at] as u16;
    assert(hi * 0x100 <= 0xff00) by (nonlinear_arith)
        requires
            hi <= 0xff,
    ;
    hi * 0x100 + lo
}

pub fn read_le64(b: &[u8], at: usize) -> (r: u64)
    requires
        at + 8 <= b.len(),
    ensures
        r == from_le64(b@.subrange(at as int, at + 8)),
{
    let lo = read_be32_parts(b[at + 3], b[at + 2], b[at + 1], b[at]);
    let hi = read_be32_parts(b[at + 7], b[at + 6], b[at + 5], b[at + 4]);
    (lo as u64) + (hi as u64) * 0x1_0000_0000
}

} // verus!
