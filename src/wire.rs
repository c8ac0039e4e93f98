//! Big-endian (network order) integers as bytes.
use vstd::prelude::*;

verus! {

/// The two bytes of `v`, most significant first.
pub open spec fn u16_be_bytes(v: u16) -> Seq<u8> {
    seq![(v / 256) as u8, (v % 256) as u8]
}

/// The four bytes of `v`, most significant first.
pub open spec fn u32_be_bytes(v: u32) -> Seq<u8> {
    seq![
        (v / 0x100_0000) as u8,
        ((v / 0x1_0000) % 256) as u8,
        ((v / 256) % 256) as u8,
        (v % 256) as u8,
    ]
}

/// The big-endian 16-bit integer at `b[i..i + 2]`.
pub open spec fn be_u16_at(b: Seq<u8>, i: int) -> u16 {
    (b[i] * 256 + b[i + 1]) as u16
}

/// The big-endian 32-bit integer at `b[i..i + 4]`.
pub open spec fn be_u32_at(b: Seq<u8>, i: int) -> u32 {
    (((b[i] * 256 + b[i + 1]) * 256 + b[i + 2]) * 256 + b[i + 3]) as u32
}

/// Appends the two bytes of `v`, most significant first.
pub fn push_u16_be(out: &mut Vec<u8>, v: u16)
    ensures
        final(out)@ == old(out)@ + u16_be_bytes(v),
{
    out.push((v / 256) as u8);
    out.push((v % 256) as u8);
}

/// Appends the four bytes of `v`, most significant first.
pub fn push_u32_be(out: &mut Vec<u8>, v: u32)
    ensures
        final(out)@ == old(out)@ + u32_be_bytes(v),
{
    out.push((v / 0x100_0000) as u8);
    out.push(((v / 0x1_0000) % 256) as u8);
    out.push(((v / 256) % 256) as u8);
    out.push((v % 256) as u8);
}

/// Reads the big-endian 16-bit integer at `b[i..i + 2]`.
pub fn read_u16_be(b: &[u8], i: usize) -> (r: u16)
    requires
        i + 2 <= b@.len(),
    ensures
        r == be_u16_at(b@, i as int),
{
    (b[i] as u16) * 256 + (b[i + 1] as u16)
}

/// Reads the big-endian 32-bit integer at `b[i..i + 4]`.
pub fn read_u32_be(b: &[u8], i: usize) -> (r: u32)
    requires
        i + 4 <= b@.len(),
    ensures
        r == be_u32_at(b@, i as int),
{
    let hi = (b[i] as u32) * 256 + (b[i + 1] as u32);
    let mid = hi * 256 + (b[i + 2] as u32);
    mid * 256 + (b[i + 3] as u32)
}

/// Reading back the bytes of a 16-bit integer gives the integer.
pub proof fn lemma_u16_round_trip(v: u16, prefix: Seq<u8>, suffix: Seq<u8>)
    ensures
        be_u16_at(prefix + u16_be_bytes(v) + suffix, prefix.len() as int) == v,
{
    let b = prefix + u16_be_bytes(v) + suffix;
    let i = prefix.len() as int;
    assert(b[i] == (v / 256) as u8);
    assert(b[i + 1] == (v % 256) as u8);
}

/// Reading back the bytes of a 32-bit integer gives the integer.
pub proof fn lemma_u32_round_trip(v: u32, prefix: Seq<u8>, suffix: Seq<u8>)
    ensures
        be_u32_at(prefix + u32_be_bytes(v) + suffix, prefix.len() as int) == v,
{
    let b = prefix + u32_be_bytes(v) + suffix;
    let i = prefix.len() as int;
    assert(b[i] == (v / 0x100_0000) as u8);
    assert(b[i + 1] == ((v / 0x1_0000) % 256) as u8);
    assert(b[i + 2] == ((v / 256) % 256) as u8);
    assert(b[i + 3] == (v % 256) as u8);
}

} // verus!
