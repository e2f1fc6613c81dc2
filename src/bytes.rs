//! Big-endian unsigned integers read from byte sequences.
use vstd::prelude::*;

verus! {

/// Value of the two bytes at `i`, most significant first.
pub open spec fn be16(s: Seq<u8>, i: int) -> nat {
    s[i] as nat * 0x100 + s[i + 1] as nat
}

/// Value of the three bytes at `i`, most significant first.
pub open spec fn be24(s: Seq<u8>, i: int) -> nat {
    s[i] as nat * 0x1_0000 + be16(s, i + 1)
}

/// Value of the four bytes at `i`, most significant first.
pub open spec fn be32(s: Seq<u8>, i: int) -> nat {
    be16(s, i) * 0x1_0000 + be16(s, i + 2)
}

/// Value of the eight bytes at `i`, most significant first.
pub open spec fn be64(s: Seq<u8>, i: int) -> nat {
    be32(s, i) * 0x1_0000_0000 + be32(s, i + 4)
}

/// Value of the sixteen bytes at `i`, most significant first.
pub open spec fn be128(s: Seq<u8>, i: int) -> nat {
    be64(s, i) * 0x1_0000_0000_0000_0000 + be64(s, i + 8)
}

/// Two bytes holding `v`, most significant first.
pub open spec fn enc16(v: nat) -> Seq<u8> {
    seq![(v / 0x100) as u8, (v % 0x100) as u8]
}

/// Four bytes holding `v`, most significant first.
pub open spec fn enc32(v: nat) -> Seq<u8> {
    enc16(v / 0x1_0000) + enc16(v % 0x1_0000)
}

/// Eight bytes holding `v`, most significant first.
pub open spec fn enc64(v: nat) -> Seq<u8> {
    enc32(v / 0x1_0000_0000) + enc32(v % 0x1_0000_0000)
}

/// Sixteen bytes holding `v`, most significant first.
pub open spec fn enc128(v: nat) -> Seq<u8> {
    enc64(v / 0x1_0000_0000_0000_0000) + enc64(v % 0x1_0000_0000_0000_0000)
}

/// Reads the two bytes at `i` as a big-endian integer.
pub fn read_u16(s: &[u8], i: usize) -> (r: u16)
    requires
        i + 2 <= s@.len(),
    ensures
        r == be16(s@, i as int),
{
    (s[i] as u16) * 0x100 + s[i + 1] as u16
}

/// Reads the three bytes at `i` as a big-endian integer.
pub fn read_u24(s: &[u8], i: usize) -> (r: u32)
    requires
        i + 3 <= s@.len(),
    ensures
        r == be24(s@, i as int),
{
    assert(i + 1 < s.len());
    (s[i] as u32) * 0x1_0000 + read_u16(s, i + 1) as u32
}

/// Reads the four bytes at `i` as a big-endian integer.
pub fn read_u32(s: &[u8], i: usize) -> (r: u32)
    requires
        i + 4 <= s@.len(),
    ensures
        r == be32(s@, i as int),
{
    assert(i + 2 < s.len());
    (read_u16(s, i) as u32) * 0x1_0000 + read_u16(s, i + 2) as u32
}

/// Reads the eight bytes at `i` as a big-endian integer.
pub fn read_u64(s: &[u8], i: usize) -> (r: u64)
    requires
        i + 8 <= s@.len(),
    ensures
        r == be64(s@, i as int),
{
    assert(i + 4 < s.len());
    (read_u32(s, i) as u64) * 0x1_0000_0000 + read_u32(s, i + 4) as u64
}

/// Reads the sixteen bytes at `i` as a big-endian integer.
pub fn read_u128(s: &[u8], i: usize) -> (r: u128)
    requires
        i + 16 <= s@.len(),
    ensures
        r == be128(s@, i as int),
{
    assert(i + 8 < s.len());
    (read_u64(s, i) as u128) * 0x1_0000_0000_0000_0000 + read_u64(s, i + 8) as u128
}

/// Reading two bytes back from their encoding gives the value.
pub proof fn lemma_be16_enc16(v: nat, s: Seq<u8>, i: int)
    requires
        v < 0x1_0000,
        0 <= i,
        i + 2 <= s.len(),
        s.subrange(i, i + 2) == enc16(v),
    ensures
        be16(s, i) == v,
{
    assert(s[i] == s.subrange(i, i + 2)[0]);
    assert(s[i + 1] == s.subrange(i, i + 2)[1]);
}

/// Reading four bytes back from their encoding gives the value.
pub proof fn lemma_be32_enc32(v: nat, s: Seq<u8>, i: int)
    requires
        v < 0x1_0000_0000,
        0 <= i,
        i + 4 <= s.len(),
        s.subrange(i, i + 4) == enc32(v),
    ensures
        be32(s, i) == v,
{
    assert(s.subrange(i, i + 2) =~= s.subrange(i, i + 4).subrange(0, 2));
    assert(s.subrange(i + 2, i + 4) =~= s.subrange(i, i + 4).subrange(2, 4));
    assert(enc32(v).subrange(0, 2) =~= enc16(v / 0x1_0000));
    assert(enc32(v).subrange(2, 4) =~= enc16(v % 0x1_0000));
    lemma_be16_enc16(v / 0x1_0000, s, i);
    lemma_be16_enc16(v % 0x1_0000, s, i + 2);
}

/// Reading eight bytes back from their encoding gives the value.
pub proof fn lemma_be64_enc64(v: nat, s: Seq<u8>, i: int)
    requires
        v < 0x1_0000_0000_0000_0000,
        0 <= i,
        i + 8 <= s.len(),
        s.subrange(i, i + 8) == enc64(v),
    ensures
        be64(s, i) == v,
{
    assert(s.subrange(i, i + 4) =~= s.subrange(i, i + 8).subrange(0, 4));
    assert(s.subrange(i + 4, i + 8) =~= s.subrange(i, i + 8).subrange(4, 8));
    assert(enc64(v).subrange(0, 4) =~= enc32(v / 0x1_0000_0000));
    assert(enc64(v).subrange(4, 8) =~= enc32(v % 0x1_0000_0000));
    lemma_be32_enc32(v / 0x1_0000_0000, s, i);
    lemma_be32_enc32(v % 0x1_0000_0000, s, i + 4);
}

/// Reading sixteen bytes back from their encoding gives the value.
pub proof fn lemma_be128_enc128(v: nat, s: Seq<u8>, i: int)
    requires
        v < 0x1_0000_0000_0000_0000_0000_0000_0000_0000,
        0 <= i,
        i + 16 <= s.len(),
        s.subrange(i, i + 16) == enc128(v),
    ensures
        be128(s, i) == v,
{
    assert(s.subrange(i, i + 8) =~= s.subrange(i, i + 16).subrange(0, 8));
    assert(s.subrange(i + 8, i + 16) =~= s.subrange(i, i + 16).subrange(8, 16));
    assert(enc128(v).subrange(0, 8) =~= enc64(v / 0x1_0000_0000_0000_0000));
    assert(enc128(v).subrange(8, 16) =~= enc64(v % 0x1_0000_0000_0000_0000));
    lemma_be64_enc64(v / 0x1_0000_0000_0000_0000, s, i);
    lemma_be64_enc64(v % 0x1_0000_0000_0000_0000, s, i + 8);
}

} // verus!
