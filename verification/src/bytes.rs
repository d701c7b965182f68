//! Big-endian byte encoding helpers.

use vstd::prelude::*;

verus! {

/// The four big-endian bytes of a 32-bit value.
pub open spec fn be32(x: u32) -> Seq<u8> {
    seq![
        (x / 0x1000000) as u8,
        ((x / 0x10000) % 0x100) as u8,
        ((x / 0x100) % 0x100) as u8,
        (x % 0x100) as u8,
    ]
}

/// The two big-endian bytes of a 16-bit value.
pub open spec fn be16(x: u16) -> Seq<u8> {
    seq![(x / 0x100) as u8, (x % 0x100) as u8]
}

/// Appends the big-endian encoding of `x`.
pub fn push_be32(buf: &mut Vec<u8>, x: u32)
    ensures
        final(buf)@ == old(buf)@ + be32(x),
{
    buf.push((x / 0x1000000) as u8);
    buf.push(((x / 0x10000) % 0x100) as u8);
    buf.push(((x / 0x100) % 0x100) as u8);
    buf.push((x % 0x100) as u8);
    assert(buf@ =~= old(buf)@ + be32(x));
}

/// Appends the big-endian encoding of `x`.
pub fn push_be16(buf: &mut Vec<u8>, x: u16)
    ensures
        final(buf)@ == old(buf)@ + be16(x),
{
    buf.push((x / 0x100) as u8);
    buf.push((x % 0x100) as u8);
    assert(buf@ =~= old(buf)@ + be16(x));
}

/// Appends every byte of `bytes`, in order.
pub fn push_all(buf: &mut Vec<u8>, bytes: &[u8])
    ensures
        final(buf)@ == old(buf)@ + bytes@,
{
    let ghost start = buf@;
    let mut i: usize = 0;
    while i < bytes.len()
        invariant
            i <= bytes@.len(),
            buf@ == start + bytes@.take(i as int),
        decreases bytes@.len() - i,
    {
        buf.push(bytes[i]);
        i = i + 1;
        assert(buf@ =~= start + bytes@.take(i as int));
    }
    assert(bytes@.take(i as int) =~= bytes@);
}

/// Appends `src[start .. start + len]`, in order.
pub fn push_range(buf: &mut Vec<u8>, src: &[u8], start: usize, len: usize)
    requires
        start + len <= src@.len(),
    ensures
        final(buf)@ == old(buf)@ + src@.subrange(start as int, start + len),
{
    let ghost base = buf@;
    let n = src.len();
    let mut i: usize = 0;
    while i < len
        invariant
            i <= len,
            n == src@.len(),
            start + len <= src@.len(),
            buf@ == base + src@.subrange(start as int, start + i),
        decreases len - i,
    {
        buf.push(src[start + i]);
        i = i + 1;
        assert(buf@ =~= base + src@.subrange(start as int, start + i));
    }
}

/// Appends `n` zero bytes.
pub fn push_zeros(buf: &mut Vec<u8>, n: usize)
    ensures
        final(buf)@ == old(buf)@ + zeros(n as nat),
{
    let ghost start = buf@;
    let mut i: usize = 0;
    while i < n
        invariant
            i <= n,
            buf@ == start + Seq::new(i as nat, |_i: int| 0u8),
        decreases n - i,
    {
        buf.push(0u8);
        i = i + 1;
        assert(buf@ =~= start + Seq::new(i as nat, |_i: int| 0u8));
    }
    assert(buf@ =~= old(buf)@ + zeros(n as nat));
}


/// Four ASCII characters as the bytes of a box tag.
pub open spec fn fourcc(a: char, b: char, c: char, d: char) -> Seq<u8> {
    seq![a as u8, b as u8, c as u8, d as u8]
}

/// `n` zero bytes.
pub open spec fn zeros(n: nat) -> Seq<u8> {
    Seq::new(n, |_i: int| 0u8)
}

/// The concatenation of a sequence of byte strings, in order.
pub open spec fn concat_all(s: Seq<Seq<u8>>) -> Seq<u8>
    decreases s.len(),
{
    if s.len() == 0 {
        seq![]
    } else {
        concat_all(s.drop_last()) + s.last()
    }
}

/// The big-endian encodings of all values, in order.
pub open spec fn be32_all(s: Seq<u32>) -> Seq<u8>
    decreases s.len(),
{
    if s.len() == 0 {
        seq![]
    } else {
        be32_all(s.drop_last()) + be32(s.last())
    }
}

pub proof fn lemma_be32_all_len(s: Seq<u32>)
    ensures
        be32_all(s).len() == 4 * s.len(),
    decreases s.len(),
{
    if s.len() > 0 {
        lemma_be32_all_len(s.drop_last());
    }
}

/// The tag bytes of four ASCII characters.
pub fn fourcc_bytes(a: char, b: char, c: char, d: char) -> (t: [u8; 4])
    ensures
        t@ == fourcc(a, b, c, d),
{
    let t = [a as u8, b as u8, c as u8, d as u8];
    assert(t@ =~= fourcc(a, b, c, d));
    t
}

/// Appends four ASCII characters as bytes.
pub fn push_fourcc(buf: &mut Vec<u8>, a: char, b: char, c: char, d: char)
    ensures
        final(buf)@ == old(buf)@ + fourcc(a, b, c, d),
{
    buf.push(a as u8);
    buf.push(b as u8);
    buf.push(c as u8);
    buf.push(d as u8);
    assert(buf@ =~= old(buf)@ + fourcc(a, b, c, d));
}

/// Appends the big-endian encodings of all values of `vals`.
pub fn push_be32_all(buf: &mut Vec<u8>, vals: &[u32])
    ensures
        final(buf)@ == old(buf)@ + be32_all(vals@),
{
    let ghost start = buf@;
    let mut i: usize = 0;
    while i < vals.len()
        invariant
            i <= vals@.len(),
            buf@ == start + be32_all(vals@.take(i as int)),
        decreases vals@.len() - i,
    {
        push_be32(buf, vals[i]);
        assert(vals@.take(i + 1).drop_last() =~= vals@.take(i as int));
        i = i + 1;
        assert(buf@ =~= start + be32_all(vals@.take(i as int)));
    }
    assert(vals@.take(i as int) =~= vals@);
}

} // verus!
