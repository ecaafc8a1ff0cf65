//! Big-endian integers, as the frame layout writes them.

use vstd::prelude::*;

verus! {

/// The two bytes of `n`, most significant first.
pub open spec fn be16(n: u16) -> Seq<u8> {
    seq![(n / 256) as u8, (n % 256) as u8]
}

/// The four bytes of `n`, most significant first.
pub open spec fn be32(n: u32) -> Seq<u8> {
    seq![
        (n / 16777216) as u8,
        ((n / 65536) % 256) as u8,
        ((n / 256) % 256) as u8,
        (n % 256) as u8,
    ]
}

/// The number that the first two bytes of `bytes` spell, most significant
/// first.
pub open spec fn be16_value(bytes: Seq<u8>) -> nat
    recommends
        bytes.len() >= 2,
{
    (bytes[0] as nat) * 256 + bytes[1] as nat
}

/// The number that the first four bytes of `bytes` spell, most significant
/// first.
pub open spec fn be32_value(bytes: Seq<u8>) -> nat
    recommends
        bytes.len() >= 4,
{
    (bytes[0] as nat) * 16777216 + (bytes[1] as nat) * 65536 + (bytes[2] as nat) * 256
        + bytes[3] as nat
}

/// Reading back what `be16` wrote gives the number written, whatever follows.
pub proof fn lemma_be16_value(n: u16, rest: Seq<u8>)
    ensures
        be16(n).len() == 2,
        be16_value(be16(n) + rest) == n,
{
}

/// Reading back what `be32` wrote gives the number written, whatever follows.
pub proof fn lemma_be32_value(n: u32, rest: Seq<u8>)
    ensures
        be32(n).len() == 4,
        be32_value(be32(n) + rest) == n,
{
}

/// Appends `n` to `out` as two bytes, most significant first.
pub fn put_u16(out: &mut Vec<u8>, n: u16)
    ensures
        final(out)@ == old(out)@ + be16(n),
{
    out.push((n / 256) as u8);
    out.push((n % 256) as u8);
}

/// Appends `n` to `out` as four bytes, most significant first.
pub fn put_u32(out: &mut Vec<u8>, n: u32)
    ensures
        final(out)@ == old(out)@ + be32(n),
{
    out.push((n / 16777216) as u8);
    out.push(((n / 65536) % 256) as u8);
    out.push(((n / 256) % 256) as u8);
    out.push((n % 256) as u8);
}

/// Reads the two bytes of `buf` that start at `at` as a number.
pub fn read_u16(buf: &[u8], at: usize) -> (n: u16)
    requires
        at + 2 <= buf@.len(),
    ensures
        n == be16_value(buf@.subrange(at as int, at + 2)),
{
    let hi: u16 = buf[at] as u16;
    let lo: u16 = buf[at + 1] as u16;
    hi * 256 + lo
}

/// Reads the four bytes of `buf` that start at `at` as a number.
pub fn read_u32(buf: &[u8], at: usize) -> (n: u32)
    requires
        at + 4 <= buf@.len(),
    ensures
        n == be32_value(buf@.subrange(at as int, at + 4)),
{
    let b0: u32 = buf[at] as u32;
    let b1: u32 = buf[at + 1] as u32;
    let b2: u32 = buf[at + 2] as u32;
    let b3: u32 = buf[at + 3] as u32;
    b0 * 16777216 + b1 * 65536 + b2 * 256 + b3
}

/// Whether two byte strings are equal.
pub fn bytes_equal(a: &[u8], b: &[u8]) -> (equal: bool)
    ensures
        equal == (a@ == b@),
{
    if a.len() != b.len() {
        return false;
    }
    let mut i: usize = 0;
    while i < a.len()
        invariant
            a@.len() == b@.len(),
            i <= a@.len(),
            forall|j: int| 0 <= j < i ==> a@[j] == b@[j],
        decreases a@.len() - i,
    {
        if a[i] != b[i] {
            return false;
        }
        i += 1;
    }
    assert(a@ =~= b@);
    true
}

} // verus!
