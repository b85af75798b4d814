//! Byte-level helpers: comparing ranges, testing for zero, and little-endian
//! integers.

use vstd::prelude::*;

verus! {

/// Every byte of `s` is zero.
pub open spec fn all_zero(s: Seq<u8>) -> bool {
    forall|i: int| 0 <= i < s.len() ==> s[i] == 0
}

/// The unsigned 16-bit number whose little-endian bytes are `s[0]` and `s[1]`.
pub open spec fn le_u16(s: Seq<u8>) -> int
    recommends
        s.len() == 2,
{
    s[0] + s[1] * 0x100
}

/// The unsigned 64-bit number whose little-endian bytes are `s[0]` to `s[7]`.
pub open spec fn le_u64(s: Seq<u8>) -> int
    recommends
        s.len() == 8,
{
    s[0] + s[1] * 0x100 + s[2] * 0x1_0000 + s[3] * 0x100_0000 + s[4] * 0x1_0000_0000 + s[5]
        * 0x100_0000_0000 + s[6] * 0x1_0000_0000_0000 + s[7] * 0x100_0000_0000_0000
}

/// The two little-endian bytes of `x`.
pub open spec fn u16_le_bytes(x: u16) -> Seq<u8> {
    seq![(x % 0x100) as u8, (x / 0x100) as u8]
}

/// The eight little-endian bytes of `x`.
pub open spec fn u64_le_bytes(x: u64) -> Seq<u8> {
    seq![
        (x % 0x100) as u8,
        (x / 0x100 % 0x100) as u8,
        (x / 0x1_0000 % 0x100) as u8,
        (x / 0x100_0000 % 0x100) as u8,
        (x / 0x1_0000_0000 % 0x100) as u8,
        (x / 0x100_0000_0000 % 0x100) as u8,
        (x / 0x1_0000_0000_0000 % 0x100) as u8,
        (x / 0x100_0000_0000_0000) as u8,
    ]
}

/// Decoding undoes encoding, for both widths.
pub proof fn lemma_le_round_trip(x: u64, y: u16)
    ensures
        u64_le_bytes(x).len() == 8,
        le_u64(u64_le_bytes(x)) == x,
        u16_le_bytes(y).len() == 2,
        le_u16(u16_le_bytes(y)) == y,
{
    assert(x == (x % 0x100) + (x / 0x100 % 0x100) * 0x100 + (x / 0x1_0000 % 0x100) * 0x1_0000 + (x
        / 0x100_0000 % 0x100) * 0x100_0000 + (x / 0x1_0000_0000 % 0x100) * 0x1_0000_0000 + (x
        / 0x100_0000_0000 % 0x100) * 0x100_0000_0000 + (x / 0x1_0000_0000_0000 % 0x100)
        * 0x1_0000_0000_0000 + (x / 0x100_0000_0000_0000) * 0x100_0000_0000_0000) by (bit_vector);
    assert(x / 0x100_0000_0000_0000 < 0x100) by (bit_vector);
    assert(y == (y % 0x100) + (y / 0x100) * 0x100) by (bit_vector);
    assert(y / 0x100 < 0x100) by (bit_vector);
}

/// Whether every byte of `bytes` is zero.
pub fn is_all_zero(bytes: &[u8]) -> (zero: bool)
    ensures
        zero == all_zero(bytes@),
{
    let mut i: usize = 0;
    while i < bytes.len()
        invariant
            i <= bytes.len(),
            forall|k: int| 0 <= k < i ==> bytes@[k] == 0,
        decreases bytes.len() - i,
    {
        if bytes[i] != 0 {
            return false;
        }
        i += 1;
    }
    true
}

/// Whether the `len` bytes of `a` from `a_at` equal the `len` bytes of `b`
/// from `b_at`.
pub fn ranges_equal(a: &[u8], a_at: usize, b: &[u8], b_at: usize, len: usize) -> (same: bool)
    requires
        a_at + len <= a@.len(),
        b_at + len <= b@.len(),
    ensures
        same == (a@.subrange(a_at as int, a_at + len) == b@.subrange(b_at as int, b_at + len)),
{
    let ghost left = a@.subrange(a_at as int, a_at + len);
    let ghost right = b@.subrange(b_at as int, b_at + len);
    let a_len: usize = a.len();
    let b_len: usize = b.len();
    let mut i: usize = 0;
    while i < len
        invariant
            i <= len,
            a_at + len <= a_len == a@.len(),
            b_at + len <= b_len == b@.len(),
            left == a@.subrange(a_at as int, a_at + len),
            right == b@.subrange(b_at as int, b_at + len),
            forall|k: int| 0 <= k < i ==> left[k] == right[k],
        decreases len - i,
    {
        if a[a_at + i] != b[b_at + i] {
            assert(left[i as int] != right[i as int]);
            return false;
        }
        i += 1;
    }
    assert(left =~= right);
    true
}

/// Reads the little-endian `u16` at `bytes[at..at + 2]`.
pub fn read_u16_le(bytes: &[u8], at: usize) -> (value: u16)
    requires
        at + 2 <= bytes@.len(),
    ensures
        value == le_u16(bytes@.subrange(at as int, at + 2)),
{
    let b0: u16 = bytes[at] as u16;
    let b1: u16 = bytes[at + 1] as u16;
    b0 + b1 * 0x100
}

/// Reads the little-endian `u64` at `bytes[at..at + 8]`.
pub fn read_u64_le(bytes: &[u8], at: usize) -> (value: u64)
    requires
        at + 8 <= bytes@.len(),
    ensures
        value == le_u64(bytes@.subrange(at as int, at + 8)),
{
    let b0: u64 = bytes[at] as u64;
    let b1: u64 = bytes[at + 1] as u64;
    let b2: u64 = bytes[at + 2] as u64;
    let b3: u64 = bytes[at + 3] as u64;
    let b4: u64 = bytes[at + 4] as u64;
    let b5: u64 = bytes[at + 5] as u64;
    let b6: u64 = bytes[at + 6] as u64;
    let b7: u64 = bytes[at + 7] as u64;
    b0 + b1 * 0x100 + b2 * 0x1_0000 + b3 * 0x100_0000 + b4 * 0x1_0000_0000 + b5
        * 0x100_0000_0000 + b6 * 0x1_0000_0000_0000 + b7 * 0x100_0000_0000_0000
}

/// Appends the two little-endian bytes of `x` to `out`.
pub fn push_u16_le(out: &mut Vec<u8>, x: u16)
    ensures
        final(out)@ == old(out)@ + u16_le_bytes(x),
{
    out.push((x % 0x100) as u8);
    out.push((x / 0x100) as u8);
}

/// Appends the eight little-endian bytes of `x` to `out`.
pub fn push_u64_le(out: &mut Vec<u8>, x: u64)
    ensures
        final(out)@ == old(out)@ + u64_le_bytes(x),
{
    out.push((x % 0x100) as u8);
    out.push((x / 0x100 % 0x100) as u8);
    out.push((x / 0x1_0000 % 0x100) as u8);
    out.push((x / 0x100_0000 % 0x100) as u8);
    out.push((x / 0x1_0000_0000 % 0x100) as u8);
    out.push((x / 0x100_0000_0000 % 0x100) as u8);
    out.push((x / 0x1_0000_0000_0000 % 0x100) as u8);
    out.push((x / 0x100_0000_0000_0000) as u8);
}

} // verus!
