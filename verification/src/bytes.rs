use vstd::prelude::*;

verus! {

/// The byte at `i`, or zero past the end. A field read with a single `read`
/// from a stream that has run dry keeps the zeros it started with, so this is
/// what such a field gets.
pub open spec fn byte_or_zero(p: Seq<u8>, i: int) -> u8 {
    if 0 <= i < p.len() { p[i] } else { 0 }
}

/// The little-endian `u16` at `i`, missing bytes read as zero.
pub open spec fn le16_or_zero(p: Seq<u8>, i: int) -> u16 {
    (byte_or_zero(p, i) + 256 * byte_or_zero(p, i + 1)) as u16
}

/// The big-endian `u16` at `i`, missing bytes read as zero.
pub open spec fn be16_or_zero(p: Seq<u8>, i: int) -> u16 {
    (256 * byte_or_zero(p, i) + byte_or_zero(p, i + 1)) as u16
}

/// The little-endian `u32` at `i`, missing bytes read as zero.
pub open spec fn le32_or_zero(p: Seq<u8>, i: int) -> u32 {
    (le16_or_zero(p, i) + 65536 * le16_or_zero(p, i + 2)) as u32
}

pub fn byte_or_zero_exec(p: &[u8], i: usize) -> (r: u8)
    ensures
        r == byte_or_zero(p@, i as int),
{
    if i < p.len() { p[i] } else { 0 }
}

pub fn le16_or_zero_exec(p: &[u8], i: usize) -> (r: u16)
    requires
        i < usize::MAX,
    ensures
        r == le16_or_zero(p@, i as int),
{
    byte_or_zero_exec(p, i) as u16 + 256 * (byte_or_zero_exec(p, i + 1) as u16)
}

pub fn be16_or_zero_exec(p: &[u8], i: usize) -> (r: u16)
    requires
        i < usize::MAX,
    ensures
        r == be16_or_zero(p@, i as int),
{
    256 * (byte_or_zero_exec(p, i) as u16) + byte_or_zero_exec(p, i + 1) as u16
}

pub fn le32_or_zero_exec(p: &[u8], i: usize) -> (r: u32)
    requires
        i < usize::MAX - 3,
    ensures
        r == le32_or_zero(p@, i as int),
{
    le16_or_zero_exec(p, i) as u32 + 65536 * (le16_or_zero_exec(p, i + 2) as u32)
}

/// The bytes of `p` from `start` on (none when `start` is past the end).
pub fn tail_from(p: &[u8], start: usize) -> (r: &[u8])
    ensures
        r@ == p@.subrange(if start <= p.len() { start as int } else { p.len() as int }, p.len() as int),
{
    if start <= p.len() {
        &p[start..p.len()]
    } else {
        &p[p.len()..p.len()]
    }
}

} // verus!
