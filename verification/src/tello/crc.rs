use vstd::prelude::*;

verus! {

/// One shift of the reflected CRC-8 register (polynomial 0x31, reflected 0x8C).
pub open spec fn crc8_shift(c: u8) -> u8 {
    if c % 2 == 1 { ((c / 2) ^ 0x8c) } else { c / 2 }
}

/// `n` shifts of the CRC-8 register.
pub open spec fn crc8_shifts(c: u8, n: nat) -> u8
    decreases n,
{
    if n == 0 { c } else { crc8_shift(crc8_shifts(c, (n - 1) as nat)) }
}

/// The CRC-8 register after absorbing one byte.
pub open spec fn crc8_absorb(c: u8, b: u8) -> u8 {
    crc8_shifts(c ^ b, 8)
}

/// The CRC-8 register after absorbing every byte of `s`, starting from `c`.
pub open spec fn crc8_fold(c: u8, s: Seq<u8>) -> u8
    decreases s.len(),
{
    if s.len() == 0 { c } else { crc8_absorb(crc8_fold(c, s.drop_last()), s.last()) }
}

/// The Tello header checksum: CRC-8 with register seed 0x77.
pub open spec fn spec_crc8(s: Seq<u8>) -> u8 {
    crc8_fold(0x77, s)
}

/// One shift of the reflected CRC-16 register (polynomial 0x1021, reflected 0x8408).
pub open spec fn crc16_shift(c: u16) -> u16 {
    if c % 2 == 1 { ((c / 2) ^ 0x8408) } else { c / 2 }
}

pub open spec fn crc16_shifts(c: u16, n: nat) -> u16
    decreases n,
{
    if n == 0 { c } else { crc16_shift(crc16_shifts(c, (n - 1) as nat)) }
}

pub open spec fn crc16_absorb(c: u16, b: u8) -> u16 {
    crc16_shifts(c ^ (b as u16), 8)
}

pub open spec fn crc16_fold(c: u16, s: Seq<u8>) -> u16
    decreases s.len(),
{
    if s.len() == 0 { c } else { crc16_absorb(crc16_fold(c, s.drop_last()), s.last()) }
}

/// The Tello packet checksum: CRC-16 with register seed 0x3692.
pub open spec fn spec_crc16(s: Seq<u8>) -> u16 {
    crc16_fold(0x3692, s)
}

/// Folding over a concatenation is folding over the second part from the
/// register left by the first.
pub proof fn lemma_crc16_fold_append(c: u16, a: Seq<u8>, b: Seq<u8>)
    ensures
        crc16_fold(c, a + b) == crc16_fold(crc16_fold(c, a), b),
    decreases b.len(),
{
    if b.len() == 0 {
        assert(a + b =~= a);
    } else {
        lemma_crc16_fold_append(c, a, b.drop_last());
        assert((a + b).drop_last() =~= a + b.drop_last());
    }
}

fn crc8_absorb_exec(c: u8, b: u8) -> (r: u8)
    ensures
        r == crc8_absorb(c, b),
{
    let mut x: u8 = c ^ b;
    let mut k: usize = 0;
    while k < 8
        invariant
            k <= 8,
            x == crc8_shifts(c ^ b, k as nat),
        decreases 8 - k,
    {
        x = if x % 2 == 1 { (x / 2) ^ 0x8c } else { x / 2 };
        k = k + 1;
    }
    x
}

fn crc16_absorb_exec(c: u16, b: u8) -> (r: u16)
    ensures
        r == crc16_absorb(c, b),
{
    let mut x: u16 = c ^ (b as u16);
    let mut k: usize = 0;
    while k < 8
        invariant
            k <= 8,
            x == crc16_shifts(c ^ (b as u16), k as nat),
        decreases 8 - k,
    {
        x = if x % 2 == 1 { (x / 2) ^ 0x8408 } else { x / 2 };
        k = k + 1;
    }
    x
}

/// CRC-8 of `data` as the Tello protocol computes it over packet headers.
pub fn crc8_ref(data: &[u8]) -> (r: u8)
    ensures
        r == spec_crc8(data@),
{
    let mut c: u8 = 0x77;
    let mut i: usize = 0;
    while i < data.len()
        invariant
            i <= data.len(),
            c == crc8_fold(0x77, data@.take(i as int)),
        decreases data.len() - i,
    {
        assert(data@.take((i + 1) as int).drop_last() =~= data@.take(i as int));
        c = crc8_absorb_exec(c, data[i]);
        i = i + 1;
    }
    assert(data@.take(data.len() as int) =~= data@);
    c
}

/// Continues a CRC-16 computation from register `c` over `data`.
pub fn crc16_continue(c: u16, data: &[u8]) -> (r: u16)
    ensures
        r == crc16_fold(c, data@),
{
    let mut x: u16 = c;
    let mut i: usize = 0;
    while i < data.len()
        invariant
            i <= data.len(),
            x == crc16_fold(c, data@.take(i as int)),
        decreases data.len() - i,
    {
        assert(data@.take((i + 1) as int).drop_last() =~= data@.take(i as int));
        x = crc16_absorb_exec(x, data[i]);
        i = i + 1;
    }
    assert(data@.take(data.len() as int) =~= data@);
    x
}

/// CRC-16 of `data` as the Tello protocol computes it over whole packets.
pub fn crc16_ref(data: &[u8]) -> (r: u16)
    ensures
        r == spec_crc16(data@),
{
    crc16_continue(0x3692, data)
}

} // verus!
