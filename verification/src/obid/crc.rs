//! CRC-16 of the reader protocol: polynomial `0x8408`, initial value
//! `0xFFFF`, reflected, no final XOR.

use vstd::prelude::*;

verus! {

/// The reflected generator polynomial.
pub const CRC_POLY: u16 = 0x8408;

/// The register's value before the first byte.
pub const CRC_INIT: u16 = 0xFFFF;

/// One shift of the register: the low bit decides whether the polynomial
/// is folded in.
pub open spec fn crc16_shift(crc: u16) -> u16 {
    if crc & 1 == 1 {
        (crc >> 1) ^ CRC_POLY
    } else {
        crc >> 1
    }
}

/// `n` shifts of the register.
pub open spec fn crc16_shifts(crc: u16, n: nat) -> u16
    decreases n,
{
    if n == 0 {
        crc
    } else {
        crc16_shift(crc16_shifts(crc, (n - 1) as nat))
    }
}

/// The register after one message byte: the byte is folded into the low
/// half, then the register is shifted eight times.
pub open spec fn crc16_byte(crc: u16, byte: u8) -> u16 {
    crc16_shifts(crc ^ (byte as u16), 8)
}

/// The register after the bytes of `data`, starting from `crc`.
pub open spec fn crc16_from(crc: u16, data: Seq<u8>) -> u16
    decreases data.len(),
{
    if data.len() == 0 {
        crc
    } else {
        crc16_byte(crc16_from(crc, data.drop_last()), data.last())
    }
}

/// The checksum of a whole message.
pub open spec fn crc16(data: Seq<u8>) -> u16 {
    crc16_from(CRC_INIT, data)
}

/// Computes the checksum of `data`.
pub fn calc_crc16(data: &[u8]) -> (crc: u16)
    ensures
        crc == crc16(data@),
{
    let mut crc: u16 = CRC_INIT;
    let mut i: usize = 0;
    while i < data.len()
        invariant
            i <= data.len(),
            crc == crc16_from(CRC_INIT, data@.take(i as int)),
        decreases data.len() - i,
    {
        let ghost before = crc;
        crc = crc ^ (data[i] as u16);
        let mut k: u8 = 0;
        while k < 8
            invariant
                k <= 8,
                crc == crc16_shifts(before ^ (data@[i as int] as u16), k as nat),
            decreases 8 - k,
        {
            if crc & 1 == 1 {
                crc = (crc >> 1) ^ CRC_POLY;
            } else {
                crc = crc >> 1;
            }
            k = k + 1;
        }
        proof {
            let next = data@.take(i + 1);
            assert(next.drop_last() =~= data@.take(i as int));
            assert(next.last() == data@[i as int]);
        }
        i = i + 1;
    }
    proof {
        assert(data@.take(i as int) =~= data@);
    }
    crc
}

/// A shift of the register loses nothing: the polynomial's top bit tells
/// whether the bit that fell out was set.
pub proof fn lemma_shift_injective(a: u16, b: u16)
    requires
        crc16_shift(a) == crc16_shift(b),
    ensures
        a == b,
{
    assert((if a & 1 == 1 {
        (a >> 1) ^ 0x8408u16
    } else {
        a >> 1
    }) == (if b & 1 == 1 {
        (b >> 1) ^ 0x8408u16
    } else {
        b >> 1
    }) ==> a == b) by (bit_vector);
}

/// Any number of shifts loses nothing.
pub proof fn lemma_shifts_injective(a: u16, b: u16, n: nat)
    requires
        crc16_shifts(a, n) == crc16_shifts(b, n),
    ensures
        a == b,
    decreases n,
{
    if n > 0 {
        lemma_shift_injective(crc16_shifts(a, (n - 1) as nat), crc16_shifts(b, (n - 1) as nat));
        lemma_shifts_injective(a, b, (n - 1) as nat);
    }
}

/// After one and the same byte, two registers agree only if they agreed
/// before it.
pub proof fn lemma_byte_keeps_registers_apart(a: u16, b: u16, byte: u8)
    requires
        crc16_byte(a, byte) == crc16_byte(b, byte),
    ensures
        a == b,
{
    lemma_shifts_injective(a ^ (byte as u16), b ^ (byte as u16), 8);
    assert(a ^ (byte as u16) == b ^ (byte as u16) ==> a == b) by (bit_vector);
}

/// From one and the same register, two bytes lead to the same register
/// only if they are the same byte.
pub proof fn lemma_byte_keeps_bytes_apart(crc: u16, x: u8, y: u8)
    requires
        crc16_byte(crc, x) == crc16_byte(crc, y),
    ensures
        x == y,
{
    lemma_shifts_injective(crc ^ (x as u16), crc ^ (y as u16), 8);
    assert(crc ^ (x as u16) == crc ^ (y as u16) ==> x == y) by (bit_vector);
}

/// The checksum tells apart any two messages of one length that differ in
/// exactly one byte: every single-bit error, and every error within one
/// byte, changes the checksum.
pub proof fn lemma_crc_detects_one_byte(crc: u16, s: Seq<u8>, t: Seq<u8>, at: int)
    requires
        s.len() == t.len(),
        0 <= at < s.len(),
        s[at] != t[at],
        forall|j: int| 0 <= j < s.len() && j != at ==> s[j] == t[j],
    ensures
        crc16_from(crc, s) != crc16_from(crc, t),
    decreases s.len(),
{
    if at == s.len() - 1 {
        assert(s.drop_last() =~= t.drop_last());
        if crc16_from(crc, s) == crc16_from(crc, t) {
            lemma_byte_keeps_bytes_apart(crc16_from(crc, s.drop_last()), s.last(), t.last());
        }
    } else {
        lemma_crc_detects_one_byte(crc, s.drop_last(), t.drop_last(), at);
        if crc16_from(crc, s) == crc16_from(crc, t) {
            lemma_byte_keeps_registers_apart(
                crc16_from(crc, s.drop_last()),
                crc16_from(crc, t.drop_last()),
                s.last(),
            );
        }
    }
}

} // verus!
