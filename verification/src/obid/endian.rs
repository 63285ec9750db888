//! 16-bit words on the wire: big-endian for the frame length, little-endian
//! for the checksum. The bytes are laid down and picked up by `byteorder`.

use byteorder::{BigEndian, ByteOrder, LittleEndian};
use vstd::prelude::*;

verus! {

/// The high byte of a 16-bit word.
pub open spec fn u16_hi(n: u16) -> u8 {
    (n >> 8) as u8
}

/// The low byte of a 16-bit word.
pub open spec fn u16_lo(n: u16) -> u8 {
    (n & 0xff) as u8
}

/// The 16-bit word with the given high and low byte.
pub open spec fn u16_of(hi: u8, lo: u8) -> u16 {
    ((hi as u16) << 8) | (lo as u16)
}

/// A word is the word of its own two bytes.
pub proof fn lemma_u16_of_bytes(n: u16)
    ensures
        u16_of(u16_hi(n), u16_lo(n)) == n,
{
    assert((((n >> 8) as u8) as u16) << 8 | (((n & 0xff) as u8) as u16) == n) by (bit_vector);
}

/// The two bytes of a word built from bytes are those bytes.
pub proof fn lemma_bytes_of_u16(hi: u8, lo: u8)
    ensures
        u16_hi(u16_of(hi, lo)) == hi,
        u16_lo(u16_of(hi, lo)) == lo,
{
    assert(((((hi as u16) << 8) | (lo as u16)) >> 8) as u8 == hi) by (bit_vector);
    assert(((((hi as u16) << 8) | (lo as u16)) & 0xff) as u8 == lo) by (bit_vector);
}

/// `byteorder::BigEndian::write_u16` on the part of `buf` that starts at
/// `at`: the high byte of `n` goes to `at`, the low byte to `at + 1`, and
/// no other byte changes. The outside function panics on fewer than two
/// bytes, which `requires` leaves out.
#[verifier::external_body]
pub(crate) fn write_u16_be(buf: &mut Vec<u8>, at: usize, n: u16)
    requires
        at + 2 <= old(buf)@.len(),
    ensures
        final(buf)@ == old(buf)@.update(at as int, u16_hi(n)).update(at + 1, u16_lo(n)),
{
    BigEndian::write_u16(&mut buf[at..], n)
}

/// `byteorder::LittleEndian::write_u16` on the part of `buf` that starts
/// at `at`: the low byte of `n` goes to `at`, the high byte to `at + 1`,
/// and no other byte changes. The outside function panics on fewer than
/// two bytes, which `requires` leaves out.
#[verifier::external_body]
pub(crate) fn write_u16_le(buf: &mut Vec<u8>, at: usize, n: u16)
    requires
        at + 2 <= old(buf)@.len(),
    ensures
        final(buf)@ == old(buf)@.update(at as int, u16_lo(n)).update(at + 1, u16_hi(n)),
{
    LittleEndian::write_u16(&mut buf[at..], n)
}

/// `byteorder::BigEndian::read_u16`: the word whose high byte is the first
/// byte of `buf` and whose low byte is the second. The outside function
/// panics on fewer than two bytes, which `requires` leaves out.
#[verifier::external_body]
pub(crate) fn read_u16_be(buf: &[u8]) -> (n: u16)
    requires
        buf@.len() >= 2,
    ensures
        n == u16_of(buf@[0], buf@[1]),
{
    BigEndian::read_u16(buf)
}

/// `byteorder::LittleEndian::read_u16`: the word whose low byte is the
/// first byte of `buf` and whose high byte is the second. The outside
/// function panics on fewer than two bytes, which `requires` leaves out.
#[verifier::external_body]
pub(crate) fn read_u16_le(buf: &[u8]) -> (n: u16)
    requires
        buf@.len() >= 2,
    ensures
        n == u16_of(buf@[1], buf@[0]),
{
    LittleEndian::read_u16(buf)
}

} // verus!
