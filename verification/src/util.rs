//! Small bit- and byte-level helpers shared by the bus devices.

use vstd::prelude::*;

verus! {

/// True when bit `i` of `v` is set.
pub open spec fn spec_bit(v: u8, i: u8) -> bool
    recommends
        i < 8,
{
    (v >> i) & 1 == 1
}

/// Relies on `std::string::String::push`: appends the given character to
/// the end of the string, as its documentation states.
pub assume_specification[ String::push ](s: &mut String, c: char)
    ensures
        final(s)@ == old(s)@.push(c),
;

/// Builds a 16-bit value from its low and high bytes.
pub fn u16_from_2u8(low: u8, high: u8) -> (r: u16)
    ensures
        r == low + high * 256,
{
    proof {
        assert((high as u16) << 8 == high as u16 * 256) by (bit_vector);
    }
    (low as u16) + ((high as u16) << 8)
}

/// Splits a 16-bit value into its low and high bytes.
pub fn u8u8_from_u16(value: u16) -> (r: (u8, u8))
    ensures
        r.0 == value % 256,
        r.1 == value / 256,
{
    let value_low = (value & 0x00ff) as u8;
    let value_high = ((value & 0xff00) >> 8) as u8;
    proof {
        assert((value & 0x00ff) == value % 256 && ((value & 0xff00) >> 8) == value / 256)
            by (bit_vector);
    }
    (value_low, value_high)
}

/// Tests bit `index` of `value`.
pub fn check_bit(value: u8, index: u8) -> (r: bool)
    requires
        index < 8,
    ensures
        r == spec_bit(value, index),
{
    let bit = 1u8 << index;
    proof {
        assert((value & (1u8 << index) == 1u8 << index) == ((value >> index) & 1 == 1))
            by (bit_vector)
            requires
                index < 8,
        ;
    }
    value & bit == bit
}

/// The big-endian byte `i` (0 is the most significant) of a 64-bit value.
pub open spec fn spec_be_byte(z: u64, i: int) -> u8
    recommends
        0 <= i < 8,
{
    if i == 0 {
        ((z >> 56) & 0xFF) as u8
    } else if i == 1 {
        ((z >> 48) & 0xFF) as u8
    } else if i == 2 {
        ((z >> 40) & 0xFF) as u8
    } else if i == 3 {
        ((z >> 32) & 0xFF) as u8
    } else if i == 4 {
        ((z >> 24) & 0xFF) as u8
    } else if i == 5 {
        ((z >> 16) & 0xFF) as u8
    } else if i == 6 {
        ((z >> 8) & 0xFF) as u8
    } else {
        (z & 0xFF) as u8
    }
}

/// Reassembles a 64-bit value from eight big-endian bytes.
pub open spec fn spec_u64_from_be(b: Seq<u8>) -> u64
    recommends
        b.len() == 8,
{
    ((b[0] as u64) << 56) | ((b[1] as u64) << 48) | ((b[2] as u64) << 40) | ((b[3] as u64) << 32)
        | ((b[4] as u64) << 24) | ((b[5] as u64) << 16) | ((b[6] as u64) << 8) | (b[7] as u64)
}

/// Splitting a value into big-endian bytes and reassembling them is the
/// identity.
pub proof fn lemma_be_round_trip(z: u64)
    ensures
        spec_u64_from_be(Seq::new(8, |i: int| spec_be_byte(z, i))) == z,
{
    let b = Seq::new(8, |i: int| spec_be_byte(z, i));
    assert(b[0] == spec_be_byte(z, 0) && b[1] == spec_be_byte(z, 1) && b[2] == spec_be_byte(z, 2)
        && b[3] == spec_be_byte(z, 3) && b[4] == spec_be_byte(z, 4) && b[5] == spec_be_byte(z, 5)
        && b[6] == spec_be_byte(z, 6) && b[7] == spec_be_byte(z, 7));
    assert(((((((z >> 56) & 0xFF) as u8) as u64) << 56) | (((((z >> 48) & 0xFF) as u8) as u64)
        << 48) | (((((z >> 40) & 0xFF) as u8) as u64) << 40) | (((((z >> 32) & 0xFF) as u8) as u64)
        << 32) | (((((z >> 24) & 0xFF) as u8) as u64) << 24) | (((((z >> 16) & 0xFF) as u8) as u64)
        << 16) | (((((z >> 8) & 0xFF) as u8) as u64) << 8) | (((z & 0xFF) as u8) as u64)) == z)
        by (bit_vector);
}

/// Serialises a 64-bit value as eight big-endian bytes.
pub fn u64_to_be_vec(z: u64) -> (r: Vec<u8>)
    ensures
        r@ == Seq::new(8, |i: int| spec_be_byte(z, i)),
{
    let mut r: Vec<u8> = Vec::new();
    r.push(((z >> 56) & 0xFF) as u8);
    r.push(((z >> 48) & 0xFF) as u8);
    r.push(((z >> 40) & 0xFF) as u8);
    r.push(((z >> 32) & 0xFF) as u8);
    r.push(((z >> 24) & 0xFF) as u8);
    r.push(((z >> 16) & 0xFF) as u8);
    r.push(((z >> 8) & 0xFF) as u8);
    r.push((z & 0xFF) as u8);
    proof {
        assert(r@ =~= Seq::new(8, |i: int| spec_be_byte(z, i)));
    }
    r
}

/// Reads a 64-bit value from eight big-endian bytes starting at `at`.
pub fn u64_from_be_at(bytes: &Vec<u8>, at: usize) -> (r: u64)
    requires
        at + 8 <= bytes@.len(),
    ensures
        r == spec_u64_from_be(bytes@.subrange(at as int, at + 8)),
{
    let n = bytes.len();
    let r = ((bytes[at] as u64) << 56) | ((bytes[at + 1] as u64) << 48) | ((bytes[at
        + 2] as u64) << 40) | ((bytes[at + 3] as u64) << 32) | ((bytes[at + 4] as u64) << 24) | ((
    bytes[at + 5] as u64) << 16) | ((bytes[at + 6] as u64) << 8) | (bytes[at + 7] as u64);
    proof {
        let s = bytes@.subrange(at as int, at + 8);
        assert(s[0] == bytes@[at as int] && s[1] == bytes@[at + 1] && s[2] == bytes@[at + 2] && s[3]
            == bytes@[at + 3] && s[4] == bytes@[at + 4] && s[5] == bytes@[at + 5] && s[6] == bytes@[
        at + 6] && s[7] == bytes@[at + 7]);
    }
    r
}

} // verus!
