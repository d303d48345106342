//! Bank-index reduction shared by every memory-bank controller.
//!
//! A cartridge's ROM is a power-of-two number of 0x4000-byte banks; a
//! requested bank index is reduced to a physical bank by masking with
//! `max_banks - 1`.

use vstd::prelude::*;

verus! {

/// True when `n` is a power of two.
pub open spec fn is_pow2_u64(n: u64) -> bool {
    n > 0 && n & ((n - 1) as u64) == 0
}

/// Masking with `n - 1` keeps a value below a power of two `n`.
pub proof fn lemma_pow2_mask(x: u64, n: u64)
    requires
        is_pow2_u64(n),
    ensures
        (x & ((n - 1) as u64)) < n,
{
    assert((x & ((n - 1) as u64)) < n) by (bit_vector)
        requires
            n > 0 && n & ((n - 1) as u64) == 0,
    ;
}

/// A ROM length is valid when it is a power-of-two number of whole
/// 0x4000-byte banks.
pub open spec fn valid_rom_len(n: nat) -> bool {
    n % 0x4000 == 0 && n >= 0x4000 && n / 0x4000 <= u64::MAX && is_pow2_u64((n / 0x4000) as u64)
}

/// The physical bank selected by `bank` on a cartridge of `max_banks` banks.
pub open spec fn masked_bank(bank: u64, max_banks: usize) -> int
    recommends
        max_banks >= 1,
{
    (bank & (((max_banks as u64) - 1) as u64)) as int
}

/// Checks that a byte vector has a valid ROM length.
pub fn rom_len_ok(rom: &Vec<u8>) -> (r: bool)
    ensures
        r == valid_rom_len(rom@.len()),
{
    let n = rom.len();
    n % 0x4000 == 0 && n >= 0x4000 && ((n / 0x4000) as u64) & ((n / 0x4000) as u64 - 1) == 0
}

/// Reads the byte at `offset` inside the physical bank that `bank` selects.
pub fn banked_rom_read(rom: &Vec<u8>, max_banks: usize, bank: u64, offset: u16) -> (r: u8)
    requires
        rom@.len() == max_banks * 0x4000,
        max_banks >= 1,
        is_pow2_u64(max_banks as u64),
        offset < 0x4000,
    ensures
        r == rom@[masked_bank(bank, max_banks) * 0x4000 + offset],
{
    let n = rom.len();
    let m = (bank & (max_banks as u64 - 1)) as usize;
    proof {
        lemma_pow2_mask(bank, max_banks as u64);
        assert(m < max_banks);
        assert(m * 0x4000 + 0x4000 <= max_banks * 0x4000) by (nonlinear_arith)
            requires
                m < max_banks,
        ;
        assert(m * 0x4000 + offset < n);
    }
    rom[m * 0x4000 + offset as usize]
}

/// True for the two address windows an MBC decodes: ROM (`0x0000..=0x7FFF`)
/// and external RAM (`0xA000..=0xBFFF`).
pub open spec fn mbc_addr(index: u16) -> bool {
    index < 0x8000 || (0xA000 <= index && index <= 0xBFFF)
}

} // verus!
