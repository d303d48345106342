//! MBC2: a four-bit ROM bank register and 512 nibbles of built-in RAM.

use crate::banking::{banked_rom_read, is_pow2_u64, masked_bank, mbc_addr, valid_rom_len};
use vstd::arithmetic::div_mod::lemma_fundamental_div_mod;
use vstd::prelude::*;

verus! {

pub struct MBC2 {
    pub rom: Vec<u8>,
    pub ram: Vec<u8>,
    pub rom_blank: u8,
    pub ram_enable: bool,
    pub max_rom_banks: usize,
}

impl MBC2 {
    /// The structural invariant: a power-of-two number of whole ROM banks,
    /// exactly 512 bytes of RAM, and a bank register that is never 0.
    pub open spec fn wf(self) -> bool {
        &&& self.rom@.len() == self.max_rom_banks * 0x4000
        &&& self.max_rom_banks >= 1
        &&& is_pow2_u64(self.max_rom_banks as u64)
        &&& 1 <= self.rom_blank <= 0x0F
        &&& self.ram@.len() == 512
    }

    /// The offset into the 512-byte RAM: the bus address folded mod 0x200.
    pub open spec fn ram_index(self, index: u16) -> int
        recommends
            0xA000 <= index <= 0xBFFF,
    {
        (index - 0xA000) % 0x200
    }

    /// The byte every bus read returns; RAM reads carry a forced upper
    /// nibble.
    pub open spec fn spec_get(self, index: u16) -> u8
        recommends
            self.wf(),
            mbc_addr(index),
    {
        if index < 0x4000 {
            self.rom@[index as int]
        } else if index < 0x8000 {
            self.rom@[masked_bank(self.rom_blank as u64, self.max_rom_banks) * 0x4000 + (index
                - 0x4000)]
        } else {
            if self.ram_enable {
                self.ram@[self.ram_index(index)] | 0xF0
            } else {
                0xFF
            }
        }
    }

    /// The state after a write to a register range (`0x0000..=0x7FFF`):
    /// bit 8 of the address picks between the RAM gate and the bank
    /// register, and a bank of 0 is treated as 1.
    pub open spec fn spec_reg_set(self, index: u16, value: u8) -> MBC2
        recommends
            index < 0x8000,
    {
        if index < 0x4000 {
            if index & 0x100 == 0 {
                MBC2 { ram_enable: value & 0x0F == 0x0A, ..self }
            } else if value & 0x0F == 0 {
                MBC2 { rom_blank: 1, ..self }
            } else {
                MBC2 { rom_blank: value & 0x0F, ..self }
            }
        } else {
            self
        }
    }

    /// The status blob: every mutable register, in a fixed order.
    pub open spec fn spec_status(self) -> Seq<u8> {
        seq![
            self.rom_blank,
            if self.ram_enable {
                1u8
            } else {
                0u8
            },
        ]
    }

    /// True when a byte sequence is a well-formed status blob.
    pub open spec fn status_valid(b: Seq<u8>) -> bool {
        b.len() == 2 && 1 <= b[0] <= 0x0F && b[1] <= 1
    }

    /// The state after loading a status blob; a malformed blob is ignored.
    pub open spec fn spec_apply_status(self, b: Seq<u8>) -> MBC2 {
        if MBC2::status_valid(b) {
            MBC2 { rom_blank: b[0], ram_enable: b[1] == 1, ..self }
        } else {
            self
        }
    }

    pub fn new(rom: Vec<u8>, ram: Vec<u8>) -> (r: MBC2)
        requires
            valid_rom_len(rom@.len()),
            ram@.len() == 512,
        ensures
            r.wf(),
            r.rom == rom,
            r.ram == ram,
            r.rom_blank == 1,
            r.ram_enable == false,
            r.max_rom_banks == rom@.len() / 0x4000,
    {
        let len = rom.len();
        let max_rom_banks = len / 0x4000;
        proof {
            lemma_fundamental_div_mod(len as int, 0x4000);
        }
        MBC2 { rom, ram, rom_blank: 1, ram_enable: false, max_rom_banks }
    }

    pub fn get(&self, index: u16) -> (r: u8)
        requires
            self.wf(),
            mbc_addr(index),
        ensures
            r == self.spec_get(index),
    {
        if index < 0x4000 {
            proof {
                assert(index < self.rom@.len());
            }
            self.rom[index as usize]
        } else if index < 0x8000 {
            banked_rom_read(&self.rom, self.max_rom_banks, self.rom_blank as u64, index - 0x4000)
        } else {
            if self.ram_enable {
                let ram_index = ((index - 0xA000) % 0x0200) as usize;
                self.ram[ram_index] | 0xF0
            } else {
                0xFF
            }
        }
    }

    /// Relates the state before and after `set(index, value)`.
    pub open spec fn set_rel(pre: MBC2, post: MBC2, index: u16, value: u8) -> bool
        recommends
            mbc_addr(index),
    {
        if index < 0x8000 {
            post == pre.spec_reg_set(index, value)
        } else {
            &&& post.ram@ == if pre.ram_enable {
                pre.ram@.update(pre.ram_index(index), value)
            } else {
                pre.ram@
            }
            &&& post.rom == pre.rom
            &&& post.rom_blank == pre.rom_blank
            &&& post.ram_enable == pre.ram_enable
            &&& post.max_rom_banks == pre.max_rom_banks
        }
    }

    pub fn set(&mut self, index: u16, value: u8)
        requires
            old(self).wf(),
            mbc_addr(index),
        ensures
            final(self).wf(),
            MBC2::set_rel(*old(self), *final(self), index, value),
    {
        if index < 0x4000 {
            if index & 0x100 == 0 {
                self.ram_enable = value & 0x0F == 0x0A;
            } else {
                let bank = value & 0x0F;
                proof {
                    assert(value & 0x0F <= 0x0F) by (bit_vector);
                }
                if bank == 0 {
                    self.rom_blank = 1;
                } else {
                    self.rom_blank = bank;
                }
            }
        } else if index < 0x8000 {
        } else {
            if self.ram_enable {
                let ram_index = ((index - 0xA000) % 0x0200) as usize;
                self.ram[ram_index] = value;
            }
        }
    }

    /// The battery-backed save: the raw RAM bytes.
    pub fn save_sav(&self) -> (r: Vec<u8>)
        ensures
            r@ == self.ram@,
    {
        let mut r: Vec<u8> = Vec::new();
        let mut i: usize = 0;
        while i < self.ram.len()
            invariant
                i <= self.ram@.len(),
                r@ == self.ram@.subrange(0, i as int),
            decreases self.ram@.len() - i,
        {
            r.push(self.ram[i]);
            proof {
                assert(r@ =~= self.ram@.subrange(0, i + 1));
            }
            i = i + 1;
        }
        proof {
            assert(r@ =~= self.ram@);
        }
        r
    }

    /// Relates the state before and after `load_sav(bytes)`.
    pub open spec fn load_sav_rel(pre: MBC2, post: MBC2, bytes: Seq<u8>) -> bool {
        &&& post.ram@ == if bytes.len() == pre.ram@.len() {
            bytes
        } else {
            pre.ram@
        }
        &&& post.rom == pre.rom
        &&& post.rom_blank == pre.rom_blank
        &&& post.ram_enable == pre.ram_enable
        &&& post.max_rom_banks == pre.max_rom_banks
    }

    /// Restores RAM from a save blob of exactly the current RAM size; any
    /// other length is ignored.
    pub fn load_sav(&mut self, ram: Vec<u8>)
        ensures
            MBC2::load_sav_rel(*old(self), *final(self), ram@),
            old(self).wf() ==> final(self).wf(),
    {
        if ram.len() == self.ram.len() {
            self.ram = ram;
        }
    }

    /// Encodes every mutable register.
    pub fn save_status(&self) -> (r: Vec<u8>)
        ensures
            r@ == self.spec_status(),
    {
        let mut r: Vec<u8> = Vec::new();
        r.push(self.rom_blank);
        r.push(if self.ram_enable { 1 } else { 0 });
        proof {
            assert(r@ =~= self.spec_status());
        }
        r
    }

    /// Restores the registers from a status blob; a malformed blob is
    /// ignored.
    pub fn load_status(&mut self, status: Vec<u8>)
        ensures
            *final(self) == old(self).spec_apply_status(status@),
            old(self).wf() ==> final(self).wf(),
    {
        if status.len() == 2 && 1 <= status[0] && status[0] <= 0x0F && status[1] <= 1 {
            self.rom_blank = status[0];
            self.ram_enable = status[1] == 1;
        }
    }
}

/// Reads across the whole external-RAM window fold onto the 512-byte RAM:
/// every address reads the same byte as its image under folding mod 0x200,
/// and the upper nibble of an enabled read is always set.
pub proof fn lemma_mbc2_ram_folding(m: MBC2, addr: u16)
    requires
        m.wf(),
        0xA000 <= addr <= 0xBFFF,
    ensures
        m.spec_get(addr) == m.spec_get((0xA000 + ((addr - 0xA000) % 0x200)) as u16),
        m.spec_get(addr) == m.spec_get(addr) | 0xF0,
{
    let folded = (0xA000 + ((addr - 0xA000) % 0x200)) as u16;
    assert(m.ram_index(folded) == m.ram_index(addr));
    let b = m.ram@[m.ram_index(addr)];
    assert((b | 0xF0) | 0xF0 == b | 0xF0) by (bit_vector);
    assert(0xFFu8 | 0xF0 == 0xFF) by (bit_vector);
}

/// Restoring a status blob on a cartridge with the same ROM and RAM restores
/// every bus read.
pub proof fn lemma_mbc2_status_round_trip(m: MBC2, other: MBC2, index: u16)
    requires
        m.wf(),
        other.wf(),
        other.rom@ == m.rom@,
        other.ram@ == m.ram@,
        mbc_addr(index),
    ensures
        other.spec_apply_status(m.spec_status()).spec_get(index) == m.spec_get(index),
{
    let b = m.spec_status();
    assert(MBC2::status_valid(b));
    let r = other.spec_apply_status(b);
    assert(r.rom_blank == m.rom_blank && r.ram_enable == m.ram_enable);
    assert(r.max_rom_banks * 0x4000 == m.max_rom_banks * 0x4000);
    assert(r.max_rom_banks == m.max_rom_banks) by (nonlinear_arith)
        requires
            r.max_rom_banks * 0x4000 == m.max_rom_banks * 0x4000,
    ;
}

} // verus!
