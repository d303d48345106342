//! MBC5: a nine-bit ROM bank register with no remapping; bank 0 is legal.

use crate::banking::{banked_rom_read, is_pow2_u64, masked_bank, mbc_addr, valid_rom_len};
use vstd::arithmetic::div_mod::lemma_fundamental_div_mod;
use vstd::prelude::*;

verus! {

pub struct MBC5 {
    pub rom: Vec<u8>,
    pub ram: Vec<u8>,
    pub rom_blank_low_bit: u8,
    pub rom_blank_high_bit: u8,
    pub ram_blank: u8,
    pub ram_enable: bool,
    pub max_rom_banks: usize,
}

impl MBC5 {
    /// The structural invariant: a power-of-two number of whole ROM banks
    /// and a single-bit high bank register.
    pub open spec fn wf(self) -> bool {
        &&& self.rom@.len() == self.max_rom_banks * 0x4000
        &&& self.max_rom_banks >= 1
        &&& is_pow2_u64(self.max_rom_banks as u64)
        &&& self.rom_blank_high_bit <= 1
    }

    /// The effective ROM bank: the high bit on top of the low byte, with no
    /// remapping.
    pub open spec fn effective_rom_bank(self) -> int {
        self.rom_blank_high_bit * 256 + self.rom_blank_low_bit
    }

    /// The offset into RAM addressed by a bus address in `0xA000..=0xBFFF`.
    pub open spec fn ram_index(self, index: u16) -> int
        recommends
            0xA000 <= index <= 0xBFFF,
    {
        self.ram_blank * 0x2000 + (index - 0xA000)
    }

    /// True when an access to the external-RAM window reaches RAM.
    pub open spec fn ram_accessible(self, index: u16) -> bool
        recommends
            0xA000 <= index <= 0xBFFF,
    {
        self.ram_enable && self.ram_index(index) < self.ram@.len()
    }

    /// The byte every bus read returns; disabled RAM reads as 0x00.
    pub open spec fn spec_get(self, index: u16) -> u8
        recommends
            self.wf(),
            mbc_addr(index),
    {
        if index < 0x4000 {
            self.rom@[index as int]
        } else if index < 0x8000 {
            self.rom@[masked_bank(self.effective_rom_bank() as u64, self.max_rom_banks) * 0x4000 + (
            index - 0x4000)]
        } else {
            if self.ram_accessible(index) {
                self.ram@[self.ram_index(index)]
            } else {
                0x00
            }
        }
    }

    /// The state after a write to a register range (`0x0000..=0x7FFF`).
    pub open spec fn spec_reg_set(self, index: u16, value: u8) -> MBC5
        recommends
            index < 0x8000,
    {
        if index < 0x2000 {
            MBC5 { ram_enable: value & 0x0F == 0x0A, ..self }
        } else if index < 0x3000 {
            MBC5 { rom_blank_low_bit: value, ..self }
        } else if index < 0x4000 {
            MBC5 { rom_blank_high_bit: value & 0x01, ..self }
        } else if index < 0x6000 {
            MBC5 { ram_blank: value, ..self }
        } else {
            self
        }
    }

    /// The status blob: every mutable register, in a fixed order.
    pub open spec fn spec_status(self) -> Seq<u8> {
        seq![
            self.rom_blank_low_bit,
            self.rom_blank_high_bit,
            self.ram_blank,
            if self.ram_enable {
                1u8
            } else {
                0u8
            },
        ]
    }

    /// True when a byte sequence is a well-formed status blob.
    pub open spec fn status_valid(b: Seq<u8>) -> bool {
        b.len() == 4 && b[1] <= 1 && b[3] <= 1
    }

    /// The state after loading a status blob; a malformed blob is ignored.
    pub open spec fn spec_apply_status(self, b: Seq<u8>) -> MBC5 {
        if MBC5::status_valid(b) {
            MBC5 {
                rom_blank_low_bit: b[0],
                rom_blank_high_bit: b[1],
                ram_blank: b[2],
                ram_enable: b[3] == 1,
                ..self
            }
        } else {
            self
        }
    }

    pub fn new(rom: Vec<u8>, ram: Vec<u8>) -> (r: MBC5)
        requires
            valid_rom_len(rom@.len()),
        ensures
            r.wf(),
            r.rom == rom,
            r.ram == ram,
            r.rom_blank_low_bit == 1,
            r.rom_blank_high_bit == 0,
            r.ram_blank == 0,
            r.ram_enable == false,
            r.max_rom_banks == rom@.len() / 0x4000,
    {
        let len = rom.len();
        let max_rom_banks = len / 0x4000;
        proof {
            lemma_fundamental_div_mod(len as int, 0x4000);
        }
        MBC5 { rom, ram, rom_blank_low_bit: 0x01, rom_blank_high_bit: 0x0, ram_blank: 0, ram_enable:
            false, max_rom_banks }
    }

    /// The effective ROM bank as an index.
    pub fn get_rom_blank_index(&self) -> (r: usize)
        ensures
            r == self.effective_rom_bank(),
    {
        let h = self.rom_blank_high_bit;
        let l = self.rom_blank_low_bit;
        proof {
            assert(((h as u16) << 8) | (l as u16) == h as u16 * 256 + l as u16) by (bit_vector);
        }
        ((((h as u16) << 8) | (l as u16))) as usize
    }

    pub fn get(&self, index: u16) -> (r: u8)
        requires
            self.wf(),
            mbc_addr(index),
        ensures
            r == self.spec_get(index),
    {
        if index < 0x4000 {
            proof {
                assert(index < self.rom@.len());
            }
            self.rom[index as usize]
        } else if index < 0x8000 {
            let bank = self.get_rom_blank_index();
            banked_rom_read(&self.rom, self.max_rom_banks, bank as u64, index - 0x4000)
        } else {
            if self.ram_enable {
                let ram_index = (self.ram_blank as usize) * 0x2000 + (index - 0xA000) as usize;
                if ram_index < self.ram.len() {
                    self.ram[ram_index]
                } else {
                    0x00
                }
            } else {
                0x00
            }
        }
    }

    /// Relates the state before and after `set(index, value)`.
    pub open spec fn set_rel(pre: MBC5, post: MBC5, index: u16, value: u8) -> bool
        recommends
            mbc_addr(index),
    {
        if index < 0x8000 {
            post == pre.spec_reg_set(index, value)
        } else {
            &&& post.ram@ == if pre.ram_accessible(index) {
                pre.ram@.update(pre.ram_index(index), value)
            } else {
                pre.ram@
            }
            &&& post.rom == pre.rom
            &&& post.rom_blank_low_bit == pre.rom_blank_low_bit
            &&& post.rom_blank_high_bit == pre.rom_blank_high_bit
            &&& post.ram_blank == pre.ram_blank
            &&& post.ram_enable == pre.ram_enable
            &&& post.max_rom_banks == pre.max_rom_banks
        }
    }

    pub fn set(&mut self, index: u16, value: u8)
        requires
            old(self).wf(),
            mbc_addr(index),
        ensures
            final(self).wf(),
            MBC5::set_rel(*old(self), *final(self), index, value),
    {
        if index < 0x2000 {
            self.ram_enable = value & 0x0F == 0x0A;
        } else if index < 0x3000 {
            self.rom_blank_low_bit = value;
        } else if index < 0x4000 {
            self.rom_blank_high_bit = value & 0x01;
            proof {
                assert(value & 0x01 <= 1) by (bit_vector);
            }
        } else if index < 0x6000 {
            self.ram_blank = value;
        } else if index < 0x8000 {
        } else {
            if self.ram_enable {
                let ram_index = (self.ram_blank as usize) * 0x2000 + (index - 0xA000) as usize;
                if ram_index < self.ram.len() {
                    self.ram[ram_index] = value;
                }
            }
        }
    }

    /// The battery-backed save: the raw RAM bytes.
    pub fn save_sav(&self) -> (r: Vec<u8>)
        ensures
            r@ == self.ram@,
    {
        let mut r: Vec<u8> = Vec::new();
        let mut i: usize = 0;
        while i < self.ram.len()
            invariant
                i <= self.ram@.len(),
                r@ == self.ram@.subrange(0, i as int),
            decreases self.ram@.len() - i,
        {
            r.push(self.ram[i]);
            proof {
                assert(r@ =~= self.ram@.subrange(0, i + 1));
            }
            i = i + 1;
        }
        proof {
            assert(r@ =~= self.ram@);
        }
        r
    }

    /// Relates the state before and after `load_sav(bytes)`.
    pub open spec fn load_sav_rel(pre: MBC5, post: MBC5, bytes: Seq<u8>) -> bool {
        &&& post.ram@ == if bytes.len() == pre.ram@.len() {
            bytes
        } else {
            pre.ram@
        }
        &&& post.rom == pre.rom
        &&& post.rom_blank_low_bit == pre.rom_blank_low_bit
        &&& post.rom_blank_high_bit == pre.rom_blank_high_bit
        &&& post.ram_blank == pre.ram_blank
        &&& post.ram_enable == pre.ram_enable
        &&& post.max_rom_banks == pre.max_rom_banks
    }

    /// Restores RAM from a save blob of exactly the current RAM size; any
    /// other length is ignored.
    pub fn load_sav(&mut self, ram: Vec<u8>)
        ensures
            MBC5::load_sav_rel(*old(self), *final(self), ram@),
            old(self).wf() ==> final(self).wf(),
    {
        if ram.len() == self.ram.len() {
            self.ram = ram;
        }
    }

    /// Encodes every mutable register.
    pub fn save_status(&self) -> (r: Vec<u8>)
        ensures
            r@ == self.spec_status(),
    {
        let mut r: Vec<u8> = Vec::new();
        r.push(self.rom_blank_low_bit);
        r.push(self.rom_blank_high_bit);
        r.push(self.ram_blank);
        r.push(if self.ram_enable { 1 } else { 0 });
        proof {
            assert(r@ =~= self.spec_status());
        }
        r
    }

    /// Restores the registers from a status blob; a malformed blob is
    /// ignored.
    pub fn load_status(&mut self, status: Vec<u8>)
        ensures
            *final(self) == old(self).spec_apply_status(status@),
            old(self).wf() ==> final(self).wf(),
    {
        if status.len() == 4 && status[1] <= 1 && status[3] <= 1 {
            self.rom_blank_low_bit = status[0];
            self.rom_blank_high_bit = status[1];
            self.ram_blank = status[2];
            self.ram_enable = status[3] == 1;
        }
    }
}

/// Register writes preserve well-formedness, so every banked read that
/// follows them stays inside the ROM image.
pub proof fn lemma_mbc5_reg_set_preserves_wf(m: MBC5, index: u16, value: u8)
    requires
        m.wf(),
        index < 0x8000,
    ensures
        m.spec_reg_set(index, value).wf(),
{
    assert(value & 0x01 <= 1) by (bit_vector);
}

/// Reads of the switchable window return the byte of the selected physical
/// bank, at an offset that is always inside the ROM image; bank 0 is not
/// remapped.
pub proof fn lemma_mbc5_banked_read(m: MBC5, index: u16)
    requires
        m.wf(),
        0x4000 <= index < 0x8000,
    ensures
        m.spec_get(index) == m.rom@[masked_bank(m.effective_rom_bank() as u64, m.max_rom_banks)
            * 0x4000 + (index - 0x4000)],
        m.effective_rom_bank() == 0 ==> m.spec_get(index) == m.rom@[index - 0x4000],
{
    crate::banking::lemma_pow2_mask(m.effective_rom_bank() as u64, m.max_rom_banks as u64);
    if m.effective_rom_bank() == 0 {
        assert(0u64 & (((m.max_rom_banks as u64) - 1) as u64) == 0) by (bit_vector);
    }
}

/// A write to `0x0000..=0x1FFF` gates external RAM: reads return RAM data
/// exactly when the written value has low nibble 0x0A, and 0x00 otherwise.
pub proof fn lemma_mbc5_ram_enable_gates_reads(m: MBC5, value: u8, waddr: u16, raddr: u16)
    requires
        m.wf(),
        waddr < 0x2000,
        0xA000 <= raddr <= 0xBFFF,
    ensures
        value & 0x0F == 0x0A ==> m.spec_reg_set(waddr, value).spec_get(raddr) == if m.ram_index(
            raddr,
        ) < m.ram@.len() {
            m.ram@[m.ram_index(raddr)]
        } else {
            0x00
        },
        value & 0x0F != 0x0A ==> m.spec_reg_set(waddr, value).spec_get(raddr) == 0x00,
{
}

/// Restoring a status blob on a cartridge with the same ROM and RAM restores
/// every bus read.
pub proof fn lemma_mbc5_status_round_trip(m: MBC5, other: MBC5, index: u16)
    requires
        m.wf(),
        other.wf(),
        other.rom@ == m.rom@,
        other.ram@ == m.ram@,
        mbc_addr(index),
    ensures
        other.spec_apply_status(m.spec_status()).spec_get(index) == m.spec_get(index),
{
    let b = m.spec_status();
    assert(MBC5::status_valid(b));
    let r = other.spec_apply_status(b);
    assert(r.rom_blank_low_bit == m.rom_blank_low_bit && r.rom_blank_high_bit
        == m.rom_blank_high_bit && r.ram_blank == m.ram_blank && r.ram_enable == m.ram_enable);
    assert(r.max_rom_banks * 0x4000 == m.max_rom_banks * 0x4000);
    assert(r.max_rom_banks == m.max_rom_banks) by (nonlinear_arith)
        requires
            r.max_rom_banks * 0x4000 == m.max_rom_banks * 0x4000,
    ;
}

} // verus!
