//! MBC1: two banking registers, a mode flag and a RAM-enable latch.

use crate::banking::{
    banked_rom_read, is_pow2_u64, lemma_pow2_mask, masked_bank, mbc_addr, valid_rom_len,
};
use vstd::arithmetic::div_mod::lemma_fundamental_div_mod;
use vstd::prelude::*;

verus! {

/// The MBC1 banking mode selected by writes to `0x6000..=0x7FFF`.
#[derive(Clone, Copy, PartialEq, Eq, Structural)]
pub enum MBC1Mode {
    Rom,
    Ram,
}

pub struct MBC1 {
    pub mode: MBC1Mode,
    pub rom: Vec<u8>,
    pub ram: Vec<u8>,
    pub max_rom_banks: usize,
    pub rom_blank_bit: u8,
    pub ram_blank_bit: u8,
    pub ram_enable: bool,
}

impl MBC1 {
    /// The structural invariant: the ROM is a power-of-two number of whole
    /// banks and the banking registers hold only their defined bits.
    pub open spec fn wf(self) -> bool {
        &&& self.rom@.len() == self.max_rom_banks * 0x4000
        &&& self.max_rom_banks >= 1
        &&& is_pow2_u64(self.max_rom_banks as u64)
        &&& self.rom_blank_bit <= 0x1F
        &&& self.ram_blank_bit <= 0x03
    }

    /// The ROM bank requested by the registers, before the hole remap.
    pub open spec fn raw_rom_bank(self) -> u8 {
        match self.mode {
            MBC1Mode::Rom => (self.ram_blank_bit << 5) | (self.rom_blank_bit & 0x1F),
            MBC1Mode::Ram => self.rom_blank_bit,
        }
    }

    /// The effective ROM bank: banks 0x00, 0x20, 0x40 and 0x60 are remapped
    /// one bank up.
    pub open spec fn effective_rom_bank(self) -> u8 {
        let raw = self.raw_rom_bank();
        if raw == 0x00 || raw == 0x20 || raw == 0x40 || raw == 0x60 {
            (raw + 1) as u8
        } else {
            raw
        }
    }

    /// The external-RAM bank: fixed to 0 in ROM mode.
    pub open spec fn effective_ram_bank(self) -> u8 {
        match self.mode {
            MBC1Mode::Rom => 0,
            MBC1Mode::Ram => self.ram_blank_bit,
        }
    }

    /// The offset into RAM addressed by a bus address in `0xA000..=0xBFFF`.
    pub open spec fn ram_index(self, index: u16) -> int
        recommends
            0xA000 <= index <= 0xBFFF,
    {
        self.effective_ram_bank() * 0x2000 + (index - 0xA000)
    }

    /// True when an access to the external-RAM window reaches RAM.
    pub open spec fn ram_accessible(self, index: u16) -> bool
        recommends
            0xA000 <= index <= 0xBFFF,
    {
        self.ram_enable && self.ram@.len() > 0 && self.ram_index(index) < self.ram@.len()
    }

    /// The byte every bus read returns.
    pub open spec fn spec_get(self, index: u16) -> u8
        recommends
            self.wf(),
            mbc_addr(index),
    {
        if index < 0x4000 {
            self.rom@[index as int]
        } else if index < 0x8000 {
            self.rom@[masked_bank(self.effective_rom_bank() as u64, self.max_rom_banks) * 0x4000 + (
            index - 0x4000)]
        } else {
            if self.ram_accessible(index) {
                self.ram@[self.ram_index(index)]
            } else {
                0xFF
            }
        }
    }

    /// The state after a write to a register range (`0x0000..=0x7FFF`).
    pub open spec fn spec_reg_set(self, index: u16, value: u8) -> MBC1
        recommends
            index < 0x8000,
    {
        if index < 0x2000 {
            MBC1 { ram_enable: value & 0x0F == 0x0A, ..self }
        } else if index < 0x4000 {
            MBC1 { rom_blank_bit: value & 0x1F, ..self }
        } else if index < 0x6000 {
            MBC1 { ram_blank_bit: value & 0x03, ..self }
        } else if value == 0x00 {
            MBC1 { mode: MBC1Mode::Rom, ..self }
        } else if value == 0x01 {
            MBC1 { mode: MBC1Mode::Ram, ..self }
        } else {
            self
        }
    }

    /// The status blob: every mutable register, in a fixed order.
    pub open spec fn spec_status(self) -> Seq<u8> {
        seq![
            match self.mode {
                MBC1Mode::Rom => 0u8,
                MBC1Mode::Ram => 1u8,
            },
            self.rom_blank_bit,
            self.ram_blank_bit,
            if self.ram_enable {
                1u8
            } else {
                0u8
            },
        ]
    }

    /// True when a byte sequence is a well-formed status blob.
    pub open spec fn status_valid(b: Seq<u8>) -> bool {
        b.len() == 4 && b[0] <= 1 && b[1] <= 0x1F && b[2] <= 3 && b[3] <= 1
    }

    /// The state after loading a status blob; a malformed blob is ignored.
    pub open spec fn spec_apply_status(self, b: Seq<u8>) -> MBC1 {
        if MBC1::status_valid(b) {
            MBC1 {
                mode: if b[0] == 1 {
                    MBC1Mode::Ram
                } else {
                    MBC1Mode::Rom
                },
                rom_blank_bit: b[1],
                ram_blank_bit: b[2],
                ram_enable: b[3] == 1,
                ..self
            }
        } else {
            self
        }
    }

    pub fn new(rom: Vec<u8>, ram: Vec<u8>) -> (r: MBC1)
        requires
            valid_rom_len(rom@.len()),
        ensures
            r.wf(),
            r.rom == rom,
            r.ram == ram,
            r.mode == MBC1Mode::Rom,
            r.max_rom_banks == rom@.len() / 0x4000,
            r.rom_blank_bit == 1,
            r.ram_blank_bit == 0,
            r.ram_enable == false,
    {
        let len = rom.len();
        let max_rom_banks = len / 0x4000;
        proof {
            lemma_fundamental_div_mod(len as int, 0x4000);
        }
        MBC1 { mode: MBC1Mode::Rom, rom, ram, max_rom_banks, rom_blank_bit: 0b00001, ram_blank_bit:
            0b00, ram_enable: false }
    }

    /// The effective ROM bank, remapped away from the four holes.
    pub fn get_rom_blank_index(&self) -> (r: u8)
        requires
            self.rom_blank_bit <= 0x1F,
            self.ram_blank_bit <= 0x03,
        ensures
            r == self.effective_rom_bank(),
    {
        let ram_blank_bit = self.ram_blank_bit << 5;
        let result = match self.mode {
            MBC1Mode::Rom => ram_blank_bit | (self.rom_blank_bit & 0x1f),
            MBC1Mode::Ram => self.rom_blank_bit,
        };
        match result {
            0x00 => 0x01,
            0x20 => 0x21,
            0x40 => 0x41,
            0x60 => 0x61,
            _ => result,
        }
    }

    /// The effective external-RAM bank.
    pub fn get_ram_blank_index(&self) -> (r: u8)
        ensures
            r == self.effective_ram_bank(),
    {
        match self.mode {
            MBC1Mode::Rom => 0,
            MBC1Mode::Ram => self.ram_blank_bit,
        }
    }

    pub fn get(&self, index: u16) -> (r: u8)
        requires
            self.wf(),
            mbc_addr(index),
        ensures
            r == self.spec_get(index),
    {
        if index < 0x4000 {
            proof {
                assert(index < self.rom@.len());
            }
            self.rom[index as usize]
        } else if index < 0x8000 {
            let bank = self.get_rom_blank_index();
            banked_rom_read(&self.rom, self.max_rom_banks, bank as u64, index - 0x4000)
        } else {
            let ram_blank_index = self.get_ram_blank_index();
            if self.ram_enable && self.ram.len() > 0 {
                let ram_index = (ram_blank_index as usize) * 0x2000 + (index - 0xA000) as usize;
                if ram_index < self.ram.len() {
                    self.ram[ram_index]
                } else {
                    0xFF
                }
            } else {
                0xFF
            }
        }
    }

    /// Relates the state before and after `set(index, value)`.
    pub open spec fn set_rel(pre: MBC1, post: MBC1, index: u16, value: u8) -> bool
        recommends
            mbc_addr(index),
    {
        if index < 0x8000 {
            post == pre.spec_reg_set(index, value)
        } else {
            &&& post.ram@ == if pre.ram_accessible(index) {
                pre.ram@.update(pre.ram_index(index), value)
            } else {
                pre.ram@
            }
            &&& post.mode == pre.mode
            &&& post.rom == pre.rom
            &&& post.max_rom_banks == pre.max_rom_banks
            &&& post.rom_blank_bit == pre.rom_blank_bit
            &&& post.ram_blank_bit == pre.ram_blank_bit
            &&& post.ram_enable == pre.ram_enable
        }
    }

    pub fn set(&mut self, index: u16, value: u8)
        requires
            old(self).wf(),
            mbc_addr(index),
        ensures
            final(self).wf(),
            MBC1::set_rel(*old(self), *final(self), index, value),
    {
        if index < 0x2000 {
            self.ram_enable = value & 0x0F == 0x0A;
        } else if index < 0x4000 {
            self.rom_blank_bit = value & 0x1F;
            proof {
                assert(value & 0x1F <= 0x1F) by (bit_vector);
            }
        } else if index < 0x6000 {
            self.ram_blank_bit = value & 0x03;
            proof {
                assert(value & 0x03 <= 0x03) by (bit_vector);
            }
        } else if index < 0x8000 {
            if value == 0x00 {
                self.mode = MBC1Mode::Rom;
            } else if value == 0x01 {
                self.mode = MBC1Mode::Ram;
            }
        } else {
            let ram_blank_index = self.get_ram_blank_index();
            if self.ram_enable && self.ram.len() > 0 {
                let ram_index = (ram_blank_index as usize) * 0x2000 + (index - 0xA000) as usize;
                if ram_index < self.ram.len() {
                    self.ram[ram_index] = value;
                }
            }
        }
    }

    /// The battery-backed save: the raw RAM bytes.
    pub fn save_sav(&self) -> (r: Vec<u8>)
        ensures
            r@ == self.ram@,
    {
        let mut r: Vec<u8> = Vec::new();
        let mut i: usize = 0;
        while i < self.ram.len()
            invariant
                i <= self.ram@.len(),
                r@ == self.ram@.subrange(0, i as int),
            decreases self.ram@.len() - i,
        {
            r.push(self.ram[i]);
            proof {
                assert(r@ =~= self.ram@.subrange(0, i + 1));
            }
            i = i + 1;
        }
        proof {
            assert(r@ =~= self.ram@);
        }
        r
    }

    /// Relates the state before and after `load_sav(bytes)`.
    pub open spec fn load_sav_rel(pre: MBC1, post: MBC1, bytes: Seq<u8>) -> bool {
        &&& post.ram@ == if bytes.len() == pre.ram@.len() {
            bytes
        } else {
            pre.ram@
        }
        &&& post.mode == pre.mode
        &&& post.rom == pre.rom
        &&& post.max_rom_banks == pre.max_rom_banks
        &&& post.rom_blank_bit == pre.rom_blank_bit
        &&& post.ram_blank_bit == pre.ram_blank_bit
        &&& post.ram_enable == pre.ram_enable
    }

    /// Restores RAM from a save blob of exactly the current RAM size; any
    /// other length is ignored.
    pub fn load_sav(&mut self, ram: Vec<u8>)
        ensures
            MBC1::load_sav_rel(*old(self), *final(self), ram@),
            old(self).wf() ==> final(self).wf(),
    {
        if ram.len() == self.ram.len() {
            self.ram = ram;
        }
    }

    /// Encodes every mutable register.
    pub fn save_status(&self) -> (r: Vec<u8>)
        ensures
            r@ == self.spec_status(),
    {
        let mut r: Vec<u8> = Vec::new();
        r.push(
            match self.mode {
                MBC1Mode::Rom => 0,
                MBC1Mode::Ram => 1,
            },
        );
        r.push(self.rom_blank_bit);
        r.push(self.ram_blank_bit);
        r.push(if self.ram_enable { 1 } else { 0 });
        proof {
            assert(r@ =~= self.spec_status());
        }
        r
    }

    /// Restores the registers from a status blob; a malformed blob is
    /// ignored.
    pub fn load_status(&mut self, status: Vec<u8>)
        ensures
            *final(self) == old(self).spec_apply_status(status@),
            old(self).wf() ==> final(self).wf(),
    {
        if status.len() == 4 && status[0] <= 1 && status[1] <= 0x1F && status[2] <= 3 && status[3]
            <= 1 {
            self.mode = if status[0] == 1 {
                MBC1Mode::Ram
            } else {
                MBC1Mode::Rom
            };
            self.rom_blank_bit = status[1];
            self.ram_blank_bit = status[2];
            self.ram_enable = status[3] == 1;
        }
    }
}

/// The effective ROM bank is never 0x00, 0x20, 0x40 or 0x60: the four holes
/// are remapped one bank up, and no other bank maps onto them.
pub proof fn lemma_mbc1_bank_holes(m: MBC1)
    requires
        m.rom_blank_bit <= 0x1F,
        m.ram_blank_bit <= 0x03,
    ensures
        m.effective_rom_bank() != 0x00,
        m.effective_rom_bank() != 0x20,
        m.effective_rom_bank() != 0x40,
        m.effective_rom_bank() != 0x60,
{
}

/// Register writes preserve well-formedness, so every banked read that
/// follows them stays inside the ROM image.
pub proof fn lemma_mbc1_reg_set_preserves_wf(m: MBC1, index: u16, value: u8)
    requires
        m.wf(),
        index < 0x8000,
    ensures
        m.spec_reg_set(index, value).wf(),
{
    assert(value & 0x1F <= 0x1F) by (bit_vector);
    assert(value & 0x03 <= 0x03) by (bit_vector);
}

/// Reads of the switchable window return the byte of the selected physical
/// bank, at an offset that is always inside the ROM image.
pub proof fn lemma_mbc1_banked_read(m: MBC1, index: u16)
    requires
        m.wf(),
        0x4000 <= index < 0x8000,
    ensures
        m.spec_get(index) == m.rom@[masked_bank(m.effective_rom_bank() as u64, m.max_rom_banks)
            * 0x4000 + (index - 0x4000)],
        masked_bank(m.effective_rom_bank() as u64, m.max_rom_banks) * 0x4000 + (index - 0x4000)
            < m.rom@.len(),
{
    lemma_pow2_mask(m.effective_rom_bank() as u64, m.max_rom_banks as u64);
    let b = masked_bank(m.effective_rom_bank() as u64, m.max_rom_banks);
    assert(b < m.max_rom_banks);
    assert(b * 0x4000 + 0x4000 <= m.max_rom_banks * 0x4000) by (nonlinear_arith)
        requires
            b < m.max_rom_banks,
    ;
}

/// A write to `0x0000..=0x1FFF` gates external RAM: reads return RAM data
/// exactly when the written value has low nibble 0x0A, and the open-bus
/// value 0xFF otherwise.
pub proof fn lemma_mbc1_ram_enable_gates_reads(m: MBC1, value: u8, waddr: u16, raddr: u16)
    requires
        m.wf(),
        waddr < 0x2000,
        0xA000 <= raddr <= 0xBFFF,
    ensures
        value & 0x0F == 0x0A ==> m.spec_reg_set(waddr, value).spec_get(raddr) == if m.ram@.len() > 0
            && m.ram_index(raddr) < m.ram@.len() {
            m.ram@[m.ram_index(raddr)]
        } else {
            0xFF
        },
        value & 0x0F != 0x0A ==> m.spec_reg_set(waddr, value).spec_get(raddr) == 0xFF,
{
}

/// Restoring a status blob on a cartridge with the same ROM and RAM restores
/// every bus read.
pub proof fn lemma_mbc1_status_round_trip(m: MBC1, other: MBC1, index: u16)
    requires
        m.wf(),
        other.wf(),
        other.rom@ == m.rom@,
        other.ram@ == m.ram@,
        mbc_addr(index),
    ensures
        other.spec_apply_status(m.spec_status()).spec_get(index) == m.spec_get(index),
{
    let b = m.spec_status();
    assert(MBC1::status_valid(b));
    let r = other.spec_apply_status(b);
    assert(r.mode == m.mode && r.rom_blank_bit == m.rom_blank_bit && r.ram_blank_bit
        == m.ram_blank_bit && r.ram_enable == m.ram_enable);
    assert(r.max_rom_banks * 0x4000 == m.max_rom_banks * 0x4000);
    assert(r.max_rom_banks == m.max_rom_banks) by (nonlinear_arith)
        requires
            r.max_rom_banks * 0x4000 == m.max_rom_banks * 0x4000,
    ;
}

} // verus!
