//! MBC3: a seven-bit ROM bank, banked RAM, and a latchable real-time clock.

use crate::banking::{banked_rom_read, is_pow2_u64, masked_bank, mbc_addr, valid_rom_len};
use crate::clock::now_utc_seconds;
use crate::util::{spec_be_byte, spec_u64_from_be, u64_from_be_at, u64_to_be_vec};
use vstd::arithmetic::div_mod::lemma_fundamental_div_mod;
use vstd::prelude::*;

verus! {

/// The real-time clock: five latched register bytes and the epoch (in
/// seconds) from which they are recomputed on each latch.
pub struct MBC3RTC {
    pub s: u8,
    pub m: u8,
    pub h: u8,
    pub dl: u8,
    pub dh: u8,
    pub zero: u64,
}

impl MBC3RTC {
    /// The registers after latching at time `now`: seconds, minutes, hours
    /// and day counter of the span since the epoch.  A clock that reads
    /// before the epoch counts as a span of zero.
    pub open spec fn spec_latched(self, now: u64) -> MBC3RTC {
        let duration = if now >= self.zero {
            (now - self.zero) as u64
        } else {
            0u64
        };
        let day = duration / 86400;
        MBC3RTC {
            s: (duration % 60) as u8,
            m: ((duration / 60) % 60) as u8,
            h: ((duration / 3600) % 24) as u8,
            dl: (day % 256) as u8,
            dh: if day >= 0x200 {
                self.dh | 9
            } else if day >= 0x100 {
                self.dh | 1
            } else {
                self.dh
            },
            zero: self.zero,
        }
    }

    /// The register byte selected by a RAM-bank value in `0x08..=0x0C`.
    pub open spec fn spec_reg(self, bank: u8) -> u8
        recommends
            0x08 <= bank <= 0x0C,
    {
        if bank == 0x08 {
            self.s
        } else if bank == 0x09 {
            self.m
        } else if bank == 0x0A {
            self.h
        } else if bank == 0x0B {
            self.dl
        } else {
            self.dh
        }
    }

    /// The clock after a direct write to the register that `bank` selects.
    pub open spec fn spec_with_reg(self, bank: u8, value: u8) -> MBC3RTC
        recommends
            0x08 <= bank <= 0x0C,
    {
        if bank == 0x08 {
            MBC3RTC { s: value, ..self }
        } else if bank == 0x09 {
            MBC3RTC { m: value, ..self }
        } else if bank == 0x0A {
            MBC3RTC { h: value, ..self }
        } else if bank == 0x0B {
            MBC3RTC { dl: value, ..self }
        } else {
            MBC3RTC { dh: value, ..self }
        }
    }

    /// A fresh clock: zeroed registers, epoch read from the host clock.
    pub fn new() -> (r: MBC3RTC)
        ensures
            r.s == 0 && r.m == 0 && r.h == 0 && r.dl == 0 && r.dh == 0,
    {
        let zero = now_utc_seconds();
        MBC3RTC { s: 0, m: 0, h: 0, dl: 0, dh: 0, zero }
    }

    /// Recomputes the registers from the span between the epoch and `now`.
    pub fn latch_at(&mut self, now: u64)
        ensures
            *final(self) == old(self).spec_latched(now),
    {
        let duration = if now >= self.zero {
            now - self.zero
        } else {
            0
        };
        self.s = (duration % 60) as u8;
        self.m = ((duration / 60) % 60) as u8;
        self.h = ((duration / 3600) % 24) as u8;
        let day = duration / 86400;
        self.dl = (day % 256) as u8;
        if day >= 0x200 {
            self.dh = self.dh | 9;
        } else if day >= 0x100 {
            self.dh = self.dh | 1;
        }
    }

    /// Latches against the host clock.
    pub fn latch_clock(&mut self)
        ensures
            exists|now: u64| *final(self) == old(self).spec_latched(now),
    {
        let now = now_utc_seconds();
        self.latch_at(now);
    }

    /// Reads the register that `index` selects.
    pub fn get(&self, index: u16) -> (r: u8)
        requires
            0x08 <= index <= 0x0C,
        ensures
            r == self.spec_reg(index as u8),
    {
        match index {
            0x08 => self.s,
            0x09 => self.m,
            0x0A => self.h,
            0x0B => self.dl,
            _ => self.dh,
        }
    }

    /// Writes the register that `index` selects.
    pub fn set(&mut self, index: u16, value: u8)
        requires
            0x08 <= index <= 0x0C,
        ensures
            *final(self) == old(self).spec_with_reg(index as u8, value),
    {
        match index {
            0x08 => self.s = value,
            0x09 => self.m = value,
            0x0A => self.h = value,
            0x0B => self.dl = value,
            _ => self.dh = value,
        }
    }

    /// The persisted form of the clock: its epoch, big-endian.
    pub fn save_sav(&self) -> (r: Vec<u8>)
        ensures
            r@ == Seq::new(8, |i: int| spec_be_byte(self.zero, i)),
    {
        u64_to_be_vec(self.zero)
    }

    /// Restores the epoch from eight big-endian bytes.
    pub fn load_sav(&mut self, ram: Vec<u8>)
        requires
            ram@.len() == 8,
        ensures
            final(self).zero == spec_u64_from_be(ram@),
            final(self).s == old(self).s && final(self).m == old(self).m && final(self).h == old(self).h && final(self).dl == old(self).dl && final(self).dh == old(self).dh,
    {
        self.zero = u64_from_be_at(&ram, 0);
        proof {
            assert(ram@.subrange(0, 8) =~= ram@);
        }
    }
}

pub struct MBC3 {
    pub rtc: MBC3RTC,
    pub rom: Vec<u8>,
    pub ram: Vec<u8>,
    pub rom_blank: u8,
    pub ram_blank: u8,
    pub ram_enable: bool,
    pub last_write_value: u8,
    pub max_rom_banks: usize,
}

impl MBC3 {
    /// The structural invariant: a power-of-two number of whole ROM banks
    /// and a bank register that is never 0.
    pub open spec fn wf(self) -> bool {
        &&& self.rom@.len() == self.max_rom_banks * 0x4000
        &&& self.max_rom_banks >= 1
        &&& is_pow2_u64(self.max_rom_banks as u64)
        &&& 1 <= self.rom_blank <= 0x7F
    }

    /// The offset into RAM addressed by a bus address in `0xA000..=0xBFFF`.
    pub open spec fn ram_index(self, index: u16) -> int
        recommends
            0xA000 <= index <= 0xBFFF,
    {
        self.ram_blank * 0x2000 + (index - 0xA000)
    }

    /// True when an access to the external-RAM window reaches banked RAM.
    pub open spec fn ram_accessible(self, index: u16) -> bool
        recommends
            0xA000 <= index <= 0xBFFF,
    {
        self.ram_enable && self.ram_blank <= 0x03 && self.ram_index(index) < self.ram@.len()
    }

    /// True when an access to the external-RAM window reaches an RTC
    /// register.
    pub open spec fn rtc_selected(self) -> bool {
        self.ram_enable && 0x08 <= self.ram_blank <= 0x0C
    }

    /// The byte every bus read returns; disabled RAM reads as 0x00.
    pub open spec fn spec_get(self, index: u16) -> u8
        recommends
            self.wf(),
            mbc_addr(index),
    {
        if index < 0x4000 {
            self.rom@[index as int]
        } else if index < 0x8000 {
            self.rom@[masked_bank(self.rom_blank as u64, self.max_rom_banks) * 0x4000 + (index
                - 0x4000)]
        } else {
            if self.ram_accessible(index) {
                self.ram@[self.ram_index(index)]
            } else if self.rtc_selected() {
                self.rtc.spec_reg(self.ram_blank)
            } else {
                0x00
            }
        }
    }

    /// The state after a write to a register range (`0x0000..=0x7FFF`).
    /// `now` is the time an RTC latch would read; it matters only for a
    /// write of 0x01 to `0x6000..=0x7FFF` that follows a write of 0x00.
    pub open spec fn spec_reg_set(self, index: u16, value: u8, now: u64) -> MBC3
        recommends
            index < 0x8000,
    {
        if index < 0x2000 {
            MBC3 { ram_enable: value & 0x0F == 0x0A, ..self }
        } else if index < 0x4000 {
            MBC3 {
                rom_blank: if value & 0x7F == 0 {
                    1
                } else {
                    value & 0x7F
                },
                ..self
            }
        } else if index < 0x6000 {
            MBC3 { ram_blank: value, ..self }
        } else {
            MBC3 {
                rtc: if self.last_write_value == 0x00 && value == 0x01 {
                    self.rtc.spec_latched(now)
                } else {
                    self.rtc
                },
                last_write_value: value,
                ..self
            }
        }
    }

    /// The status blob: the five RTC registers, the epoch, then the banking
    /// registers, in a fixed order.
    pub open spec fn spec_status(self) -> Seq<u8> {
        seq![self.rtc.s, self.rtc.m, self.rtc.h, self.rtc.dl, self.rtc.dh] + Seq::new(
            8,
            |i: int| spec_be_byte(self.rtc.zero, i),
        ) + seq![
            self.rom_blank,
            self.ram_blank,
            if self.ram_enable {
                1u8
            } else {
                0u8
            },
            self.last_write_value,
        ]
    }

    /// True when a byte sequence is a well-formed status blob.
    pub open spec fn status_valid(b: Seq<u8>) -> bool {
        b.len() == 17 && 1 <= b[13] <= 0x7F && b[15] <= 1
    }

    /// The state after loading a status blob; a malformed blob is ignored.
    pub open spec fn spec_apply_status(self, b: Seq<u8>) -> MBC3 {
        if MBC3::status_valid(b) {
            MBC3 {
                rtc: MBC3RTC {
                    s: b[0],
                    m: b[1],
                    h: b[2],
                    dl: b[3],
                    dh: b[4],
                    zero: spec_u64_from_be(b.subrange(5, 13)),
                },
                rom_blank: b[13],
                ram_blank: b[14],
                ram_enable: b[15] == 1,
                last_write_value: b[16],
                ..self
            }
        } else {
            self
        }
    }

    pub fn new(rom: Vec<u8>, ram: Vec<u8>) -> (r: MBC3)
        requires
            valid_rom_len(rom@.len()),
        ensures
            r.wf(),
            r.rom == rom,
            r.ram == ram,
            r.rom_blank == 1,
            r.ram_blank == 0,
            r.ram_enable == false,
            r.last_write_value == 0x01,
            r.rtc.s == 0 && r.rtc.m == 0 && r.rtc.h == 0 && r.rtc.dl == 0 && r.rtc.dh == 0,
            r.max_rom_banks == rom@.len() / 0x4000,
    {
        let len = rom.len();
        let max_rom_banks = len / 0x4000;
        proof {
            lemma_fundamental_div_mod(len as int, 0x4000);
        }
        MBC3 { rtc: MBC3RTC::new(), rom, ram, rom_blank: 1, ram_blank: 0, ram_enable: false,
            last_write_value: 0x01, max_rom_banks }
    }

    /// Recomputes the RTC registers from the span between the epoch and
    /// `now`; the seam for deterministic clocks.
    pub fn latch_at(&mut self, now: u64)
        ensures
            final(self).rtc == old(self).rtc.spec_latched(now),
            final(self).rom == old(self).rom && final(self).ram == old(self).ram,
            final(self).rom_blank == old(self).rom_blank && final(self).ram_blank == old(self).ram_blank,
            final(self).ram_enable == old(self).ram_enable && final(self).last_write_value == old(self).last_write_value,
            final(self).max_rom_banks == old(self).max_rom_banks,
            old(self).wf() ==> final(self).wf(),
    {
        self.rtc.latch_at(now);
    }

    pub fn get(&self, index: u16) -> (r: u8)
        requires
            self.wf(),
            mbc_addr(index),
        ensures
            r == self.spec_get(index),
    {
        if index < 0x4000 {
            proof {
                assert(index < self.rom@.len());
            }
            self.rom[index as usize]
        } else if index < 0x8000 {
            banked_rom_read(&self.rom, self.max_rom_banks, self.rom_blank as u64, index - 0x4000)
        } else {
            if self.ram_enable {
                if self.ram_blank <= 0x03 {
                    let ram_index = (self.ram_blank as usize) * 0x2000 + (index - 0xA000) as usize;
                    if ram_index < self.ram.len() {
                        self.ram[ram_index]
                    } else {
                        0x00
                    }
                } else if 0x08 <= self.ram_blank && self.ram_blank <= 0x0C {
                    self.rtc.get(self.ram_blank as u16)
                } else {
                    0x00
                }
            } else {
                0x00
            }
        }
    }

    /// Relates the state before and after `set(index, value)`, where `now`
    /// is the time an RTC latch would have read.
    pub open spec fn set_rel(pre: MBC3, post: MBC3, index: u16, value: u8, now: u64) -> bool
        recommends
            mbc_addr(index),
    {
        if index < 0x8000 {
            post == pre.spec_reg_set(index, value, now)
        } else {
            &&& post.ram@ == if pre.ram_accessible(index) {
                pre.ram@.update(pre.ram_index(index), value)
            } else {
                pre.ram@
            }
            &&& post.rtc == if pre.rtc_selected() && !pre.ram_accessible(index) {
                pre.rtc.spec_with_reg(pre.ram_blank, value)
            } else {
                pre.rtc
            }
            &&& post.rom == pre.rom
            &&& post.rom_blank == pre.rom_blank
            &&& post.ram_blank == pre.ram_blank
            &&& post.ram_enable == pre.ram_enable
            &&& post.last_write_value == pre.last_write_value
            &&& post.max_rom_banks == pre.max_rom_banks
        }
    }

    pub fn set(&mut self, index: u16, value: u8)
        requires
            old(self).wf(),
            mbc_addr(index),
        ensures
            final(self).wf(),
            exists|now: u64| MBC3::set_rel(*old(self), *final(self), index, value, now),
            index < 0x6000 ==> *final(self) == old(self).spec_reg_set(index, value, 0),
    {
        if index < 0x2000 {
            self.ram_enable = value & 0x0F == 0x0A;
            proof {
                assert(MBC3::set_rel(*old(self), *self, index, value, 0));
            }
        } else if index < 0x4000 {
            let bank = value & 0x7F;
            proof {
                assert(value & 0x7F <= 0x7F) by (bit_vector);
            }
            if bank == 0x00 {
                self.rom_blank = 0x01;
            } else {
                self.rom_blank = bank;
            }
            proof {
                assert(MBC3::set_rel(*old(self), *self, index, value, 0));
            }
        } else if index < 0x6000 {
            self.ram_blank = value;
            proof {
                assert(MBC3::set_rel(*old(self), *self, index, value, 0));
            }
        } else if index < 0x8000 {
            if self.last_write_value == 0x00 && value == 0x01 {
                self.rtc.latch_clock();
                self.last_write_value = value;
                proof {
                    let now = choose|now: u64| self.rtc == old(self).rtc.spec_latched(now);
                    assert(MBC3::set_rel(*old(self), *self, index, value, now));
                }
            } else {
                self.last_write_value = value;
                proof {
                    assert(MBC3::set_rel(*old(self), *self, index, value, 0));
                }
            }
        } else {
            if self.ram_enable {
                if self.ram_blank <= 0x03 {
                    let ram_index = (self.ram_blank as usize) * 0x2000 + (index - 0xA000) as usize;
                    if ram_index < self.ram.len() {
                        self.ram[ram_index] = value;
                    }
                } else if 0x08 <= self.ram_blank && self.ram_blank <= 0x0C {
                    let bank = self.ram_blank;
                    self.rtc.set(bank as u16, value);
                }
            }
            proof {
                assert(MBC3::set_rel(*old(self), *self, index, value, 0));
            }
        }
    }

    /// The battery-backed save: eight big-endian bytes of the RTC epoch,
    /// then the raw RAM bytes.
    pub fn save_sav(&self) -> (r: Vec<u8>)
        ensures
            r@ == Seq::new(8, |i: int| spec_be_byte(self.rtc.zero, i)) + self.ram@,
    {
        let mut r = self.rtc.save_sav();
        let mut i: usize = 0;
        while i < self.ram.len()
            invariant
                i <= self.ram@.len(),
                r@ == Seq::new(8, |j: int| spec_be_byte(self.rtc.zero, j)) + self.ram@.subrange(
                    0,
                    i as int,
                ),
            decreases self.ram@.len() - i,
        {
            r.push(self.ram[i]);
            proof {
                assert(r@ =~= Seq::new(8, |j: int| spec_be_byte(self.rtc.zero, j))
                    + self.ram@.subrange(0, i + 1));
            }
            i = i + 1;
        }
        proof {
            assert(self.ram@.subrange(0, self.ram@.len() as int) =~= self.ram@);
        }
        r
    }

    /// Relates the state before and after `load_sav(bytes)`.
    pub open spec fn load_sav_rel(pre: MBC3, post: MBC3, bytes: Seq<u8>) -> bool {
        &&& bytes.len() == pre.ram@.len() + 8 ==> {
            &&& post.rtc.zero == spec_u64_from_be(bytes.subrange(0, 8))
            &&& post.ram@ == bytes.skip(8)
            &&& post.rtc.s == pre.rtc.s && post.rtc.m == pre.rtc.m && post.rtc.h == pre.rtc.h
                && post.rtc.dl == pre.rtc.dl && post.rtc.dh == pre.rtc.dh
        }
        &&& bytes.len() != pre.ram@.len() + 8 ==> post.ram@ == pre.ram@ && post.rtc == pre.rtc
        &&& post.rom == pre.rom
        &&& post.rom_blank == pre.rom_blank
        &&& post.ram_blank == pre.ram_blank
        &&& post.ram_enable == pre.ram_enable
        &&& post.last_write_value == pre.last_write_value
        &&& post.max_rom_banks == pre.max_rom_banks
    }

    /// Restores the epoch and RAM from a save blob whose length is exactly
    /// eight plus the current RAM size; any other length is ignored.
    pub fn load_sav(&mut self, ram: Vec<u8>)
        ensures
            MBC3::load_sav_rel(*old(self), *final(self), ram@),
            old(self).wf() ==> final(self).wf(),
    {
        if ram.len() >= 8 && ram.len() - 8 == self.ram.len() {
            self.rtc.zero = u64_from_be_at(&ram, 0);
            let mut new_ram: Vec<u8> = Vec::new();
            let mut i: usize = 8;
            while i < ram.len()
                invariant
                    8 <= i <= ram@.len(),
                    new_ram@ == ram@.subrange(8, i as int),
                decreases ram@.len() - i,
            {
                new_ram.push(ram[i]);
                proof {
                    assert(new_ram@ =~= ram@.subrange(8, i + 1));
                }
                i = i + 1;
            }
            self.ram = new_ram;
            proof {
                assert(ram@.subrange(8, ram@.len() as int) =~= ram@.skip(8));
            }
        }
    }

    /// Encodes every mutable register, the RTC included.
    pub fn save_status(&self) -> (r: Vec<u8>)
        ensures
            r@ == self.spec_status(),
    {
        let mut r: Vec<u8> = Vec::new();
        r.push(self.rtc.s);
        r.push(self.rtc.m);
        r.push(self.rtc.h);
        r.push(self.rtc.dl);
        r.push(self.rtc.dh);
        let mut z = u64_to_be_vec(self.rtc.zero);
        r.append(&mut z);
        r.push(self.rom_blank);
        r.push(self.ram_blank);
        r.push(if self.ram_enable { 1 } else { 0 });
        r.push(self.last_write_value);
        proof {
            assert(r@ =~= self.spec_status());
        }
        r
    }

    /// Restores the registers from a status blob; a malformed blob is
    /// ignored.
    pub fn load_status(&mut self, status: Vec<u8>)
        ensures
            *final(self) == old(self).spec_apply_status(status@),
            old(self).wf() ==> final(self).wf(),
    {
        if status.len() == 17 && 1 <= status[13] && status[13] <= 0x7F && status[15] <= 1 {
            self.rtc.s = status[0];
            self.rtc.m = status[1];
            self.rtc.h = status[2];
            self.rtc.dl = status[3];
            self.rtc.dh = status[4];
            self.rtc.zero = u64_from_be_at(&status, 5);
            self.rom_blank = status[13];
            self.ram_blank = status[14];
            self.ram_enable = status[15] == 1;
            self.last_write_value = status[16];
        }
    }
}

/// The RTC is latched exactly on a write of 0x01 to `0x6000..=0x7FFF` whose
/// preceding write to that range was 0x00; every other write to the range
/// leaves the registers untouched and only records the value.
pub proof fn lemma_mbc3_latch_trigger(m: MBC3, value: u8, index: u16, now: u64)
    requires
        m.wf(),
        0x6000 <= index < 0x8000,
    ensures
        ({
            let m2 = m.spec_reg_set(index, value, now);
            &&& m2.last_write_value == value
            &&& (m.last_write_value == 0x00 && value == 0x01) ==> m2.rtc == m.rtc.spec_latched(now)
            &&& !(m.last_write_value == 0x00 && value == 0x01) ==> m2.rtc == m.rtc
            &&& m2.ram@ == m.ram@ && m2.rom@ == m.rom@ && m2.rom_blank == m.rom_blank
                && m2.ram_blank == m.ram_blank && m2.ram_enable == m.ram_enable
        }),
{
}

/// A write to `0x0000..=0x1FFF` gates external RAM: reads return RAM (or
/// RTC) data exactly when the written value has low nibble 0x0A, and 0x00
/// otherwise.
pub proof fn lemma_mbc3_ram_enable_gates_reads(m: MBC3, value: u8, waddr: u16, raddr: u16, now: u64)
    requires
        m.wf(),
        waddr < 0x2000,
        0xA000 <= raddr <= 0xBFFF,
    ensures
        ({
            let m2 = m.spec_reg_set(waddr, value, now);
            &&& (value & 0x0F == 0x0A && m.ram_blank <= 0x03) ==> m2.spec_get(raddr) == if m.ram_index(
                raddr,
            ) < m.ram@.len() {
                m.ram@[m.ram_index(raddr)]
            } else {
                0x00
            }
            &&& value & 0x0F != 0x0A ==> m2.spec_get(raddr) == 0x00
        }),
{
}

/// Reads of the switchable window return the byte of the selected physical
/// bank, at an offset that is always inside the ROM image.
pub proof fn lemma_mbc3_banked_read(m: MBC3, index: u16)
    requires
        m.wf(),
        0x4000 <= index < 0x8000,
    ensures
        m.spec_get(index) == m.rom@[masked_bank(m.rom_blank as u64, m.max_rom_banks) * 0x4000 + (
        index - 0x4000)],
        masked_bank(m.rom_blank as u64, m.max_rom_banks) * 0x4000 + (index - 0x4000)
            < m.rom@.len(),
{
    crate::banking::lemma_pow2_mask(m.rom_blank as u64, m.max_rom_banks as u64);
    let b = masked_bank(m.rom_blank as u64, m.max_rom_banks);
    assert(b * 0x4000 + 0x4000 <= m.max_rom_banks * 0x4000) by (nonlinear_arith)
        requires
            b < m.max_rom_banks,
    ;
}

/// A save file written by `save_sav` splits back into exactly the epoch and
/// the RAM it was written from.
pub proof fn lemma_mbc3_sav_round_trip(m: MBC3)
    ensures
        ({
            let b = Seq::new(8, |i: int| spec_be_byte(m.rtc.zero, i)) + m.ram@;
            &&& b.len() == 8 + m.ram@.len()
            &&& spec_u64_from_be(b.subrange(0, 8)) == m.rtc.zero
            &&& b.skip(8) == m.ram@
        }),
{
    let z = Seq::new(8, |i: int| spec_be_byte(m.rtc.zero, i));
    let b = z + m.ram@;
    assert(b.subrange(0, 8) =~= z);
    crate::util::lemma_be_round_trip(m.rtc.zero);
    assert(b.skip(8) =~= m.ram@);
}

/// Restoring a status blob on a cartridge with the same ROM and RAM restores
/// every bus read.
pub proof fn lemma_mbc3_status_round_trip(m: MBC3, other: MBC3, index: u16)
    requires
        m.wf(),
        other.wf(),
        other.rom@ == m.rom@,
        other.ram@ == m.ram@,
        mbc_addr(index),
    ensures
        other.spec_apply_status(m.spec_status()).spec_get(index) == m.spec_get(index),
{
    let b = m.spec_status();
    assert(MBC3::status_valid(b));
    let r = other.spec_apply_status(b);
    assert(b.subrange(5, 13) =~= Seq::new(8, |i: int| spec_be_byte(m.rtc.zero, i)));
    crate::util::lemma_be_round_trip(m.rtc.zero);
    assert(r.rtc == m.rtc && r.rom_blank == m.rom_blank && r.ram_blank == m.ram_blank
        && r.ram_enable == m.ram_enable);
    assert(r.max_rom_banks * 0x4000 == m.max_rom_banks * 0x4000);
    assert(r.max_rom_banks == m.max_rom_banks) by (nonlinear_arith)
        requires
            r.max_rom_banks * 0x4000 == m.max_rom_banks * 0x4000,
    ;
}

} // verus!
