//! The cartridge: a tagged union of the five bank-controller variants,
//! built from a raw ROM image by `from_vecu8`.

use crate::banking::{mbc_addr, rom_len_ok, valid_rom_len};
use crate::mbc1::MBC1;
use crate::mbc2::MBC2;
use crate::mbc3::{MBC3, MBC3RTC};
use crate::mbc5::MBC5;
use vstd::prelude::*;

verus! {

/// Why a ROM image was rejected.
#[derive(Clone, Copy, Debug, PartialEq, Eq, Structural)]
pub enum CartridgeError {
    /// The image is shorter than the 0x150-byte header.
    HeaderTruncated,
    /// Header byte 0x0149 is not a known RAM size code.
    InvalidRamSizeCode,
    /// Header byte 0x0147 is not a supported controller type.
    UnsupportedCartridge,
    /// The image is not a power-of-two number of whole 0x4000-byte banks.
    InvalidRomSize,
}

/// A cartridge with no controller: reads inside the image return its bytes,
/// everything else is open bus, and writes are dropped.
pub struct RomOnly {
    pub rom: Vec<u8>,
}

impl RomOnly {
    /// The byte every bus read returns.
    pub open spec fn spec_get(self, index: u16) -> u8 {
        if index < self.rom@.len() {
            self.rom@[index as int]
        } else {
            0xFF
        }
    }

    pub fn new(rom: Vec<u8>) -> (r: RomOnly)
        ensures
            r.rom == rom,
    {
        RomOnly { rom }
    }

    pub fn get(&self, index: u16) -> (r: u8)
        ensures
            r == self.spec_get(index),
    {
        if (index as usize) < self.rom.len() {
            self.rom[index as usize]
        } else {
            0xFF
        }
    }

    pub fn set(&mut self, _index: u16, _value: u8)
        ensures
            *final(self) == *old(self),
    {
    }
}

impl Default for RomOnly {
    fn default() -> (r: Self)
        ensures
            r.rom@.len() == 0,
    {
        RomOnly { rom: Vec::new() }
    }
}

/// The RAM allocation (in bytes) named by header byte 0x0149.
pub open spec fn spec_ram_size_code(code: u8) -> Option<usize> {
    if code == 0x00 {
        Some(0usize)
    } else if code == 0x02 {
        Some(0x2000usize)
    } else if code == 0x03 {
        Some(0x8000usize)
    } else if code == 0x04 {
        Some(0x20000usize)
    } else if code == 0x05 {
        Some(0x10000usize)
    } else {
        None
    }
}

/// Decodes header byte 0x0149 into a RAM allocation in bytes.
pub fn get_ram_size(code: u8) -> (r: Option<usize>)
    ensures
        r == spec_ram_size_code(code),
{
    match code {
        0x00 => Some(0),
        0x02 => Some(8 * 1024),
        0x03 => Some(32 * 1024),
        0x04 => Some(128 * 1024),
        0x05 => Some(64 * 1024),
        _ => None,
    }
}

/// True for the cartridge type codes this core emulates.
pub open spec fn supported_cartridge_type(t: u8) -> bool {
    t == 0x00 || (0x01 <= t && t <= 0x03) || t == 0x05 || t == 0x06 || (0x0F <= t && t <= 0x13)
        || (0x19 <= t && t <= 0x1B)
}

/// Battery-backed persistence: the opaque `.sav` blob.
pub trait Stable {
    fn save_sav(&self) -> Vec<u8>;

    fn load_sav(&mut self, ram: Vec<u8>);
}

pub enum Cartridge {
    RomOnly(RomOnly),
    MBC1(MBC1),
    MBC2(MBC2),
    MBC3(MBC3),
    MBC5(MBC5),
}

impl Cartridge {
    /// The structural invariant of the active variant.
    pub open spec fn wf(self) -> bool {
        match self {
            Cartridge::RomOnly(c) => true,
            Cartridge::MBC1(m) => m.wf(),
            Cartridge::MBC2(m) => m.wf(),
            Cartridge::MBC3(m) => m.wf(),
            Cartridge::MBC5(m) => m.wf(),
        }
    }

    /// The ROM image.
    pub open spec fn rom_view(self) -> Seq<u8> {
        match self {
            Cartridge::RomOnly(c) => c.rom@,
            Cartridge::MBC1(m) => m.rom@,
            Cartridge::MBC2(m) => m.rom@,
            Cartridge::MBC3(m) => m.rom@,
            Cartridge::MBC5(m) => m.rom@,
        }
    }

    /// The external RAM.
    pub open spec fn ram_view(self) -> Seq<u8> {
        match self {
            Cartridge::RomOnly(c) => Seq::empty(),
            Cartridge::MBC1(m) => m.ram@,
            Cartridge::MBC2(m) => m.ram@,
            Cartridge::MBC3(m) => m.ram@,
            Cartridge::MBC5(m) => m.ram@,
        }
    }

    /// The byte every bus read returns.
    pub open spec fn spec_get(self, index: u16) -> u8
        recommends
            self.wf(),
            mbc_addr(index),
    {
        match self {
            Cartridge::RomOnly(c) => c.spec_get(index),
            Cartridge::MBC1(m) => m.spec_get(index),
            Cartridge::MBC2(m) => m.spec_get(index),
            Cartridge::MBC3(m) => m.spec_get(index),
            Cartridge::MBC5(m) => m.spec_get(index),
        }
    }

    /// Relates the state before and after `set(index, value)`; `now` is the
    /// time an MBC3 RTC latch would have read and is ignored elsewhere.
    pub open spec fn set_rel(pre: Cartridge, post: Cartridge, index: u16, value: u8, now: u64) -> bool
        recommends
            mbc_addr(index),
    {
        match (pre, post) {
            (Cartridge::RomOnly(a), Cartridge::RomOnly(b)) => b == a,
            (Cartridge::MBC1(a), Cartridge::MBC1(b)) => MBC1::set_rel(a, b, index, value),
            (Cartridge::MBC2(a), Cartridge::MBC2(b)) => MBC2::set_rel(a, b, index, value),
            (Cartridge::MBC3(a), Cartridge::MBC3(b)) => MBC3::set_rel(a, b, index, value, now),
            (Cartridge::MBC5(a), Cartridge::MBC5(b)) => MBC5::set_rel(a, b, index, value),
            _ => false,
        }
    }

    /// The `.sav` blob: the raw RAM, preceded for MBC3 by the RTC epoch.
    pub open spec fn spec_sav(self) -> Seq<u8> {
        match self {
            Cartridge::RomOnly(c) => Seq::empty(),
            Cartridge::MBC1(m) => m.ram@,
            Cartridge::MBC2(m) => m.ram@,
            Cartridge::MBC3(m) => Seq::new(8, |i: int| crate::util::spec_be_byte(m.rtc.zero, i))
                + m.ram@,
            Cartridge::MBC5(m) => m.ram@,
        }
    }

    /// Relates the state before and after `load_sav(bytes)`.
    pub open spec fn load_sav_rel(pre: Cartridge, post: Cartridge, bytes: Seq<u8>) -> bool {
        match (pre, post) {
            (Cartridge::RomOnly(a), Cartridge::RomOnly(b)) => b == a,
            (Cartridge::MBC1(a), Cartridge::MBC1(b)) => MBC1::load_sav_rel(a, b, bytes),
            (Cartridge::MBC2(a), Cartridge::MBC2(b)) => MBC2::load_sav_rel(a, b, bytes),
            (Cartridge::MBC3(a), Cartridge::MBC3(b)) => MBC3::load_sav_rel(a, b, bytes),
            (Cartridge::MBC5(a), Cartridge::MBC5(b)) => MBC5::load_sav_rel(a, b, bytes),
            _ => false,
        }
    }

    /// The status blob of the active variant.
    pub open spec fn spec_status(self) -> Seq<u8> {
        match self {
            Cartridge::RomOnly(c) => Seq::empty(),
            Cartridge::MBC1(m) => m.spec_status(),
            Cartridge::MBC2(m) => m.spec_status(),
            Cartridge::MBC3(m) => m.spec_status(),
            Cartridge::MBC5(m) => m.spec_status(),
        }
    }

    /// The state after loading a status blob; a malformed blob is ignored.
    pub open spec fn spec_apply_status(self, b: Seq<u8>) -> Cartridge {
        match self {
            Cartridge::RomOnly(c) => Cartridge::RomOnly(c),
            Cartridge::MBC1(m) => Cartridge::MBC1(m.spec_apply_status(b)),
            Cartridge::MBC2(m) => Cartridge::MBC2(m.spec_apply_status(b)),
            Cartridge::MBC3(m) => Cartridge::MBC3(m.spec_apply_status(b)),
            Cartridge::MBC5(m) => Cartridge::MBC5(m.spec_apply_status(b)),
        }
    }

    /// True when the two cartridges are the same variant over the same ROM
    /// and RAM bytes.
    pub open spec fn same_image(a: Cartridge, b: Cartridge) -> bool {
        match (a, b) {
            (Cartridge::RomOnly(x), Cartridge::RomOnly(y)) => x.rom@ == y.rom@,
            (Cartridge::MBC1(x), Cartridge::MBC1(y)) => x.rom@ == y.rom@ && x.ram@ == y.ram@,
            (Cartridge::MBC2(x), Cartridge::MBC2(y)) => x.rom@ == y.rom@ && x.ram@ == y.ram@,
            (Cartridge::MBC3(x), Cartridge::MBC3(y)) => x.rom@ == y.rom@ && x.ram@ == y.ram@,
            (Cartridge::MBC5(x), Cartridge::MBC5(y)) => x.rom@ == y.rom@ && x.ram@ == y.ram@,
            _ => false,
        }
    }

    pub fn get(&self, index: u16) -> (r: u8)
        requires
            self.wf(),
            mbc_addr(index),
        ensures
            r == self.spec_get(index),
    {
        match self {
            Cartridge::RomOnly(c) => c.get(index),
            Cartridge::MBC1(m) => m.get(index),
            Cartridge::MBC2(m) => m.get(index),
            Cartridge::MBC3(m) => m.get(index),
            Cartridge::MBC5(m) => m.get(index),
        }
    }

    pub fn set(&mut self, index: u16, value: u8)
        requires
            old(self).wf(),
            mbc_addr(index),
        ensures
            final(self).wf(),
            exists|now: u64| Cartridge::set_rel(*old(self), *final(self), index, value, now),
    {
        match self {
            Cartridge::RomOnly(c) => {
                c.set(index, value);
                proof {
                    assert(Cartridge::set_rel(*old(self), *self, index, value, 0));
                }
            },
            Cartridge::MBC1(m) => {
                m.set(index, value);
                proof {
                    assert(Cartridge::set_rel(*old(self), *self, index, value, 0));
                }
            },
            Cartridge::MBC2(m) => {
                m.set(index, value);
                proof {
                    assert(Cartridge::set_rel(*old(self), *self, index, value, 0));
                }
            },
            Cartridge::MBC3(m) => {
                m.set(index, value);
                proof {
                    let now = choose|now: u64|
                        MBC3::set_rel(old(self)->MBC3_0, *m, index, value, now);
                    assert(Cartridge::set_rel(*old(self), *self, index, value, now));
                }
            },
            Cartridge::MBC5(m) => {
                m.set(index, value);
                proof {
                    assert(Cartridge::set_rel(*old(self), *self, index, value, 0));
                }
            },
        }
    }

    /// The battery-backed save blob.
    pub fn save_sav(&self) -> (r: Vec<u8>)
        ensures
            r@ == self.spec_sav(),
    {
        match self {
            Cartridge::RomOnly(c) => Vec::new(),
            Cartridge::MBC1(m) => m.save_sav(),
            Cartridge::MBC2(m) => m.save_sav(),
            Cartridge::MBC3(m) => m.save_sav(),
            Cartridge::MBC5(m) => m.save_sav(),
        }
    }

    /// Restores battery-backed state from a save blob.
    pub fn load_sav(&mut self, ram: Vec<u8>)
        ensures
            Cartridge::load_sav_rel(*old(self), *final(self), ram@),
            old(self).wf() ==> final(self).wf(),
    {
        match self {
            Cartridge::RomOnly(c) => {},
            Cartridge::MBC1(m) => m.load_sav(ram),
            Cartridge::MBC2(m) => m.load_sav(ram),
            Cartridge::MBC3(m) => m.load_sav(ram),
            Cartridge::MBC5(m) => m.load_sav(ram),
        }
    }

    /// Encodes every mutable register of the active variant.
    pub fn save_status(&self) -> (r: Vec<u8>)
        ensures
            r@ == self.spec_status(),
    {
        match self {
            Cartridge::RomOnly(c) => Vec::new(),
            Cartridge::MBC1(m) => m.save_status(),
            Cartridge::MBC2(m) => m.save_status(),
            Cartridge::MBC3(m) => m.save_status(),
            Cartridge::MBC5(m) => m.save_status(),
        }
    }

    /// Restores the registers of the active variant from a status blob.
    pub fn load_status(&mut self, status: Vec<u8>)
        ensures
            *final(self) == old(self).spec_apply_status(status@),
            old(self).wf() ==> final(self).wf(),
    {
        match self {
            Cartridge::RomOnly(c) => {},
            Cartridge::MBC1(m) => m.load_status(status),
            Cartridge::MBC2(m) => m.load_status(status),
            Cartridge::MBC3(m) => m.load_status(status),
            Cartridge::MBC5(m) => m.load_status(status),
        }
    }

    /// Recomputes the MBC3 RTC registers against the given time; every
    /// other variant is left untouched.  This is the deterministic-clock
    /// seam.
    pub fn latch_at(&mut self, now: u64)
        ensures
            (*old(self)) matches Cartridge::MBC3(m) ==> *final(self) == Cartridge::MBC3(
                MBC3 { rtc: m.rtc.spec_latched(now), ..m },
            ),
            !((*old(self)) matches Cartridge::MBC3(_)) ==> *final(self) == *old(self),
            old(self).wf() ==> final(self).wf(),
    {
        match self {
            Cartridge::MBC3(m) => m.latch_at(now),
            _ => {},
        }
    }

    /// True when header byte 0x0143 marks a Game Boy Color title.
    pub open spec fn spec_gbc_flag(self) -> bool {
        self.spec_get(0x0143) == 0x80 || self.spec_get(0x0143) == 0xC0
    }

    pub fn gbc_flag(&self) -> (r: bool)
        requires
            self.wf(),
        ensures
            r == self.spec_gbc_flag(),
    {
        let v = self.get(0x0143);
        v == 0x80 || v == 0xC0
    }

    /// The last header byte of the title field: GBC titles are shorter.
    pub open spec fn spec_title_end(self) -> u16 {
        if self.spec_gbc_flag() {
            0x013E
        } else {
            0x0143
        }
    }

    /// The title characters from header offset `i` on, stopping at the
    /// first zero byte.
    pub open spec fn spec_title_from(self, i: int) -> Seq<char>
        decreases 0x0144 - i,
    {
        if i < 0x0134 || i > self.spec_title_end() {
            Seq::empty()
        } else if self.spec_get(i as u16) == 0 {
            Seq::empty()
        } else {
            seq![self.spec_get(i as u16) as char] + self.spec_title_from(i + 1)
        }
    }

    /// The ASCII title from the cartridge header.
    pub fn title(&self) -> (r: String)
        requires
            self.wf(),
        ensures
            r@ == self.spec_title_from(0x0134),
    {
        let mut result = String::new();
        let end: u16 = if self.gbc_flag() {
            0x013E
        } else {
            0x0143
        };
        let mut index: u16 = 0x0134;
        loop
            invariant
                self.wf(),
                end == self.spec_title_end(),
                0x0134 <= index <= end + 1,
                self.spec_title_from(0x0134) == result@ + self.spec_title_from(index as int),
            ensures
                self.spec_title_from(0x0134) == result@,
            decreases end + 1 - index,
        {
            let ghost r_old = result@;
            if index > end {
                proof {
                    assert(self.spec_title_from(index as int) =~= Seq::<char>::empty());
                    assert(result@ + Seq::<char>::empty() =~= result@);
                }
                break ;
            }
            let v = self.get(index);
            if v == 0 {
                proof {
                    assert(self.spec_title_from(index as int) =~= Seq::<char>::empty());
                    assert(result@ + Seq::<char>::empty() =~= result@);
                }
                break ;
            }
            result.push(v as char);
            proof {
                assert(r_old + self.spec_title_from(index as int) == r_old + (seq![
                    self.spec_get(index) as char,
                ] + self.spec_title_from(index + 1)));
                assert(r_old + (seq![self.spec_get(index) as char] + self.spec_title_from(
                    index + 1,
                )) =~= (r_old + seq![self.spec_get(index) as char]) + self.spec_title_from(
                    index + 1,
                ));
                assert(result@ == r_old + seq![self.spec_get(index) as char]);
            }
            index = index + 1;
        }
        result
    }

    /// The printable name of the controller type that `code` names; codes
    /// this core does not recognise read as "UNKNOWN".
    pub open spec fn spec_cartridge_type_name(code: u8) -> Seq<char> {
        if code == 0x00 { "ROM ONLY"@ }
        else if code == 0x01 { "MBC1"@ }
        else if code == 0x02 { "MBC1+RAM"@ }
        else if code == 0x03 { "MBC1+RAM+BATTERY"@ }
        else if code == 0x05 { "MBC2"@ }
        else if code == 0x06 { "MBC2+BATTERY"@ }
        else if code == 0x08 { "ROM+RAM 1"@ }
        else if code == 0x09 { "ROM+RAM+BATTERY 1"@ }
        else if code == 0x0B { "MMM01"@ }
        else if code == 0x0C { "MMM01+RAM"@ }
        else if code == 0x0D { "MMM01+RAM+BATTERY"@ }
        else if code == 0x0F { "MBC3+TIMER+BATTERY"@ }
        else if code == 0x10 { "MBC3+TIMER+RAM+BATTERY 2"@ }
        else if code == 0x11 { "MBC3"@ }
        else if code == 0x12 { "MBC3+RAM 2"@ }
        else if code == 0x13 { "MBC3+RAM+BATTERY 2"@ }
        else if code == 0x19 { "MBC5"@ }
        else if code == 0x1A { "MBC5+RAM"@ }
        else if code == 0x1B { "MBC5+RAM+BATTERY"@ }
        else if code == 0x1C { "MBC5+RUMBLE"@ }
        else if code == 0x1D { "MBC5+RUMBLE+RAM"@ }
        else if code == 0x1E { "MBC5+RUMBLE+RAM+BATTERY"@ }
        else if code == 0x20 { "MBC6"@ }
        else if code == 0x22 { "MBC7+SENSOR+RUMBLE+RAM+BATTERY"@ }
        else if code == 0xFC { "POCKET CAMERA"@ }
        else if code == 0xFD { "BANDAI TAMA5"@ }
        else if code == 0xFE { "HuC3"@ }
        else if code == 0xFF { "HuC1+RAM+BATTERY"@ }
        else { "UNKNOWN"@ }
    }

    /// The printable name of the controller type the header names.
    pub fn get_cartridge_type(&self) -> (r: &'static str)
        requires
            self.wf(),
        ensures
            r@ == Cartridge::spec_cartridge_type_name(self.spec_get(0x0147)),
    {
        match self.get(0x0147) {
            0x00 => "ROM ONLY",
            0x01 => "MBC1",
            0x02 => "MBC1+RAM",
            0x03 => "MBC1+RAM+BATTERY",
            0x05 => "MBC2",
            0x06 => "MBC2+BATTERY",
            0x08 => "ROM+RAM 1",
            0x09 => "ROM+RAM+BATTERY 1",
            0x0B => "MMM01",
            0x0C => "MMM01+RAM",
            0x0D => "MMM01+RAM+BATTERY",
            0x0F => "MBC3+TIMER+BATTERY",
            0x10 => "MBC3+TIMER+RAM+BATTERY 2",
            0x11 => "MBC3",
            0x12 => "MBC3+RAM 2",
            0x13 => "MBC3+RAM+BATTERY 2",
            0x19 => "MBC5",
            0x1A => "MBC5+RAM",
            0x1B => "MBC5+RAM+BATTERY",
            0x1C => "MBC5+RUMBLE",
            0x1D => "MBC5+RUMBLE+RAM",
            0x1E => "MBC5+RUMBLE+RAM+BATTERY",
            0x20 => "MBC6",
            0x22 => "MBC7+SENSOR+RUMBLE+RAM+BATTERY",
            0xFC => "POCKET CAMERA",
            0xFD => "BANDAI TAMA5",
            0xFE => "HuC3",
            0xFF => "HuC1+RAM+BATTERY",
            _ => "UNKNOWN",
        }
    }

    /// The RAM allocation named by the header, if its code is known.
    pub fn get_ram_size(&self) -> (r: Option<usize>)
        requires
            self.wf(),
        ensures
            r == spec_ram_size_code(self.spec_get(0x0149)),
    {
        get_ram_size(self.get(0x0149))
    }
}

impl Stable for Cartridge {
    fn save_sav(&self) -> Vec<u8> {
        Cartridge::save_sav(self)
    }

    fn load_sav(&mut self, ram: Vec<u8>) {
        Cartridge::load_sav(self, ram)
    }
}

/// A vector of `n` zero bytes.
fn zero_vec(n: usize) -> (r: Vec<u8>)
    ensures
        r@ == Seq::new(n as nat, |i: int| 0u8),
{
    let mut r: Vec<u8> = Vec::new();
    let mut i: usize = 0;
    while i < n
        invariant
            i <= n,
            r@ == Seq::new(i as nat, |j: int| 0u8),
        decreases n - i,
    {
        r.push(0);
        proof {
            assert(r@ =~= Seq::new((i + 1) as nat, |j: int| 0u8));
        }
        i = i + 1;
    }
    r
}

/// True when `c` is the variant that type code `t` names.
pub open spec fn mbc_variant_ok(c: Cartridge, t: u8) -> bool {
    match c {
        Cartridge::RomOnly(_) => t == 0x00,
        Cartridge::MBC1(_) => 0x01 <= t <= 0x03,
        Cartridge::MBC2(_) => t == 0x05 || t == 0x06,
        Cartridge::MBC3(_) => 0x0F <= t <= 0x13,
        Cartridge::MBC5(_) => 0x19 <= t <= 0x1B,
    }
}

/// True when `c` is freshly built from `rom`: reset registers and zeroed
/// RAM of the size the header names (512 bytes for MBC2).
pub open spec fn is_fresh_from(c: Cartridge, rom: Seq<u8>) -> bool
    recommends
        rom.len() >= 0x150,
{
    match c {
        Cartridge::RomOnly(r) => r.rom@ == rom,
        Cartridge::MBC1(m) => {
            &&& m.rom@ == rom
            &&& m.ram@ == Seq::new(spec_ram_size_code(rom[0x0149])->Some_0 as nat, |i: int| 0u8)
            &&& m.mode == crate::mbc1::MBC1Mode::Rom
            &&& m.rom_blank_bit == 1
            &&& m.ram_blank_bit == 0
            &&& !m.ram_enable
        },
        Cartridge::MBC2(m) => {
            &&& m.rom@ == rom
            &&& m.ram@ == Seq::new(512, |i: int| 0u8)
            &&& m.rom_blank == 1
            &&& !m.ram_enable
        },
        Cartridge::MBC3(m) => {
            &&& m.rom@ == rom
            &&& m.ram@ == Seq::new(spec_ram_size_code(rom[0x0149])->Some_0 as nat, |i: int| 0u8)
            &&& m.rom_blank == 1
            &&& m.ram_blank == 0
            &&& !m.ram_enable
            &&& m.last_write_value == 0x01
            &&& m.rtc.s == 0 && m.rtc.m == 0 && m.rtc.h == 0 && m.rtc.dl == 0 && m.rtc.dh == 0
        },
        Cartridge::MBC5(m) => {
            &&& m.rom@ == rom
            &&& m.ram@ == Seq::new(spec_ram_size_code(rom[0x0149])->Some_0 as nat, |i: int| 0u8)
            &&& m.rom_blank_low_bit == 1
            &&& m.rom_blank_high_bit == 0
            &&& m.ram_blank == 0
            &&& !m.ram_enable
        },
    }
}

/// Builds the cartridge that a raw ROM image describes.
///
/// The image must carry a full header, a known RAM size code, a supported
/// controller type and a power-of-two number of whole banks; each failure
/// is reported as its own error, checked in that order.
pub fn from_vecu8(rom: Vec<u8>) -> (r: Result<Cartridge, CartridgeError>)
    ensures
        (rom@.len() < 0x150) <==> r == Err::<Cartridge, CartridgeError>(
            CartridgeError::HeaderTruncated,
        ),
        (rom@.len() >= 0x150 && spec_ram_size_code(rom@[0x0149]) is None) <==> r == Err::<
            Cartridge,
            CartridgeError,
        >(CartridgeError::InvalidRamSizeCode),
        (rom@.len() >= 0x150 && spec_ram_size_code(rom@[0x0149]) is Some
            && !supported_cartridge_type(rom@[0x0147])) <==> r == Err::<Cartridge, CartridgeError>(
            CartridgeError::UnsupportedCartridge,
        ),
        (rom@.len() >= 0x150 && spec_ram_size_code(rom@[0x0149]) is Some
            && supported_cartridge_type(rom@[0x0147]) && !valid_rom_len(rom@.len())) <==> r == Err::<
            Cartridge,
            CartridgeError,
        >(CartridgeError::InvalidRomSize),
        r matches Ok(c) ==> {
            &&& rom@.len() >= 0x150
            &&& valid_rom_len(rom@.len())
            &&& c.wf()
            &&& mbc_variant_ok(c, rom@[0x0147])
            &&& is_fresh_from(c, rom@)
        },
{
    if rom.len() < 0x150 {
        return Err(CartridgeError::HeaderTruncated);
    }
    let ram_size = match get_ram_size(rom[0x0149]) {
        Some(s) => s,
        None => {
            return Err(CartridgeError::InvalidRamSizeCode);
        },
    };
    let t = rom[0x0147];
    let supported = t == 0x00 || (0x01 <= t && t <= 0x03) || t == 0x05 || t == 0x06 || (0x0F <= t
        && t <= 0x13) || (0x19 <= t && t <= 0x1B);
    if !supported {
        return Err(CartridgeError::UnsupportedCartridge);
    }
    if !rom_len_ok(&rom) {
        return Err(CartridgeError::InvalidRomSize);
    }
    if t == 0x00 {
        Ok(Cartridge::RomOnly(RomOnly::new(rom)))
    } else if t <= 0x03 {
        let ram = zero_vec(ram_size);
        Ok(Cartridge::MBC1(MBC1::new(rom, ram)))
    } else if t <= 0x06 {
        let ram = zero_vec(512);
        Ok(Cartridge::MBC2(MBC2::new(rom, ram)))
    } else if t <= 0x13 {
        let ram = zero_vec(ram_size);
        Ok(Cartridge::MBC3(MBC3::new(rom, ram)))
    } else {
        let ram = zero_vec(ram_size);
        Ok(Cartridge::MBC5(MBC5::new(rom, ram)))
    }
}

/// Restoring a status blob on a cartridge of the same variant, ROM and RAM
/// restores every bus read, whatever the variant.
pub proof fn lemma_cartridge_status_round_trip(c: Cartridge, other: Cartridge, index: u16)
    requires
        c.wf(),
        other.wf(),
        Cartridge::same_image(c, other),
        mbc_addr(index),
    ensures
        other.spec_apply_status(c.spec_status()).spec_get(index) == c.spec_get(index),
{
    match (c, other) {
        (Cartridge::RomOnly(x), Cartridge::RomOnly(y)) => {},
        (Cartridge::MBC1(x), Cartridge::MBC1(y)) => {
            crate::mbc1::lemma_mbc1_status_round_trip(x, y, index);
        },
        (Cartridge::MBC2(x), Cartridge::MBC2(y)) => {
            crate::mbc2::lemma_mbc2_status_round_trip(x, y, index);
        },
        (Cartridge::MBC3(x), Cartridge::MBC3(y)) => {
            crate::mbc3::lemma_mbc3_status_round_trip(x, y, index);
        },
        (Cartridge::MBC5(x), Cartridge::MBC5(y)) => {
            crate::mbc5::lemma_mbc5_status_round_trip(x, y, index);
        },
        _ => {},
    }
}

/// Loading the save blob a cartridge wrote restores its RAM (and, for MBC3,
/// its RTC epoch) exactly, whatever the variant.
pub proof fn lemma_cartridge_sav_round_trip(c: Cartridge, post: Cartridge)
    requires
        c.wf(),
        Cartridge::load_sav_rel(c, post, c.spec_sav()),
    ensures
        post.ram_view() == c.ram_view(),
        c matches Cartridge::MBC3(m) ==> post matches Cartridge::MBC3(p) && p.rtc == m.rtc,
{
    match (c, post) {
        (Cartridge::MBC3(m), Cartridge::MBC3(p)) => {
            crate::mbc3::lemma_mbc3_sav_round_trip(m);
            let b = c.spec_sav();
            assert(b.len() == 8 + m.ram@.len());
            assert(p.rtc.zero == crate::util::spec_u64_from_be(b.subrange(0, 8)));
        },
        _ => {},
    }
}

} // verus!
