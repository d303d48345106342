//! The memory bus: boot ROM, cartridge, and the flat block that backs
//! VRAM, WRAM, OAM, IO registers and HRAM.

use crate::banking::mbc_addr;
use crate::cartridge::Cartridge;
use vstd::prelude::*;

verus! {

/// The flat 0x8000..=0xFFFF block: VRAM, WRAM, OAM, IO and HRAM.
pub struct MemoryBlock {
    pub memory: Vec<u8>,
    pub start: u16,
    pub end: u16,
}

impl MemoryBlock {
    /// The structural invariant: the block covers exactly 0x8000..=0xFFFF.
    pub open spec fn wf(self) -> bool {
        self.start == 0x8000 && self.end == 0xFFFF && self.memory@.len() == 0x8000
    }

    /// The byte every read returns; addresses below the block are open bus.
    pub open spec fn spec_get(self, index: u16) -> u8
        recommends
            self.wf(),
    {
        if index < 0x8000 {
            0xFF
        } else {
            self.memory@[index - 0x8000]
        }
    }

    pub fn new() -> (r: MemoryBlock)
        ensures
            r.wf(),
            forall|i: u16| 0x8000 <= i ==> r.spec_get(i) == 0,
    {
        let mut memory: Vec<u8> = Vec::new();
        let mut i: usize = 0;
        while i < 0x8000
            invariant
                i <= 0x8000,
                memory@.len() == i,
                forall|j: int| 0 <= j < i ==> memory@[j] == 0,
            decreases 0x8000 - i,
        {
            memory.push(0);
            i = i + 1;
        }
        MemoryBlock { start: 0x8000, end: 0xFFFF, memory }
    }

    pub fn get(&self, index: u16) -> (r: u8)
        requires
            self.wf(),
        ensures
            r == self.spec_get(index),
    {
        if index < self.start {
            return 0xFF;
        }
        self.memory[(index - self.start) as usize]
    }

    pub fn set(&mut self, index: u16, value: u8)
        requires
            old(self).wf(),
        ensures
            final(self).wf(),
            final(self).memory@ == if index >= 0x8000 {
                old(self).memory@.update(index - 0x8000, value)
            } else {
                old(self).memory@
            },
    {
        if index < self.start {
            return ;
        }
        self.memory[(index - self.start) as usize] = value;
    }
}

/// The bus the CPU and PPU see: boot ROM while it is mapped, the cartridge,
/// and the flat block for everything above 0x8000.
pub struct Mmu {
    pub boot: Vec<u8>,
    pub cartridge: Cartridge,
    pub other: MemoryBlock,
}

impl Mmu {
    /// The structural invariant.
    pub open spec fn wf(self) -> bool {
        self.boot@.len() == 0x100 && self.cartridge.wf() && self.other.wf()
    }

    /// True while the boot ROM is still mapped over 0x0000..=0x00FF.
    pub open spec fn spec_is_boot(self) -> bool
        recommends
            self.wf(),
    {
        self.other.spec_get(0xFF50) == 0
    }

    /// The byte every bus read returns, after routing.
    pub open spec fn spec_get(self, index: u16) -> u8
        recommends
            self.wf(),
    {
        if index < 0x0100 {
            if self.spec_is_boot() {
                self.boot@[index as int]
            } else {
                self.cartridge.spec_get(index)
            }
        } else if index < 0x8000 {
            self.cartridge.spec_get(index)
        } else if index < 0xA000 {
            self.other.spec_get(index)
        } else if index < 0xC000 {
            self.cartridge.spec_get(index)
        } else {
            self.other.spec_get(index)
        }
    }

    /// Assembles a bus from a 256-byte boot ROM and a cartridge.
    pub fn new(boot: Vec<u8>, cartridge: Cartridge) -> (r: Mmu)
        requires
            boot@.len() == 0x100,
            cartridge.wf(),
        ensures
            r.wf(),
            r.boot == boot,
            r.cartridge == cartridge,
            forall|i: u16| 0x8000 <= i ==> r.other.spec_get(i) == 0,
    {
        let other = MemoryBlock::new();
        Mmu { boot, cartridge, other }
    }

    pub fn is_boot(&self) -> (r: bool)
        requires
            self.wf(),
        ensures
            r == self.spec_is_boot(),
    {
        let v = self.get(0xFF50);
        v == 0
    }

    pub fn get(&self, index: u16) -> (r: u8)
        requires
            self.wf(),
        ensures
            r == self.spec_get(index),
    {
        if index < 0x0100 {
            let boot_active = self.other.get(0xFF50) == 0;
            if boot_active {
                self.boot[index as usize]
            } else {
                self.cartridge.get(index)
            }
        } else if index < 0x8000 {
            self.cartridge.get(index)
        } else if index < 0xA000 {
            self.other.get(index)
        } else if index < 0xC000 {
            self.cartridge.get(index)
        } else {
            self.other.get(index)
        }
    }

    pub fn set(&mut self, index: u16, value: u8)
        requires
            old(self).wf(),
        ensures
            final(self).wf(),
            final(self).boot == old(self).boot,
            mbc_addr(index) ==> final(self).other == old(self).other && exists|now: u64|
                Cartridge::set_rel(
                    old(self).cartridge,
                    final(self).cartridge,
                    index,
                    value,
                    now,
                ),
            !mbc_addr(index) ==> final(self).cartridge == old(self).cartridge
                && final(self).other.memory@ == old(self).other.memory@.update(
                index - 0x8000,
                value,
            ),
    {
        if index < 0x8000 {
            self.cartridge.set(index, value);
        } else if index < 0xA000 {
            self.other.set(index, value);
        } else if index < 0xC000 {
            self.cartridge.set(index, value);
        } else {
            self.other.set(index, value);
        }
    }
}

} // verus!
