//! Verified core of a Game Boy (DMG) emulator.
//!
//! The crate covers the two subsystems where the machine's behaviour is
//! subtle: the cartridge memory-bank controllers (ROM-only, MBC1, MBC2,
//! MBC3 with its real-time clock, MBC5) and the pixel-processing unit with
//! its fetcher and pixel FIFO.  Every byte read or written on the bus is
//! specified, and the banking, RAM-gating, latching and save formats are
//! proved against those specifications.

pub mod banking;
pub mod cartridge;
pub mod clock;
pub mod fetcher;
pub mod fifo;
pub mod mbc1;
pub mod mbc2;
pub mod mbc3;
pub mod mbc5;
pub mod mmu;
pub mod pixel;
pub mod ppu;
pub mod util;
