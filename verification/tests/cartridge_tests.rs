//! Bus-level tests of the cartridge variants: banking, RAM gating, the
//! RTC, and both persistence formats.

use rust_gameboy::cartridge::Stable;
use rust_gameboy::cartridge::{from_vecu8, get_ram_size, CartridgeError, RomOnly};

/// A ROM image of `banks` 0x4000-byte banks whose first byte of each bank
/// holds the bank number, with the given type and RAM-size codes.
fn make_rom(banks: usize, type_code: u8, ram_code: u8) -> Vec<u8> {
    let mut rom = vec![0u8; banks * 0x4000];
    rom[0x0147] = type_code;
    rom[0x0149] = ram_code;
    for b in 0..banks {
        rom[b * 0x4000] = b as u8;
    }
    rom
}

#[test]
fn rom_only_reads_and_ignores_writes() {
    let mut rom = make_rom(2, 0x00, 0x00);
    rom[0x1234] = 0x77;
    let mut cart = from_vecu8(rom.clone()).unwrap();
    for addr in [0x0000u16, 0x1000, 0x3FFF, 0x5555, 0x7FFF] {
        cart.set(addr, 0xAB);
    }
    assert_eq!(cart.get(0x1234), 0x77);
    assert_eq!(cart.get(0x0000), rom[0x0000]);
    assert_eq!(cart.get(0x7FFF), rom[0x7FFF]);
}

#[test]
fn header_errors() {
    assert!(matches!(
        from_vecu8(vec![0u8; 0x14F]),
        Err(CartridgeError::HeaderTruncated)
    ));
    let rom = make_rom(2, 0x00, 0x07);
    assert!(matches!(from_vecu8(rom), Err(CartridgeError::InvalidRamSizeCode)));
    let rom = make_rom(2, 0xFF, 0x00);
    assert!(matches!(from_vecu8(rom), Err(CartridgeError::UnsupportedCartridge)));
    let mut rom = vec![0u8; 3 * 0x4000];
    rom[0x0147] = 0x00;
    rom[0x0149] = 0x00;
    assert!(matches!(from_vecu8(rom), Err(CartridgeError::InvalidRomSize)));
}

#[test]
fn ram_size_codes() {
    assert_eq!(get_ram_size(0x00), Some(0));
    assert_eq!(get_ram_size(0x02), Some(8 * 1024));
    assert_eq!(get_ram_size(0x03), Some(32 * 1024));
    assert_eq!(get_ram_size(0x04), Some(128 * 1024));
    assert_eq!(get_ram_size(0x05), Some(64 * 1024));
    assert_eq!(get_ram_size(0x01), None);
}

#[test]
fn mbc1_bank_selection_with_remap() {
    // A 64-bank (1 MiB) image leaves bank 0x21 unmasked.
    let rom = make_rom(64, 0x01, 0x00);
    let mut cart = from_vecu8(rom.clone()).unwrap();
    cart.set(0x2000, 0x01);
    cart.set(0x6000, 0x00);
    cart.set(0x4000, 0x01);
    assert_eq!(cart.get(0x4000), rom[0x21 * 0x4000]);
    // On a 128 KiB (8-bank) image the same writes are reduced modulo the
    // bank count: 0x21 & 7 == 1.
    let rom8 = make_rom(8, 0x01, 0x00);
    let mut cart8 = from_vecu8(rom8.clone()).unwrap();
    cart8.set(0x2000, 0x01);
    cart8.set(0x6000, 0x00);
    cart8.set(0x4000, 0x01);
    assert_eq!(cart8.get(0x4000), rom8[0x4000]);
}

#[test]
fn mbc1_bank_zero_is_remapped_to_one() {
    let rom = make_rom(4, 0x01, 0x00);
    let mut cart = from_vecu8(rom.clone()).unwrap();
    cart.set(0x2000, 0x00);
    assert_eq!(cart.get(0x4000), rom[0x4000]);
}

#[test]
fn mbc1_ram_enable_gate() {
    let rom = make_rom(4, 0x02, 0x03);
    let mut cart = from_vecu8(rom).unwrap();
    cart.set(0xA000, 0x55);
    assert_eq!(cart.get(0xA000), 0xFF);
    cart.set(0x0000, 0x0A);
    cart.set(0xA000, 0x55);
    assert_eq!(cart.get(0xA000), 0x55);
    cart.set(0x0000, 0x00);
    assert_eq!(cart.get(0xA000), 0xFF);
    cart.set(0x0000, 0x1A);
    assert_eq!(cart.get(0xA000), 0x55);
}

#[test]
fn mbc2_ram_nibbles_and_banking() {
    let rom = make_rom(8, 0x05, 0x00);
    let mut cart = from_vecu8(rom.clone()).unwrap();
    cart.set(0x0000, 0x0A);
    cart.set(0xA000, 0xFF);
    assert_eq!(cart.get(0xA000), 0xFF);
    cart.set(0x2100, 0x05);
    assert_eq!(cart.get(0x4000), rom[5 * 0x4000]);
    // The 512-byte RAM folds across the whole window, upper nibble forced.
    cart.set(0xA000, 0x04);
    assert_eq!(cart.get(0xA000), 0xF4);
    assert_eq!(cart.get(0xA200), 0xF4);
    assert_eq!(cart.get(0xBE00), 0xF4);
}

#[test]
fn mbc3_rtc_latch_from_epoch() {
    let rom = make_rom(4, 0x0F, 0x00);
    let mut cart = from_vecu8(rom).unwrap();
    // Reset the epoch to zero through the save-file format (eight
    // big-endian bytes, no RAM), then latch 3661 seconds later.
    cart.load_sav(vec![0u8; 8]);
    cart.latch_at(3661);
    cart.set(0x0000, 0x0A);
    cart.set(0x4000, 0x08);
    assert_eq!(cart.get(0xA000), 1);
    cart.set(0x4000, 0x09);
    assert_eq!(cart.get(0xA000), 1);
    cart.set(0x4000, 0x0A);
    assert_eq!(cart.get(0xA000), 1);
}

#[test]
fn mbc3_latch_requires_zero_then_one() {
    let rom = make_rom(4, 0x0F, 0x00);
    let mut cart = from_vecu8(rom).unwrap();
    cart.set(0x0000, 0x0A);
    cart.set(0x4000, 0x08);
    cart.set(0xA000, 0xAA);
    assert_eq!(cart.get(0xA000), 0xAA);
    // A lone write of 0x01 does not latch: the previous write was not 0x00.
    cart.set(0x6000, 0x01);
    assert_eq!(cart.get(0xA000), 0xAA);
    // The 0x00 -> 0x01 sequence latches: seconds drop below 60.
    cart.set(0x6000, 0x00);
    cart.set(0x6000, 0x01);
    assert!(cart.get(0xA000) < 60);
}

#[test]
fn mbc3_disabled_ram_reads_zero() {
    let rom = make_rom(4, 0x13, 0x03);
    let mut cart = from_vecu8(rom).unwrap();
    assert_eq!(cart.get(0xA000), 0x00);
    cart.set(0x0000, 0x0A);
    cart.set(0xA123, 0x42);
    assert_eq!(cart.get(0xA123), 0x42);
}

#[test]
fn mbc5_bank_zero_is_legal() {
    let rom = make_rom(4, 0x19, 0x00);
    let mut cart = from_vecu8(rom.clone()).unwrap();
    cart.set(0x2000, 0x00);
    cart.set(0x3000, 0x00);
    assert_eq!(cart.get(0x4000), rom[0x0000]);
    cart.set(0x2000, 0x03);
    assert_eq!(cart.get(0x4000), rom[3 * 0x4000]);
}

#[test]
fn mbc5_disabled_ram_reads_zero() {
    let rom = make_rom(4, 0x1B, 0x03);
    let mut cart = from_vecu8(rom).unwrap();
    assert_eq!(cart.get(0xA000), 0x00);
    cart.set(0x0000, 0x0A);
    cart.set(0xA000, 0x9C);
    assert_eq!(cart.get(0xA000), 0x9C);
}

#[test]
fn sav_round_trip_mbc1() {
    let rom = make_rom(4, 0x03, 0x03);
    let mut cart = from_vecu8(rom).unwrap();
    cart.set(0x0000, 0x0A);
    cart.set(0xA000, 0x11);
    cart.set(0xA001, 0x22);
    let sav = cart.save_sav();
    cart.set(0xA000, 0x99);
    cart.set(0xA001, 0x99);
    cart.load_sav(sav);
    assert_eq!(cart.get(0xA000), 0x11);
    assert_eq!(cart.get(0xA001), 0x22);
}

#[test]
fn sav_round_trip_mbc3_keeps_epoch() {
    let rom = make_rom(4, 0x10, 0x03);
    let mut cart = from_vecu8(rom).unwrap();
    cart.load_sav([vec![0u8; 8], vec![0u8; 32 * 1024]].concat());
    cart.set(0x0000, 0x0A);
    cart.set(0x4000, 0x00);
    cart.set(0xA000, 0x5A);
    let sav = cart.save_sav();
    assert_eq!(sav.len(), 8 + 32 * 1024);
    assert_eq!(&sav[0..8], &[0u8; 8]);
    cart.set(0xA000, 0x00);
    cart.load_sav(sav);
    assert_eq!(cart.get(0xA000), 0x5A);
    // The restored epoch latches identically.
    cart.latch_at(7322);
    cart.set(0x4000, 0x08);
    assert_eq!(cart.get(0xA000), 2);
    cart.set(0x4000, 0x09);
    assert_eq!(cart.get(0xA000), 2);
}

#[test]
fn status_round_trip_restores_reads() {
    let rom = make_rom(8, 0x03, 0x03);
    let mut cart = from_vecu8(rom.clone()).unwrap();
    cart.set(0x0000, 0x0A);
    cart.set(0x2000, 0x05);
    cart.set(0xA000, 0x3C);
    let status = cart.save_status();
    let before_rom = cart.get(0x4000);
    let before_ram = cart.get(0xA000);
    // Disturb every register, then restore.
    cart.set(0x2000, 0x02);
    cart.set(0x0000, 0x00);
    cart.load_status(status);
    assert_eq!(cart.get(0x4000), before_rom);
    assert_eq!(cart.get(0x4000), rom[5 * 0x4000]);
    assert_eq!(cart.get(0xA000), before_ram);
}

#[test]
fn status_round_trip_mbc5() {
    let rom = make_rom(8, 0x1A, 0x03);
    let mut cart = from_vecu8(rom.clone()).unwrap();
    cart.set(0x2000, 0x06);
    cart.set(0x3000, 0x01);
    let status = cart.save_status();
    cart.set(0x2000, 0x01);
    cart.set(0x3000, 0x00);
    cart.load_status(status);
    // Bank 0x106 masked by 8 banks is bank 6.
    assert_eq!(cart.get(0x4000), rom[6 * 0x4000]);
}

#[test]
fn malformed_status_is_ignored() {
    let rom = make_rom(4, 0x01, 0x00);
    let mut cart = from_vecu8(rom.clone()).unwrap();
    cart.set(0x2000, 0x02);
    cart.load_status(vec![1, 2, 3]);
    assert_eq!(cart.get(0x4000), rom[2 * 0x4000]);
}

#[test]
fn header_title_and_flags() {
    let mut rom = make_rom(2, 0x01, 0x00);
    for (i, b) in b"POKEMON".iter().enumerate() {
        rom[0x0134 + i] = *b;
    }
    let cart = from_vecu8(rom).unwrap();
    assert_eq!(cart.title(), "POKEMON");
    assert!(!cart.gbc_flag());
    assert_eq!(cart.get_cartridge_type(), "MBC1");
    assert_eq!(cart.get_ram_size(), Some(0));
}

#[test]
fn gbc_title_is_shorter() {
    let mut rom = make_rom(2, 0x00, 0x00);
    for i in 0..15 {
        rom[0x0134 + i] = b'A';
    }
    rom[0x0143] = 0x80;
    let cart = from_vecu8(rom).unwrap();
    assert!(cart.gbc_flag());
    // 0x0134..=0x013E is eleven bytes.
    assert_eq!(cart.title(), "AAAAAAAAAAA");
}

#[test]
fn rom_only_struct_open_bus() {
    let cart = RomOnly::new(vec![1, 2, 3]);
    assert_eq!(cart.get(0), 1);
    assert_eq!(cart.get(2), 3);
    assert_eq!(cart.get(3), 0xFF);
}

#[test]
fn stable_trait_is_usable() {
    let rom = make_rom(2, 0x03, 0x02);
    let mut cart = from_vecu8(rom).unwrap();
    let sav = Stable::save_sav(&cart);
    assert_eq!(sav.len(), 8 * 1024);
    Stable::load_sav(&mut cart, sav);
    let _ = &cart;
}
