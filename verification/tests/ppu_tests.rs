//! Frame-level tests of the PPU: mode timing, OAM scan, and pixel output.

use rust_gameboy::cartridge::from_vecu8;
use rust_gameboy::util::{check_bit, u16_from_2u8, u8u8_from_u16};
use rust_gameboy::mmu::Mmu;
use rust_gameboy::ppu::{PpuStatus, PPU};

/// A bus over a blank 32 KiB ROM-only cartridge.
fn make_mmu() -> Mmu {
    let mut rom = vec![0u8; 0x8000];
    rom[0x0147] = 0x00;
    rom[0x0149] = 0x00;
    let cart = from_vecu8(rom).unwrap();
    Mmu::new(vec![0u8; 0x100], cart)
}

/// Paints tile 0 as eight rows of colour 3 and selects the identity
/// palette, unsigned tile addressing and the 0x9800 map.
fn paint_solid_background(mmu: &mut Mmu) {
    mmu.set(0xFF40, 0b0001_0000);
    for i in 0..16 {
        mmu.set(0x8000 + i, 0xFF);
    }
    mmu.set(0xFF47, 0b1110_0100);
    mmu.set(0xFF43, 0);
    mmu.set(0xFF42, 0);
}

#[test]
fn first_line_of_solid_tile_is_black() {
    let mut mmu = make_mmu();
    paint_solid_background(&mut mmu);
    let mut ppu = PPU::new(&mut mmu);
    for _ in 0..456 {
        ppu.trick(&mut mmu);
    }
    for i in 0..8 {
        assert_eq!(ppu.frame_buffer[i], 0x081820);
    }
    for i in 0..160 {
        assert_eq!(ppu.frame_buffer[i], 0x081820);
    }
}

#[test]
fn one_frame_timing_and_palette() {
    let mut mmu = make_mmu();
    paint_solid_background(&mut mmu);
    let mut ppu = PPU::new(&mut mmu);
    assert!(matches!(ppu.status, PpuStatus::OAMScan));
    assert_eq!(mmu.get(0xFF41) & 0b11, 0b10);
    let mut vblank_seen = false;
    for _ in 0..70224 {
        ppu.trick(&mut mmu);
        if matches!(ppu.status, PpuStatus::VBlank) {
            vblank_seen = true;
        }
    }
    assert!(vblank_seen);
    // The VBlank interrupt was raised during the frame.
    assert_eq!(mmu.get(0xFF0F) & 1, 1);
    // The frame restarts: line 0, OAM scan again.
    assert!(matches!(ppu.status, PpuStatus::OAMScan));
    assert_eq!(mmu.get(0xFF44), 0);
    // All 144 lines of 160 pixels hold palette colours.
    for px in ppu.frame_buffer.iter() {
        assert!(
            *px == 0xE0F8D0 || *px == 0x88C070 || *px == 0x346856 || *px == 0x081820
        );
    }
    assert_eq!(ppu.frame_buffer.len(), 160 * 144);
}

#[test]
fn modes_follow_the_line_schedule() {
    let mut mmu = make_mmu();
    paint_solid_background(&mut mmu);
    let mut ppu = PPU::new(&mut mmu);
    for _ in 0..80 {
        assert!(matches!(ppu.status, PpuStatus::OAMScan));
        ppu.trick(&mut mmu);
    }
    assert!(matches!(ppu.status, PpuStatus::Drawing));
    assert_eq!(mmu.get(0xFF41) & 0b11, 0b11);
    for _ in 80..456 {
        ppu.trick(&mut mmu);
    }
    // After one full line the PPU scans the next line's sprites.
    assert!(matches!(ppu.status, PpuStatus::OAMScan));
    assert_eq!(mmu.get(0xFF44), 1);
}

#[test]
fn oam_scan_keeps_at_most_ten_sprites() {
    let mut mmu = make_mmu();
    // Twelve sprites visible on line 0: y == 16, x nonzero.
    for i in 0..12u16 {
        let base = 0xFE00 + i * 4;
        mmu.set(base, 16);
        mmu.set(base + 1, 8 + i as u8);
        mmu.set(base + 2, 0);
        mmu.set(base + 3, 0);
    }
    let mut ppu = PPU::new(&mut mmu);
    let selected = ppu.oam_scan(&mmu, 0);
    assert_eq!(selected.len(), 10);
    let none_visible = ppu.oam_scan(&mmu, 100);
    assert_eq!(none_visible.len(), 0);
    // Drive one line and check the PPU still completes it.
    for _ in 0..456 {
        ppu.trick(&mut mmu);
    }
    assert_eq!(mmu.get(0xFF44), 1);
}

#[test]
fn sprite_overlays_background() {
    let mut mmu = make_mmu();
    // BG tile 0 is blank (colour 0), sprite tile 1 is solid colour 3.
    mmu.set(0xFF40, 0b0001_0010);
    for i in 0..16 {
        mmu.set(0x8010 + i, 0xFF);
    }
    mmu.set(0xFF47, 0b1110_0100);
    mmu.set(0xFF48, 0b1110_0100);
    // One sprite covering columns 0..8 of line 0.
    mmu.set(0xFE00, 16);
    mmu.set(0xFE01, 8);
    mmu.set(0xFE02, 1);
    mmu.set(0xFE03, 0);
    let mut ppu = PPU::new(&mut mmu);
    for _ in 0..456 {
        ppu.trick(&mut mmu);
    }
    for i in 0..8 {
        assert_eq!(ppu.frame_buffer[i], 0x081820);
    }
    for i in 8..160 {
        assert_eq!(ppu.frame_buffer[i], 0xE0F8D0);
    }
}

#[test]
fn window_takes_over_below_wy() {
    let mut mmu = make_mmu();
    // BG map 0x9800 holds blank tile 0; window map 0x9C00 holds solid
    // tile 1; the window starts at the left edge below line 0.
    mmu.set(0xFF40, 0b0111_0000);
    for i in 0..16 {
        mmu.set(0x8010 + i, 0xFF);
    }
    for i in 0..32u16 {
        mmu.set(0x9C00 + i, 1);
    }
    mmu.set(0xFF47, 0b1110_0100);
    mmu.set(0xFF4A, 0);
    mmu.set(0xFF4B, 7);
    let mut ppu = PPU::new(&mut mmu);
    for _ in 0..2 * 456 {
        ppu.trick(&mut mmu);
    }
    // Line 0 is background (white); line 1 is window (colour 3).
    for i in 0..160 {
        assert_eq!(ppu.frame_buffer[i], 0xE0F8D0);
        assert_eq!(ppu.frame_buffer[160 + i], 0x081820);
    }
}

#[test]
fn util_bit_helpers() {
    assert_eq!(u16_from_2u8(0x34, 0x12), 0x1234);
    assert_eq!(u8u8_from_u16(0x1234), (0x34, 0x12));
    assert!(check_bit(0b1000_0000, 7));
    assert!(!check_bit(0b0100_0000, 7));
    assert!(check_bit(0x01, 0));
}

#[test]
fn mmu_routes_and_boot_gate() {
    let mut rom = vec![0u8; 0x8000];
    rom[0x0147] = 0x00;
    rom[0x0149] = 0x00;
    rom[0x0050] = 0x42;
    let cart = from_vecu8(rom).unwrap();
    let mut boot = vec![0u8; 0x100];
    boot[0x50] = 0x99;
    let mut mmu = Mmu::new(boot, cart);
    assert!(mmu.is_boot());
    assert_eq!(mmu.get(0x0050), 0x99);
    mmu.set(0xFF50, 1);
    assert!(!mmu.is_boot());
    assert_eq!(mmu.get(0x0050), 0x42);
    mmu.set(0x9ABC, 0x5D);
    assert_eq!(mmu.get(0x9ABC), 0x5D);
    mmu.set(0xC123, 0x77);
    assert_eq!(mmu.get(0xC123), 0x77);
}
