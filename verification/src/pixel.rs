//! Pixels, sprite descriptors and palette lookup.

use crate::util::{check_bit, spec_bit};
use vstd::prelude::*;

verus! {

/// The source of a pixel in the FIFO.
#[derive(Clone, Copy, PartialEq, Eq, Structural)]
pub enum PixelType {
    BG,
    Window,
    Sprite,
}

/// One pixel in flight: its source, palette colour index, sprite palette
/// choice, and the sprite priority bit.
#[derive(Clone, Copy, PartialEq, Eq, Structural)]
pub struct Pixel {
    pub ptype: PixelType,
    pub pcolor: u8,
    pub palette: bool,
    pub bg_window_over_obj: bool,
}

/// One OAM entry, decoded at scan time.
#[derive(Clone, Copy, PartialEq, Eq, Structural)]
pub struct OAM {
    pub y: u8,
    pub x: u8,
    pub tile_index: u8,
    pub bg_window_over_obj: bool,
    pub x_flip: bool,
    pub y_flip: bool,
    pub palette: bool,
}

impl OAM {
    /// True when this sprite overlaps scanline `ly`.
    pub open spec fn spec_visible(self, ly: u8) -> bool {
        self.y >= 16 && self.x != 0 && self.y - 16 <= ly < self.y - 8
    }

    /// True when this sprite's eight-pixel span covers screen column `x`.
    pub open spec fn spec_covers(self, x: u8) -> bool {
        x + 8 >= self.x && x < self.x
    }

    /// Decodes the four OAM bytes; the flag bits are priority (7), y-flip
    /// (6), x-flip (5) and palette (4).
    pub fn new(y: u8, x: u8, tile_index: u8, flags: u8) -> (r: OAM)
        ensures
            r.y == y,
            r.x == x,
            r.tile_index == tile_index,
            r.bg_window_over_obj == spec_bit(flags, 7),
            r.x_flip == spec_bit(flags, 5),
            r.y_flip == spec_bit(flags, 6),
            r.palette == spec_bit(flags, 4),
    {
        OAM {
            y,
            x,
            tile_index,
            bg_window_over_obj: check_bit(flags, 7),
            x_flip: check_bit(flags, 5),
            y_flip: check_bit(flags, 6),
            palette: check_bit(flags, 4),
        }
    }

    /// True when this sprite overlaps scanline `ly`.
    pub fn is_scaned(&self, ly: u8) -> (r: bool)
        ensures
            r == self.spec_visible(ly),
    {
        if self.y < 16 {
            return false;
        }
        let y_start = self.y as u32 - 16;
        let y_end = self.y as u32 - 16 + 8;
        ((ly as u32) >= y_start) && ((ly as u32) < y_end) && (self.x != 0)
    }

    /// True when this sprite's eight-pixel span covers screen column `x`.
    pub fn covers(&self, x: u8) -> (r: bool)
        ensures
            r == self.spec_covers(x),
    {
        (x as u16 + 8 >= self.x as u16) && (x < self.x)
    }
}

/// The two-bit colour that a palette byte assigns to a colour number.
pub open spec fn spec_palette_lookup(pal: u8, pvalue: u8) -> u8
    recommends
        pvalue <= 3,
{
    if pvalue == 0 {
        pal & 0x03
    } else if pvalue == 1 {
        (pal & 0x0C) >> 2
    } else if pvalue == 2 {
        (pal & 0x30) >> 4
    } else {
        (pal & 0xC0) >> 6
    }
}

/// A palette lookup never exceeds 3.
pub proof fn lemma_palette_lookup_bounded(pal: u8, pvalue: u8)
    ensures
        spec_palette_lookup(pal, pvalue) <= 3,
{
    assert(pal & 0x03 <= 3 && (pal & 0x0C) >> 2 <= 3 && (pal & 0x30) >> 4 <= 3 && (pal & 0xC0) >> 6
        <= 3) by (bit_vector);
}

/// The ARGB value of a two-bit colour.
pub open spec fn spec_argb(color_value: u8) -> u32
    recommends
        color_value <= 3,
{
    if color_value == 0 {
        0xE0F8D0
    } else if color_value == 1 {
        0x88C070
    } else if color_value == 2 {
        0x346856
    } else {
        0x081820
    }
}

/// True for the four ARGB values of the DMG palette.
pub open spec fn is_dmg_color(c: u32) -> bool {
    c == 0xE0F8D0 || c == 0x88C070 || c == 0x346856 || c == 0x081820
}

} // verus!
