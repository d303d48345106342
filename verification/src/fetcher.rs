//! The fetcher: a three-step pipeline that turns tile data into slices of
//! up to eight pixels.  Each step takes two dots, one idle and one working.

use crate::mmu::Mmu;
use crate::pixel::{spec_palette_lookup, Pixel, PixelType};
use crate::util::{check_bit, spec_bit};
use vstd::prelude::*;

verus! {

#[derive(Clone, Copy, PartialEq, Eq, Structural)]
pub enum FetcherStatus {
    GetTile,
    GetTileDataLow,
    GetTileDataHigh,
}

pub struct Fetcher {
    pub scan_x: u8,
    pub scan_y: u8,
    pub scx: u8,
    pub scy: u8,
    pub wx: u8,
    pub wy: u8,
    pub cycles: u16,
    pub oam_x: u8,
    pub oam_y: u8,
    pub x_flip: bool,
    pub y_flip: bool,
    pub palette: bool,
    pub bg_window_over_obj: bool,
    pub ptype: PixelType,
    pub status: FetcherStatus,
    pub tile_index: u16,
    pub tile_data_low: u8,
    pub tile_data_high: u8,
    pub buffer: Vec<Pixel>,
}

impl Fetcher {
    /// The structural invariant: the dot toggle is binary, the tile address
    /// leaves room for the two data bytes, and the emitted slice holds at
    /// most eight pixels whose colours are two bits.
    pub open spec fn wf(self) -> bool {
        &&& self.cycles <= 1
        &&& self.tile_index <= 0x9FF0
        &&& self.buffer@.len() <= 8
        &&& forall|i: int|
            0 <= i < self.buffer@.len() ==> (#[trigger] self.buffer@[i]).pcolor <= 3
    }

    /// True when every field that `init` latches agrees; the pipeline
    /// registers and the buffer may differ.
    pub open spec fn same_latch(a: Fetcher, b: Fetcher) -> bool {
        &&& a.scan_x == b.scan_x && a.scan_y == b.scan_y
        &&& a.scx == b.scx && a.scy == b.scy && a.wx == b.wx && a.wy == b.wy
        &&& a.oam_x == b.oam_x && a.oam_y == b.oam_y
        &&& a.x_flip == b.x_flip && a.y_flip == b.y_flip
        &&& a.palette == b.palette && a.bg_window_over_obj == b.bg_window_over_obj
        &&& a.ptype == b.ptype
    }

    /// The state after the tile step's register latch: the background
    /// latches the scroll registers, the window latches its position, and a
    /// sprite latches nothing.
    pub open spec fn spec_latched(self, mmu: Mmu) -> Fetcher {
        match self.ptype {
            PixelType::BG => Fetcher {
                scy: mmu.spec_get(0xFF42),
                scx: mmu.spec_get(0xFF43),
                ..self
            },
            PixelType::Window => Fetcher {
                wy: mmu.spec_get(0xFF4A),
                wx: mmu.spec_get(0xFF4B),
                ..self
            },
            PixelType::Sprite => self,
        }
    }

    /// The tile-data address the tile step computes, over the latched
    /// registers.  Tile maps sit at 0x9800 or 0x9C00 by LCDC bits 3 and 6;
    /// tile data is addressed unsigned from 0x8000 when LCDC bit 4 is set
    /// and signed from 0x9000 otherwise.  A sprite's address was supplied
    /// by the FIFO and passes through.
    pub open spec fn spec_tile_index_of(self, mmu: Mmu) -> u16 {
        let lcdc = mmu.spec_get(0xFF40);
        match self.ptype {
            PixelType::BG => {
                let base: int = if spec_bit(lcdc, 3) {
                    0x9C00
                } else {
                    0x9800
                };
                let mx = (self.scan_x + self.scx) % 256 / 8;
                let my = (self.scan_y + self.scy) % 256 / 8;
                let b = mmu.spec_get((base + mx + my * 32) as u16);
                if spec_bit(lcdc, 4) {
                    (0x8000 + b * 16) as u16
                } else {
                    (0x9000 + (b as i8) * 16) as u16
                }
            },
            PixelType::Window => {
                let base: int = if spec_bit(lcdc, 6) {
                    0x9C00
                } else {
                    0x9800
                };
                let w7 = (self.wx + 256 - 7) % 256;
                let mx = (self.scan_x + 256 - w7) % 256 / 8;
                let my = (self.scan_y + 256 - self.wy) % 256 / 8;
                let b = mmu.spec_get((base + mx + my * 32) as u16);
                if spec_bit(lcdc, 4) {
                    (0x8000 + b * 16) as u16
                } else {
                    (0x9000 + (b as i8) * 16) as u16
                }
            },
            PixelType::Sprite => self.tile_index,
        }
    }

    /// The row inside the tile that the current scanline reads, vertically
    /// flipped for sprites that ask for it.
    pub open spec fn spec_tile_y(self) -> int {
        match self.ptype {
            PixelType::BG => (self.scan_y + self.scy) % 8,
            PixelType::Window => (self.scan_y + 256 - self.wy) % 256 % 8,
            PixelType::Sprite => {
                let base = (self.scan_y + 256 - ((self.oam_y + 256 - 16) % 256)) % 256 % 8;
                if self.y_flip {
                    7 - base
                } else {
                    base
                }
            },
        }
    }

    /// The low tile-data byte.
    pub open spec fn spec_data_low(self, mmu: Mmu) -> u8 {
        mmu.spec_get((self.tile_index + self.spec_tile_y() * 2) as u16)
    }

    /// The high tile-data byte.
    pub open spec fn spec_data_high(self, mmu: Mmu) -> u8 {
        mmu.spec_get((self.tile_index + self.spec_tile_y() * 2 + 1) as u16)
    }

    /// The first pixel of the slice that reaches the screen: the leading
    /// pixels of a partially scrolled tile are dropped.
    pub open spec fn spec_buffer_start(self) -> int {
        match self.ptype {
            PixelType::BG => (self.scan_x + self.scx) % 8,
            PixelType::Window => (self.scan_x + 256 - self.wx) % 256 % 8,
            PixelType::Sprite => (self.scan_x + 256 - ((self.oam_x + 256 - 8) % 256)) % 256 % 8,
        }
    }

    /// The data-byte bit that pixel `i` of the slice reads: bit `7 - i`,
    /// or bit `i` for a horizontally flipped sprite.
    pub open spec fn spec_pixel_bit(self, i: int) -> u8
        recommends
            0 <= i < 8,
    {
        if self.ptype == PixelType::Sprite && self.x_flip {
            i as u8
        } else {
            (7 - i) as u8
        }
    }

    /// The two-bit colour number of pixel `i`: the low data byte gives bit
    /// 0, the high byte bit 1.
    pub open spec fn spec_pvalue(self, i: int) -> u8
        recommends
            0 <= i < 8,
    {
        let bit = self.spec_pixel_bit(i);
        ((if spec_bit(self.tile_data_low, bit) {
            1int
        } else {
            0int
        }) + 2 * (if spec_bit(self.tile_data_high, bit) {
            1int
        } else {
            0int
        })) as u8
    }

    /// The palette byte this slice reads: BGP for the background and the
    /// window, OBP1 or OBP0 for sprites.
    pub open spec fn spec_palette_byte(self, mmu: Mmu) -> u8 {
        match self.ptype {
            PixelType::Sprite => if self.palette {
                mmu.spec_get(0xFF49)
            } else {
                mmu.spec_get(0xFF48)
            },
            _ => mmu.spec_get(0xFF47),
        }
    }

    /// Pixel `i` of the slice.
    pub open spec fn spec_pixel_at(self, mmu: Mmu, i: int) -> Pixel
        recommends
            0 <= i < 8,
    {
        Pixel {
            ptype: self.ptype,
            pcolor: spec_palette_lookup(self.spec_palette_byte(mmu), self.spec_pvalue(i)),
            palette: self.palette,
            bg_window_over_obj: self.bg_window_over_obj,
        }
    }

    /// The whole emitted slice: pixels `start..8`.
    pub open spec fn spec_emitted(self, mmu: Mmu) -> Seq<Pixel> {
        Seq::new(
            (8 - self.spec_buffer_start()) as nat,
            |j: int| self.spec_pixel_at(mmu, self.spec_buffer_start() + j),
        )
    }

    pub fn new() -> (r: Fetcher)
        ensures
            r.wf(),
            r.scan_x == 0 && r.scan_y == 0 && r.scx == 0 && r.scy == 0 && r.wx == 0 && r.wy == 0,
            r.oam_x == 0 && r.oam_y == 0,
            !r.x_flip && !r.y_flip && !r.palette && !r.bg_window_over_obj,
            r.ptype == PixelType::BG,
            r.cycles == 0,
            r.status == FetcherStatus::GetTile,
            r.tile_index == 0 && r.tile_data_low == 0 && r.tile_data_high == 0,
            r.buffer@ == Seq::<Pixel>::empty(),
    {
        Fetcher {
            scan_x: 0,
            scan_y: 0,
            scx: 0,
            scy: 0,
            wx: 0,
            wy: 0,
            oam_x: 0,
            oam_y: 0,
            x_flip: false,
            y_flip: false,
            palette: false,
            bg_window_over_obj: false,
            ptype: PixelType::BG,
            cycles: 0,
            status: FetcherStatus::GetTile,
            tile_index: 0,
            tile_data_low: 0,
            tile_data_high: 0,
            buffer: Vec::new(),
        }
    }

    /// Restarts the pipeline for a new slice at screen position `(x, y)`.
    pub fn init(&mut self, ptype: PixelType, x: u8, y: u8)
        ensures
            final(self).wf(),
            final(self).scan_x == x && final(self).scan_y == y,
            final(self).ptype == ptype,
            final(self).scx == 0 && final(self).scy == 0 && final(self).wx == 0 && final(self).wy
                == 0,
            final(self).oam_x == 0 && final(self).oam_y == 0,
            !final(self).x_flip && !final(self).y_flip && !final(self).palette && !final(self).bg_window_over_obj,
            final(self).cycles == 0,
            final(self).status == FetcherStatus::GetTile,
            final(self).tile_index == 0 && final(self).tile_data_low == 0 && final(self).tile_data_high == 0,
            final(self).buffer@ == Seq::<Pixel>::empty(),
    {
        self.scan_x = x;
        self.scan_y = y;
        self.scx = 0;
        self.scy = 0;
        self.wx = 0;
        self.wy = 0;
        self.oam_x = 0;
        self.oam_y = 0;
        self.x_flip = false;
        self.y_flip = false;
        self.palette = false;
        self.bg_window_over_obj = false;
        self.ptype = ptype;
        self.cycles = 0;
        self.status = FetcherStatus::GetTile;
        self.tile_index = 0;
        self.tile_data_low = 0;
        self.tile_data_high = 0;
        self.buffer = Vec::new();
    }

    /// The tile step: latches the scroll or window registers and computes
    /// the tile-data address.
    pub fn get_tile(&mut self, mmu: &Mmu) -> (r: u16)
        requires
            old(self).wf(),
            mmu.wf(),
        ensures
            *final(self) == old(self).spec_latched(*mmu),
            r == old(self).spec_latched(*mmu).spec_tile_index_of(*mmu),
            r <= 0x9FF0,
    {
        let lcdc = mmu.get(0xFF40);
        let bg_window_tile_area = check_bit(lcdc, 4);
        let bg_tile_map_area = check_bit(lcdc, 3);
        let bg_map_start: u16 = if bg_tile_map_area {
            0x9C00
        } else {
            0x9800
        };
        let window_tile_map_area = check_bit(lcdc, 6);
        let window_map_start: u16 = if window_tile_map_area {
            0x9C00
        } else {
            0x9800
        };
        match self.ptype {
            PixelType::BG => {
                self.scy = mmu.get(0xFF42);
                self.scx = mmu.get(0xFF43);
                let bg_map_x = (self.scan_x as u16 + self.scx as u16) % 256 / 8;
                let bg_map_y = (self.scan_y as u16 + self.scy as u16) % 256 / 8;
                let bg_map_index = bg_map_x + bg_map_y * 32;
                let bg_map_byte = mmu.get(bg_map_start + bg_map_index);
                let tile_index: u16 = if bg_window_tile_area {
                    0x8000 + bg_map_byte as u16 * 16
                } else {
                    ((0x9000 as i32) + (bg_map_byte as i8) as i32 * 16) as u16
                };
                tile_index
            },
            PixelType::Window => {
                self.wy = mmu.get(0xFF4A);
                self.wx = mmu.get(0xFF4B);
                let w7 = (self.wx as u16 + 256 - 7) % 256;
                let bg_map_x = (self.scan_x as u16 + 256 - w7) % 256 / 8;
                let bg_map_y = (self.scan_y as u16 + 256 - self.wy as u16) % 256 / 8;
                let bg_map_index = bg_map_x + bg_map_y * 32;
                let bg_map_byte = mmu.get(window_map_start + bg_map_index);
                let tile_index: u16 = if bg_window_tile_area {
                    0x8000 + bg_map_byte as u16 * 16
                } else {
                    ((0x9000 as i32) + (bg_map_byte as i8) as i32 * 16) as u16
                };
                tile_index
            },
            PixelType::Sprite => self.tile_index,
        }
    }

    /// The low-byte step.
    pub fn get_tile_data_low(&self, mmu: &Mmu) -> (r: u8)
        requires
            self.wf(),
            mmu.wf(),
        ensures
            r == self.spec_data_low(*mmu),
    {
        let tile_y = self.tile_pixel_y();
        mmu.get(self.tile_index + tile_y * 2)
    }

    /// The high-byte step.
    pub fn get_tile_data_high(&self, mmu: &Mmu) -> (r: u8)
        requires
            self.wf(),
            mmu.wf(),
        ensures
            r == self.spec_data_high(*mmu),
    {
        let tile_y = self.tile_pixel_y();
        mmu.get(self.tile_index + tile_y * 2 + 1)
    }

    /// The tile row the data steps read.
    fn tile_pixel_y(&self) -> (r: u16)
        ensures
            r == self.spec_tile_y(),
            r <= 7,
    {
        match self.ptype {
            PixelType::BG => (self.scan_y as u16 + self.scy as u16) % 8,
            PixelType::Window => ((self.scan_y as u16 + 256 - self.wy as u16) % 256) % 8,
            PixelType::Sprite => {
                let o16 = (self.oam_y as u16 + 256 - 16) % 256;
                let base = ((self.scan_y as u16 + 256 - o16) % 256) % 8;
                if self.y_flip {
                    7 - base
                } else {
                    base
                }
            },
        }
    }

    /// Builds the emitted slice from the two data bytes.
    pub fn get_buffer(&self, mmu: &Mmu) -> (r: Vec<Pixel>)
        requires
            self.wf(),
            mmu.wf(),
        ensures
            r@ == self.spec_emitted(*mmu),
            forall|j: int| 0 <= j < r@.len() ==> (#[trigger] r@[j]).pcolor <= 3,
    {
        let mut result: Vec<Pixel> = Vec::new();
        let start: u16 = match self.ptype {
            PixelType::BG => (self.scan_x as u16 + self.scx as u16) % 8,
            PixelType::Window => ((self.scan_x as u16 + 256 - self.wx as u16) % 256) % 8,
            PixelType::Sprite => {
                let o8 = (self.oam_x as u16 + 256 - 8) % 256;
                ((self.scan_x as u16 + 256 - o8) % 256) % 8
            },
        };
        proof {
            assert(start == self.spec_buffer_start());
        }
        let mut buffer_index: u16 = start;
        while buffer_index < 8
            invariant
                self.wf(),
                mmu.wf(),
                start == self.spec_buffer_start(),
                start <= buffer_index <= 8,
                result@.len() == buffer_index - start,
                forall|j: int|
                    0 <= j < result@.len() ==> result@[j] == self.spec_pixel_at(*mmu, start + j),
                forall|j: int| 0 <= j < result@.len() ==> (#[trigger] result@[j]).pcolor <= 3,
            decreases 8 - buffer_index,
        {
            let pixel_bit: u8 = if matches!(self.ptype, PixelType::Sprite) && self.x_flip {
                buffer_index as u8
            } else {
                7 - buffer_index as u8
            };
            let pixel_low = check_bit(self.tile_data_low, pixel_bit);
            let pixel_high = check_bit(self.tile_data_high, pixel_bit);
            let pvalue = (if pixel_low {
                1u8
            } else {
                0u8
            }) + 2 * (if pixel_high {
                1u8
            } else {
                0u8
            });
            let pcolor = self.get_color_index(mmu, pvalue);
            result.push(
                Pixel {
                    ptype: self.ptype,
                    pcolor,
                    palette: self.palette,
                    bg_window_over_obj: self.bg_window_over_obj,
                },
            );
            proof {
                assert(pixel_bit == self.spec_pixel_bit(buffer_index as int));
                assert(pvalue == self.spec_pvalue(buffer_index as int));
            }
            buffer_index = buffer_index + 1;
        }
        proof {
            assert(result@ =~= self.spec_emitted(*mmu));
        }
        result
    }

    /// Looks the colour number up in the palette this slice uses.
    pub fn get_color_index(&self, mmu: &Mmu, pvalue: u8) -> (r: u8)
        requires
            mmu.wf(),
            pvalue <= 3,
        ensures
            r == spec_palette_lookup(self.spec_palette_byte(*mmu), pvalue),
            r <= 3,
    {
        let palette = match self.ptype {
            PixelType::Sprite => {
                if self.palette {
                    mmu.get(0xFF49)
                } else {
                    mmu.get(0xFF48)
                }
            },
            _ => mmu.get(0xFF47),
        };
        proof {
            crate::pixel::lemma_palette_lookup_bounded(palette, pvalue);
        }
        if pvalue == 0 {
            palette & 0x03
        } else if pvalue == 1 {
            (palette & 0x0C) >> 2
        } else if pvalue == 2 {
            (palette & 0x30) >> 4
        } else {
            (palette & 0xC0) >> 6
        }
    }

    /// Advances the pipeline one dot: every other dot is idle, and each
    /// working dot performs one step.  After the high-byte step the slice
    /// is emitted into the buffer.
    pub fn trick(&mut self, mmu: &Mmu)
        requires
            old(self).wf(),
            mmu.wf(),
        ensures
            final(self).wf(),
            old(self).cycles == 1 ==> *final(self) == (Fetcher { cycles: 0, ..*old(self) }),
            old(self).cycles == 0 && old(self).status == FetcherStatus::GetTile ==> *final(self)
                == (Fetcher {
                cycles: 1,
                status: FetcherStatus::GetTileDataLow,
                tile_index: old(self).spec_latched(*mmu).spec_tile_index_of(*mmu),
                ..old(self).spec_latched(*mmu)
            }),
            old(self).cycles == 0 && old(self).status == FetcherStatus::GetTileDataLow ==> *final(self) == (Fetcher {
                cycles: 1,
                status: FetcherStatus::GetTileDataHigh,
                tile_data_low: old(self).spec_data_low(*mmu),
                ..*old(self)
            }),
            old(self).cycles == 0 && old(self).status == FetcherStatus::GetTileDataHigh ==> {
                let g = Fetcher { tile_data_high: old(self).spec_data_high(*mmu), ..*old(self) };
                &&& final(self).cycles == 1
                &&& final(self).status == FetcherStatus::GetTile
                &&& final(self).tile_data_high == g.tile_data_high
                &&& final(self).tile_data_low == old(self).tile_data_low
                &&& final(self).tile_index == old(self).tile_index
                &&& final(self).buffer@ == g.spec_emitted(*mmu)
                &&& Fetcher::same_latch(*final(self), *old(self))
            },
    {
        if self.cycles == 1 {
            self.cycles = 0;
            return ;
        }
        self.cycles += 1;
        match self.status {
            FetcherStatus::GetTile => {
                let t = self.get_tile(mmu);
                self.tile_index = t;
                self.status = FetcherStatus::GetTileDataLow;
            },
            FetcherStatus::GetTileDataLow => {
                self.tile_data_low = self.get_tile_data_low(mmu);
                self.status = FetcherStatus::GetTileDataHigh;
            },
            FetcherStatus::GetTileDataHigh => {
                self.tile_data_high = self.get_tile_data_high(mmu);
                self.buffer = self.get_buffer(mmu);
                self.status = FetcherStatus::GetTile;
            },
        }
    }
}

} // verus!
