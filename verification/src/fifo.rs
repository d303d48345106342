//! The pixel FIFO: a queue of up to sixteen pixels that merges background,
//! window and sprite slices and hands one pixel per dot to the PPU.

use crate::fetcher::Fetcher;
use crate::mmu::Mmu;
use crate::pixel::{Pixel, PixelType, OAM};
use crate::util::{check_bit, spec_bit};
use vstd::prelude::*;

verus! {

#[derive(Clone, Copy, PartialEq, Eq, Structural)]
pub enum FifoTrick {
    BgWindow,
    Sprite,
}

pub struct FIFO {
    pub x: u8,
    pub y: u8,
    pub status: FifoTrick,
    pub fetcher: Fetcher,
    pub queue: Vec<Pixel>,
    pub oam: Vec<OAM>,
}

impl FIFO {
    /// The structural invariant: the queue never exceeds sixteen pixels and
    /// only holds two-bit colours, at most ten sprites are live, and the
    /// sprite sub-state always has a full slice of eight pixels to merge
    /// into.
    pub open spec fn wf(self) -> bool {
        &&& self.queue@.len() <= 16
        &&& forall|i: int| 0 <= i < self.queue@.len() ==> (#[trigger] self.queue@[i]).pcolor <= 3
        &&& self.oam@.len() <= 10
        &&& self.fetcher.wf()
        &&& self.status == FifoTrick::Sprite ==> self.queue@.len() > 8
    }

    /// True when the window overlays column `x` of the current line: the
    /// window is enabled, the line is below WY, and `x` has reached WX-7.
    pub open spec fn spec_window_hit(self, mmu: Mmu, x: u8) -> bool {
        &&& spec_bit(mmu.spec_get(0xFF40), 5)
        &&& x + 7 >= mmu.spec_get(0xFF4B)
        &&& self.y > mmu.spec_get(0xFF4A)
    }

    /// The first live sprite whose span covers column `x`.
    pub open spec fn spec_sprite_first(oam: Seq<OAM>, x: u8) -> Option<OAM>
        decreases oam.len(),
    {
        if oam.len() == 0 {
            None
        } else if oam[0].spec_covers(x) {
            Some(oam[0])
        } else {
            FIFO::spec_sprite_first(oam.drop_first(), x)
        }
    }

    /// True when sprites are enabled and one covers column `x`.
    pub open spec fn spec_sprite_hit(self, mmu: Mmu, x: u8) -> bool {
        spec_bit(mmu.spec_get(0xFF40), 1) && FIFO::spec_sprite_first(self.oam@, x) is Some
    }

    /// What overlays the front pixel at column `x`: a window restart beats
    /// a sprite fetch; a sprite pixel is never overlaid again.
    pub open spec fn spec_overlap(self, mmu: Mmu, ptype: PixelType, x: u8) -> Option<PixelType> {
        match ptype {
            PixelType::BG => if self.spec_window_hit(mmu, x) {
                Some(PixelType::Window)
            } else if self.spec_sprite_hit(mmu, x) {
                Some(PixelType::Sprite)
            } else {
                None
            },
            PixelType::Window => if self.spec_sprite_hit(mmu, x) {
                Some(PixelType::Sprite)
            } else {
                None
            },
            PixelType::Sprite => None,
        }
    }

    /// One sprite pixel merged over the queued pixel beneath it.  A sprite
    /// that yields to the background wins only over colour 0; a sprite that
    /// does not yield loses only its own transparent pixels.  A covered
    /// pixel keeps its colour but is marked as sprite-owned.
    pub open spec fn spec_merge(under: Pixel, sprite: Pixel) -> Pixel {
        if sprite.bg_window_over_obj {
            if under.pcolor == 0 {
                sprite
            } else {
                Pixel { ptype: PixelType::Sprite, ..under }
            }
        } else {
            if sprite.pcolor != 0 {
                sprite
            } else {
                Pixel { ptype: PixelType::Sprite, ..under }
            }
        }
    }

    pub fn new() -> (r: FIFO)
        ensures
            r.wf(),
            r.x == 0 && r.y == 0,
            r.status == FifoTrick::BgWindow,
            r.queue@.len() == 0,
            r.oam@.len() == 0,
    {
        FIFO {
            x: 0,
            y: 0,
            status: FifoTrick::BgWindow,
            fetcher: Fetcher::new(),
            queue: Vec::new(),
            oam: Vec::new(),
        }
    }

    /// Starts a new line: column 0, empty queue, no sprites, and a fetcher
    /// aimed at the first tile.
    pub fn init(&mut self, mmu: &Mmu, y: u8)
        requires
            mmu.wf(),
        ensures
            final(self).wf(),
            final(self).x == 0,
            final(self).y == y,
            final(self).status == FifoTrick::BgWindow,
            final(self).queue@.len() == 0,
            final(self).oam@.len() == 0,
    {
        self.x = 0;
        self.y = y;
        self.queue.clear();
        self.oam.clear();
        self.status = FifoTrick::BgWindow;
        let ptype = self.get_fetcher_ptype(mmu, 0);
        self.fetcher.init(ptype, 0, y);
    }

    /// Installs the sprites the OAM scan selected for this line.
    pub fn set_oam(&mut self, oam: Vec<OAM>)
        requires
            old(self).wf(),
            oam@.len() <= 10,
        ensures
            final(self).wf(),
            *final(self) == (FIFO { oam, ..*old(self) }),
    {
        self.oam = oam;
    }

    /// True when the window overlays column `x` of the current line.
    pub fn check_window(&self, mmu: &Mmu, x: u8) -> (r: bool)
        requires
            mmu.wf(),
        ensures
            r == self.spec_window_hit(*mmu, x),
    {
        let lcdc = mmu.get(0xFF40);
        let window_enable = check_bit(lcdc, 5);
        if !window_enable {
            return false;
        }
        let wy = mmu.get(0xFF4A);
        let wx = mmu.get(0xFF4B);
        (x as u16 + 7 >= wx as u16) && (self.y > wy)
    }

    /// True when sprites are enabled and one covers column `x`.
    pub fn check_sprite(&self, mmu: &Mmu, x: u8) -> (r: bool)
        requires
            mmu.wf(),
        ensures
            r == self.spec_sprite_hit(*mmu, x),
    {
        let lcdc = mmu.get(0xFF40);
        let obj_enable = check_bit(lcdc, 1);
        if !obj_enable {
            return false;
        }
        self.get_oam(x).is_some()
    }

    /// The first live sprite covering column `x`.
    pub fn get_oam(&self, x: u8) -> (r: Option<OAM>)
        ensures
            r == FIFO::spec_sprite_first(self.oam@, x),
    {
        let mut i: usize = 0;
        proof {
            assert(self.oam@.skip(0) =~= self.oam@);
        }
        while i < self.oam.len()
            invariant
                i <= self.oam@.len(),
                FIFO::spec_sprite_first(self.oam@, x) == FIFO::spec_sprite_first(
                    self.oam@.skip(i as int),
                    x,
                ),
                forall|j: int| 0 <= j < i ==> !(#[trigger] self.oam@[j]).spec_covers(x),
            decreases self.oam@.len() - i,
        {
            let entry = self.oam[i];
            proof {
                assert(self.oam@.skip(i as int)[0] == self.oam@[i as int]);
            }
            if entry.covers(x) {
                return Some(entry);
            }
            proof {
                assert(self.oam@.skip(i as int).drop_first() =~= self.oam@.skip(i + 1));
            }
            i = i + 1;
        }
        proof {
            assert(self.oam@.skip(i as int).len() == 0);
        }
        None
    }

    /// What overlays the front pixel at column `x`.
    pub fn check_overlap(&self, mmu: &Mmu, ptype: PixelType, x: u8) -> (r: Option<PixelType>)
        requires
            mmu.wf(),
        ensures
            r == self.spec_overlap(*mmu, ptype, x),
    {
        match ptype {
            PixelType::BG => {
                if self.check_window(mmu, x) {
                    Some(PixelType::Window)
                } else if self.check_sprite(mmu, x) {
                    Some(PixelType::Sprite)
                } else {
                    None
                }
            },
            PixelType::Window => {
                if self.check_sprite(mmu, x) {
                    Some(PixelType::Sprite)
                } else {
                    None
                }
            },
            PixelType::Sprite => None,
        }
    }

    /// The kind of slice to fetch at column `x`: the window once it covers
    /// the column, the background otherwise.
    pub fn get_fetcher_ptype(&self, mmu: &Mmu, x: u8) -> (r: PixelType)
        requires
            mmu.wf(),
        ensures
            r == if self.spec_window_hit(*mmu, x) {
                PixelType::Window
            } else {
                PixelType::BG
            },
    {
        if self.check_window(mmu, x) {
            PixelType::Window
        } else {
            PixelType::BG
        }
    }

    /// Appends a pixel at the back of the queue.
    pub fn push_back(&mut self, pixel: Pixel)
        ensures
            final(self).queue@ == old(self).queue@.push(pixel),
            *final(self) == (FIFO { queue: final(self).queue, ..*old(self) }),
    {
        self.queue.push(pixel);
    }

    /// Removes and returns the front pixel, if any.
    pub fn pop_front(&mut self) -> (r: Option<Pixel>)
        ensures
            old(self).queue@.len() == 0 ==> r is None && *final(self) == *old(self),
            old(self).queue@.len() > 0 ==> r == Some(old(self).queue@[0]) && final(self).queue@
                == old(self).queue@.drop_first(),
            *final(self) == (FIFO { queue: final(self).queue, ..*old(self) }),
    {
        if self.queue.len() == 0 {
            return None;
        }
        let p = self.queue.remove(0);
        proof {
            assert(old(self).queue@.remove(0) =~= old(self).queue@.drop_first());
        }
        Some(p)
    }

    /// Drops every queued pixel and live sprite.
    pub fn clear(&mut self)
        ensures
            final(self).queue@.len() == 0,
            final(self).oam@.len() == 0,
            final(self).x == old(self).x && final(self).y == old(self).y,
            final(self).status == old(self).status,
            final(self).fetcher == old(self).fetcher,
    {
        self.queue.clear();
        self.oam.clear();
    }

    /// Advances the FIFO one dot.  In the background/window sub-state a
    /// pixel leaves the queue only when more than eight are buffered and
    /// nothing overlays it; a window hit restarts the line's fetch, and a
    /// sprite hit switches to the sprite sub-state.  In the sprite
    /// sub-state the fetched slice is merged over the front of the queue.
    pub fn trick(&mut self, mmu: &Mmu) -> (r: Option<Pixel>)
        requires
            old(self).wf(),
            mmu.wf(),
            old(self).x <= 160,
        ensures
            final(self).wf(),
            final(self).y == old(self).y,
            final(self).oam == old(self).oam,
            (r is Some) <==> (old(self).status == FifoTrick::BgWindow && old(self).queue@.len() > 8
                && old(self).spec_overlap(*mmu, old(self).queue@[0].ptype, old(self).x) is None),
            r is Some ==> r == Some(old(self).queue@[0]) && final(self).x == old(self).x + 1
                && old(self).queue@[0].pcolor <= 3,
            r is None ==> final(self).x == old(self).x,
            (old(self).status == FifoTrick::BgWindow && old(self).queue@.len() > 8 && old(
                self,
            ).spec_overlap(*mmu, old(self).queue@[0].ptype, old(self).x) == Some(
                PixelType::Window,
            )) ==> {
                &&& final(self).queue@.len() == 0
                &&& final(self).status == FifoTrick::BgWindow
                &&& final(self).fetcher.ptype == PixelType::Window
                &&& final(self).fetcher.scan_x == old(self).x
                &&& final(self).fetcher.scan_y == old(self).y
            },
            (old(self).status == FifoTrick::BgWindow && old(self).queue@.len() > 8 && old(
                self,
            ).spec_overlap(*mmu, old(self).queue@[0].ptype, old(self).x) == Some(
                PixelType::Sprite,
            )) ==> {
                let s = FIFO::spec_sprite_first(old(self).oam@, old(self).x)->Some_0;
                &&& final(self).status == FifoTrick::Sprite
                &&& final(self).queue == old(self).queue
                &&& final(self).fetcher.ptype == PixelType::Sprite
                &&& final(self).fetcher.scan_x == old(self).x
                &&& final(self).fetcher.scan_y == old(self).y
                &&& final(self).fetcher.oam_x == s.x
                &&& final(self).fetcher.oam_y == s.y
                &&& final(self).fetcher.x_flip == s.x_flip
                &&& final(self).fetcher.y_flip == s.y_flip
                &&& final(self).fetcher.bg_window_over_obj == s.bg_window_over_obj
                &&& final(self).fetcher.palette == s.palette
                &&& final(self).fetcher.tile_index == 0x8000 + s.tile_index * 16
            },
            (old(self).status == FifoTrick::BgWindow && !(old(self).queue@.len() > 8 && old(
                self,
            ).spec_overlap(*mmu, old(self).queue@[0].ptype, old(self).x) is Some)) ==> {
                let q1 = if old(self).queue@.len() > 8 {
                    old(self).queue@.drop_first()
                } else {
                    old(self).queue@
                };
                &&& final(self).status == FifoTrick::BgWindow
                &&& (old(self).fetcher.buffer@.len() > 0 && q1.len() <= 8) ==> final(self).queue@
                    == q1 + old(self).fetcher.buffer@ && final(self).fetcher.buffer@.len() == 0
                &&& !(old(self).fetcher.buffer@.len() > 0 && q1.len() <= 8) ==> final(self).queue@
                    == q1
            },
            old(self).status == FifoTrick::Sprite ==> {
                let n = old(self).fetcher.buffer@.len() as int;
                &&& old(self).fetcher.buffer@.len() > 0 ==> {
                    &&& final(self).status == FifoTrick::BgWindow
                    &&& final(self).queue@.len() == old(self).queue@.len()
                    &&& forall|i: int|
                        0 <= i < n ==> final(self).queue@[i] == FIFO::spec_merge(
                            old(self).queue@[i],
                            old(self).fetcher.buffer@[i],
                        )
                    &&& forall|i: int|
                        n <= i < final(self).queue@.len() ==> final(self).queue@[i] == old(
                            self,
                        ).queue@[i]
                }
                &&& old(self).fetcher.buffer@.len() == 0 ==> final(self).status
                    == FifoTrick::Sprite && final(self).queue == old(self).queue
            },
    {
        match self.status {
            FifoTrick::BgWindow => {
                let mut result: Option<Pixel> = None;
                if self.queue.len() > 8 {
                    let front_ptype = self.queue[0].ptype;
                    let new_fetch_event = self.check_overlap(mmu, front_ptype, self.x);
                    match new_fetch_event {
                        Some(PixelType::Window) => {
                            self.queue.clear();
                            self.fetcher.init(PixelType::Window, self.x, self.y);
                            return None;
                        },
                        Some(PixelType::Sprite) => {
                            self.status = FifoTrick::Sprite;
                            self.fetcher.init(PixelType::Sprite, self.x, self.y);
                            let oam_entry = match self.get_oam(self.x) {
                                Some(o) => o,
                                None => {
                                    proof {
                                        assert(false);
                                    }
                                    OAM {
                                        y: 0,
                                        x: 0,
                                        tile_index: 0,
                                        bg_window_over_obj: false,
                                        x_flip: false,
                                        y_flip: false,
                                        palette: false,
                                    }
                                },
                            };
                            self.fetcher.oam_x = oam_entry.x;
                            self.fetcher.oam_y = oam_entry.y;
                            self.fetcher.x_flip = oam_entry.x_flip;
                            self.fetcher.y_flip = oam_entry.y_flip;
                            self.fetcher.bg_window_over_obj = oam_entry.bg_window_over_obj;
                            self.fetcher.palette = oam_entry.palette;
                            self.fetcher.tile_index = 0x8000 + (oam_entry.tile_index as u16) * 16;
                            return None;
                        },
                        _ => {},
                    }
                    self.x = self.x + 1;
                    result = self.pop_front();
                }
                if self.fetcher.buffer.len() > 0 {
                    if self.queue.len() <= 8 {
                        let ghost pre = *self;
                        let n = self.fetcher.buffer.len();
                        let mut i: usize = 0;
                        while i < n
                            invariant
                                i <= n,
                                n <= 8,
                                pre.queue@.len() <= 8,
                                n == pre.fetcher.buffer@.len(),
                                self.x == pre.x && self.y == pre.y,
                                self.status == pre.status,
                                self.oam == pre.oam,
                                self.fetcher == pre.fetcher,
                                self.queue@ == pre.queue@ + pre.fetcher.buffer@.take(i as int),
                                forall|k: int|
                                    0 <= k < pre.fetcher.buffer@.len() ==> (
                                    #[trigger] pre.fetcher.buffer@[k]).pcolor <= 3,
                                forall|k: int|
                                    0 <= k < pre.queue@.len() ==> (
                                    #[trigger] pre.queue@[k]).pcolor <= 3,
                            decreases n - i,
                        {
                            let px = self.fetcher.buffer[i];
                            self.queue.push(px);
                            proof {
                                assert(self.queue@ =~= pre.queue@ + pre.fetcher.buffer@.take(
                                    i + 1,
                                ));
                            }
                            i = i + 1;
                        }
                        proof {
                            assert(self.queue@ =~= pre.queue@ + pre.fetcher.buffer@);
                        }
                        let fetcher_x = self.x + self.queue.len() as u8;
                        let ptype = self.get_fetcher_ptype(mmu, fetcher_x);
                        self.fetcher.init(ptype, fetcher_x, self.y);
                    }
                } else {
                    self.fetcher.trick(mmu);
                }
                result
            },
            FifoTrick::Sprite => {
                if self.fetcher.buffer.len() > 0 {
                    let n = self.fetcher.buffer.len();
                    let mut i: usize = 0;
                    while i < n
                        invariant
                            n == self.fetcher.buffer@.len(),
                            n <= 8,
                            i <= n,
                            self.queue@.len() == old(self).queue@.len(),
                            self.queue@.len() > 8,
                            self.fetcher == old(self).fetcher,
                            self.x == old(self).x && self.y == old(self).y,
                            self.status == old(self).status,
                            self.oam == old(self).oam,
                            forall|k: int|
                                0 <= k < n ==> (#[trigger] self.fetcher.buffer@[k]).pcolor <= 3,
                            forall|k: int|
                                0 <= k < i ==> self.queue@[k] == FIFO::spec_merge(
                                    old(self).queue@[k],
                                    self.fetcher.buffer@[k],
                                ),
                            forall|k: int|
                                i <= k < self.queue@.len() ==> self.queue@[k] == old(
                                    self,
                                ).queue@[k],
                            forall|k: int|
                                0 <= k < self.queue@.len() ==> (#[trigger] self.queue@[k]).pcolor
                                    <= 3,
                        decreases n - i,
                    {
                        let pixel = self.fetcher.buffer[i];
                        let under = self.queue[i];
                        let merged: Pixel = if pixel.bg_window_over_obj {
                            if under.pcolor == 0 {
                                pixel
                            } else {
                                Pixel { ptype: PixelType::Sprite, ..under }
                            }
                        } else {
                            if pixel.pcolor != 0 {
                                pixel
                            } else {
                                Pixel { ptype: PixelType::Sprite, ..under }
                            }
                        };
                        self.queue[i] = merged;
                        i = i + 1;
                    }
                    self.status = FifoTrick::BgWindow;
                    let fetcher_x = self.x + self.queue.len() as u8;
                    let ptype = self.get_fetcher_ptype(mmu, fetcher_x);
                    self.fetcher.init(ptype, fetcher_x, self.y);
                } else {
                    self.fetcher.trick(mmu);
                }
                None
            },
        }
    }
}

} // verus!

