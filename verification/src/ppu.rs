//! The pixel-processing unit: a dot-driven state machine over the four
//! video modes, feeding the pixel FIFO and assembling the frame buffer.

use crate::fifo::{FifoTrick, FIFO};
use crate::mmu::Mmu;
use crate::pixel::{is_dmg_color, spec_argb, OAM};
use crate::util::spec_bit;
use vstd::prelude::*;

verus! {

/// The four video modes.
#[derive(Clone, Copy, PartialEq, Eq, Structural)]
pub enum PpuStatus {
    OAMScan,
    Drawing,
    HBlank,
    VBlank,
}

/// The mode bits mirrored into the low two bits of the STAT register.
pub open spec fn spec_mode_bits(mode: PpuStatus) -> u8 {
    match mode {
        PpuStatus::OAMScan => 2,
        PpuStatus::Drawing => 3,
        PpuStatus::HBlank => 0,
        PpuStatus::VBlank => 1,
    }
}

/// The OAM entry at slot `i` of the 40-entry table at 0xFE00.
pub open spec fn spec_oam_entry(mmu: Mmu, i: int) -> OAM {
    let y = mmu.spec_get((0xFE00 + i * 4) as u16);
    let x = mmu.spec_get((0xFE00 + i * 4 + 1) as u16);
    let tile_index = mmu.spec_get((0xFE00 + i * 4 + 2) as u16);
    let flags = mmu.spec_get((0xFE00 + i * 4 + 3) as u16);
    OAM {
        y,
        x,
        tile_index,
        bg_window_over_obj: spec_bit(flags, 7),
        x_flip: spec_bit(flags, 5),
        y_flip: spec_bit(flags, 6),
        palette: spec_bit(flags, 4),
    }
}

/// The sprites an OAM scan of line `ly` selects, walking slots `i..40`
/// with `room` selections left: the visible entries, in table order, cut
/// off after the tenth.
pub open spec fn spec_oam_scan_from(mmu: Mmu, ly: u8, i: int, room: int) -> Seq<OAM>
    decreases 40 - i,
{
    if i >= 40 || room <= 0 {
        Seq::empty()
    } else {
        let e = spec_oam_entry(mmu, i);
        if e.spec_visible(ly) {
            seq![e] + spec_oam_scan_from(mmu, ly, i + 1, room - 1)
        } else {
            spec_oam_scan_from(mmu, ly, i + 1, room)
        }
    }
}

/// The scan never selects more sprites than it has room for.
pub proof fn lemma_oam_scan_len(mmu: Mmu, ly: u8, i: int, room: int)
    ensures
        spec_oam_scan_from(mmu, ly, i, room).len() <= if room >= 0 {
            room
        } else {
            0
        },
    decreases 40 - i,
{
    if i >= 40 || room <= 0 {
    } else {
        lemma_oam_scan_len(mmu, ly, i + 1, room - 1);
        lemma_oam_scan_len(mmu, ly, i + 1, room);
    }
}

/// True when the FIFO will emit a pixel on this dot: it is filling the
/// line, more than eight pixels are queued, and nothing overlays the front
/// pixel.
pub open spec fn fifo_emits(f: FIFO, mmu: Mmu) -> bool {
    f.status == FifoTrick::BgWindow && f.queue@.len() > 8 && f.spec_overlap(
        mmu,
        f.queue@[0].ptype,
        f.x,
    ) is None
}

pub struct PPU {
    pub cycles: u32,
    pub status: PpuStatus,
    pub fifo: FIFO,
    pub ly_buffer: Vec<u32>,
    pub frame_buffer: Vec<u32>,
}

impl PPU {
    /// The line number mirrored at 0xFF44.
    pub open spec fn spec_ly(mmu: Mmu) -> u8 {
        mmu.spec_get(0xFF44)
    }

    /// The invariant that ties the PPU to the bus between dots: the frame
    /// buffer is one full frame, the line buffer holds at most a line of
    /// palette colours, and each mode constrains the dot counter, the line
    /// number and the FIFO's position.
    pub open spec fn inv(self, mmu: Mmu) -> bool {
        &&& self.fifo.wf()
        &&& self.frame_buffer@.len() == 23040
        &&& self.ly_buffer@.len() <= 160
        &&& forall|i: int|
            0 <= i < self.ly_buffer@.len() ==> is_dmg_color(#[trigger] self.ly_buffer@[i])
        &&& self.status == PpuStatus::OAMScan ==> self.cycles <= 79 && PPU::spec_ly(mmu) <= 143
            && self.ly_buffer@.len() == 0 && (self.cycles >= 1 ==> self.fifo.x == 0)
        &&& self.status == PpuStatus::Drawing ==> PPU::spec_ly(mmu) <= 143 && self.ly_buffer@.len()
            < 160 && self.fifo.x == self.ly_buffer@.len()
        &&& self.status == PpuStatus::HBlank ==> PPU::spec_ly(mmu) <= 143
            && self.ly_buffer@.len() == 0
        &&& self.status == PpuStatus::VBlank ==> PPU::spec_ly(mmu) <= 153
    }

    /// Builds a PPU bound to a bus whose line counter is still inside the
    /// frame, and announces OAM scan in the STAT register.
    pub fn new(mmu: &mut Mmu) -> (r: PPU)
        requires
            old(mmu).wf(),
            PPU::spec_ly(*old(mmu)) <= 143,
        ensures
            final(mmu).wf(),
            r.inv(*final(mmu)),
            r.cycles == 0,
            r.status == PpuStatus::OAMScan,
            r.ly_buffer@.len() == 0,
            r.frame_buffer@.len() == 23040,
            forall|i: int| 0 <= i < 23040 ==> r.frame_buffer@[i] == 0,
            final(mmu).cartridge == old(mmu).cartridge,
            final(mmu).boot == old(mmu).boot,
            forall|a: u16|
                0x8000 <= a && a != 0xFF41 ==> final(mmu).other.spec_get(a) == old(mmu).other.spec_get(a),
    {
        let mut frame_buffer: Vec<u32> = Vec::new();
        let mut i: usize = 0;
        while i < 23040
            invariant
                i <= 23040,
                frame_buffer@.len() == i,
                forall|j: int| 0 <= j < i ==> frame_buffer@[j] == 0,
            decreases 23040 - i,
        {
            frame_buffer.push(0);
            i = i + 1;
        }
        let mut ppu = PPU {
            cycles: 0,
            status: PpuStatus::OAMScan,
            fifo: FIFO::new(),
            ly_buffer: Vec::new(),
            frame_buffer,
        };
        ppu.set_mode(mmu, PpuStatus::OAMScan);
        ppu
    }

    /// The ARGB value of a two-bit colour.
    pub fn get_pixel_color(&self, color_value: u8) -> (r: u32)
        requires
            color_value <= 3,
        ensures
            r == spec_argb(color_value),
            is_dmg_color(r),
    {
        match color_value {
            0 => 0xE0F8D0,
            1 => 0x88C070,
            2 => 0x346856,
            _ => 0x081820,
        }
    }

    /// Scans the 40 OAM slots and keeps the first ten sprites visible on
    /// line `ly`, in table order.
    pub fn oam_scan(&self, mmu: &Mmu, ly: u8) -> (r: Vec<OAM>)
        requires
            mmu.wf(),
        ensures
            r@ == spec_oam_scan_from(*mmu, ly, 0, 10),
            r@.len() <= 10,
    {
        let mut result: Vec<OAM> = Vec::new();
        let mut index: u16 = 0;
        while index < 40
            invariant
                mmu.wf(),
                index <= 40,
                result@.len() <= 10,
                spec_oam_scan_from(*mmu, ly, 0, 10) == result@ + spec_oam_scan_from(
                    *mmu,
                    ly,
                    index as int,
                    10 - result@.len(),
                ),
            decreases 40 - index,
        {
            let oam_address = 0xFE00 + index * 4;
            let y = mmu.get(oam_address);
            let x = mmu.get(oam_address + 1);
            let tile_index = mmu.get(oam_address + 2);
            let flags = mmu.get(oam_address + 3);
            let oam = OAM::new(y, x, tile_index, flags);
            let ghost r_old = result@;
            let ghost room: int = 10 - result@.len();
            proof {
                assert(oam == spec_oam_entry(*mmu, index as int));
            }
            if oam.is_scaned(ly) && result.len() < 10 {
                result.push(oam);
                proof {
                    assert(spec_oam_scan_from(*mmu, ly, index as int, room) == seq![oam]
                        + spec_oam_scan_from(*mmu, ly, index + 1, room - 1));
                    assert(r_old + (seq![oam] + spec_oam_scan_from(*mmu, ly, index + 1, room - 1))
                        =~= result@ + spec_oam_scan_from(*mmu, ly, index + 1, room - 1));
                }
            } else {
                proof {
                    assert(spec_oam_scan_from(*mmu, ly, index as int, room) == spec_oam_scan_from(
                        *mmu,
                        ly,
                        index + 1,
                        room,
                    ));
                }
            }
            index = index + 1;
        }
        proof {
            assert(spec_oam_scan_from(*mmu, ly, 40, 10 - result@.len()) =~= Seq::<OAM>::empty());
            assert(result@ + Seq::<OAM>::empty() =~= result@);
        }
        result
    }

    /// Mirrors a new line number into 0xFF44.
    pub fn set_ly(&self, mmu: &mut Mmu, ly: u8)
        requires
            old(mmu).wf(),
        ensures
            final(mmu).wf(),
            final(mmu).cartridge == old(mmu).cartridge,
            final(mmu).boot == old(mmu).boot,
            final(mmu).other.memory@ == old(mmu).other.memory@.update(0xFF44 - 0x8000, ly),
            PPU::spec_ly(*final(mmu)) == ly,
    {
        mmu.set(0xFF44, ly);
    }

    /// The current line number.
    pub fn get_ly(&self, mmu: &Mmu) -> (r: u8)
        requires
            mmu.wf(),
        ensures
            r == PPU::spec_ly(*mmu),
    {
        mmu.get(0xFF44)
    }

    /// Raises the VBlank interrupt: sets bit 0 of 0xFF0F.
    pub fn set_vblank_interrupt(&self, mmu: &mut Mmu)
        requires
            old(mmu).wf(),
        ensures
            final(mmu).wf(),
            final(mmu).cartridge == old(mmu).cartridge,
            final(mmu).boot == old(mmu).boot,
            final(mmu).other.memory@ == old(mmu).other.memory@.update(
                0xFF0F - 0x8000,
                (old(mmu).spec_get(0xFF0F) | 1) as u8,
            ),
            spec_bit(final(mmu).spec_get(0xFF0F), 0),
    {
        let d8 = mmu.get(0xFF0F);
        mmu.set(0xFF0F, d8 | 0x1);
        proof {
            assert(spec_bit(d8 | 0x1, 0)) by (bit_vector);
        }
    }

    /// Switches mode: clears the line state the new mode expects and
    /// mirrors the mode into the low bits of STAT (0xFF41).
    pub fn set_mode(&mut self, mmu: &mut Mmu, mode: PpuStatus)
        requires
            old(mmu).wf(),
        ensures
            final(mmu).wf(),
            final(self).status == mode,
            final(self).cycles == old(self).cycles,
            final(self).frame_buffer == old(self).frame_buffer,
            mode == PpuStatus::OAMScan || mode == PpuStatus::HBlank ==> final(self).ly_buffer@.len() == 0,
            mode == PpuStatus::Drawing || mode == PpuStatus::VBlank ==> final(self).ly_buffer
                == old(self).ly_buffer,
            mode == PpuStatus::HBlank ==> final(self).fifo.queue@.len() == 0 && final(self).fifo.oam@.len() == 0 && final(self).fifo.x == old(self).fifo.x && final(self).fifo.y
                == old(self).fifo.y && final(self).fifo.status == old(self).fifo.status && final(self).fifo.fetcher == old(self).fifo.fetcher,
            mode != PpuStatus::HBlank ==> final(self).fifo == old(self).fifo,
            final(mmu).cartridge == old(mmu).cartridge,
            final(mmu).boot == old(mmu).boot,
            final(mmu).other.memory@ == old(mmu).other.memory@.update(
                0xFF41 - 0x8000,
                ((old(mmu).spec_get(0xFF41) & 0xFC) | spec_mode_bits(mode)) as u8,
            ),
    {
        let value: u8 = match mode {
            PpuStatus::OAMScan => {
                self.ly_buffer = Vec::new();
                0b10
            },
            PpuStatus::Drawing => 0b11,
            PpuStatus::HBlank => {
                self.ly_buffer.clear();
                self.fifo.clear();
                0b00
            },
            PpuStatus::VBlank => 0b01,
        };
        self.status = mode;
        let d8 = mmu.get(0xFF41);
        let stat = d8 & 0b11111100 | value;
        mmu.set(0xFF41, stat);
    }

    /// Advances the PPU one dot.
    ///
    /// OAM scan fills the sprite list on its first dot and hands over to
    /// drawing after dot 79.  Drawing forwards one FIFO dot; when the
    /// 160th pixel of the line arrives, the line is copied into the frame
    /// buffer and HBlank begins.  HBlank pads the line to dot 455 and then
    /// steps the line counter, entering VBlank after line 143.  VBlank
    /// raises its interrupt every dot and restarts the frame after line
    /// 153.  The dot counter saturates rather than wraps if a line ever
    /// fails to finish.
    pub fn trick(&mut self, mmu: &mut Mmu)
        requires
            old(mmu).wf(),
            old(self).inv(*old(mmu)),
        ensures
            final(mmu).wf(),
            final(self).inv(*final(mmu)),
            final(self).frame_buffer@.len() == 23040,
            final(mmu).cartridge == old(mmu).cartridge,
            final(mmu).boot == old(mmu).boot,
            forall|a: u16|
                0x8000 <= a && a != 0xFF0F && a != 0xFF41 && a != 0xFF44 ==> final(mmu).other.spec_get(a) == old(mmu).other.spec_get(a),
            old(self).status != PpuStatus::VBlank ==> final(mmu).spec_get(0xFF0F) == old(mmu).spec_get(0xFF0F),
            old(self).status == PpuStatus::OAMScan ==> {
                &&& final(self).cycles == old(self).cycles + 1
                &&& final(self).frame_buffer == old(self).frame_buffer
                &&& (old(self).cycles == 0 ==> final(self).status == PpuStatus::OAMScan && final(self).fifo.x == 0 && final(self).fifo.oam@ == spec_oam_scan_from(
                    *old(mmu),
                    PPU::spec_ly(*old(mmu)),
                    0,
                    10,
                ))
                &&& (0 < old(self).cycles < 79 ==> *final(self) == (PPU {
                    cycles: final(self).cycles,
                    ..*old(self)
                }) && *final(mmu) == *old(mmu))
                &&& (old(self).cycles == 79 ==> final(self).status == PpuStatus::Drawing)
            },
            old(self).status == PpuStatus::Drawing ==> {
                let emitted = fifo_emits(old(self).fifo, *old(mmu));
                let color = spec_argb(old(self).fifo.queue@[0].pcolor);
                let ly = PPU::spec_ly(*old(mmu));
                &&& final(self).cycles == if old(self).cycles < 0xFFFFFFFFu32 {
                    old(self).cycles + 1
                } else {
                    old(self).cycles as int
                }
                &&& (!emitted ==> final(self).status == PpuStatus::Drawing && final(self).ly_buffer
                    == old(self).ly_buffer && final(self).frame_buffer == old(self).frame_buffer)
                &&& (emitted && old(self).ly_buffer@.len() + 1 < 160 ==> final(self).status
                    == PpuStatus::Drawing && final(self).ly_buffer@ == old(self).ly_buffer@.push(
                    color,
                ) && final(self).frame_buffer == old(self).frame_buffer)
                &&& (emitted && old(self).ly_buffer@.len() + 1 == 160 ==> {
                    let full = old(self).ly_buffer@.push(color);
                    &&& final(self).status == PpuStatus::HBlank
                    &&& final(self).ly_buffer@.len() == 0
                    &&& final(self).fifo.queue@.len() == 0
                    &&& forall|j: int|
                        0 <= j < 160 ==> final(self).frame_buffer@[ly * 160 + j] == full[j]
                    &&& forall|k: int|
                        0 <= k < 23040 && !(ly * 160 <= k < ly * 160 + 160) ==> final(self).frame_buffer@[k] == old(self).frame_buffer@[k]
                })
            },
            old(self).status == PpuStatus::HBlank ==> {
                let ly = PPU::spec_ly(*old(mmu));
                &&& (old(self).cycles != 455 ==> final(self).status == PpuStatus::HBlank && *final(mmu) == *old(mmu) && final(self).frame_buffer == old(self).frame_buffer)
                &&& (old(self).cycles == 455 ==> {
                    &&& final(self).cycles == 0
                    &&& PPU::spec_ly(*final(mmu)) == ly + 1
                    &&& (ly == 143 ==> final(self).status == PpuStatus::VBlank)
                    &&& (ly != 143 ==> final(self).status == PpuStatus::OAMScan)
                    &&& final(self).frame_buffer == old(self).frame_buffer
                })
            },
            old(self).status == PpuStatus::VBlank ==> {
                let ly = PPU::spec_ly(*old(mmu));
                &&& spec_bit(final(mmu).spec_get(0xFF0F), 0)
                &&& final(self).frame_buffer == old(self).frame_buffer
                &&& (old(self).cycles != 455 ==> final(self).status == PpuStatus::VBlank
                    && PPU::spec_ly(*final(mmu)) == ly)
                &&& (old(self).cycles == 455 && ly == 153 ==> final(self).status
                    == PpuStatus::OAMScan && PPU::spec_ly(*final(mmu)) == 0 && final(self).cycles
                    == 0)
                &&& (old(self).cycles == 455 && ly != 153 ==> final(self).status
                    == PpuStatus::VBlank && PPU::spec_ly(*final(mmu)) == ly + 1 && final(self).cycles == 0)
            },
    {
        match self.status {
            PpuStatus::OAMScan => {
                if self.cycles == 0 {
                    let ly = self.get_ly(mmu);
                    self.fifo.init(mmu, ly);
                    let oams = self.oam_scan(mmu, ly);
                    proof {
                        lemma_oam_scan_len(*mmu, PPU::spec_ly(*mmu), 0, 10);
                    }
                    self.fifo.set_oam(oams);
                }
                if self.cycles == 79 {
                    self.set_mode(mmu, PpuStatus::Drawing);
                }
                self.cycles = self.cycles + 1;
            },
            PpuStatus::Drawing => {
                let pixel_option = self.fifo.trick(mmu);
                match pixel_option {
                    Some(pixel) => {
                        let color = self.get_pixel_color(pixel.pcolor);
                        self.ly_buffer.push(color);
                        if self.ly_buffer.len() == 160 {
                            let ly = self.get_ly(mmu);
                            let ghost full = self.ly_buffer@;
                            let ghost mid = *self;
                            let ghost bus = *mmu;
                            let base: usize = ly as usize * 160;
                            let mut scan_x: usize = 0;
                            while scan_x < 160
                                invariant
                                    *mmu == bus,
                                    self.fifo == mid.fifo,
                                    self.status == mid.status,
                                    self.cycles == mid.cycles,
                                    base == PPU::spec_ly(*mmu) as int * 160,
                                    base + 160 <= 23040,
                                    scan_x <= 160,
                                    self.ly_buffer@ == full,
                                    full.len() == 160,
                                    self.frame_buffer@.len() == 23040,
                                    forall|j: int|
                                        0 <= j < scan_x ==> self.frame_buffer@[base + j] == full[j],
                                    forall|k: int|
                                        0 <= k < 23040 && !(base <= k < base + 160) ==> self.frame_buffer@[k]
                                            == old(self).frame_buffer@[k],
                                decreases 160 - scan_x,
                            {
                                let px = self.ly_buffer[scan_x];
                                self.frame_buffer[base + scan_x] = px;
                                scan_x = scan_x + 1;
                            }
                            self.set_mode(mmu, PpuStatus::HBlank);
                        }
                    },
                    None => {},
                }
                if self.cycles < 0xFFFFFFFF {
                    self.cycles = self.cycles + 1;
                }
            },
            PpuStatus::HBlank => {
                let ly = self.get_ly(mmu);
                if self.cycles == 455 {
                    if ly == 143 {
                        self.set_mode(mmu, PpuStatus::VBlank);
                    } else {
                        self.set_mode(mmu, PpuStatus::OAMScan);
                    }
                    self.set_ly(mmu, ly + 1);
                    self.cycles = 0;
                } else {
                    if self.cycles < 0xFFFFFFFF {
                        self.cycles = self.cycles + 1;
                    }
                }
            },
            PpuStatus::VBlank => {
                self.set_vblank_interrupt(mmu);
                let ly = self.get_ly(mmu);
                if self.cycles == 455 {
                    if ly == 153 {
                        self.set_mode(mmu, PpuStatus::OAMScan);
                        self.set_ly(mmu, 0);
                    } else {
                        self.set_ly(mmu, ly + 1);
                    }
                    self.cycles = 0;
                } else {
                    if self.cycles < 0xFFFFFFFF {
                        self.cycles = self.cycles + 1;
                    }
                }
            },
        }
    }
}

/// Every pixel the drawing mode has queued for the current line is one of
/// the four DMG palette colours; a completed line copies exactly these
/// values into the frame buffer.
pub proof fn lemma_line_pixels_are_palette(p: PPU, mmu: Mmu)
    requires
        p.inv(mmu),
    ensures
        forall|i: int| 0 <= i < p.ly_buffer@.len() ==> is_dmg_color(#[trigger] p.ly_buffer@[i]),
{
}

} // verus!
