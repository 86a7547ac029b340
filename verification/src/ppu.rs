//! The picture unit: a dot counter inside a scanline counter inside a
//! frame, with hardware-exact wrap points, the status bits the
//! rendering state machine sets on its own, and the CPU-visible
//! register window. The pixel pipeline itself lives in `render`.
//!
//! Deliberate, documented approximations: the pre-render line is one
//! dot shorter on even-parity frames regardless of rendering; sprites
//! are always 8x8; scrolling is applied per pixel from the latched
//! scroll registers rather than through the incrementing address
//! copies; sprites beyond the eighth on a scanline are silently
//! dropped after the overflow flag is raised; and the status-read
//! NMI-suppression race is modeled as: a status read landing on the
//! exact vblank-entry dot suppresses that frame's interrupt.

use vstd::prelude::*;
use crate::mapper::Mapper;

verus! {

/// Dots on a full scanline.
pub const DOTS_PER_LINE: u16 = 341;

/// Scanlines per frame, the pre-render line included.
pub const LINES_PER_FRAME: u16 = 262;

/// Scanlines actually drawn.
pub const VISIBLE_LINES: u16 = 240;

/// Horizontal pixels actually drawn.
pub const VISIBLE_DOTS: u16 = 256;

/// The scanline on which vertical blank begins.
pub const VBLANK_LINE: u16 = 241;

/// The pre-render scanline, last of the frame.
pub const PRERENDER_LINE: u16 = 261;

/// What one dot of picture-unit time reported back to the scheduler.
#[derive(Clone, Copy, PartialEq, Eq, Structural, Debug)]
pub struct PpuTick {
    /// Vertical blank began this dot and the control register asks
    /// for the interrupt: deliver a non-maskable interrupt.
    pub vblank_nmi: bool,
    /// The mapper's scanline counter wants a maskable interrupt.
    pub scanline_irq: bool,
    /// The frame wrapped: a completed frame buffer is available.
    pub frame_completed: bool,
}

/// Full picture-unit state.
pub struct Ppu {
    /// Control register: base nametable, increment, pattern tables,
    /// NMI enable.
    pub ctrl: u8,
    /// Mask register: rendering enables.
    pub mask: u8,
    /// Status bits owned by the timing state machine.
    pub vblank: bool,
    pub sprite0_hit: bool,
    pub sprite_overflow: bool,
    /// Sprite-table address register.
    pub oam_addr: u8,
    /// Nametable RAM: four kilobytes so four-screen wiring needs no
    /// special case; two-screen wirings mirror into the lower half.
    pub vram: Vec<u8>,
    /// Palette RAM.
    pub palette: Vec<u8>,
    /// Sprite descriptor table.
    pub oam: Vec<u8>,
    /// Latched scroll registers.
    pub scroll_x: u8,
    pub scroll_y: u8,
    /// Shared write toggle of the scroll and address registers.
    pub write_latch_second: bool,
    /// Current VRAM address for data-port access.
    pub vram_addr: u16,
    /// Delayed read buffer of the data port.
    pub read_buffer: u8,
    /// Timing position.
    pub dot: u16,
    pub scanline: u16,
    pub frame: u64,
    /// Frame parity; flips at every frame wrap.
    pub odd: bool,
    /// A status read landed on the vblank-entry dot: suppress the
    /// interrupt that dot would have raised.
    pub suppress_nmi: bool,
    /// The finished picture: one palette-color byte per visible pixel.
    pub screen: Vec<u8>,
}

pub open spec fn ppu_wf(p: Ppu) -> bool {
    &&& p.vram.len() == 4096
    &&& p.palette.len() == 32
    &&& p.oam.len() == 256
    &&& p.screen.len() == 61440  // VISIBLE_DOTS * VISIBLE_LINES
    &&& p.dot < DOTS_PER_LINE
    &&& p.scanline < LINES_PER_FRAME
}

/// Whether the mask register turns any rendering on.
pub open spec fn spec_rendering_on(mask: u8) -> bool {
    mask / 8 % 2 == 1 || mask / 16 % 2 == 1
}

/// Whether the control register enables the vertical-blank interrupt.
pub open spec fn spec_nmi_enabled(ctrl: u8) -> bool {
    ctrl / 128 == 1
}

/// Dots on the pre-render line of a frame with the given parity: the
/// even-parity line is one dot shorter.
pub open spec fn spec_prerender_dots(odd: bool) -> int {
    if odd {
        DOTS_PER_LINE as int
    } else {
        DOTS_PER_LINE - 1
    }
}

/// Total dots in a frame of the given parity.
pub open spec fn spec_frame_dots(odd: bool) -> int {
    (LINES_PER_FRAME - 1) * DOTS_PER_LINE + spec_prerender_dots(odd)
}

/// Consecutive frames alternate in length: any pair of opposite
/// parities spans one dot less than two nominal frames.
pub proof fn lemma_frame_pair_dots()
    ensures
        spec_frame_dots(false) + spec_frame_dots(true) == 2 * (LINES_PER_FRAME as int)
            * (DOTS_PER_LINE as int) - 1,
        spec_frame_dots(false) == spec_frame_dots(true) - 1,
{
}

/// The timing position after one dot: the dot advances, wraps into
/// the next scanline at the line's end, and the pre-render line ends
/// one dot early on even parity; at the frame wrap the parity flips
/// and the frame counter steps.
pub open spec fn spec_next_position(p: Ppu) -> (u16, u16, u64, bool) {
    let line_dots = if p.scanline == PRERENDER_LINE {
        spec_prerender_dots(p.odd)
    } else {
        DOTS_PER_LINE as int
    };
    if p.dot + 1 < line_dots {
        ((p.dot + 1) as u16, p.scanline, p.frame, p.odd)
    } else if p.scanline + 1 < LINES_PER_FRAME {
        (0u16, (p.scanline + 1) as u16, p.frame, p.odd)
    } else {
        (0u16, 0u16, ((p.frame + 1) as u64), !p.odd)
    }
}

impl Ppu {
    /// Power-on state: cleared registers, cleared memories, timing at
    /// the first dot of the first frame.
    pub fn power_on() -> (r: Ppu)
        ensures
            ppu_wf(r),
            r.dot == 0 && r.scanline == 0 && r.frame == 0 && !r.odd,
            !r.vblank && !r.sprite0_hit && !r.sprite_overflow,
            r.ctrl == 0 && r.mask == 0,
            r.vram@ == Seq::<u8>::new(4096nat, |i: int| 0u8),
            r.palette@ == Seq::<u8>::new(32nat, |i: int| 0u8),
            r.oam@ == Seq::<u8>::new(256nat, |i: int| 0u8),
    {
        Ppu {
            ctrl: 0,
            mask: 0,
            vblank: false,
            sprite0_hit: false,
            sprite_overflow: false,
            oam_addr: 0,
            vram: crate::cart::zero_vec(4096),
            palette: crate::cart::zero_vec(32),
            oam: crate::cart::zero_vec(256),
            scroll_x: 0,
            scroll_y: 0,
            write_latch_second: false,
            vram_addr: 0,
            read_buffer: 0,
            dot: 0,
            scanline: 0,
            frame: 0,
            odd: false,
            suppress_nmi: false,
            screen: crate::cart::zero_vec(61440),
        }
    }
}


/// Palette RAM slot for a data-port address in the palette window:
/// the window repeats every 32 bytes and each fourth entry of the
/// upper half mirrors the lower.
pub open spec fn spec_pal_slot(addr: u16) -> int {
    let i = addr as int % 32;
    if i % 4 == 0 {
        i % 16
    } else {
        i
    }
}

pub fn pal_slot(addr: u16) -> (r: usize)
    ensures
        r as int == spec_pal_slot(addr),
        r < 32,
{
    let i: usize = addr as usize % 32;
    if i % 4 == 0 {
        i % 16
    } else {
        i
    }
}

/// Physical nametable RAM index for a data-port address in the
/// nametable window; the upper copy of the window folds down.
pub open spec fn spec_nt_slot(mode: crate::cart::MirrorMode, addr: u16) -> int
    recommends
        0x2000 <= addr < 0x3F00,
{
    let a = if addr >= 0x3000 {
        addr - 0x1000
    } else {
        addr as int
    };
    crate::render::spec_nt_index(mode, (a - 0x2000) / 1024, a % 1024)
}

pub fn nt_slot(mode: crate::cart::MirrorMode, addr: u16) -> (r: usize)
    requires
        0x2000 <= addr < 0x3F00,
    ensures
        r as int == spec_nt_slot(mode, addr),
        r < 4096,
{
    let a: u16 = if addr >= 0x3000 { addr - 0x1000 } else { addr };
    crate::render::nt_index(mode, (a - 0x2000) / 1024, a % 1024)
}

/// The status byte as the CPU sees it: the three status bits on top
/// of the residue the open bus leaves on the low five lines.
pub open spec fn spec_status_byte(p: Ppu, open_bus: u8) -> int {
    crate::ops::bit_val(p.vblank, 128) + crate::ops::bit_val(p.sprite0_hit, 64)
        + crate::ops::bit_val(p.sprite_overflow, 32) + open_bus as int % 32
}

/// The data-port address step the control register selects.
pub open spec fn spec_vram_incr(ctrl: u8) -> int {
    if ctrl / 4 % 2 == 1 {
        32
    } else {
        1
    }
}

impl Ppu {
    /// A CPU read of one register of the CPU-visible window. Reading
    /// the status register clears the vertical-blank bit and the
    /// shared write toggle, and on the exact vblank-entry dot it
    /// suppresses that frame's interrupt. Reading the data port goes
    /// through the one-byte delay buffer except in the palette
    /// window. Write-only registers read back the open bus.
    pub fn reg_read(&mut self, m: &Mapper, idx: u8, open_bus: u8) -> (r: u8)
        requires
            ppu_wf(*old(self)),
            m.wf(),
            idx < 8,
        ensures
            ppu_wf(*final(self)),
            idx == 2 ==> r as int == spec_status_byte(*old(self), open_bus) && *final(self) == (Ppu {
                vblank: false,
                write_latch_second: false,
                suppress_nmi: old(self).suppress_nmi || (old(self).scanline == VBLANK_LINE
                    && old(self).dot <= 1),
                ..*old(self)
            }),
            idx == 4 ==> r == old(self).oam@[old(self).oam_addr as int] && *final(self) == *old(self),
            idx == 7 ==> ({
                let a = old(self).vram_addr % 0x4000;
                let nv = ((old(self).vram_addr + spec_vram_incr(old(self).ctrl)) % 32768) as u16;
                &&& a < 0x2000 ==> r == old(self).read_buffer && *final(self) == (Ppu {
                    read_buffer: m.cart().chr[crate::mapper::spec_chr_index(*m, a)],
                    vram_addr: nv,
                    ..*old(self)
                })
                &&& 0x2000 <= a < 0x3F00 ==> r == old(self).read_buffer && *final(self) == (Ppu {
                    read_buffer: old(self).vram@[spec_nt_slot(crate::mapper::spec_mirroring(*m),
                        a)],
                    vram_addr: nv,
                    ..*old(self)
                })
                &&& 0x3F00 <= a ==> r == old(self).palette@[spec_pal_slot(a)] && *final(self)
                    == (Ppu { vram_addr: nv, ..*old(self) })
            }),
            idx == 0 || idx == 1 || idx == 3 || idx == 5 || idx == 6 ==> r == open_bus && *final(self) == *old(self),
    {
        if idx == 2 {
            let mut out: u8 = open_bus % 32;
            if self.vblank {
                out = out + 128;
            }
            if self.sprite0_hit {
                out = out + 64;
            }
            if self.sprite_overflow {
                out = out + 32;
            }
            if self.scanline == VBLANK_LINE && self.dot <= 1 {
                self.suppress_nmi = true;
            }
            self.vblank = false;
            self.write_latch_second = false;
            out
        } else if idx == 4 {
            self.oam[self.oam_addr as usize]
        } else if idx == 7 {
            let a: u16 = self.vram_addr % 0x4000;
            let incr: u16 = if self.ctrl / 4 % 2 == 1 { 32 } else { 1 };
            let nv: u16 = ((self.vram_addr as u32 + incr as u32) % 32768) as u16;
            if a < 0x2000 {
                let fetched = m.chr_loadb(a);
                let r = self.read_buffer;
                self.read_buffer = fetched;
                self.vram_addr = nv;
                r
            } else if a < 0x3F00 {
                let fetched = self.vram[nt_slot(m.mirroring(), a)];
                let r = self.read_buffer;
                self.read_buffer = fetched;
                self.vram_addr = nv;
                r
            } else {
                let r = self.palette[pal_slot(a)];
                self.vram_addr = nv;
                r
            }
        } else {
            open_bus
        }
    }

    /// A CPU write to one register of the window. The status register
    /// is read-only: writing it is a hardware-faithful no-op. The
    /// scroll and address registers share the two-step write toggle.
    pub fn reg_write(&mut self, m: &mut Mapper, idx: u8, v: u8)
        requires
            ppu_wf(*old(self)),
            old(m).wf(),
            idx < 8,
        ensures
            ppu_wf(*final(self)),
            final(m).wf(),
            idx != 7 ==> *final(m) == *old(m),
            idx == 0 ==> *final(self) == (Ppu { ctrl: v, ..*old(self) }),
            idx == 1 ==> *final(self) == (Ppu { mask: v, ..*old(self) }),
            idx == 2 ==> *final(self) == *old(self),
            idx == 3 ==> *final(self) == (Ppu { oam_addr: v, ..*old(self) }),
            idx == 4 ==> *final(self) == (Ppu {
                oam: final(self).oam,
                oam_addr: ((old(self).oam_addr + 1) % 256) as u8,
                ..*old(self)
            }) && final(self).oam@ == old(self).oam@.update(old(self).oam_addr as int, v),
            idx == 5 && !old(self).write_latch_second ==> *final(self) == (Ppu {
                scroll_x: v,
                write_latch_second: true,
                ..*old(self)
            }),
            idx == 5 && old(self).write_latch_second ==> *final(self) == (Ppu {
                scroll_y: v,
                write_latch_second: false,
                ..*old(self)
            }),
            idx == 6 && !old(self).write_latch_second ==> *final(self) == (Ppu {
                vram_addr: ((v as int % 64) * 256 + old(self).vram_addr as int % 256) as u16,
                write_latch_second: true,
                ..*old(self)
            }),
            idx == 6 && old(self).write_latch_second ==> *final(self) == (Ppu {
                vram_addr: (old(self).vram_addr as int - old(self).vram_addr as int % 256
                    + v) as u16,
                write_latch_second: false,
                ..*old(self)
            }),
            idx == 7 ==> ({
                let a = old(self).vram_addr % 0x4000;
                let nv = ((old(self).vram_addr + spec_vram_incr(old(self).ctrl)) % 32768) as u16;
                &&& a < 0x2000 ==> *final(self) == (Ppu { vram_addr: nv, ..*old(self) })
                    && (old(m).cart().chr_is_ram ==> final(m).cart().chr@ == old(m).cart().chr@.update(crate::mapper::spec_chr_index(*old(m), a), v)) && (!old(m).cart().chr_is_ram ==> *final(m) == *old(m)) && final(m).cart().chr_is_ram == old(m).cart().chr_is_ram && crate::mapper::spec_mirroring(*final(m))
                    == crate::mapper::spec_mirroring(*old(m)) && final(m).cart().prg == old(m).cart().prg && (forall|q: u16| 0x8000 <= q ==> crate::mapper::spec_prg_index(
                    *final(m),
                    q,
                ) == crate::mapper::spec_prg_index(*old(m), q)) && (forall|q: u16| q < 0x2000
                    ==> crate::mapper::spec_chr_index(*final(m), q)
                    == crate::mapper::spec_chr_index(*old(m), q)) && crate::mapper::spec_irq_pending(
                    *final(m),
                ) == crate::mapper::spec_irq_pending(*old(m))
                &&& 0x2000 <= a < 0x3F00 ==> *final(self) == (Ppu {
                    vram: final(self).vram,
                    vram_addr: nv,
                    ..*old(self)
                }) && final(self).vram@ == old(self).vram@.update(spec_nt_slot(
                    crate::mapper::spec_mirroring(*old(m)),
                    a,
                ), v) && *final(m) == *old(m)
                &&& 0x3F00 <= a ==> *final(self) == (Ppu {
                    palette: final(self).palette,
                    vram_addr: nv,
                    ..*old(self)
                }) && final(self).palette@ == old(self).palette@.update(spec_pal_slot(a), v)
                    && *final(m) == *old(m)
            }),
    {
        if idx == 0 {
            self.ctrl = v;
        } else if idx == 1 {
            self.mask = v;
        } else if idx == 2 {
        } else if idx == 3 {
            self.oam_addr = v;
        } else if idx == 4 {
            let a = self.oam_addr as usize;
            self.oam.set(a, v);
            self.oam_addr = ((self.oam_addr as u16 + 1) % 256) as u8;
        } else if idx == 5 {
            if !self.write_latch_second {
                self.scroll_x = v;
                self.write_latch_second = true;
            } else {
                self.scroll_y = v;
                self.write_latch_second = false;
            }
        } else if idx == 6 {
            if !self.write_latch_second {
                self.vram_addr = (v as u16 % 64) * 256 + self.vram_addr % 256;
                self.write_latch_second = true;
            } else {
                self.vram_addr = self.vram_addr - self.vram_addr % 256 + v as u16;
                self.write_latch_second = false;
            }
        } else {
            let a: u16 = self.vram_addr % 0x4000;
            let incr: u16 = if self.ctrl / 4 % 2 == 1 { 32 } else { 1 };
            let nv: u16 = ((self.vram_addr as u32 + incr as u32) % 32768) as u16;
            if a < 0x2000 {
                m.chr_storeb(a, v);
            } else if a < 0x3F00 {
                let slot = nt_slot(m.mirroring(), a);
                self.vram.set(slot, v);
            } else {
                let slot = pal_slot(a);
                self.palette.set(slot, v);
            }
            self.vram_addr = nv;
        }
    }
}



/// The dot at which vertical blank begins.
pub open spec fn spec_at_vbl_set(p: Ppu) -> bool {
    p.scanline == VBLANK_LINE && p.dot == 1
}

/// The pre-render dot at which the status bits clear.
pub open spec fn spec_at_status_clear(p: Ppu) -> bool {
    p.scanline == PRERENDER_LINE && p.dot == 1
}

/// Dots on which a visible pixel is produced.
pub open spec fn spec_visible_pixel(p: Ppu) -> bool {
    p.scanline < VISIBLE_LINES && 1 <= p.dot <= 256 && spec_rendering_on(p.mask)
}

/// Dots on which the mapper's scanline counter advances.
pub open spec fn spec_mapper_tick_dot(p: Ppu) -> bool {
    (p.scanline < VISIBLE_LINES || p.scanline == PRERENDER_LINE) && p.dot == 256
        && spec_rendering_on(p.mask)
}

/// CPU-visible ports and memories the timing machine never touches.
pub open spec fn spec_ports_eq(a: Ppu, b: Ppu) -> bool {
    &&& a.ctrl == b.ctrl
    &&& a.mask == b.mask
    &&& a.oam_addr == b.oam_addr
    &&& a.vram@ == b.vram@
    &&& a.palette@ == b.palette@
    &&& a.oam@ == b.oam@
    &&& a.scroll_x == b.scroll_x
    &&& a.scroll_y == b.scroll_y
    &&& a.write_latch_second == b.write_latch_second
    &&& a.vram_addr == b.vram_addr
    &&& a.read_buffer == b.read_buffer
}

impl Ppu {
    /// One dot of picture-unit time. Everything the dot does is
    /// pinned: the position steps per `spec_next_position`; vertical
    /// blank sets on its entry dot and clears, with both sprite
    /// flags, on the pre-render clear dot; the non-maskable interrupt
    /// is reported exactly on the entry dot when enabled and not
    /// suppressed by a same-dot status read; a visible dot draws one
    /// pixel and may latch the sprite-zero and overflow flags; and
    /// the mapper's scanline counter steps once per rendered line.
    pub fn tick(&mut self, m: &mut Mapper) -> (r: PpuTick)
        requires
            ppu_wf(*old(self)),
            old(m).wf(),
            old(self).frame < 0xFFFF_FFFF_FFFF_FFFFu64,
        ensures
            ppu_wf(*final(self)),
            final(m).wf(),
            (final(self).dot, final(self).scanline, final(self).frame, final(self).odd)
                == spec_next_position(*old(self)),
            final(self).vblank == (if spec_at_vbl_set(*old(self)) {
                true
            } else if spec_at_status_clear(*old(self)) {
                false
            } else {
                old(self).vblank
            }),
            final(self).sprite0_hit == (if spec_at_status_clear(*old(self)) {
                false
            } else if spec_visible_pixel(*old(self)) {
                old(self).sprite0_hit || crate::render::spec_s0_hit(*old(self), *old(m), old(
                    self,
                ).dot - 1, old(self).scanline as int)
            } else {
                old(self).sprite0_hit
            }),
            final(self).sprite_overflow == (if spec_at_status_clear(*old(self)) {
                false
            } else if old(self).scanline < VISIBLE_LINES && old(self).dot == 1
                && spec_rendering_on(old(self).mask) {
                old(self).sprite_overflow || crate::render::spec_cover_count(old(self).oam@, old(
                    self,
                ).scanline as int, 64) > 8
            } else {
                old(self).sprite_overflow
            }),
            final(self).suppress_nmi == (if spec_at_vbl_set(*old(self)) {
                false
            } else {
                old(self).suppress_nmi
            }),
            r.vblank_nmi == (spec_at_vbl_set(*old(self)) && spec_nmi_enabled(old(self).ctrl)
                && !old(self).suppress_nmi),
            r.frame_completed == (old(self).scanline == PRERENDER_LINE && old(self).dot + 1
                >= spec_prerender_dots(old(self).odd)),
            *final(m) == (if spec_mapper_tick_dot(*old(self)) {
                crate::mapper::spec_scanline_tick(*old(m))
            } else {
                *old(m)
            }),
            r.scanline_irq == crate::mapper::spec_irq_pending(*final(m)),
            final(self).screen@ == (if spec_visible_pixel(*old(self)) {
                old(self).screen@.update(old(self).scanline * 256 + old(self).dot - 1,
                    crate::render::spec_pixel_color(*old(self), *old(m), old(self).dot - 1, old(
                    self,
                ).scanline as int))
            } else {
                old(self).screen@
            }),
            spec_ports_eq(*old(self), *final(self)),
    {
        let at_vbl = self.scanline == VBLANK_LINE && self.dot == 1;
        let at_pre = self.scanline == PRERENDER_LINE && self.dot == 1;
        let rendering = self.mask / 8 % 2 == 1 || self.mask / 16 % 2 == 1;
        let mut nmi = false;
        if at_pre {
            self.vblank = false;
            self.sprite0_hit = false;
            self.sprite_overflow = false;
        }
        if self.scanline < VISIBLE_LINES && 1 <= self.dot && self.dot <= 256 && rendering {
            if self.dot == 1 {
                let cnt = crate::render::row_cover_count(self, self.scanline);
                if cnt > 8 {
                    self.sprite_overflow = true;
                }
            }
            crate::render::render_dot(self, m, self.dot - 1, self.scanline);
        }
        if (self.scanline < VISIBLE_LINES || self.scanline == PRERENDER_LINE) && self.dot == 256
            && rendering {
            m.scanline_tick();
        }
        if at_vbl {
            self.vblank = true;
            if self.ctrl / 128 == 1 && !self.suppress_nmi {
                nmi = true;
            }
            self.suppress_nmi = false;
        }
        let line_dots: u16 = if self.scanline == PRERENDER_LINE {
            if self.odd {
                341
            } else {
                340
            }
        } else {
            341
        };
        let mut completed = false;
        if self.dot + 1 < line_dots {
            self.dot = self.dot + 1;
        } else if self.scanline + 1 < LINES_PER_FRAME {
            self.dot = 0;
            self.scanline = self.scanline + 1;
        } else {
            self.dot = 0;
            self.scanline = 0;
            self.frame = self.frame + 1;
            self.odd = !self.odd;
            completed = true;
        }
        PpuTick { vblank_nmi: nmi, scanline_irq: m.irq_pending(), frame_completed: completed }
    }
}



/// The vertical-blank interrupt has a single possible source dot per
/// frame: two states of the same frame that can both report it sit at
/// the same scanline and dot. Together with `tick`'s contract -- the
/// interrupt is reported exactly on that dot, when enabled and not
/// suppressed by a same-dot status read -- it fires once per frame.
pub proof fn lemma_vblank_nmi_once(p: Ppu, q: Ppu)
    requires
        spec_at_vbl_set(p),
        spec_at_vbl_set(q),
        p.frame == q.frame,
    ensures
        p.scanline == q.scanline && p.dot == q.dot,
{
}

/// The sprite-zero flag latches on collisions and on nothing else:
/// starting clear, a dot leaves it set exactly when that dot draws a
/// visible pixel where an opaque sprite-zero pixel meets an opaque
/// background pixel. `tick`'s contract supplies the premise relating
/// the flag before and after the dot.
pub proof fn lemma_sprite_zero_first_collision(p: Ppu, m: Mapper, s0_after: bool)
    requires
        !p.sprite0_hit,
        s0_after == (if spec_at_status_clear(p) {
            false
        } else if spec_visible_pixel(p) {
            p.sprite0_hit || crate::render::spec_s0_hit(p, m, p.dot - 1, p.scanline as int)
        } else {
            p.sprite0_hit
        }),
    ensures
        s0_after <==> (spec_visible_pixel(p) && crate::render::spec_s0_hit(p, m, p.dot - 1,
            p.scanline as int)),
{
}


} // verus!
