//! The pixel pipeline: background tile fetch, sprite evaluation with
//! the eight-per-scanline limit, priority mixing and the sprite-zero
//! collision. Every step is a pure function of the picture unit's
//! memories, the latched registers and the mapper's banking, and each
//! executable function is pinned to its specification twin.

use vstd::prelude::*;
use crate::cart::MirrorMode;
use crate::mapper::{Mapper, spec_chr_index};
use crate::ppu::Ppu;
use crate::ppu::ppu_wf;

verus! {

/// Powers of two up to a byte's width.
pub open spec fn spec_pow2(i: int) -> int {
    if i == 0 {
        1
    } else if i == 1 {
        2
    } else if i == 2 {
        4
    } else if i == 3 {
        8
    } else if i == 4 {
        16
    } else if i == 5 {
        32
    } else if i == 6 {
        64
    } else {
        128
    }
}

/// Bit `i` of a byte, counting from the least significant.
pub open spec fn spec_bit(b: u8, i: int) -> int {
    b as int / spec_pow2(i) % 2
}

pub fn bit_at(b: u8, i: u8) -> (r: u8)
    requires
        i < 8,
    ensures
        r as int == spec_bit(b, i as int),
        r < 2,
{
    match i {
        0 => b % 2,
        1 => b / 2 % 2,
        2 => b / 4 % 2,
        3 => b / 8 % 2,
        4 => b / 16 % 2,
        5 => b / 32 % 2,
        6 => b / 64 % 2,
        _ => b / 128,
    }
}

/// Where a logical nametable slot and offset land in physical
/// nametable RAM, per the cartridge's wiring.
pub open spec fn spec_nt_index(mode: MirrorMode, nt: int, off: int) -> int {
    let phys = match mode {
        MirrorMode::Horizontal => nt / 2,
        MirrorMode::Vertical => nt % 2,
        MirrorMode::FourScreen => nt,
    };
    phys * 1024 + off
}

pub fn nt_index(mode: MirrorMode, nt: u16, off: u16) -> (r: usize)
    requires
        nt < 4,
        off < 1024,
    ensures
        r as int == spec_nt_index(mode, nt as int, off as int),
        r < 4096,
{
    let phys: usize = match mode {
        MirrorMode::Horizontal => nt as usize / 2,
        MirrorMode::Vertical => nt as usize % 2,
        MirrorMode::FourScreen => nt as usize,
    };
    phys * 1024 + off as usize
}

/// The two-bit color a pattern table yields for one pixel of a tile.
pub open spec fn spec_pattern_pixel(m: Mapper, base: u16, tile: u8, fx: int, fy: int) -> int {
    let lo = m.cart().chr[spec_chr_index(m, (base + tile * 16 + fy) as u16)];
    let hi = m.cart().chr[spec_chr_index(m, (base + tile * 16 + fy + 8) as u16)];
    spec_bit(lo, 7 - fx) + 2 * spec_bit(hi, 7 - fx)
}

pub fn pattern_pixel(m: &Mapper, base: u16, tile: u8, fx: u8, fy: u8) -> (r: u8)
    requires
        m.wf(),
        base == 0 || base == 0x1000,
        fx < 8,
        fy < 8,
    ensures
        r as int == spec_pattern_pixel(*m, base, tile, fx as int, fy as int),
        r < 4,
{
    let lo = m.chr_loadb(base + tile as u16 * 16 + fy as u16);
    let hi = m.chr_loadb(base + tile as u16 * 16 + fy as u16 + 8);
    bit_at(lo, 7 - fx) + 2 * bit_at(hi, 7 - fx)
}

/// The background pattern table the control register selects.
pub open spec fn spec_bg_base(ctrl: u8) -> u16 {
    if ctrl / 16 % 2 == 1 {
        0x1000u16
    } else {
        0u16
    }
}

/// The sprite pattern table the control register selects.
pub open spec fn spec_sprite_base(ctrl: u8) -> u16 {
    if ctrl / 8 % 2 == 1 {
        0x1000u16
    } else {
        0u16
    }
}

/// The background's palette index at one screen pixel, and whether it
/// is opaque, from the latched scroll and the nametable the control
/// register selects.
pub open spec fn spec_bg_pixel(p: Ppu, m: Mapper, x: int, y: int) -> (int, bool) {
    let wx = (x + p.scroll_x + (p.ctrl % 2) * 256) % 512;
    let wy = (y + p.scroll_y + (p.ctrl / 2 % 2) * 240) % 480;
    let nt = wx / 256 + 2 * (wy / 240);
    let nx = wx % 256;
    let ny = wy % 240;
    let tile = p.vram[spec_nt_index(crate::mapper::spec_mirroring(m), nt, (ny / 8) * 32 + nx / 8)];
    let attr = p.vram[spec_nt_index(
        crate::mapper::spec_mirroring(m),
        nt,
        960 + (ny / 32) * 8 + nx / 32,
    )];
    let quad = (ny % 32 / 16) * 2 + (nx % 32 / 16);
    let pal = attr as int / spec_pow2(2 * quad) % 4;
    let pix = spec_pattern_pixel(m, spec_bg_base(p.ctrl), tile, nx % 8, ny % 8);
    if pix == 0 {
        (0int, false)
    } else {
        (pal * 4 + pix, true)
    }
}

pub fn bg_pixel(p: &Ppu, m: &Mapper, x: u16, y: u16) -> (r: (u8, bool))
    requires
        ppu_wf(*p),
        m.wf(),
        x < 256,
        y < 240,
    ensures
        (r.0 as int, r.1) == spec_bg_pixel(*p, *m, x as int, y as int),
        r.0 < 16,
{
    let wx: u16 = (x + p.scroll_x as u16 + (p.ctrl as u16 % 2) * 256) % 512;
    let wy: u16 = (y + p.scroll_y as u16 + (p.ctrl as u16 / 2 % 2) * 240) % 480;
    let nt: u16 = wx / 256 + 2 * (wy / 240);
    let nx: u16 = wx % 256;
    let ny: u16 = wy % 240;
    let mir = m.mirroring();
    let tile = p.vram[nt_index(mir, nt, (ny / 8) * 32 + nx / 8)];
    let attr = p.vram[nt_index(mir, nt, 960 + (ny / 32) * 8 + nx / 32)];
    let quad: u8 = ((ny % 32 / 16) * 2 + (nx % 32 / 16)) as u8;
    let pal: u8 = match quad {
        0 => attr % 4,
        1 => attr / 4 % 4,
        2 => attr / 16 % 4,
        _ => attr / 64 % 4,
    };
    let base = if p.ctrl / 16 % 2 == 1 { 0x1000u16 } else { 0u16 };
    let pix = pattern_pixel(m, base, tile, (nx % 8) as u8, (ny % 8) as u8);
    if pix == 0 {
        (0u8, false)
    } else {
        (pal * 4 + pix, true)
    }
}

/// Whether sprite slot `i` covers screen row `y`: the stored position
/// is the row above the sprite's top.
pub open spec fn spec_covers_row(oam: Seq<u8>, i: int, y: int) -> bool {
    let sy = oam[4 * i] as int;
    sy + 1 <= y <= sy + 8
}

/// How many of the first `i` sprite slots cover row `y`.
pub open spec fn spec_cover_count(oam: Seq<u8>, y: int, i: int) -> int
    decreases i,
{
    if i <= 0 {
        0
    } else {
        spec_cover_count(oam, y, i - 1) + if spec_covers_row(oam, i - 1, y) {
            1int
        } else {
            0int
        }
    }
}

/// The two-bit pattern color of sprite slot `i` at screen position
/// (`x`, `y`), honoring both flip bits; zero where the sprite does not
/// cover the column.
pub open spec fn spec_sprite_pix(oam: Seq<u8>, m: Mapper, sbase: u16, i: int, x: int, y: int) -> int {
    let sx = oam[4 * i + 3] as int;
    let attr = oam[4 * i + 2];
    if sx <= x < sx + 8 {
        let fx0 = x - sx;
        let fy0 = y - 1 - oam[4 * i];
        let fx = if attr / 64 % 2 == 1 {
            7 - fx0
        } else {
            fx0
        };
        let fy = if attr / 128 == 1 {
            7 - fy0
        } else {
            fy0
        };
        spec_pattern_pixel(m, sbase, oam[4 * i + 1], fx, fy)
    } else {
        0
    }
}

/// The sprite slot whose pixel wins at (`x`, `y`), scanning from slot
/// `i`: the first slot that covers the row within the eight-sprite
/// budget and has an opaque pixel there. Slots past the budget are
/// dropped, the documented overflow policy.
pub open spec fn spec_sprite_winner(
    oam: Seq<u8>,
    m: Mapper,
    sbase: u16,
    x: int,
    y: int,
    i: int,
) -> Option<int>
    decreases 64 - i,
{
    if i >= 64 {
        None
    } else if spec_covers_row(oam, i, y) && spec_cover_count(oam, y, i) < 8 && spec_sprite_pix(
        oam,
        m,
        sbase,
        i,
        x,
        y,
    ) != 0 {
        Some(i)
    } else {
        spec_sprite_winner(oam, m, sbase, x, y, i + 1)
    }
}

/// What the winning sprite contributes: palette index in the sprite
/// half of palette RAM, whether it sits behind the background, and
/// whether it is sprite zero.
pub struct SpritePixel {
    pub color_idx: u8,
    pub behind: bool,
    pub is_zero: bool,
}

pub fn sprite_pixel(p: &Ppu, m: &Mapper, x: u16, y: u16) -> (r: Option<SpritePixel>)
    requires
        ppu_wf(*p),
        m.wf(),
        x < 256,
        y < 240,
    ensures
        ({
            let w = spec_sprite_winner(p.oam@, *m, spec_sprite_base(p.ctrl), x as int, y as int, 0);
            match r {
                None => w is None,
                Some(s) => {
                    &&& w is Some
                    &&& s.color_idx as int == 16 + (p.oam@[4 * w->0 + 2] as int % 4) * 4
                        + spec_sprite_pix(p.oam@, *m, spec_sprite_base(p.ctrl), w->0, x as int,
                        y as int)
                    &&& s.behind == (p.oam@[4 * w->0 + 2] / 32 % 2 == 1)
                    &&& s.is_zero == (w->0 == 0)
                    &&& s.color_idx < 32
                },
            }
        }),
{
    let sbase = if p.ctrl / 8 % 2 == 1 { 0x1000u16 } else { 0u16 };
    let ghost oam = p.oam@;
    let mut i: usize = 0;
    let mut cnt: u32 = 0;
    let mut found: Option<SpritePixel> = None;
    while i < 64
        invariant
            ppu_wf(*p),
            m.wf(),
            x < 256,
            y < 240,
            oam == p.oam@,
            sbase == spec_sprite_base(p.ctrl),
            i <= 64,
            cnt as int == spec_cover_count(oam, y as int, i as int),
            cnt <= i,
            match found {
                None => spec_sprite_winner(oam, *m, sbase, x as int, y as int, 0)
                    == spec_sprite_winner(oam, *m, sbase, x as int, y as int, i as int),
                Some(s) => {
                    let w = spec_sprite_winner(oam, *m, sbase, x as int, y as int, 0);
                    &&& w is Some
                    &&& s.color_idx as int == 16 + (oam[4 * w->0 + 2] as int % 4) * 4
                        + spec_sprite_pix(oam, *m, sbase, w->0, x as int, y as int)
                    &&& s.behind == (oam[4 * w->0 + 2] / 32 % 2 == 1)
                    &&& s.is_zero == (w->0 == 0)
                    &&& s.color_idx < 32
                },
            },
        decreases 64 - i,
    {
        let sy = p.oam[4 * i];
        let covers = sy as u16 + 1 <= y && y <= sy as u16 + 8;
        if covers {
            if cnt < 8 && matches!(found, None) {
                let sx = p.oam[4 * i + 3];
                let attr = p.oam[4 * i + 2];
                let tile = p.oam[4 * i + 1];
                let pix: u8 = if sx as u16 <= x && x < sx as u16 + 8 {
                    let fx0: u8 = (x - sx as u16) as u8;
                    let fy0: u8 = (y - 1 - sy as u16) as u8;
                    let fx = if attr / 64 % 2 == 1 { 7 - fx0 } else { fx0 };
                    let fy = if attr / 128 == 1 { 7 - fy0 } else { fy0 };
                    pattern_pixel(m, sbase, tile, fx, fy)
                } else {
                    0
                };
                if pix != 0 {
                    found = Some(SpritePixel {
                        color_idx: 16 + (attr % 4) * 4 + pix,
                        behind: attr / 32 % 2 == 1,
                        is_zero: i == 0,
                    });
                }
            }
            cnt = cnt + 1;
        }
        i = i + 1;
    }
    found
}

/// How many sprites cover row `y` in all: above eight, the overflow
/// status bit is raised.
pub fn row_cover_count(p: &Ppu, y: u16) -> (r: u32)
    requires
        ppu_wf(*p),
        y < 240,
    ensures
        r as int == spec_cover_count(p.oam@, y as int, 64),
        r <= 64,
{
    let mut i: usize = 0;
    let mut cnt: u32 = 0;
    while i < 64
        invariant
            ppu_wf(*p),
            y < 240,
            i <= 64,
            cnt as int == spec_cover_count(p.oam@, y as int, i as int),
            cnt <= i,
        decreases 64 - i,
    {
        let sy = p.oam[4 * i];
        if sy as u16 + 1 <= y && y <= sy as u16 + 8 {
            cnt = cnt + 1;
        }
        i = i + 1;
    }
    cnt
}


/// The palette slot one screen pixel resolves to and whether it is a
/// sprite-zero collision: background and sprite mixed by opacity and
/// the sprite's priority bit, the leftmost opaque sprite winning.
pub open spec fn spec_pixel_outcome(p: Ppu, m: Mapper, x: int, y: int) -> (int, bool) {
    let bg_on = p.mask / 8 % 2 == 1;
    let sp_on = p.mask / 16 % 2 == 1;
    let bg = spec_bg_pixel(p, m, x, y);
    let bgop = bg_on && bg.1;
    let bgidx = if bgop {
        bg.0
    } else {
        0int
    };
    let w = if sp_on {
        spec_sprite_winner(p.oam@, m, spec_sprite_base(p.ctrl), x, y, 0)
    } else {
        None
    };
    match w {
        Some(i) => {
            let ci = 16 + (p.oam@[4 * i + 2] as int % 4) * 4 + spec_sprite_pix(
                p.oam@,
                m,
                spec_sprite_base(p.ctrl),
                i,
                x,
                y,
            );
            let behind = p.oam@[4 * i + 2] / 32 % 2 == 1;
            let slot = if bgop && behind {
                bgidx
            } else {
                ci
            };
            (slot, bgop && i == 0)
        },
        None => (bgidx, false),
    }
}

/// The palette color byte finally written to the frame buffer.
pub open spec fn spec_pixel_color(p: Ppu, m: Mapper, x: int, y: int) -> u8 {
    p.palette@[spec_pixel_outcome(p, m, x, y).0]
}

/// Whether this pixel raises the sprite-zero hit flag.
pub open spec fn spec_s0_hit(p: Ppu, m: Mapper, x: int, y: int) -> bool {
    spec_pixel_outcome(p, m, x, y).1
}

/// Fields the pixel pipeline never touches.
pub open spec fn spec_same_but_render(a: Ppu, b: Ppu) -> bool {
    &&& a.ctrl == b.ctrl
    &&& a.mask == b.mask
    &&& a.vblank == b.vblank
    &&& a.sprite_overflow == b.sprite_overflow
    &&& a.oam_addr == b.oam_addr
    &&& a.vram@ == b.vram@
    &&& a.palette@ == b.palette@
    &&& a.oam@ == b.oam@
    &&& a.scroll_x == b.scroll_x
    &&& a.scroll_y == b.scroll_y
    &&& a.write_latch_second == b.write_latch_second
    &&& a.vram_addr == b.vram_addr
    &&& a.read_buffer == b.read_buffer
    &&& a.dot == b.dot
    &&& a.scanline == b.scanline
    &&& a.frame == b.frame
    &&& a.odd == b.odd
    &&& a.suppress_nmi == b.suppress_nmi
}

/// Draw one visible pixel: the frame buffer takes the mixed color,
/// and the sprite-zero flag latches on a collision, never clearing
/// mid-frame.
pub fn render_dot(p: &mut Ppu, m: &Mapper, x: u16, y: u16)
    requires
        ppu_wf(*old(p)),
        m.wf(),
        x < 256,
        y < 240,
    ensures
        ppu_wf(*final(p)),
        final(p).screen@ == old(p).screen@.update(y * 256 + x, spec_pixel_color(*old(p), *m,
            x as int, y as int)),
        final(p).sprite0_hit == (old(p).sprite0_hit || spec_s0_hit(*old(p), *m, x as int,
            y as int)),
        spec_same_but_render(*old(p), *final(p)),
        final(p).sprite_overflow == old(p).sprite_overflow,
{
    let bg_on = p.mask / 8 % 2 == 1;
    let sp_on = p.mask / 16 % 2 == 1;
    let bg = bg_pixel(p, m, x, y);
    let bgop = bg_on && bg.1;
    let bgidx: u8 = if bgop { bg.0 } else { 0 };
    let sp = if sp_on {
        sprite_pixel(p, m, x, y)
    } else {
        None
    };
    let (slot, hit): (u8, bool) = match sp {
        Some(s) => {
            let chosen = if bgop && s.behind { bgidx } else { s.color_idx };
            (chosen, bgop && s.is_zero)
        },
        None => (bgidx, false),
    };
    let color = p.palette[slot as usize];
    let idx: usize = y as usize * 256 + x as usize;
    p.screen.set(idx, color);
    if hit {
        p.sprite0_hit = true;
    }
}


} // verus!
