//! The machine: one owner of every component, the shared address bus
//! that routes each CPU-visible access, and the scheduler that keeps
//! picture, audio and interrupt time locked to the CPU cycle counter.
//! Every address resolves to something: unmapped regions read back
//! the open bus and never fail.

use vstd::prelude::*;
use crate::apu::{Apu, apu_wf};
use crate::cart::{Cartridge, LoadError, cart_wf};
use crate::input::{Controller, controller_wf};
use crate::mapper::{Mapper, spec_chr_index, spec_mapper_write, spec_prg_index};
use crate::ops::StatusFlags;
use crate::ppu::{Ppu, ppu_wf};

verus! {

/// The CPU register file.
pub struct CpuRegs {
    pub a: u8,
    pub x: u8,
    pub y: u8,
    pub s: u8,
    pub pc: u16,
    pub flags: StatusFlags,
}

/// The whole console.
pub struct Machine {
    pub regs: CpuRegs,
    /// Work RAM, mirrored across its window.
    pub ram: Vec<u8>,
    pub ppu: Ppu,
    pub apu: Apu,
    pub mapper: Mapper,
    pub pad1: Controller,
    pub pad2: Controller,
    /// The last value seen on the shared data lines.
    pub open_bus: u8,
    /// The one authoritative clock: CPU cycles since power-on.
    pub cy: u64,
    /// Picture-unit dots already executed; three per CPU cycle once
    /// the scheduler has caught the picture unit up.
    pub dots: u64,
    /// Cycles a sprite-table DMA has stolen since the last
    /// instruction accounted for them.
    pub dma_stall: u16,
}

pub open spec fn machine_wf(m: Machine) -> bool {
    &&& m.ram.len() == 2048
    &&& ppu_wf(m.ppu)
    &&& apu_wf(m.apu)
    &&& m.mapper.wf()
    &&& controller_wf(m.pad1)
    &&& controller_wf(m.pad2)
    &&& m.cy < 0x1000_0000_0000_0000u64
    &&& m.dots <= 3 * m.cy
    &&& m.ppu.frame <= m.dots
    &&& m.apu.phase <= m.cy
    &&& m.dma_stall <= 60513
}

/// A sprite DMA steals these cycles; the counter saturates far
/// beyond anything a real instruction stream can accumulate between
/// two instruction boundaries.
pub open spec fn spec_stall_bump(d: u16) -> u16 {
    if d <= 60000 {
        (d + 513) as u16
    } else {
        d
    }
}

/// The picture unit's timing position: only its own tick moves it,
/// never a bus access or the CPU.
pub open spec fn spec_ppu_pos_eq(a: Machine, b: Machine) -> bool {
    &&& b.ppu.dot == a.ppu.dot
    &&& b.ppu.scanline == a.ppu.scanline
    &&& b.ppu.frame == a.ppu.frame
    &&& b.ppu.odd == a.ppu.odd
}

/// Picture-unit fields a sprite DMA leaves alone: everything but the
/// sprite table itself.
pub open spec fn spec_ppu_same_but_oam(a: Ppu, b: Ppu) -> bool {
    &&& a.ctrl == b.ctrl
    &&& a.mask == b.mask
    &&& a.vblank == b.vblank
    &&& a.sprite0_hit == b.sprite0_hit
    &&& a.sprite_overflow == b.sprite_overflow
    &&& a.oam_addr == b.oam_addr
    &&& a.vram@ == b.vram@
    &&& a.palette@ == b.palette@
    &&& a.scroll_x == b.scroll_x
    &&& a.scroll_y == b.scroll_y
    &&& a.write_latch_second == b.write_latch_second
    &&& a.vram_addr == b.vram_addr
    &&& a.read_buffer == b.read_buffer
    &&& a.dot == b.dot
    &&& a.scanline == b.scanline
    &&& a.frame == b.frame
    &&& a.odd == b.odd
    &&& a.suppress_nmi == b.suppress_nmi
    &&& a.screen@ == b.screen@
}

/// Where a work-RAM access lands after mirroring.
pub open spec fn spec_ram_index(addr: u16) -> int {
    addr as int % 2048
}

impl Machine {
    /// Assemble a powered-on machine around a parsed cartridge.
    /// Fails exactly on the mapper identifiers the core does not
    /// implement.
    pub fn from_cartridge(cart: Cartridge) -> (r: Result<Machine, LoadError>)
        requires
            cart_wf(cart),
        ensures
            r is Ok <==> crate::cart::spec_mapper_supported(cart.mapper_id),
            r is Ok ==> machine_wf(r->Ok_0) && r->Ok_0.cy == 0 && r->Ok_0.mapper
                == crate::mapper::spec_initial_mapper(cart) && r->Ok_0.ram@ == Seq::<u8>::new(
                2048nat,
                |i: int| 0u8,
            ),
    {
        let mapper = match Mapper::from_cartridge(cart) {
            Ok(m) => m,
            Err(e) => {
                return Err(e);
            },
        };
        Ok(
            Machine {
                regs: CpuRegs {
                    a: 0,
                    x: 0,
                    y: 0,
                    s: 0xFD,
                    pc: 0,
                    flags: StatusFlags {
                        carry: false,
                        zero: false,
                        irq_disable: true,
                        decimal: false,
                        overflow: false,
                        negative: false,
                    },
                },
                ram: crate::cart::zero_vec(2048),
                ppu: Ppu::power_on(),
                apu: Apu::power_on(),
                mapper,
                pad1: Controller::power_on(),
                pad2: Controller::power_on(),
                open_bus: 0,
                cy: 0,
                dots: 0,
                dma_stall: 0,
            },
        )
    }

    /// One CPU-visible load, routed by address range. The result and
    /// every side effect are pinned per window; reads of unmapped or
    /// write-only locations return the open bus, a defined behavior
    /// and not an error.
    pub fn loadb(&mut self, addr: u16) -> (r: u8)
        requires
            machine_wf(*old(self)),
        ensures
            machine_wf(*final(self)),
            final(self).open_bus == r,
            final(self).regs == old(self).regs,
            final(self).ram@ == old(self).ram@,
            final(self).cy == old(self).cy,
            final(self).dots == old(self).dots,
            final(self).dma_stall == old(self).dma_stall,
            final(self).mapper == old(self).mapper,
            final(self).apu.phase == old(self).apu.phase,
            spec_ppu_pos_eq(*old(self), *final(self)),
            addr < 0x2000 ==> r == old(self).ram@[spec_ram_index(addr)] && final(self).ppu == old(self).ppu && final(self).apu == old(self).apu && final(self).pad1 == old(self).pad1
                && final(self).pad2 == old(self).pad2,
            0x2000 <= addr < 0x4000 ==> ({
                let idx = (addr % 8) as u8;
                let p = old(self).ppu;
                let m = old(self).mapper;
                let ob = old(self).open_bus;
                &&& final(self).apu == old(self).apu
                &&& final(self).pad1 == old(self).pad1
                &&& final(self).pad2 == old(self).pad2
                &&& idx == 2 ==> r as int == crate::ppu::spec_status_byte(p, ob) && final(self).ppu
                    == (Ppu {
                    vblank: false,
                    write_latch_second: false,
                    suppress_nmi: p.suppress_nmi || (p.scanline == crate::ppu::VBLANK_LINE
                        && p.dot <= 1),
                    ..p
                })
                &&& idx == 4 ==> r == p.oam@[p.oam_addr as int] && final(self).ppu == p
                &&& idx == 7 ==> ({
                    let a = p.vram_addr % 0x4000;
                    let nv = ((p.vram_addr + crate::ppu::spec_vram_incr(p.ctrl)) % 32768) as u16;
                    &&& a < 0x2000 ==> r == p.read_buffer && final(self).ppu == (Ppu {
                        read_buffer: m.cart().chr[spec_chr_index(m, a)],
                        vram_addr: nv,
                        ..p
                    })
                    &&& 0x2000 <= a < 0x3F00 ==> r == p.read_buffer && final(self).ppu == (Ppu {
                        read_buffer: p.vram@[crate::ppu::spec_nt_slot(
                            crate::mapper::spec_mirroring(m),
                            a,
                        )],
                        vram_addr: nv,
                        ..p
                    })
                    &&& 0x3F00 <= a ==> r == p.palette@[crate::ppu::spec_pal_slot(a)] && final(self).ppu == (Ppu { vram_addr: nv, ..p })
                })
                &&& (idx == 0 || idx == 1 || idx == 3 || idx == 5 || idx == 6) ==> r == ob && final(self).ppu == p
            }),
            addr == 0x4015 ==> r as int == crate::ops::bit_val(old(self).apu.len1 > 0, 1)
                + crate::ops::bit_val(old(self).apu.len2 > 0, 2) + crate::ops::bit_val(
                old(self).apu.len3 > 0,
                4,
            ) + crate::ops::bit_val(old(self).apu.len4 > 0, 8) + crate::ops::bit_val(
                old(self).apu.dmc_active,
                16,
            ) + crate::ops::bit_val(old(self).apu.frame_irq, 64) && final(self).apu == (Apu {
                frame_irq: false,
                ..old(self).apu
            }) && final(self).ppu == old(self).ppu && final(self).pad1 == old(self).pad1 && final(self).pad2 == old(self).pad2,
            addr == 0x4016 ==> ({
                let c = old(self).pad1;
                &&& final(self).ppu == old(self).ppu
                &&& final(self).apu == old(self).apu
                &&& final(self).pad2 == old(self).pad2
                &&& final(self).pad1.buttons == c.buttons
                &&& final(self).pad1.strobe == c.strobe
                &&& c.strobe ==> r == c.buttons % 2 && final(self).pad1.shift == c.shift
                &&& !c.strobe && c.shift < 8 ==> r as int == crate::render::spec_bit(c.buttons,
                    c.shift as int) && final(self).pad1.shift == c.shift + 1
                &&& !c.strobe && c.shift == 8 ==> r == 1 && final(self).pad1.shift == 8
            }),
            addr == 0x4017 ==> ({
                let c = old(self).pad2;
                &&& final(self).ppu == old(self).ppu
                &&& final(self).apu == old(self).apu
                &&& final(self).pad1 == old(self).pad1
                &&& final(self).pad2.buttons == c.buttons
                &&& final(self).pad2.strobe == c.strobe
                &&& c.strobe ==> r == c.buttons % 2 && final(self).pad2.shift == c.shift
                &&& !c.strobe && c.shift < 8 ==> r as int == crate::render::spec_bit(c.buttons,
                    c.shift as int) && final(self).pad2.shift == c.shift + 1
                &&& !c.strobe && c.shift == 8 ==> r == 1 && final(self).pad2.shift == 8
            }),
            0x4000 <= addr < 0x4015 ==> r == old(self).open_bus && final(self).ppu == old(self).ppu
                && final(self).apu == old(self).apu && final(self).pad1 == old(self).pad1 && final(self).pad2 == old(self).pad2,
            0x4018 <= addr < 0x8000 ==> r == old(self).open_bus && final(self).ppu == old(self).ppu
                && final(self).apu == old(self).apu && final(self).pad1 == old(self).pad1 && final(self).pad2 == old(self).pad2,
            0x8000 <= addr ==> r == old(self).mapper.cart().prg[spec_prg_index(old(self).mapper,
                addr)] && final(self).ppu == old(self).ppu && final(self).apu == old(self).apu
                && final(self).pad1 == old(self).pad1 && final(self).pad2 == old(self).pad2,
    {
        let r: u8 = if addr < 0x2000 {
            self.ram[addr as usize % 2048]
        } else if addr < 0x4000 {
            let ob = self.open_bus;
            self.ppu.reg_read(&self.mapper, (addr % 8) as u8, ob)
        } else if addr == 0x4015 {
            self.apu.read_status()
        } else if addr == 0x4016 {
            self.pad1.read_bit()
        } else if addr == 0x4017 {
            self.pad2.read_bit()
        } else if addr < 0x8000 {
            self.open_bus
        } else {
            self.mapper.prg_loadb(addr)
        };
        self.open_bus = r;
        r
    }

    /// One CPU-visible store, routed by address range. Stores to
    /// read-only or unmapped locations only refresh the open bus, a
    /// defined behavior and not an error. A store to the sprite-DMA
    /// register copies a whole page into sprite memory and records
    /// the stolen cycles for the interpreter to account.
    pub fn storeb(&mut self, addr: u16, v: u8)
        requires
            machine_wf(*old(self)),
        ensures
            machine_wf(*final(self)),
            final(self).open_bus == v,
            final(self).regs == old(self).regs,
            final(self).cy == old(self).cy,
            final(self).dots == old(self).dots,
            final(self).apu.phase == old(self).apu.phase,
            spec_ppu_pos_eq(*old(self), *final(self)),
            addr != 0x4014 ==> final(self).dma_stall == old(self).dma_stall,
            addr < 0x2000 ==> final(self).ram@ == old(self).ram@.update(spec_ram_index(addr), v)
                && final(self).ppu == old(self).ppu && final(self).apu == old(self).apu && final(self).mapper == old(self).mapper && final(self).pad1 == old(self).pad1 && final(self).pad2
                == old(self).pad2,
            0x2000 <= addr ==> final(self).ram@ == old(self).ram@,
            0x2000 <= addr < 0x4000 ==> ({
                let idx = (addr % 8) as u8;
                let p = old(self).ppu;
                let m = old(self).mapper;
                &&& final(self).apu == old(self).apu
                &&& final(self).pad1 == old(self).pad1
                &&& final(self).pad2 == old(self).pad2
                &&& idx != 7 ==> final(self).mapper == m
                &&& idx == 0 ==> final(self).ppu == (Ppu { ctrl: v, ..p })
                &&& idx == 1 ==> final(self).ppu == (Ppu { mask: v, ..p })
                &&& idx == 2 ==> final(self).ppu == p
                &&& idx == 3 ==> final(self).ppu == (Ppu { oam_addr: v, ..p })
                &&& idx == 4 ==> final(self).ppu == (Ppu {
                    oam: final(self).ppu.oam,
                    oam_addr: ((p.oam_addr + 1) % 256) as u8,
                    ..p
                }) && final(self).ppu.oam@ == p.oam@.update(p.oam_addr as int, v)
                &&& idx == 5 && !p.write_latch_second ==> final(self).ppu == (Ppu {
                    scroll_x: v,
                    write_latch_second: true,
                    ..p
                })
                &&& idx == 5 && p.write_latch_second ==> final(self).ppu == (Ppu {
                    scroll_y: v,
                    write_latch_second: false,
                    ..p
                })
                &&& idx == 6 && !p.write_latch_second ==> final(self).ppu == (Ppu {
                    vram_addr: ((v as int % 64) * 256 + p.vram_addr as int % 256) as u16,
                    write_latch_second: true,
                    ..p
                })
                &&& idx == 6 && p.write_latch_second ==> final(self).ppu == (Ppu {
                    vram_addr: (p.vram_addr as int - p.vram_addr as int % 256 + v) as u16,
                    write_latch_second: false,
                    ..p
                })
                &&& idx == 7 ==> ({
                    let a = p.vram_addr % 0x4000;
                    let nv = ((p.vram_addr + crate::ppu::spec_vram_incr(p.ctrl)) % 32768) as u16;
                    &&& a < 0x2000 ==> final(self).ppu == (Ppu { vram_addr: nv, ..p }) && (
                    m.cart().chr_is_ram ==> final(self).mapper.cart().chr@ == m.cart().chr@.update(
                        spec_chr_index(m, a),
                        v,
                    )) && (!m.cart().chr_is_ram ==> final(self).mapper == m) && final(self).mapper.cart().prg == m.cart().prg && crate::mapper::spec_mirroring(
                        final(self).mapper,
                    ) == crate::mapper::spec_mirroring(m) && (forall|q: u16| 0x8000 <= q
                        ==> spec_prg_index(final(self).mapper, q) == spec_prg_index(m, q)) && (
                    forall|q: u16| q < 0x2000 ==> spec_chr_index(final(self).mapper, q)
                        == spec_chr_index(m, q)) && crate::mapper::spec_irq_pending(
                        final(self).mapper,
                    ) == crate::mapper::spec_irq_pending(m)
                    &&& 0x2000 <= a < 0x3F00 ==> final(self).ppu == (Ppu {
                        vram: final(self).ppu.vram,
                        vram_addr: nv,
                        ..p
                    }) && final(self).ppu.vram@ == p.vram@.update(crate::ppu::spec_nt_slot(
                        crate::mapper::spec_mirroring(m),
                        a,
                    ), v) && final(self).mapper == m
                    &&& 0x3F00 <= a ==> final(self).ppu == (Ppu {
                        palette: final(self).ppu.palette,
                        vram_addr: nv,
                        ..p
                    }) && final(self).ppu.palette@ == p.palette@.update(crate::ppu::spec_pal_slot(
                        a,
                    ), v) && final(self).mapper == m
                })
            }),
            0x4000 <= addr < 0x4014 ==> final(self).apu.regs@ == old(self).apu.regs@.update(
                addr - 0x4000,
                v,
            ) && final(self).ppu == old(self).ppu && final(self).mapper == old(self).mapper
                && final(self).pad1 == old(self).pad1 && final(self).pad2 == old(self).pad2,
            addr == 0x4014 ==> final(self).ppu.oam@ == Seq::<u8>::new(256nat, |i: int|
                spec_dma_byte(*old(self), v, i)) && spec_ppu_same_but_oam(
                old(self).ppu,
                final(self).ppu,
            ) && final(self).apu
                == old(self).apu && final(self).mapper == old(self).mapper && final(self).pad1
                == old(self).pad1 && final(self).pad2 == old(self).pad2 && final(self).dma_stall
                == spec_stall_bump(old(self).dma_stall),
            addr == 0x4015 ==> final(self).apu.enable == v && final(self).apu.len1 == (if v % 2
                == 1 {
                old(self).apu.len1
            } else {
                0u8
            }) && final(self).apu.len2 == (if v / 2 % 2 == 1 {
                old(self).apu.len2
            } else {
                0u8
            }) && final(self).apu.len3 == (if v / 4 % 2 == 1 {
                old(self).apu.len3
            } else {
                0u8
            }) && final(self).apu.len4 == (if v / 8 % 2 == 1 {
                old(self).apu.len4
            } else {
                0u8
            }) && final(self).apu.dmc_active == (v / 16 % 2 == 1) && (v / 16 % 2 == 1 ==> final(self).apu.dmc_cur_addr as int == 0x4000 + old(self).apu.regs@[18] * 64 && final(self).apu.dmc_remaining as int == old(self).apu.regs@[19] * 16 + 1) && final(self).apu.regs@
                == old(self).apu.regs@ && final(self).apu.frame_irq == old(self).apu.frame_irq
                && final(self).apu.samples@ == old(self).apu.samples@ && final(self).ppu == old(self).ppu && final(self).mapper == old(self).mapper && final(self).pad1 == old(self).pad1
                && final(self).pad2 == old(self).pad2,
            addr == 0x4016 ==> final(self).pad1 == (crate::input::Controller {
                strobe: v % 2 == 1,
                shift: if v % 2 == 1 {
                    0u8
                } else {
                    old(self).pad1.shift
                },
                buttons: old(self).pad1.buttons,
            }) && final(self).pad2 == (crate::input::Controller {
                strobe: v % 2 == 1,
                shift: if v % 2 == 1 {
                    0u8
                } else {
                    old(self).pad2.shift
                },
                buttons: old(self).pad2.buttons,
            }) && final(self).ppu == old(self).ppu && final(self).apu == old(self).apu && final(self).mapper == old(self).mapper,
            addr == 0x4017 ==> final(self).apu == (Apu {
                five_step: v / 128 == 1,
                irq_inhibit: v / 64 % 2 == 1,
                frame_irq: old(self).apu.frame_irq && !(v / 64 % 2 == 1),
                seq_step: 0,
                seq_cycles: 0,
                ..old(self).apu
            }) && final(self).ppu == old(self).ppu && final(self).mapper == old(self).mapper,
            0x4018 <= addr < 0x8000 ==> final(self).ppu == old(self).ppu && final(self).apu == old(self).apu && final(self).mapper == old(self).mapper && final(self).pad1 == old(self).pad1
                && final(self).pad2 == old(self).pad2,
            0x8000 <= addr ==> final(self).mapper == spec_mapper_write(old(self).mapper, addr, v)
                && final(self).ppu == old(self).ppu && final(self).apu == old(self).apu && final(self).pad1 == old(self).pad1 && final(self).pad2 == old(self).pad2,
    {
        if addr < 0x2000 {
            let i = addr as usize % 2048;
            self.ram.set(i, v);
        } else if addr < 0x4000 {
            let idx = (addr % 8) as u8;
            self.ppu.reg_write(&mut self.mapper, idx, v);
        } else if addr < 0x4014 {
            self.apu.write_reg((addr - 0x4000) as usize, v);
        } else if addr == 0x4014 {
            self.oam_dma(v);
        } else if addr == 0x4015 {
            self.apu.write_control(v);
        } else if addr == 0x4016 {
            self.pad1.write_strobe(v);
            self.pad2.write_strobe(v);
        } else if addr == 0x4017 {
            self.apu.write_frame_mode(v);
        } else if addr < 0x8000 {
        } else {
            self.mapper.on_cpu_write(addr, v);
        }
        self.open_bus = v;
    }

    /// Sprite DMA: copy one source page into sprite memory and record
    /// the cycles the transfer steals from the CPU.
    fn oam_dma(&mut self, page: u8)
        requires
            machine_wf(*old(self)),
        ensures
            machine_wf(*final(self)),
            final(self).ppu.oam@ == Seq::<u8>::new(256nat, |i: int| spec_dma_byte(*old(self), page,
                i)),
            spec_ppu_same_but_oam(old(self).ppu, final(self).ppu),
            *final(self) == (Machine {
                ppu: final(self).ppu,
                dma_stall: spec_stall_bump(old(self).dma_stall),
                ..*old(self)
            }),
    {
        let mut i: usize = 0;
        let ghost orig = *self;
        while i < 256
            invariant
                machine_wf(*self),
                i <= 256,
                *self == (Machine { ppu: self.ppu, ..orig }),
                machine_wf(orig),
                spec_ppu_same_but_oam(orig.ppu, self.ppu),
                self.ppu.oam@.len() == 256,
                forall|j: int| 0 <= j < i ==> self.ppu.oam@[j] == spec_dma_byte(orig, page, j),
                forall|j: int| i <= j < 256 ==> self.ppu.oam@[j] == orig.ppu.oam@[j],
            decreases 256 - i,
        {
            let src: u16 = (page as u16) * 256 + i as u16;
            let b: u8 = self.dma_peek(src);
            proof {
                assert(b == spec_dma_byte(orig, page, i as int));
            }
            self.ppu.oam.set(i, b);
            i = i + 1;
        }
        if self.dma_stall <= 60000 {
            self.dma_stall = self.dma_stall + 513;
        }
        proof {
            assert(self.ppu.oam@ =~= Seq::<u8>::new(256nat, |j: int| spec_dma_byte(orig, page,
                j)));
        }
    }

    /// A side-effect-free read for the DMA engine: work RAM or the
    /// cartridge window; anything else reads as the open bus.
    fn dma_peek(&self, addr: u16) -> (r: u8)
        requires
            machine_wf(*self),
        ensures
            r == spec_peek(*self, addr),
    {
        if addr < 0x2000 {
            self.ram[addr as usize % 2048]
        } else if addr >= 0x8000 {
            self.mapper.prg_loadb(addr)
        } else {
            self.open_bus
        }
    }
}

/// What a side-effect-free read of an address yields: work RAM and
/// the cartridge window have stable values; device windows read here
/// as the open bus.
pub open spec fn spec_peek(m: Machine, addr: u16) -> u8 {
    if addr < 0x2000 {
        m.ram@[spec_ram_index(addr)]
    } else if addr >= 0x8000 {
        m.mapper.cart().prg[spec_prg_index(m.mapper, addr)]
    } else {
        m.open_bus
    }
}

/// The byte sprite DMA fetches for slot `i` of the transfer.
pub open spec fn spec_dma_byte(m: Machine, page: u8, i: int) -> u8 {
    spec_peek(m, (page * 256 + i) as u16)
}

} // verus!
