//! Cartridge mappers: a closed set of wiring schemes, selected at load
//! time. Each variant's address translation is a pure function of its
//! bank registers, and the only way those registers change is a CPU
//! write into the cartridge window. One variant also carries the
//! scanline-counted interrupt request line.

use vstd::prelude::*;
use crate::cart::{Cartridge, MirrorMode, cart_wf, CHR_BANK_SIZE, PRG_BANK_SIZE};

verus! {

/// Size in bytes of the half-size program banks one variant switches.
pub const PRG_HALF_BANK: usize = 8192;

/// Size in bytes of the fine graphics banks one variant switches.
pub const CHR_FINE_BANK: usize = 1024;

/// Bank registers of the variant with switchable program and graphics
/// banks and a scanline interrupt counter.
#[derive(Clone, Copy, PartialEq, Eq, Structural, Debug)]
pub struct IrqRegs {
    /// Which bank register the next data write lands in (0..=7).
    pub select: u8,
    /// Graphics bank registers: two coarse pairs and four fine banks.
    pub chr0: u8,
    pub chr1: u8,
    pub chr2: u8,
    pub chr3: u8,
    pub chr4: u8,
    pub chr5: u8,
    /// Program bank registers for the two movable windows.
    pub prg6: u8,
    pub prg7: u8,
    /// Swaps which program windows are fixed.
    pub prg_mode: bool,
    /// Swaps the two halves of the graphics window.
    pub chr_mode: bool,
    /// Mirroring override: true selects horizontal.
    pub mirror_horizontal: bool,
    /// Scanline counter state.
    pub irq_latch: u8,
    pub irq_counter: u8,
    pub irq_reload: bool,
    pub irq_enabled: bool,
    pub irq_pending: bool,
}

impl IrqRegs {
    /// All registers cleared, as at power-on.
    pub fn reset() -> (r: IrqRegs)
        ensures
            r == spec_irq_regs_reset(),
    {
        IrqRegs {
            select: 0,
            chr0: 0,
            chr1: 0,
            chr2: 0,
            chr3: 0,
            chr4: 0,
            chr5: 0,
            prg6: 0,
            prg7: 0,
            prg_mode: false,
            chr_mode: false,
            mirror_horizontal: false,
            irq_latch: 0,
            irq_counter: 0,
            irq_reload: false,
            irq_enabled: false,
            irq_pending: false,
        }
    }
}

pub open spec fn spec_irq_regs_reset() -> IrqRegs {
    IrqRegs {
        select: 0,
        chr0: 0,
        chr1: 0,
        chr2: 0,
        chr3: 0,
        chr4: 0,
        chr5: 0,
        prg6: 0,
        prg7: 0,
        prg_mode: false,
        chr_mode: false,
        mirror_horizontal: false,
        irq_latch: 0,
        irq_counter: 0,
        irq_reload: false,
        irq_enabled: false,
        irq_pending: false,
    }
}

/// The closed set of cartridge wiring schemes.
pub enum Mapper {
    /// Fixed mapping, no bank switching.
    Fixed { cart: Cartridge },
    /// Switchable low program bank; high bank fixed to the last.
    PrgSwitch { cart: Cartridge, bank: u8 },
    /// Switchable graphics bank; program fixed.
    ChrSwitch { cart: Cartridge, bank: u8 },
    /// Switchable program and graphics banks plus a scanline counter.
    PrgChrIrq { cart: Cartridge, regs: IrqRegs },
}

impl Mapper {
    pub open spec fn cart(self) -> Cartridge {
        match self {
            Mapper::Fixed { cart } => cart,
            Mapper::PrgSwitch { cart, .. } => cart,
            Mapper::ChrSwitch { cart, .. } => cart,
            Mapper::PrgChrIrq { cart, .. } => cart,
        }
    }

    pub open spec fn wf(self) -> bool {
        cart_wf(self.cart())
    }

    /// Build the mapper a cartridge's header asks for, registers
    /// cleared as at power-on.
    pub fn from_cartridge(cart: Cartridge) -> (r: Result<Mapper, crate::cart::LoadError>)
        requires
            cart_wf(cart),
        ensures
            r is Ok <==> crate::cart::spec_mapper_supported(cart.mapper_id),
            r is Ok ==> r->Ok_0.wf() && r->Ok_0.cart() == cart,
            r is Ok ==> r->Ok_0 == spec_initial_mapper(cart),
    {
        if cart.mapper_id == 0 {
            Ok(Mapper::Fixed { cart })
        } else if cart.mapper_id == 2 {
            Ok(Mapper::PrgSwitch { cart, bank: 0 })
        } else if cart.mapper_id == 3 {
            Ok(Mapper::ChrSwitch { cart, bank: 0 })
        } else if cart.mapper_id == 4 {
            Ok(Mapper::PrgChrIrq { cart, regs: IrqRegs::reset() })
        } else {
            Err(crate::cart::LoadError::UnsupportedMapper)
        }
    }
}

pub open spec fn spec_initial_mapper(cart: Cartridge) -> Mapper {
    if cart.mapper_id == 0 {
        Mapper::Fixed { cart }
    } else if cart.mapper_id == 2 {
        Mapper::PrgSwitch { cart, bank: 0 }
    } else if cart.mapper_id == 3 {
        Mapper::ChrSwitch { cart, bank: 0 }
    } else {
        Mapper::PrgChrIrq { cart, regs: spec_irq_regs_reset() }
    }
}

/// A bank index and an in-bank offset stay inside a region made of
/// whole banks.
proof fn lemma_bank_fit(len: int, size: int, b: int, off: int)
    requires
        size > 0,
        len >= size,
        len % size == 0,
        0 <= b < len / size,
        0 <= off < size,
    ensures
        0 <= b * size + off < len,
{
    vstd::arithmetic::div_mod::lemma_fundamental_div_mod(len, size);
    let q = len / size;
    assert(len == size * q);
    assert(b * size + off < size * q) by (nonlinear_arith)
        requires
            size > 0,
            0 <= b <= q - 1,
            0 <= off < size,
    ;
}

/// Where in the program region a CPU address in the cartridge window
/// falls, given the current bank registers.
pub open spec fn spec_prg_index(m: Mapper, addr: u16) -> int
    recommends
        m.wf(),
        0x8000 <= addr,
{
    let len = m.cart().prg.len() as int;
    match m {
        Mapper::Fixed { .. } => (addr - 0x8000) % len,
        Mapper::ChrSwitch { .. } => (addr - 0x8000) % len,
        Mapper::PrgSwitch { bank, .. } => {
            let nb = len / (PRG_BANK_SIZE as int);
            if addr < 0xC000 {
                (bank as int % nb) * PRG_BANK_SIZE + (addr - 0x8000)
            } else {
                (nb - 1) * PRG_BANK_SIZE + (addr - 0xC000)
            }
        },
        Mapper::PrgChrIrq { regs, .. } => {
            let nb = len / (PRG_HALF_BANK as int);
            let w = (addr - 0x8000) / (PRG_HALF_BANK as int);
            let b = if w == 0 {
                if regs.prg_mode {
                    nb - 2
                } else {
                    regs.prg6 as int % nb
                }
            } else if w == 1 {
                regs.prg7 as int % nb
            } else if w == 2 {
                if regs.prg_mode {
                    regs.prg6 as int % nb
                } else {
                    nb - 2
                }
            } else {
                nb - 1
            };
            b * PRG_HALF_BANK + (addr - 0x8000) % (PRG_HALF_BANK as int)
        },
    }
}

/// Where in the graphics region a picture-unit address falls.
pub open spec fn spec_chr_index(m: Mapper, addr: u16) -> int
    recommends
        m.wf(),
        addr < 0x2000,
{
    let len = m.cart().chr.len() as int;
    match m {
        Mapper::Fixed { .. } => addr as int % len,
        Mapper::PrgSwitch { .. } => addr as int % len,
        Mapper::ChrSwitch { bank, .. } => (bank as int % (len / (CHR_BANK_SIZE as int))) * CHR_BANK_SIZE
            + addr as int,
        Mapper::PrgChrIrq { regs, .. } => {
            let nb = len / (CHR_FINE_BANK as int);
            let w0 = addr as int / (CHR_FINE_BANK as int);
            let w = if regs.chr_mode {
                (w0 + 4) % 8
            } else {
                w0
            };
            let b = if w == 0 {
                regs.chr0 as int - regs.chr0 as int % 2
            } else if w == 1 {
                regs.chr0 as int - regs.chr0 as int % 2 + 1
            } else if w == 2 {
                regs.chr1 as int - regs.chr1 as int % 2
            } else if w == 3 {
                regs.chr1 as int - regs.chr1 as int % 2 + 1
            } else if w == 4 {
                regs.chr2 as int
            } else if w == 5 {
                regs.chr3 as int
            } else if w == 6 {
                regs.chr4 as int
            } else {
                regs.chr5 as int
            };
            (b % nb) * CHR_FINE_BANK + addr as int % (CHR_FINE_BANK as int)
        },
    }
}

/// The translated program index always lies inside the program region.
pub proof fn lemma_prg_index_in_bounds(m: Mapper, addr: u16)
    requires
        m.wf(),
        0x8000 <= addr,
    ensures
        0 <= spec_prg_index(m, addr) < m.cart().prg.len(),
{
    let len = m.cart().prg.len() as int;
    match m {
        Mapper::Fixed { .. } => {},
        Mapper::ChrSwitch { .. } => {},
        Mapper::PrgSwitch { bank, .. } => {
            let nb = len / (PRG_BANK_SIZE as int);
            vstd::arithmetic::div_mod::lemma_fundamental_div_mod(len, PRG_BANK_SIZE as int);
            if addr < 0xC000 {
                lemma_bank_fit(len, PRG_BANK_SIZE as int, bank as int % nb, addr - 0x8000);
            } else {
                lemma_bank_fit(len, PRG_BANK_SIZE as int, nb - 1, addr - 0xC000);
            }
        },
        Mapper::PrgChrIrq { regs, .. } => {
            let nb = len / (PRG_HALF_BANK as int);
            vstd::arithmetic::div_mod::lemma_fundamental_div_mod(len, PRG_HALF_BANK as int);
            assert(nb >= 2);
            let w = (addr - 0x8000) / (PRG_HALF_BANK as int);
            let b = if w == 0 {
                if regs.prg_mode {
                    nb - 2
                } else {
                    regs.prg6 as int % nb
                }
            } else if w == 1 {
                regs.prg7 as int % nb
            } else if w == 2 {
                if regs.prg_mode {
                    regs.prg6 as int % nb
                } else {
                    nb - 2
                }
            } else {
                nb - 1
            };
            assert(0 <= b < nb);
            lemma_bank_fit(len, PRG_HALF_BANK as int, b, (addr - 0x8000) % (PRG_HALF_BANK as int));
        },
    }
}

/// The translated graphics index always lies inside the graphics
/// region.
pub proof fn lemma_chr_index_in_bounds(m: Mapper, addr: u16)
    requires
        m.wf(),
        addr < 0x2000,
    ensures
        0 <= spec_chr_index(m, addr) < m.cart().chr.len(),
{
    let len = m.cart().chr.len() as int;
    match m {
        Mapper::Fixed { .. } => {},
        Mapper::PrgSwitch { .. } => {},
        Mapper::ChrSwitch { bank, .. } => {
            let nb = len / (CHR_BANK_SIZE as int);
            vstd::arithmetic::div_mod::lemma_fundamental_div_mod(len, CHR_BANK_SIZE as int);
            lemma_bank_fit(len, CHR_BANK_SIZE as int, bank as int % nb, addr as int);
        },
        Mapper::PrgChrIrq { regs, .. } => {
            let nb = len / (CHR_FINE_BANK as int);
            vstd::arithmetic::div_mod::lemma_fundamental_div_mod(len, CHR_FINE_BANK as int);
            assert(nb >= 8);
            let w0 = addr as int / (CHR_FINE_BANK as int);
            let w = if regs.chr_mode {
                (w0 + 4) % 8
            } else {
                w0
            };
            let b = if w == 0 {
                regs.chr0 as int - regs.chr0 as int % 2
            } else if w == 1 {
                regs.chr0 as int - regs.chr0 as int % 2 + 1
            } else if w == 2 {
                regs.chr1 as int - regs.chr1 as int % 2
            } else if w == 3 {
                regs.chr1 as int - regs.chr1 as int % 2 + 1
            } else if w == 4 {
                regs.chr2 as int
            } else if w == 5 {
                regs.chr3 as int
            } else if w == 6 {
                regs.chr4 as int
            } else {
                regs.chr5 as int
            };
            lemma_bank_fit(len, CHR_FINE_BANK as int, b % nb, addr as int % (CHR_FINE_BANK as int));
        },
    }
}

impl Mapper {
    /// Translate a CPU address in the cartridge window to an index
    /// into the program region.
    pub fn translate_prg_address(&self, addr: u16) -> (r: usize)
        requires
            self.wf(),
            0x8000 <= addr,
        ensures
            r == spec_prg_index(*self, addr),
            r < self.cart().prg.len(),
    {
        proof {
            lemma_prg_index_in_bounds(*self, addr);
        }
        match self {
            Mapper::Fixed { cart } => (addr as usize - 0x8000) % cart.prg.len(),
            Mapper::ChrSwitch { cart, .. } => (addr as usize - 0x8000) % cart.prg.len(),
            Mapper::PrgSwitch { cart, bank } => {
                let nb: usize = cart.prg.len() / PRG_BANK_SIZE;
                if addr < 0xC000 {
                    (*bank as usize % nb) * PRG_BANK_SIZE + (addr as usize - 0x8000)
                } else {
                    (nb - 1) * PRG_BANK_SIZE + (addr as usize - 0xC000)
                }
            },
            Mapper::PrgChrIrq { cart, regs } => {
                let nb: usize = cart.prg.len() / PRG_HALF_BANK;
                let w: usize = (addr as usize - 0x8000) / PRG_HALF_BANK;
                let b: usize = if w == 0 {
                    if regs.prg_mode {
                        nb - 2
                    } else {
                        regs.prg6 as usize % nb
                    }
                } else if w == 1 {
                    regs.prg7 as usize % nb
                } else if w == 2 {
                    if regs.prg_mode {
                        regs.prg6 as usize % nb
                    } else {
                        nb - 2
                    }
                } else {
                    nb - 1
                };
                b * PRG_HALF_BANK + (addr as usize - 0x8000) % PRG_HALF_BANK
            },
        }
    }

    /// Translate a picture-unit address below the nametable region to
    /// an index into the graphics region.
    pub fn translate_chr_address(&self, addr: u16) -> (r: usize)
        requires
            self.wf(),
            addr < 0x2000,
        ensures
            r == spec_chr_index(*self, addr),
            r < self.cart().chr.len(),
    {
        proof {
            lemma_chr_index_in_bounds(*self, addr);
        }
        match self {
            Mapper::Fixed { cart } => addr as usize % cart.chr.len(),
            Mapper::PrgSwitch { cart, .. } => addr as usize % cart.chr.len(),
            Mapper::ChrSwitch { cart, bank } => (*bank as usize % (cart.chr.len() / CHR_BANK_SIZE))
                * CHR_BANK_SIZE + addr as usize,
            Mapper::PrgChrIrq { cart, regs } => {
                let nb: usize = cart.chr.len() / CHR_FINE_BANK;
                let w0: usize = addr as usize / CHR_FINE_BANK;
                let w: usize = if regs.chr_mode {
                    (w0 + 4) % 8
                } else {
                    w0
                };
                let b: usize = if w == 0 {
                    regs.chr0 as usize - regs.chr0 as usize % 2
                } else if w == 1 {
                    regs.chr0 as usize - regs.chr0 as usize % 2 + 1
                } else if w == 2 {
                    regs.chr1 as usize - regs.chr1 as usize % 2
                } else if w == 3 {
                    regs.chr1 as usize - regs.chr1 as usize % 2 + 1
                } else if w == 4 {
                    regs.chr2 as usize
                } else if w == 5 {
                    regs.chr3 as usize
                } else if w == 6 {
                    regs.chr4 as usize
                } else {
                    regs.chr5 as usize
                };
                (b % nb) * CHR_FINE_BANK + addr as usize % CHR_FINE_BANK
            },
        }
    }

    /// Read one byte of program memory through the current banking.
    pub fn prg_loadb(&self, addr: u16) -> (r: u8)
        requires
            self.wf(),
            0x8000 <= addr,
        ensures
            r == self.cart().prg[spec_prg_index(*self, addr)],
    {
        let idx = self.translate_prg_address(addr);
        match self {
            Mapper::Fixed { cart } => cart.prg[idx],
            Mapper::PrgSwitch { cart, .. } => cart.prg[idx],
            Mapper::ChrSwitch { cart, .. } => cart.prg[idx],
            Mapper::PrgChrIrq { cart, .. } => cart.prg[idx],
        }
    }

    /// Read one byte of graphics memory through the current banking.
    pub fn chr_loadb(&self, addr: u16) -> (r: u8)
        requires
            self.wf(),
            addr < 0x2000,
        ensures
            r == self.cart().chr[spec_chr_index(*self, addr)],
    {
        let idx = self.translate_chr_address(addr);
        match self {
            Mapper::Fixed { cart } => cart.chr[idx],
            Mapper::PrgSwitch { cart, .. } => cart.chr[idx],
            Mapper::ChrSwitch { cart, .. } => cart.chr[idx],
            Mapper::PrgChrIrq { cart, .. } => cart.chr[idx],
        }
    }

    /// The nametable wiring currently in force: the cartridge's, or
    /// the override register on the variant that has one.
    pub fn mirroring(&self) -> (r: MirrorMode)
        ensures
            r == spec_mirroring(*self),
    {
        match self {
            Mapper::PrgChrIrq { cart, regs } => {
                if matches!(cart.mirroring, MirrorMode::FourScreen) {
                    MirrorMode::FourScreen
                } else if regs.mirror_horizontal {
                    MirrorMode::Horizontal
                } else {
                    MirrorMode::Vertical
                }
            },
            Mapper::Fixed { cart } => cart.mirroring,
            Mapper::PrgSwitch { cart, .. } => cart.mirroring,
            Mapper::ChrSwitch { cart, .. } => cart.mirroring,
        }
    }

    /// Whether the scanline counter has raised the interrupt line.
    pub fn irq_pending(&self) -> (r: bool)
        ensures
            r == spec_irq_pending(*self),
    {
        match self {
            Mapper::PrgChrIrq { regs, .. } => regs.irq_pending,
            _ => false,
        }
    }
}

pub open spec fn spec_mirroring(m: Mapper) -> MirrorMode {
    match m {
        Mapper::PrgChrIrq { cart, regs } => {
            if cart.mirroring is FourScreen {
                MirrorMode::FourScreen
            } else if regs.mirror_horizontal {
                MirrorMode::Horizontal
            } else {
                MirrorMode::Vertical
            }
        },
        _ => m.cart().mirroring,
    }
}

pub open spec fn spec_irq_pending(m: Mapper) -> bool {
    match m {
        Mapper::PrgChrIrq { regs, .. } => regs.irq_pending,
        _ => false,
    }
}


/// The mapper state after a CPU write into the cartridge window.
/// Translation never changes any other way.
pub open spec fn spec_mapper_write(m: Mapper, addr: u16, v: u8) -> Mapper {
    match m {
        Mapper::Fixed { cart } => Mapper::Fixed { cart },
        Mapper::PrgSwitch { cart, .. } => Mapper::PrgSwitch { cart, bank: v },
        Mapper::ChrSwitch { cart, .. } => Mapper::ChrSwitch { cart, bank: v },
        Mapper::PrgChrIrq { cart, regs } => Mapper::PrgChrIrq {
            cart,
            regs: spec_irq_regs_write(regs, addr, v),
        },
    }
}

/// Register update of the bank-switching, scanline-counting variant.
pub open spec fn spec_irq_regs_write(r: IrqRegs, addr: u16, v: u8) -> IrqRegs {
    let even = addr % 2 == 0;
    if addr < 0xA000 {
        if even {
            IrqRegs {
                select: v % 8,
                prg_mode: v / 64 % 2 == 1,
                chr_mode: v / 128 == 1,
                ..r
            }
        } else {
            if r.select == 0 {
                IrqRegs { chr0: v, ..r }
            } else if r.select == 1 {
                IrqRegs { chr1: v, ..r }
            } else if r.select == 2 {
                IrqRegs { chr2: v, ..r }
            } else if r.select == 3 {
                IrqRegs { chr3: v, ..r }
            } else if r.select == 4 {
                IrqRegs { chr4: v, ..r }
            } else if r.select == 5 {
                IrqRegs { chr5: v, ..r }
            } else if r.select == 6 {
                IrqRegs { prg6: v, ..r }
            } else {
                IrqRegs { prg7: v, ..r }
            }
        }
    } else if addr < 0xC000 {
        if even {
            IrqRegs { mirror_horizontal: v % 2 == 1, ..r }
        } else {
            r
        }
    } else if addr < 0xE000 {
        if even {
            IrqRegs { irq_latch: v, ..r }
        } else {
            IrqRegs { irq_reload: true, ..r }
        }
    } else {
        if even {
            IrqRegs { irq_enabled: false, irq_pending: false, ..r }
        } else {
            IrqRegs { irq_enabled: true, ..r }
        }
    }
}

/// One visible scanline has passed with rendering on: the counter
/// reloads from the latch when it is exhausted or a reload is pending,
/// and otherwise counts down; reaching zero with the line enabled
/// raises the request. This is the documented counting approximation
/// this core commits to.
pub open spec fn spec_scanline_tick(m: Mapper) -> Mapper {
    match m {
        Mapper::PrgChrIrq { cart, regs } => {
            let nc = if regs.irq_counter == 0 || regs.irq_reload {
                regs.irq_latch
            } else {
                (regs.irq_counter - 1) as u8
            };
            Mapper::PrgChrIrq {
                cart,
                regs: IrqRegs {
                    irq_counter: nc,
                    irq_reload: false,
                    irq_pending: regs.irq_pending || (nc == 0 && regs.irq_enabled),
                    ..regs
                },
            }
        },
        _ => m,
    }
}

impl Mapper {
    /// A CPU write into the cartridge window: bank-select and counter
    /// registers change exactly as `spec_mapper_write` says; the bank
    /// data itself is never written.
    pub fn on_cpu_write(&mut self, addr: u16, v: u8)
        requires
            old(self).wf(),
            0x8000 <= addr,
        ensures
            *final(self) == spec_mapper_write(*old(self), addr, v),
            final(self).wf(),
            final(self).cart() == old(self).cart(),
    {
        match self {
            Mapper::Fixed { .. } => {},
            Mapper::PrgSwitch { bank, .. } => {
                *bank = v;
            },
            Mapper::ChrSwitch { bank, .. } => {
                *bank = v;
            },
            Mapper::PrgChrIrq { regs, .. } => {
                let even = addr % 2 == 0;
                if addr < 0xA000 {
                    if even {
                        regs.select = v % 8;
                        regs.prg_mode = v / 64 % 2 == 1;
                        regs.chr_mode = v / 128 == 1;
                    } else {
                        if regs.select == 0 {
                            regs.chr0 = v;
                        } else if regs.select == 1 {
                            regs.chr1 = v;
                        } else if regs.select == 2 {
                            regs.chr2 = v;
                        } else if regs.select == 3 {
                            regs.chr3 = v;
                        } else if regs.select == 4 {
                            regs.chr4 = v;
                        } else if regs.select == 5 {
                            regs.chr5 = v;
                        } else if regs.select == 6 {
                            regs.prg6 = v;
                        } else {
                            regs.prg7 = v;
                        }
                    }
                } else if addr < 0xC000 {
                    if even {
                        regs.mirror_horizontal = v % 2 == 1;
                    }
                } else if addr < 0xE000 {
                    if even {
                        regs.irq_latch = v;
                    } else {
                        regs.irq_reload = true;
                    }
                } else {
                    if even {
                        regs.irq_enabled = false;
                        regs.irq_pending = false;
                    } else {
                        regs.irq_enabled = true;
                    }
                }
            },
        }
    }

    /// Advance the scanline counter by one rendered line.
    pub fn scanline_tick(&mut self)
        requires
            old(self).wf(),
        ensures
            *final(self) == spec_scanline_tick(*old(self)),
            final(self).wf(),
            final(self).cart() == old(self).cart(),
    {
        match self {
            Mapper::PrgChrIrq { regs, .. } => {
                let nc: u8 = if regs.irq_counter == 0 || regs.irq_reload {
                    regs.irq_latch
                } else {
                    regs.irq_counter - 1
                };
                regs.irq_counter = nc;
                regs.irq_reload = false;
                if nc == 0 && regs.irq_enabled {
                    regs.irq_pending = true;
                }
            },
            _ => {},
        }
    }

    /// Acknowledge a delivered scanline interrupt.
    pub fn clear_irq(&mut self)
        ensures
            *final(self) == spec_clear_irq(*old(self)),
    {
        match self {
            Mapper::PrgChrIrq { regs, .. } => {
                regs.irq_pending = false;
            },
            _ => {},
        }
    }
}

pub open spec fn spec_clear_irq(m: Mapper) -> Mapper {
    match m {
        Mapper::PrgChrIrq { cart, regs } => Mapper::PrgChrIrq {
            cart,
            regs: IrqRegs { irq_pending: false, ..regs },
        },
        _ => m,
    }
}

/// A bank-switch write on the switchable-program variant takes
/// immediate effect on the switchable window, and on nothing else:
/// the fixed window and the whole graphics region translate as
/// before.
pub proof fn lemma_prg_switch_is_local(m: Mapper, addr_w: u16, v: u8, a: u16, g: u16)
    requires
        m.wf(),
        m is PrgSwitch,
        0x8000 <= addr_w,
        0x8000 <= a,
        g < 0x2000,
    ensures
        0x8000 <= a < 0xC000 ==> spec_prg_index(spec_mapper_write(m, addr_w, v), a) == (v as int
            % (m.cart().prg.len() as int / (PRG_BANK_SIZE as int))) * PRG_BANK_SIZE + (a - 0x8000),
        0xC000 <= a ==> spec_prg_index(spec_mapper_write(m, addr_w, v), a) == spec_prg_index(m, a),
        spec_chr_index(spec_mapper_write(m, addr_w, v), g) == spec_chr_index(m, g),
{
}

/// A bank-switch write on the switchable-graphics variant takes
/// immediate effect on the graphics window and leaves every program
/// translation unchanged.
pub proof fn lemma_chr_switch_is_local(m: Mapper, addr_w: u16, v: u8, a: u16, g: u16)
    requires
        m.wf(),
        m is ChrSwitch,
        0x8000 <= addr_w,
        0x8000 <= a,
        g < 0x2000,
    ensures
        spec_chr_index(spec_mapper_write(m, addr_w, v), g) == (v as int % (m.cart().chr.len() as int
            / (CHR_BANK_SIZE as int))) * CHR_BANK_SIZE + g,
        spec_prg_index(spec_mapper_write(m, addr_w, v), a) == spec_prg_index(m, a),
{
}

/// On the fixed-wiring variant no CPU write changes any translation.
pub proof fn lemma_fixed_write_has_no_effect(m: Mapper, addr_w: u16, v: u8, a: u16, g: u16)
    requires
        m.wf(),
        m is Fixed,
        0x8000 <= addr_w,
        0x8000 <= a,
        g < 0x2000,
    ensures
        spec_prg_index(spec_mapper_write(m, addr_w, v), a) == spec_prg_index(m, a),
        spec_chr_index(spec_mapper_write(m, addr_w, v), g) == spec_chr_index(m, g),
{
}



impl Mapper {
    /// Write one byte of graphics memory through the current banking.
    /// On cartridges whose graphics region is read-only the write is
    /// a hardware-faithful no-op.
    pub fn chr_storeb(&mut self, addr: u16, v: u8)
        requires
            old(self).wf(),
            addr < 0x2000,
        ensures
            final(self).wf(),
            final(self).cart().chr_is_ram == old(self).cart().chr_is_ram,
            old(self).cart().chr_is_ram ==> final(self).cart().chr@ == old(self).cart().chr@.update(
                spec_chr_index(*old(self), addr),
                v,
            ),
            !old(self).cart().chr_is_ram ==> *final(self) == *old(self),
            final(self).cart().prg == old(self).cart().prg,
            final(self).cart().chr.len() == old(self).cart().chr.len(),
            final(self).cart().mirroring == old(self).cart().mirroring,
            final(self).cart().mapper_id == old(self).cart().mapper_id,
            final(self).cart().battery == old(self).cart().battery,
            spec_prg_index(*final(self), 0x8000) == spec_prg_index(*old(self), 0x8000),
            forall|a: u16| 0x8000 <= a ==> spec_prg_index(*final(self), a) == spec_prg_index(
                *old(self),
                a,
            ),
            forall|a: u16| a < 0x2000 ==> spec_chr_index(*final(self), a) == spec_chr_index(
                *old(self),
                a,
            ),
            spec_mirroring(*final(self)) == spec_mirroring(*old(self)),
            spec_irq_pending(*final(self)) == spec_irq_pending(*old(self)),
    {
        let idx = self.translate_chr_address(addr);
        match self {
            Mapper::Fixed { cart } => {
                if cart.chr_is_ram {
                    cart.chr.set(idx, v);
                }
            },
            Mapper::PrgSwitch { cart, .. } => {
                if cart.chr_is_ram {
                    cart.chr.set(idx, v);
                }
            },
            Mapper::ChrSwitch { cart, .. } => {
                if cart.chr_is_ram {
                    cart.chr.set(idx, v);
                }
            },
            Mapper::PrgChrIrq { cart, .. } => {
                if cart.chr_is_ram {
                    cart.chr.set(idx, v);
                }
            },
        }
    }
}


} // verus!
