//! The CPU interpreter: fetch, decode through the closed table,
//! execute with every memory effect routed through the bus, documented
//! flag semantics, page-crossing and branch-timing cycle costs, and
//! interrupt entry. An opcode byte outside the decode table is an
//! internal fault surfaced to the caller, never a crash and never a
//! silent guess.

use vstd::prelude::*;
use crate::decode::{AddrMode, InstrInfo, Mnemonic, decode, spec_decode};
use crate::machine::{CpuRegs, Machine, machine_wf, spec_peek, spec_ppu_pos_eq};
use crate::ops;
use crate::ops::StatusFlags;

verus! {

/// The internal fault a broken instruction stream surfaces.
#[derive(Clone, Copy, PartialEq, Eq, Structural, Debug)]
pub struct CpuFault {
    /// The byte that had no decode entry.
    pub opcode: u8,
}

/// Addresses whose reads have no side effects and stable values.
pub open spec fn spec_pure_addr(a: u16) -> bool {
    a < 0x2000 || a >= 0x8000
}

/// The cycle cost of a branch: two when not taken, one more when
/// taken to the same 256-byte page, two more when taken across a
/// page boundary.
pub open spec fn spec_branch_cycles(taken: bool, same_page: bool) -> int {
    2 + if taken {
        if same_page {
            1int
        } else {
            2int
        }
    } else {
        0int
    }
}

/// The branch cost rule, stated on its own: a taken branch to the
/// same page costs base plus one, a taken branch across a page costs
/// base plus two, and an untaken branch costs the base alone.
pub proof fn lemma_branch_timing(same_page: bool)
    ensures
        spec_branch_cycles(true, true) == 2 + 1,
        spec_branch_cycles(true, false) == 2 + 2,
        spec_branch_cycles(false, same_page) == 2,
{
}

impl Machine {
    /// Fetch the byte at the program counter and step past it.
    fn fetchb(&mut self) -> (r: u8)
        requires
            machine_wf(*old(self)),
        ensures
            machine_wf(*final(self)),
            final(self).regs.pc == (old(self).regs.pc + 1) % 65536,
            final(self).regs.a == old(self).regs.a && final(self).regs.x == old(self).regs.x
                && final(self).regs.y == old(self).regs.y && final(self).regs.s == old(self).regs.s
                && final(self).regs.flags == old(self).regs.flags,
            final(self).cy == old(self).cy && final(self).dots == old(self).dots && final(self).dma_stall == old(self).dma_stall,
            final(self).ram@ == old(self).ram@,
            final(self).mapper == old(self).mapper,
            final(self).apu.phase == old(self).apu.phase,
            spec_ppu_pos_eq(*old(self), *final(self)),
            spec_pure_addr(old(self).regs.pc) ==> r == spec_peek(*old(self), old(self).regs.pc)
                && final(self).ppu == old(self).ppu && final(self).apu == old(self).apu && final(self).pad1 == old(self).pad1 && final(self).pad2 == old(self).pad2 && final(self).open_bus
                == r,
    {
        let pc = self.regs.pc;
        let r = self.loadb(pc);
        self.regs.pc = crate::ops::wrap16_add(pc, 1);
        r
    }

    /// Read a little-endian word from two side-effect-free locations.
    fn peekw(&mut self, lo_addr: u16, hi_addr: u16) -> (r: u16)
        requires
            machine_wf(*old(self)),
            spec_pure_addr(lo_addr),
            spec_pure_addr(hi_addr),
        ensures
            machine_wf(*final(self)),
            r == spec_peek(*old(self), lo_addr) + 256 * spec_peek(*old(self), hi_addr),
            final(self).open_bus == spec_peek(*old(self), hi_addr),
            final(self).regs == old(self).regs,
            final(self).ram@ == old(self).ram@,
            final(self).mapper == old(self).mapper,
            final(self).ppu == old(self).ppu && final(self).apu == old(self).apu && final(self).pad1
                == old(self).pad1 && final(self).pad2 == old(self).pad2,
            final(self).cy == old(self).cy && final(self).dots == old(self).dots && final(self).dma_stall == old(self).dma_stall,
    {
        let lo = self.loadb(lo_addr);
        let hi = self.loadb(hi_addr);
        lo as u16 + 256 * hi as u16
    }

    /// Set the zero and negative flags from a result byte.
    fn set_zn(&mut self, v: u8)
        ensures
            *final(self) == (Machine {
                regs: CpuRegs {
                    flags: StatusFlags {
                        zero: v == 0,
                        negative: v >= 128,
                        ..old(self).regs.flags
                    },
                    ..old(self).regs
                },
                ..*old(self)
            }),
    {
        self.regs.flags.zero = v == 0;
        self.regs.flags.negative = v >= 128;
    }

    /// Add with carry into the accumulator, with the documented flag
    /// rules; this hardware variant has no decimal mode, so binary
    /// addition is the only behavior.
    fn do_adc(&mut self, v: u8)
        ensures
            *final(self) == (Machine {
                regs: CpuRegs {
                    a: final(self).regs.a,
                    flags: final(self).regs.flags,
                    ..old(self).regs
                },
                ..*old(self)
            }),
            final(self).regs.a as int == (old(self).regs.a + v + (if old(self).regs.flags.carry {
                1int
            } else {
                0int
            })) % 256,
            final(self).regs.flags == (StatusFlags {
                carry: old(self).regs.a + v + (if old(self).regs.flags.carry {
                    1int
                } else {
                    0int
                }) >= 256,
                zero: final(self).regs.a == 0,
                overflow: (ops::is_neg(old(self).regs.a) == ops::is_neg(v)) && (ops::is_neg(
                    old(self).regs.a,
                ) != ops::is_neg(final(self).regs.a)),
                negative: final(self).regs.a >= 128,
                ..old(self).regs.flags
            }),
    {
        let r = ops::adc_core(self.regs.a, v, self.regs.flags.carry);
        self.regs.a = r.value;
        self.regs.flags.carry = r.carry;
        self.regs.flags.overflow = r.overflow;
        self.set_zn(r.value);
    }

    /// Subtract with borrow from the accumulator.
    fn do_sbc(&mut self, v: u8)
        ensures
            *final(self) == (Machine {
                regs: CpuRegs {
                    a: final(self).regs.a,
                    flags: final(self).regs.flags,
                    ..old(self).regs
                },
                ..*old(self)
            }),
            final(self).regs.a as int == (256 + old(self).regs.a - v - (if old(self).regs.flags.carry {
                0int
            } else {
                1int
            })) % 256,
            final(self).regs.flags == (StatusFlags {
                carry: old(self).regs.a - v - (if old(self).regs.flags.carry {
                    0int
                } else {
                    1int
                }) >= 0,
                zero: final(self).regs.a == 0,
                overflow: (ops::is_neg(old(self).regs.a) != ops::is_neg(v)) && (ops::is_neg(
                    old(self).regs.a,
                ) != ops::is_neg(final(self).regs.a)),
                negative: final(self).regs.a >= 128,
                ..old(self).regs.flags
            }),
    {
        let r = ops::sbc_core(self.regs.a, v, self.regs.flags.carry);
        self.regs.a = r.value;
        self.regs.flags.carry = r.carry;
        self.regs.flags.overflow = r.overflow;
        self.set_zn(r.value);
    }

    /// Compare a register against a value: flags of the difference.
    fn do_cmp(&mut self, reg: u8, v: u8)
        ensures
            *final(self) == (Machine {
                regs: CpuRegs { flags: final(self).regs.flags, ..old(self).regs },
                ..*old(self)
            }),
            final(self).regs.flags == (StatusFlags {
                carry: reg >= v,
                zero: reg == v,
                negative: (256 + reg - v) % 256 >= 128,
                ..old(self).regs.flags
            }),
    {
        let r = ops::cmp_core(reg, v);
        self.regs.flags.carry = r.carry;
        self.set_zn(r.value);
        proof {
            assert(r.value == 0 <==> reg == v);
        }
    }

    /// Push one byte onto the one-page stack; the pointer wraps, the
    /// defined behavior.
    fn push(&mut self, v: u8)
        requires
            machine_wf(*old(self)),
        ensures
            machine_wf(*final(self)),
            final(self).ram@ == old(self).ram@.update(256 + old(self).regs.s, v),
            final(self).regs == (CpuRegs {
                s: ((old(self).regs.s + 255) % 256) as u8,
                ..old(self).regs
            }),
            final(self).ppu == old(self).ppu && final(self).apu == old(self).apu && final(self).mapper == old(self).mapper && final(self).pad1 == old(self).pad1 && final(self).pad2
                == old(self).pad2,
            final(self).cy == old(self).cy && final(self).dots == old(self).dots && final(self).dma_stall == old(self).dma_stall,
    {
        let addr: u16 = 256 + self.regs.s as u16;
        self.storeb(addr, v);
        self.regs.s = ops::dec8(self.regs.s);
    }

    /// Pull one byte off the one-page stack.
    fn pull(&mut self) -> (r: u8)
        requires
            machine_wf(*old(self)),
        ensures
            machine_wf(*final(self)),
            final(self).regs == (CpuRegs {
                s: ((old(self).regs.s + 1) % 256) as u8,
                ..old(self).regs
            }),
            r == old(self).ram@[256 + (old(self).regs.s + 1) % 256],
            final(self).ram@ == old(self).ram@,
            final(self).ppu == old(self).ppu && final(self).apu == old(self).apu && final(self).mapper == old(self).mapper && final(self).pad1 == old(self).pad1 && final(self).pad2
                == old(self).pad2,
            final(self).cy == old(self).cy && final(self).dots == old(self).dots && final(self).dma_stall == old(self).dma_stall,
    {
        self.regs.s = ops::inc8(self.regs.s);
        let addr: u16 = 256 + self.regs.s as u16;
        self.loadb(addr)
    }

    /// Enter an interrupt: push the program counter and the status
    /// byte, raise the interrupt-disable flag, and jump through the
    /// vector.
    fn enter_interrupt(&mut self, vector: u16, brk: bool) -> (cycles: u8)
        requires
            machine_wf(*old(self)),
            0x8000 <= vector <= 0xFFFE,
        ensures
            machine_wf(*final(self)),
            cycles == 7,
            final(self).regs.pc == spec_peek(*old(self), vector) + 256 * spec_peek(*old(self), (
            vector + 1) as u16),
            final(self).regs.flags == (StatusFlags { irq_disable: true, ..old(self).regs.flags }),
            final(self).regs.s as int == (old(self).regs.s + 253) % 256,
            final(self).regs.a == old(self).regs.a && final(self).regs.x == old(self).regs.x
                && final(self).regs.y == old(self).regs.y,
            final(self).ram@ == old(self).ram@.update(256 + old(self).regs.s, (old(self).regs.pc as int / 256) as u8).update(256 + (old(self).regs.s + 255) % 256, (old(self).regs.pc as int % 256) as u8).update(256 + (old(self).regs.s + 254) % 256,
                ops::spec_pack_status(old(self).regs.flags, brk) as u8),
            final(self).mapper == old(self).mapper && final(self).ppu == old(self).ppu && final(self).apu == old(self).apu,
            final(self).cy == old(self).cy && final(self).dots == old(self).dots && final(self).dma_stall == old(self).dma_stall,
    {
        let pc = self.regs.pc;
        self.push((pc / 256) as u8);
        self.push((pc % 256) as u8);
        let st = ops::pack_status(&self.regs.flags, brk);
        self.push(st);
        self.regs.flags.irq_disable = true;
        let newpc = self.peekw(vector, vector + 1);
        self.regs.pc = newpc;
        7
    }
}



/// Zero and negative recomputed from a result byte.
pub open spec fn spec_zn(f: StatusFlags, r: u8) -> StatusFlags {
    StatusFlags { zero: r == 0, negative: r >= 128, ..f }
}

/// The mnemonics whose immediate form reads one operand byte into the
/// register file.
pub open spec fn spec_is_imm_op(mn: Mnemonic) -> bool {
    match mn {
        Mnemonic::Lda | Mnemonic::Ldx | Mnemonic::Ldy | Mnemonic::Adc | Mnemonic::Sbc
            | Mnemonic::And | Mnemonic::Ora | Mnemonic::Eor | Mnemonic::Cmp | Mnemonic::Cpx
            | Mnemonic::Cpy | Mnemonic::Bit | Mnemonic::Nop => true,
        _ => false,
    }
}

/// The conditional-branch mnemonics.
pub open spec fn spec_is_branch(mn: Mnemonic) -> bool {
    match mn {
        Mnemonic::Bpl | Mnemonic::Bmi | Mnemonic::Bvc | Mnemonic::Bvs | Mnemonic::Bcc
            | Mnemonic::Bcs | Mnemonic::Bne | Mnemonic::Beq => true,
        _ => false,
    }
}

/// Whether a conditional branch is taken under the given flags.
pub open spec fn spec_branch_taken(mn: Mnemonic, f: StatusFlags) -> bool {
    match mn {
        Mnemonic::Bpl => !f.negative,
        Mnemonic::Bmi => f.negative,
        Mnemonic::Bvc => !f.overflow,
        Mnemonic::Bvs => f.overflow,
        Mnemonic::Bcc => !f.carry,
        Mnemonic::Bcs => f.carry,
        Mnemonic::Bne => !f.zero,
        Mnemonic::Beq => f.zero,
        _ => false,
    }
}

/// The register file after an immediate-operand instruction consumed
/// the byte `v`: the documented 6502 result and flag rules, binary
/// arithmetic only since this hardware variant has no decimal mode.
/// The program counter is accounted separately by the caller.
pub open spec fn spec_imm_regs(mn: Mnemonic, rg: CpuRegs, v: u8) -> CpuRegs {
    match mn {
        Mnemonic::Lda => CpuRegs { a: v, flags: spec_zn(rg.flags, v), ..rg },
        Mnemonic::Ldx => CpuRegs { x: v, flags: spec_zn(rg.flags, v), ..rg },
        Mnemonic::Ldy => CpuRegs { y: v, flags: spec_zn(rg.flags, v), ..rg },
        Mnemonic::Adc => {
            let sum = rg.a + v + (if rg.flags.carry {
                1int
            } else {
                0int
            });
            let a2 = (sum % 256) as u8;
            CpuRegs {
                a: a2,
                flags: StatusFlags {
                    carry: sum >= 256,
                    zero: a2 == 0,
                    overflow: (crate::ops::is_neg(rg.a) == crate::ops::is_neg(v)) && (
                    crate::ops::is_neg(rg.a) != crate::ops::is_neg(a2)),
                    negative: a2 >= 128,
                    ..rg.flags
                },
                ..rg
            }
        },
        Mnemonic::Sbc => {
            let borrow = if rg.flags.carry {
                0int
            } else {
                1int
            };
            let a2 = ((256 + rg.a - v - borrow) % 256) as u8;
            CpuRegs {
                a: a2,
                flags: StatusFlags {
                    carry: rg.a - v - borrow >= 0,
                    zero: a2 == 0,
                    overflow: (crate::ops::is_neg(rg.a) != crate::ops::is_neg(v)) && (
                    crate::ops::is_neg(rg.a) != crate::ops::is_neg(a2)),
                    negative: a2 >= 128,
                    ..rg.flags
                },
                ..rg
            }
        },
        Mnemonic::And => CpuRegs { a: rg.a & v, flags: spec_zn(rg.flags, rg.a & v), ..rg },
        Mnemonic::Ora => CpuRegs { a: rg.a | v, flags: spec_zn(rg.flags, rg.a | v), ..rg },
        Mnemonic::Eor => CpuRegs { a: rg.a ^ v, flags: spec_zn(rg.flags, rg.a ^ v), ..rg },
        Mnemonic::Cmp => CpuRegs {
            flags: StatusFlags {
                carry: rg.a >= v,
                zero: rg.a == v,
                negative: (256 + rg.a - v) % 256 >= 128,
                ..rg.flags
            },
            ..rg
        },
        Mnemonic::Cpx => CpuRegs {
            flags: StatusFlags {
                carry: rg.x >= v,
                zero: rg.x == v,
                negative: (256 + rg.x - v) % 256 >= 128,
                ..rg.flags
            },
            ..rg
        },
        Mnemonic::Cpy => CpuRegs {
            flags: StatusFlags {
                carry: rg.y >= v,
                zero: rg.y == v,
                negative: (256 + rg.y - v) % 256 >= 128,
                ..rg.flags
            },
            ..rg
        },
        Mnemonic::Bit => CpuRegs {
            flags: StatusFlags {
                zero: rg.a & v == 0,
                negative: v >= 128,
                overflow: v / 64 % 2 == 1,
                ..rg.flags
            },
            ..rg
        },
        _ => rg,
    }
}


/// The implied-mode mnemonics that touch only the register file.
pub open spec fn spec_is_implied_reg_op(mn: Mnemonic) -> bool {
    match mn {
        Mnemonic::Inx | Mnemonic::Dex | Mnemonic::Iny | Mnemonic::Dey | Mnemonic::Tax
            | Mnemonic::Tay | Mnemonic::Txa | Mnemonic::Tya | Mnemonic::Txs | Mnemonic::Tsx
            | Mnemonic::Clc | Mnemonic::Sec | Mnemonic::Cli | Mnemonic::Sei | Mnemonic::Clv
            | Mnemonic::Cld | Mnemonic::Sed | Mnemonic::Nop => true,
        _ => false,
    }
}

/// The register file after an implied-mode register or flag
/// operation.
pub open spec fn spec_implied_regs(mn: Mnemonic, rg: CpuRegs) -> CpuRegs {
    match mn {
        Mnemonic::Inx => CpuRegs {
            x: ((rg.x + 1) % 256) as u8,
            flags: spec_zn(rg.flags, ((rg.x + 1) % 256) as u8),
            ..rg
        },
        Mnemonic::Dex => CpuRegs {
            x: ((rg.x + 255) % 256) as u8,
            flags: spec_zn(rg.flags, ((rg.x + 255) % 256) as u8),
            ..rg
        },
        Mnemonic::Iny => CpuRegs {
            y: ((rg.y + 1) % 256) as u8,
            flags: spec_zn(rg.flags, ((rg.y + 1) % 256) as u8),
            ..rg
        },
        Mnemonic::Dey => CpuRegs {
            y: ((rg.y + 255) % 256) as u8,
            flags: spec_zn(rg.flags, ((rg.y + 255) % 256) as u8),
            ..rg
        },
        Mnemonic::Tax => CpuRegs { x: rg.a, flags: spec_zn(rg.flags, rg.a), ..rg },
        Mnemonic::Tay => CpuRegs { y: rg.a, flags: spec_zn(rg.flags, rg.a), ..rg },
        Mnemonic::Txa => CpuRegs { a: rg.x, flags: spec_zn(rg.flags, rg.x), ..rg },
        Mnemonic::Tya => CpuRegs { a: rg.y, flags: spec_zn(rg.flags, rg.y), ..rg },
        Mnemonic::Txs => CpuRegs { s: rg.x, ..rg },
        Mnemonic::Tsx => CpuRegs { x: rg.s, flags: spec_zn(rg.flags, rg.s), ..rg },
        Mnemonic::Clc => CpuRegs { flags: StatusFlags { carry: false, ..rg.flags }, ..rg },
        Mnemonic::Sec => CpuRegs { flags: StatusFlags { carry: true, ..rg.flags }, ..rg },
        Mnemonic::Cli => CpuRegs { flags: StatusFlags { irq_disable: false, ..rg.flags }, ..rg },
        Mnemonic::Sei => CpuRegs { flags: StatusFlags { irq_disable: true, ..rg.flags }, ..rg },
        Mnemonic::Clv => CpuRegs { flags: StatusFlags { overflow: false, ..rg.flags }, ..rg },
        Mnemonic::Cld => CpuRegs { flags: StatusFlags { decimal: false, ..rg.flags }, ..rg },
        Mnemonic::Sed => CpuRegs { flags: StatusFlags { decimal: true, ..rg.flags }, ..rg },
        _ => rg,
    }
}

/// What an instruction that touches only the register file leaves
/// alone.
pub open spec fn spec_regs_only(a: Machine, b: Machine) -> bool {
    &&& b.ram@ == a.ram@
    &&& b.ppu == a.ppu
    &&& b.apu == a.apu
    &&& b.mapper == a.mapper
    &&& b.pad1 == a.pad1
    &&& b.pad2 == a.pad2
    &&& b.cy == a.cy
    &&& b.dots == a.dots
    &&& b.dma_stall == a.dma_stall
}

/// One instruction's worth of scheduler outcome.
#[derive(Clone, Copy, PartialEq, Eq, Structural, Debug)]
pub struct StepEvents {
    /// CPU cycles the instruction consumed, stolen DMA cycles
    /// included.
    pub cycles: u16,
    /// The picture unit finished a frame while catching up.
    pub frame_completed: bool,
    /// Interrupts delivered at this boundary.
    pub nmi_taken: bool,
    pub irq_taken: bool,
}

impl Machine {
    /// Resolve an addressing mode to an effective address, consuming
    /// the operand bytes and reporting whether indexing crossed a
    /// 256-byte page. Pure modes are pinned exactly when the operand
    /// bytes sit in side-effect-free memory.
    #[verifier::rlimit(100)]
    #[verifier::spinoff_prover]
    fn ea(&mut self, mode: AddrMode) -> (r: (u16, bool))
        requires
            machine_wf(*old(self)),
            mode is Zp || mode is Zpx || mode is Zpy || mode is Abs || mode is Abx || mode is Aby
                || mode is Izx || mode is Izy || mode is Ind,
        ensures
            machine_wf(*final(self)),
            final(self).regs == (CpuRegs { pc: final(self).regs.pc, ..old(self).regs }),
            final(self).regs.pc == (old(self).regs.pc + crate::decode::spec_operand_len(mode))
                % 65536,
            final(self).ram@ == old(self).ram@,
            final(self).mapper == old(self).mapper,
            final(self).apu.phase == old(self).apu.phase,
            spec_ppu_pos_eq(*old(self), *final(self)),
            final(self).cy == old(self).cy && final(self).dots == old(self).dots && final(self).dma_stall == old(self).dma_stall,
            ({
                let pc = old(self).regs.pc;
                let pure1 = spec_pure_addr(pc);
                let pure2 = pure1 && spec_pure_addr(((pc + 1) % 65536) as u16);
                let b = spec_peek(*old(self), pc);
                let w = spec_peek(*old(self), pc) + 256 * spec_peek(*old(self), ((pc + 1)
                    % 65536) as u16);
                &&& (mode is Zp && pure1) ==> r.0 == b && !r.1
                &&& (mode is Zpx && pure1) ==> r.0 as int == (b + old(self).regs.x) % 256 && !r.1
                &&& (mode is Zpy && pure1) ==> r.0 as int == (b + old(self).regs.y) % 256 && !r.1
                &&& (mode is Abs && pure2) ==> r.0 == w && !r.1
                &&& (mode is Abx && pure2) ==> r.0 as int == (w + old(self).regs.x) % 65536 && r.1
                    == (crate::ops::page_of((w % 65536) as u16) != crate::ops::page_of(r.0))
                &&& (mode is Aby && pure2) ==> r.0 as int == (w + old(self).regs.y) % 65536 && r.1
                    == (crate::ops::page_of((w % 65536) as u16) != crate::ops::page_of(r.0))
                &&& (mode is Izx && pure1) ==> ({
                    let ptr = (b + old(self).regs.x) % 256;
                    r.0 == old(self).ram@[ptr] + 256 * old(self).ram@[(ptr + 1) % 256] && !r.1
                })
                &&& (mode is Izy && pure1) ==> ({
                    let base = old(self).ram@[b as int] + 256 * old(self).ram@[(b + 1) % 256];
                    r.0 as int == (base + old(self).regs.y) % 65536 && r.1 == (crate::ops::page_of(
                        (base % 65536) as u16,
                    ) != crate::ops::page_of(r.0))
                })
                &&& (mode is Abs && pure2) ==> final(self).ppu == old(self).ppu && final(self).apu
                    == old(self).apu && final(self).pad1 == old(self).pad1 && final(self).pad2
                    == old(self).pad2 && final(self).open_bus == spec_peek(*old(self), ((pc + 1)
                    % 65536) as u16)
            }),
    {
        match mode {
            AddrMode::Zp => {
                let b = self.fetchb();
                (b as u16, false)
            },
            AddrMode::Zpx => {
                let b = self.fetchb();
                (((b as u16 + self.regs.x as u16) % 256), false)
            },
            AddrMode::Zpy => {
                let b = self.fetchb();
                (((b as u16 + self.regs.y as u16) % 256), false)
            },
            AddrMode::Abs => {
                let lo = self.fetchb();
                let hi = self.fetchb();
                (lo as u16 + 256 * hi as u16, false)
            },
            AddrMode::Abx => {
                let lo = self.fetchb();
                let hi = self.fetchb();
                let w = lo as u16 + 256 * hi as u16;
                let a = crate::ops::wrap16_add(w, self.regs.x as u16);
                (a, !crate::ops::same_page(w, a))
            },
            AddrMode::Aby => {
                let lo = self.fetchb();
                let hi = self.fetchb();
                let w = lo as u16 + 256 * hi as u16;
                let a = crate::ops::wrap16_add(w, self.regs.y as u16);
                (a, !crate::ops::same_page(w, a))
            },
            AddrMode::Izx => {
                let b = self.fetchb();
                let ptr: u16 = (b as u16 + self.regs.x as u16) % 256;
                let lo = self.ram[ptr as usize];
                let hi = self.ram[((ptr + 1) % 256) as usize];
                (lo as u16 + 256 * hi as u16, false)
            },
            AddrMode::Izy => {
                let b = self.fetchb();
                let lo = self.ram[b as usize];
                let hi = self.ram[((b as u16 + 1) % 256) as usize];
                let base = lo as u16 + 256 * hi as u16;
                let a = crate::ops::wrap16_add(base, self.regs.y as u16);
                (a, !crate::ops::same_page(base, a))
            },
            _ => {
                // Indirect jump: the pointer's second byte is fetched
                // from the same page, the documented wrap behavior.
                let lo = self.fetchb();
                let hi = self.fetchb();
                let ptr = lo as u16 + 256 * hi as u16;
                let ptr2: u16 = ptr - ptr % 256 + ((ptr as u32 + 1) % 256) as u16;
                let tlo = self.loadb(ptr);
                let thi = self.loadb(ptr2);
                (tlo as u16 + 256 * thi as u16, false)
            },
        }
    }

    /// Fetch the value a read instruction operates on.
    fn operand_value(&mut self, mode: AddrMode) -> (r: (u8, bool))
        requires
            machine_wf(*old(self)),
            !(mode is Imp) && !(mode is Rel) && !(mode is Ind),
        ensures
            machine_wf(*final(self)),
            final(self).regs == (CpuRegs { pc: final(self).regs.pc, ..old(self).regs }),
            final(self).regs.pc == (old(self).regs.pc + crate::decode::spec_operand_len(mode))
                % 65536,
            final(self).apu.phase == old(self).apu.phase,
            spec_ppu_pos_eq(*old(self), *final(self)),
            final(self).cy == old(self).cy && final(self).dots == old(self).dots && final(self).dma_stall == old(self).dma_stall,
            (mode is Imm && spec_pure_addr(old(self).regs.pc)) ==> r.0 == spec_peek(*old(self),
                old(self).regs.pc) && final(self).ram@ == old(self).ram@ && final(self).mapper
                == old(self).mapper && final(self).ppu == old(self).ppu && final(self).apu == old(self).apu && final(self).pad1 == old(self).pad1 && final(self).pad2 == old(self).pad2
                && final(self).open_bus == r.0 && !r.1,
            mode is Acc ==> r.0 == old(self).regs.a && *final(self) == *old(self) && !r.1,
    {
        match mode {
            AddrMode::Acc => (self.regs.a, false),
            AddrMode::Imm => {
                let b = self.fetchb();
                (b, false)
            },
            _ => {
                let (addr, crossed) = self.ea(mode);
                let v = self.loadb(addr);
                (v, crossed)
            },
        }
    }

    /// Run one decoded instruction's effects: operand resolution,
    /// the register and memory work, and the cycle extras the mode
    /// and outcome add to the table's base cost.
    #[verifier::rlimit(100)]
    #[verifier::spinoff_prover]
    fn exec_instr(&mut self, info: InstrInfo) -> (cycles: u16)
        requires
            machine_wf(*old(self)),
            crate::decode::spec_instr_wf(info),
        ensures
            machine_wf(*final(self)),
            cycles <= info.cycles + 4,
            final(self).cy == old(self).cy,
            final(self).dots == old(self).dots,
            final(self).apu.phase == old(self).apu.phase,
            spec_ppu_pos_eq(*old(self), *final(self)),
            ({
                let m0 = *old(self);
                let pc = m0.regs.pc;
                let pure1 = spec_pure_addr(pc);
                let pure2 = pure1 && spec_pure_addr(((pc + 1) % 65536) as u16);
                let v = spec_peek(m0, pc);
                let w = spec_peek(m0, pc) + 256 * spec_peek(m0, ((pc + 1) % 65536) as u16);
                &&& (info.mode is Imm && spec_is_imm_op(info.mnem) && pure1) ==> spec_regs_only(m0,
                    *final(self)) && final(self).open_bus == v && final(self).regs == (CpuRegs {
                    pc: ((pc + 1) % 65536) as u16,
                    ..spec_imm_regs(info.mnem, m0.regs, v)
                }) && cycles == info.cycles
                &&& (info.mode is Rel && spec_is_branch(info.mnem) && pure1) ==> ({
                    let after = ((pc + 1) % 65536) as u16;
                    let target = ((after + crate::ops::signed_of(v) + 65536) % 65536) as u16;
                    let taken = spec_branch_taken(info.mnem, m0.regs.flags);
                    &&& spec_regs_only(m0, *final(self))
                    &&& final(self).open_bus == v
                    &&& final(self).regs == (CpuRegs {
                        pc: if taken {
                            target
                        } else {
                            after
                        },
                        ..m0.regs
                    })
                    &&& cycles as int == spec_branch_cycles(taken, crate::ops::page_of(after)
                        == crate::ops::page_of(target))
                })
                &&& (info.mnem is Sta && info.mode is Abs && pure2 && w < 0x2000) ==> final(self).ram@ == m0.ram@.update(w % 2048, m0.regs.a) && final(self).regs == (CpuRegs {
                    pc: ((pc + 2) % 65536) as u16,
                    ..m0.regs
                }) && final(self).ppu == m0.ppu && final(self).apu == m0.apu && final(self).mapper
                    == m0.mapper && final(self).pad1 == m0.pad1 && final(self).pad2 == m0.pad2
                    && final(self).open_bus == m0.regs.a && final(self).dma_stall == m0.dma_stall
                    && cycles == info.cycles
                &&& (info.mnem is Jmp && info.mode is Abs && pure2) ==> spec_regs_only(m0, *final(self)) && final(self).regs == (CpuRegs { pc: (w % 65536) as u16, ..m0.regs }) && final(self).open_bus == spec_peek(m0, ((pc + 1) % 65536) as u16) && cycles == info.cycles
                &&& (info.mode is Imp && spec_is_implied_reg_op(info.mnem)) ==> spec_regs_only(m0, *final(self)) && final(self).open_bus == m0.open_bus && final(self).regs == spec_implied_regs(info.mnem, m0.regs) && cycles == info.cycles
            }),
    {
        let mut cycles: u16 = info.cycles as u16;
        match info.mnem {
            Mnemonic::Lda => {
                let (v, crossed) = self.operand_value(info.mode);
                self.regs.a = v;
                self.set_zn(v);
                if crossed {
                    cycles = cycles + 1;
                }
            },
            Mnemonic::Ldx => {
                let (v, crossed) = self.operand_value(info.mode);
                self.regs.x = v;
                self.set_zn(v);
                if crossed {
                    cycles = cycles + 1;
                }
            },
            Mnemonic::Ldy => {
                let (v, crossed) = self.operand_value(info.mode);
                self.regs.y = v;
                self.set_zn(v);
                if crossed {
                    cycles = cycles + 1;
                }
            },
            Mnemonic::Sta => {
                let (addr, _) = self.ea(info.mode);
                let v = self.regs.a;
                self.storeb(addr, v);
            },
            Mnemonic::Stx => {
                let (addr, _) = self.ea(info.mode);
                let v = self.regs.x;
                self.storeb(addr, v);
            },
            Mnemonic::Sty => {
                let (addr, _) = self.ea(info.mode);
                let v = self.regs.y;
                self.storeb(addr, v);
            },
            Mnemonic::Adc => {
                let (v, crossed) = self.operand_value(info.mode);
                self.do_adc(v);
                if crossed {
                    cycles = cycles + 1;
                }
            },
            Mnemonic::Sbc => {
                let (v, crossed) = self.operand_value(info.mode);
                self.do_sbc(v);
                if crossed {
                    cycles = cycles + 1;
                }
            },
            Mnemonic::Cmp => {
                let (v, crossed) = self.operand_value(info.mode);
                let a = self.regs.a;
                self.do_cmp(a, v);
                if crossed {
                    cycles = cycles + 1;
                }
            },
            Mnemonic::Cpx => {
                let (v, _) = self.operand_value(info.mode);
                let x = self.regs.x;
                self.do_cmp(x, v);
            },
            Mnemonic::Cpy => {
                let (v, _) = self.operand_value(info.mode);
                let y = self.regs.y;
                self.do_cmp(y, v);
            },
            Mnemonic::And => {
                let (v, crossed) = self.operand_value(info.mode);
                let nv = self.regs.a & v;
                self.regs.a = nv;
                self.set_zn(nv);
                if crossed {
                    cycles = cycles + 1;
                }
            },
            Mnemonic::Ora => {
                let (v, crossed) = self.operand_value(info.mode);
                let nv = self.regs.a | v;
                self.regs.a = nv;
                self.set_zn(nv);
                if crossed {
                    cycles = cycles + 1;
                }
            },
            Mnemonic::Eor => {
                let (v, crossed) = self.operand_value(info.mode);
                let nv = self.regs.a ^ v;
                self.regs.a = nv;
                self.set_zn(nv);
                if crossed {
                    cycles = cycles + 1;
                }
            },
            Mnemonic::Bit => {
                let (v, _) = self.operand_value(info.mode);
                self.regs.flags.zero = (self.regs.a & v) == 0;
                self.regs.flags.negative = v >= 128;
                self.regs.flags.overflow = v / 64 % 2 == 1;
            },
            Mnemonic::Asl => {
                self.rmw_shift(info.mode, 0);
            },
            Mnemonic::Lsr => {
                self.rmw_shift(info.mode, 1);
            },
            Mnemonic::Rol => {
                self.rmw_shift(info.mode, 2);
            },
            Mnemonic::Ror => {
                self.rmw_shift(info.mode, 3);
            },
            Mnemonic::Inc => {
                let (addr, _) = self.ea(info.mode);
                let v = self.loadb(addr);
                let nv = crate::ops::inc8(v);
                self.storeb(addr, nv);
                self.set_zn(nv);
            },
            Mnemonic::Dec => {
                let (addr, _) = self.ea(info.mode);
                let v = self.loadb(addr);
                let nv = crate::ops::dec8(v);
                self.storeb(addr, nv);
                self.set_zn(nv);
            },
            Mnemonic::Inx => {
                let nv = crate::ops::inc8(self.regs.x);
                self.regs.x = nv;
                self.set_zn(nv);
            },
            Mnemonic::Dex => {
                let nv = crate::ops::dec8(self.regs.x);
                self.regs.x = nv;
                self.set_zn(nv);
            },
            Mnemonic::Iny => {
                let nv = crate::ops::inc8(self.regs.y);
                self.regs.y = nv;
                self.set_zn(nv);
            },
            Mnemonic::Dey => {
                let nv = crate::ops::dec8(self.regs.y);
                self.regs.y = nv;
                self.set_zn(nv);
            },
            Mnemonic::Tax => {
                let v = self.regs.a;
                self.regs.x = v;
                self.set_zn(v);
            },
            Mnemonic::Tay => {
                let v = self.regs.a;
                self.regs.y = v;
                self.set_zn(v);
            },
            Mnemonic::Txa => {
                let v = self.regs.x;
                self.regs.a = v;
                self.set_zn(v);
            },
            Mnemonic::Tya => {
                let v = self.regs.y;
                self.regs.a = v;
                self.set_zn(v);
            },
            Mnemonic::Txs => {
                self.regs.s = self.regs.x;
            },
            Mnemonic::Tsx => {
                let v = self.regs.s;
                self.regs.x = v;
                self.set_zn(v);
            },
            Mnemonic::Clc => {
                self.regs.flags.carry = false;
            },
            Mnemonic::Sec => {
                self.regs.flags.carry = true;
            },
            Mnemonic::Cli => {
                self.regs.flags.irq_disable = false;
            },
            Mnemonic::Sei => {
                self.regs.flags.irq_disable = true;
            },
            Mnemonic::Clv => {
                self.regs.flags.overflow = false;
            },
            Mnemonic::Cld => {
                self.regs.flags.decimal = false;
            },
            Mnemonic::Sed => {
                self.regs.flags.decimal = true;
            },
            Mnemonic::Bpl => {
                let c = !self.regs.flags.negative;
                cycles = self.branch_checked(c);
            },
            Mnemonic::Bmi => {
                let c = self.regs.flags.negative;
                cycles = self.branch_checked(c);
            },
            Mnemonic::Bvc => {
                let c = !self.regs.flags.overflow;
                cycles = self.branch_checked(c);
            },
            Mnemonic::Bvs => {
                let c = self.regs.flags.overflow;
                cycles = self.branch_checked(c);
            },
            Mnemonic::Bcc => {
                let c = !self.regs.flags.carry;
                cycles = self.branch_checked(c);
            },
            Mnemonic::Bcs => {
                let c = self.regs.flags.carry;
                cycles = self.branch_checked(c);
            },
            Mnemonic::Bne => {
                let c = !self.regs.flags.zero;
                cycles = self.branch_checked(c);
            },
            Mnemonic::Beq => {
                let c = self.regs.flags.zero;
                cycles = self.branch_checked(c);
            },
            Mnemonic::Jmp => {
                let (addr, _) = self.ea(info.mode);
                self.regs.pc = addr;
            },
            Mnemonic::Jsr => {
                let (addr, _) = self.ea(AddrMode::Abs);
                let ret: u16 = if self.regs.pc == 0 {
                    65535
                } else {
                    self.regs.pc - 1
                };
                self.push((ret / 256) as u8);
                self.push((ret % 256) as u8);
                self.regs.pc = addr;
            },
            Mnemonic::Rts => {
                let lo = self.pull();
                let hi = self.pull();
                let ret = lo as u16 + 256 * hi as u16;
                self.regs.pc = crate::ops::wrap16_add(ret, 1);
            },
            Mnemonic::Brk => {
                let pc = self.regs.pc;
                self.regs.pc = crate::ops::wrap16_add(pc, 1);
                let _ = self.enter_interrupt(0xFFFE, true);
            },
            Mnemonic::Rti => {
                let st = self.pull();
                self.regs.flags = crate::ops::unpack_status(st);
                let lo = self.pull();
                let hi = self.pull();
                self.regs.pc = lo as u16 + 256 * hi as u16;
            },
            Mnemonic::Pha => {
                let v = self.regs.a;
                self.push(v);
            },
            Mnemonic::Php => {
                let v = crate::ops::pack_status(&self.regs.flags, true);
                self.push(v);
            },
            Mnemonic::Pla => {
                let v = self.pull();
                self.regs.a = v;
                self.set_zn(v);
            },
            Mnemonic::Plp => {
                let st = self.pull();
                self.regs.flags = crate::ops::unpack_status(st);
            },
            Mnemonic::Nop => {
                // The unofficial no-op bytes still consume and time
                // their operand like the real instruction shape.
                if !matches!(info.mode, AddrMode::Imp) {
                    let (_, crossed) = self.operand_value(info.mode);
                    if crossed {
                        cycles = cycles + 1;
                    }
                }
            },
        }
        cycles
    }

    /// Execute one instruction: fetch, decode, run, and advance the
    /// cycle counter by the documented cost, page-crossing and branch
    /// extras and DMA-stolen cycles included. A byte with no decode
    /// entry leaves the machine where it was, the counter untouched,
    /// and reports the fault. For code running from side-effect-free
    /// memory the contract pins the whole transition of the
    /// immediate-operand, conditional-branch, absolute-store and
    /// absolute-jump forms: the register file and flags per the
    /// documented rules, the touched memory byte, the open bus, and
    /// the exact cycle cost.
    #[verifier::rlimit(100)]
    #[verifier::spinoff_prover]
    pub fn step(&mut self) -> (r: Result<u16, CpuFault>)
        requires
            machine_wf(*old(self)),
            old(self).cy < 0x0FFF_FFFF_FFF0_0000u64,
        ensures
            machine_wf(*final(self)),
            final(self).dots == old(self).dots,
            final(self).apu.phase == old(self).apu.phase,
            spec_ppu_pos_eq(*old(self), *final(self)),
            final(self).cy < 0x0FFF_FFFF_FFF1_0000u64,
            r is Ok ==> final(self).cy == old(self).cy + r->Ok_0 && final(self).dma_stall == 0,
            r is Err ==> final(self).cy == old(self).cy && final(self).regs == old(self).regs
                && final(self).ram@ == old(self).ram@ && final(self).mapper == old(self).mapper
                && final(self).dma_stall == old(self).dma_stall,
            spec_pure_addr(old(self).regs.pc) ==> (r is Err <==> spec_decode(spec_peek(*old(self),
                old(self).regs.pc)) is None),
            (spec_pure_addr(old(self).regs.pc) && r is Err) ==> r->Err_0.opcode == spec_peek(
                *old(self),
                old(self).regs.pc,
            ),
            ({
                let m0 = *old(self);
                let pc = m0.regs.pc;
                let d = spec_decode(spec_peek(m0, pc));
                let pure2 = spec_pure_addr(pc) && spec_pure_addr(((pc + 1) % 65536) as u16);
                let pure3 = pure2 && spec_pure_addr(((pc + 2) % 65536) as u16);
                let v = spec_peek(m0, ((pc + 1) % 65536) as u16);
                let w = v + 256 * spec_peek(m0, ((pc + 2) % 65536) as u16);
                &&& (r is Ok && pure2 && d is Some && d->0.mode is Imm && spec_is_imm_op(
                    d->0.mnem,
                )) ==> final(self).ram@ == m0.ram@ && final(self).ppu == m0.ppu && final(self).apu
                    == m0.apu && final(self).mapper == m0.mapper && final(self).pad1 == m0.pad1
                    && final(self).pad2 == m0.pad2 && final(self).open_bus == v && final(self).regs
                    == (CpuRegs {
                    pc: ((pc + 2) % 65536) as u16,
                    ..spec_imm_regs(d->0.mnem, m0.regs, v)
                }) && r->Ok_0 == d->0.cycles + m0.dma_stall
                &&& (r is Ok && pure2 && d is Some && d->0.mode is Rel && spec_is_branch(
                    d->0.mnem,
                )) ==> ({
                    let after = ((pc + 2) % 65536) as u16;
                    let target = ((after + crate::ops::signed_of(v) + 65536) % 65536) as u16;
                    let taken = spec_branch_taken(d->0.mnem, m0.regs.flags);
                    &&& final(self).ram@ == m0.ram@ && final(self).ppu == m0.ppu && final(self).apu
                        == m0.apu && final(self).mapper == m0.mapper && final(self).pad1
                        == m0.pad1 && final(self).pad2 == m0.pad2
                    &&& final(self).open_bus == v
                    &&& final(self).regs == (CpuRegs {
                        pc: if taken {
                            target
                        } else {
                            after
                        },
                        ..m0.regs
                    })
                    &&& r->Ok_0 as int == spec_branch_cycles(taken, crate::ops::page_of(after)
                        == crate::ops::page_of(target)) + m0.dma_stall
                })
                &&& (r is Ok && pure3 && d is Some && d->0.mnem is Sta && d->0.mode is Abs && w
                    < 0x2000) ==> final(self).ram@ == m0.ram@.update(w % 2048, m0.regs.a) && final(self).regs == (CpuRegs { pc: ((pc + 3) % 65536) as u16, ..m0.regs }) && final(self).ppu
                    == m0.ppu && final(self).apu == m0.apu && final(self).mapper == m0.mapper
                    && final(self).pad1 == m0.pad1 && final(self).pad2 == m0.pad2 && final(self).open_bus == m0.regs.a && r->Ok_0 == d->0.cycles + m0.dma_stall
                &&& (r is Ok && pure3 && d is Some && d->0.mnem is Jmp && d->0.mode is Abs) ==> final(self).ram@ == m0.ram@ && final(self).ppu == m0.ppu && final(self).apu == m0.apu
                    && final(self).mapper == m0.mapper && final(self).pad1 == m0.pad1 && final(self).pad2 == m0.pad2 && final(self).regs == (CpuRegs {
                    pc: (w % 65536) as u16,
                    ..m0.regs
                }) && r->Ok_0 == d->0.cycles + m0.dma_stall
            }),
    {
        let pc0 = self.regs.pc;
        let op = self.fetchb();
        let info = match decode(op) {
            Some(i) => i,
            None => {
                self.regs.pc = pc0;
                return Err(CpuFault { opcode: op });
            },
        };
        proof {
            crate::decode::lemma_decode_wf(op);
        }
        let cycles: u16 = self.exec_instr(info);
        let total: u16 = cycles + self.dma_stall;
        self.dma_stall = 0;
        self.cy = self.cy + total as u64;
        Ok(total)
    }

    /// A branch body shared by the eight conditions, with the pure
    /// program-counter case handled by `do_branch` and an arbitrary
    /// one falling back on the same computation through the bus.
    fn branch_checked(&mut self, cond: bool) -> (cycles: u16)
        requires
            machine_wf(*old(self)),
        ensures
            machine_wf(*final(self)),
            final(self).apu.phase == old(self).apu.phase,
            spec_ppu_pos_eq(*old(self), *final(self)),
            2 <= cycles <= 4,
            final(self).cy == old(self).cy && final(self).dots == old(self).dots && final(self).dma_stall == old(self).dma_stall,
            spec_pure_addr(old(self).regs.pc) ==> ({
                let disp = spec_peek(*old(self), old(self).regs.pc);
                let after = ((old(self).regs.pc + 1) % 65536) as u16;
                let target = ((after + crate::ops::signed_of(disp) + 65536) % 65536) as u16;
                &&& final(self).regs == (CpuRegs {
                    pc: if cond {
                        target
                    } else {
                        after
                    },
                    ..old(self).regs
                })
                &&& cycles as int == spec_branch_cycles(cond, crate::ops::page_of(after)
                    == crate::ops::page_of(target))
                &&& final(self).ppu == old(self).ppu && final(self).apu == old(self).apu && final(self).pad1 == old(self).pad1 && final(self).pad2 == old(self).pad2
                &&& final(self).ram@ == old(self).ram@ && final(self).mapper == old(self).mapper
                &&& final(self).open_bus == disp
            }),
    {
        let disp = self.fetchb();
        let after = self.regs.pc;
        let target = crate::ops::branch_target(after, disp as u16);
        if cond {
            self.regs.pc = target;
            if crate::ops::same_page(after, target) {
                3
            } else {
                4
            }
        } else {
            2
        }
    }

    /// Read-modify-write shifts and rotates, on the accumulator or
    /// through the bus; `which` picks the operation.
    fn rmw_shift(&mut self, mode: AddrMode, which: u8)
        requires
            machine_wf(*old(self)),
            !(mode is Imp) && !(mode is Rel) && !(mode is Ind) && !(mode is Imm),
            which < 4,
        ensures
            machine_wf(*final(self)),
            final(self).apu.phase == old(self).apu.phase,
            spec_ppu_pos_eq(*old(self), *final(self)),
            final(self).cy == old(self).cy && final(self).dots == old(self).dots,
    {
        if matches!(mode, AddrMode::Acc) {
            let v = self.regs.a;
            let r = self.apply_shift(v, which);
            self.regs.a = r.value;
            self.regs.flags.carry = r.carry;
            self.set_zn(r.value);
        } else {
            let (addr, _) = self.ea(mode);
            let v = self.loadb(addr);
            let r = self.apply_shift(v, which);
            self.storeb(addr, r.value);
            self.regs.flags.carry = r.carry;
            self.set_zn(r.value);
        }
    }

    fn apply_shift(&self, v: u8, which: u8) -> (r: crate::ops::AluOut)
        requires
            which < 4,
        ensures
            which == 0 ==> r.value == (v * 2) % 256 && r.carry == (v >= 128),
            which == 1 ==> r.value == v / 2 && r.carry == (v % 2 == 1),
            which == 2 ==> r.value as int == (v * 2 + (if self.regs.flags.carry {
                1int
            } else {
                0int
            })) % 256 && r.carry == (v >= 128),
            which == 3 ==> r.value as int == v / 2 + (if self.regs.flags.carry {
                128int
            } else {
                0int
            }) && r.carry == (v % 2 == 1),
    {
        if which == 0 {
            crate::ops::asl_core(v)
        } else if which == 1 {
            crate::ops::lsr_core(v)
        } else if which == 2 {
            crate::ops::rol_core(v, self.regs.flags.carry)
        } else {
            crate::ops::ror_core(v, self.regs.flags.carry)
        }
    }

    /// Deliver the non-maskable interrupt, which no flag can mask.
    pub fn nmi(&mut self) -> (cycles: u16)
        requires
            machine_wf(*old(self)),
            old(self).cy < 0x0FFF_FFFF_FFFF_0000u64,
        ensures
            machine_wf(*final(self)),
            cycles == 7,
            final(self).cy == old(self).cy + 7,
            final(self).dots == old(self).dots,
            final(self).apu == old(self).apu,
            final(self).regs.pc == spec_peek(*old(self), 0xFFFA) + 256 * spec_peek(*old(self),
                0xFFFB),
            final(self).regs.flags == (StatusFlags { irq_disable: true, ..old(self).regs.flags }),
            final(self).regs.s as int == (old(self).regs.s + 253) % 256,
            final(self).regs.a == old(self).regs.a && final(self).regs.x == old(self).regs.x
                && final(self).regs.y == old(self).regs.y,
            final(self).ram@ == old(self).ram@.update(256 + old(self).regs.s, (old(self).regs.pc as int / 256) as u8).update(256 + (old(self).regs.s + 255) % 256, (old(self).regs.pc as int % 256) as u8).update(256 + (old(self).regs.s + 254) % 256,
                crate::ops::spec_pack_status(old(self).regs.flags, false) as u8),
            final(self).ppu == old(self).ppu,
            final(self).mapper == old(self).mapper,
    {
        let c = self.enter_interrupt(0xFFFA, false);
        self.cy = self.cy + c as u64;
        c as u16
    }

    /// Deliver the maskable interrupt; the interrupt-disable flag
    /// suppresses it entirely.
    pub fn irq(&mut self) -> (cycles: u16)
        requires
            machine_wf(*old(self)),
            old(self).cy < 0x0FFF_FFFF_FFFF_0000u64,
        ensures
            machine_wf(*final(self)),
            final(self).dots == old(self).dots,
            final(self).apu == old(self).apu,
            old(self).regs.flags.irq_disable ==> cycles == 0 && *final(self) == *old(self),
            !old(self).regs.flags.irq_disable ==> cycles == 7 && final(self).cy == old(self).cy + 7
                && final(self).regs.pc == spec_peek(*old(self), 0xFFFE) + 256 * spec_peek(
                *old(self),
                0xFFFF,
            ) && final(self).regs.flags == (StatusFlags {
                irq_disable: true,
                ..old(self).regs.flags
            }) && final(self).regs.s as int == (old(self).regs.s + 253) % 256 && final(self).regs.a
                == old(self).regs.a && final(self).regs.x == old(self).regs.x && final(self).regs.y
                == old(self).regs.y && final(self).ram@ == old(self).ram@.update(256 + old(self).regs.s, (old(self).regs.pc as int / 256) as u8).update(256 + (old(self).regs.s + 255)
                % 256, (old(self).regs.pc as int % 256) as u8).update(256 + (old(self).regs.s
                + 254) % 256, crate::ops::spec_pack_status(old(self).regs.flags, false) as u8),
            final(self).ppu == old(self).ppu,
            final(self).mapper == old(self).mapper,
    {
        if self.regs.flags.irq_disable {
            0
        } else {
            let c = self.enter_interrupt(0xFFFE, false);
            self.cy = self.cy + c as u64;
            c as u16
        }
    }

    /// Load the program counter through the reset vector.
    pub fn reset(&mut self)
        requires
            machine_wf(*old(self)),
        ensures
            machine_wf(*final(self)),
            final(self).regs.pc == spec_peek(*old(self), 0xFFFC) + 256 * spec_peek(*old(self),
                0xFFFD),
            final(self).regs.flags == (StatusFlags { irq_disable: true, ..old(self).regs.flags }),
            final(self).cy == old(self).cy && final(self).dots == old(self).dots,
            final(self).ram@ == old(self).ram@ && final(self).mapper == old(self).mapper,
            final(self).ppu == old(self).ppu && final(self).apu == old(self).apu,
            final(self).pad1 == old(self).pad1 && final(self).pad2 == old(self).pad2,
            final(self).regs.a == old(self).regs.a && final(self).regs.x == old(self).regs.x
                && final(self).regs.y == old(self).regs.y && final(self).regs.s == old(self).regs.s,
            final(self).open_bus == spec_peek(*old(self), 0xFFFD),
            final(self).dma_stall == old(self).dma_stall,
    {
        let pc = self.peekw(0xFFFC, 0xFFFD);
        self.regs.pc = pc;
        self.regs.flags.irq_disable = true;
    }

    /// Run the picture unit forward until it has three dots for every
    /// CPU cycle, gathering the interrupt and frame events it raised.
    fn catch_up_ppu(&mut self) -> (r: (bool, bool, bool))
        requires
            machine_wf(*old(self)),
        ensures
            machine_wf(*final(self)),
            final(self).dots == 3 * final(self).cy,
            final(self).cy == old(self).cy,
            final(self).regs == old(self).regs,
            final(self).ram@ == old(self).ram@,
            final(self).apu == old(self).apu,
            final(self).dma_stall == old(self).dma_stall,
            final(self).open_bus == old(self).open_bus,
            crate::ppu::spec_ports_eq(old(self).ppu, final(self).ppu),
            final(self).ppu.frame >= old(self).ppu.frame,
            r.2 == (final(self).ppu.frame > old(self).ppu.frame),
            r.0 ==> crate::ppu::spec_nmi_enabled(final(self).ppu.ctrl),
    {
        let mut nmi = false;
        let mut irq = false;
        let mut frame = false;
        let target: u64 = crate::DOTS_PER_CPU_CYCLE * self.cy;
        while self.dots < target
            invariant
                machine_wf(*self),
                target == 3 * self.cy,
                self.dots <= target,
                self.cy == old(self).cy,
                self.regs == old(self).regs,
                self.ram@ == old(self).ram@,
                self.apu == old(self).apu,
                self.dma_stall == old(self).dma_stall,
                self.open_bus == old(self).open_bus,
                crate::ppu::spec_ports_eq(old(self).ppu, self.ppu),
                self.ppu.frame >= old(self).ppu.frame,
                frame == (self.ppu.frame > old(self).ppu.frame),
                nmi ==> crate::ppu::spec_nmi_enabled(self.ppu.ctrl),
            decreases target - self.dots,
        {
            let t = self.ppu.tick(&mut self.mapper);
            if t.vblank_nmi {
                nmi = true;
            }
            if t.scanline_irq {
                irq = true;
            }
            if t.frame_completed {
                frame = true;
            }
            self.dots = self.dots + 1;
        }
        (nmi, irq, frame)
    }

    /// One full scheduler turn: one instruction, the picture unit
    /// caught up to three dots per cycle, the audio unit caught up
    /// cycle for cycle with its sample fetch served, and interrupts
    /// delivered at this instruction boundary -- the non-maskable one
    /// first, the maskable one only when nothing masks it. The
    /// reported events are tied to the components: a completed frame
    /// is reported exactly when the picture unit's frame counter
    /// advanced, at most one interrupt is delivered per turn, a
    /// delivery leaves the disable flag raised, and the non-maskable
    /// one is only reported with its enable bit set. The pinned
    /// instruction forms keep their exact cycle cost here, and their
    /// machine transition whenever no interrupt intervened.
    #[verifier::rlimit(100)]
    #[verifier::spinoff_prover]
    pub fn step_instruction(&mut self) -> (r: Result<StepEvents, CpuFault>)
        requires
            machine_wf(*old(self)),
            old(self).cy < 0x0FFF_FFFF_FFF0_0000u64,
            old(self).dots == 3 * old(self).cy,
            old(self).apu.phase == old(self).cy,
        ensures
            machine_wf(*final(self)),
            r is Ok ==> final(self).cy == old(self).cy + r->Ok_0.cycles + (if r->Ok_0.nmi_taken
                || r->Ok_0.irq_taken {
                7int
            } else {
                0int
            }),
            r is Ok ==> final(self).dots == 3 * final(self).cy && final(self).apu.phase == final(self).cy,
            r is Ok ==> !(r->Ok_0.nmi_taken && r->Ok_0.irq_taken),
            r is Ok && (r->Ok_0.nmi_taken || r->Ok_0.irq_taken) ==> final(self).regs.flags.irq_disable,
            r is Ok ==> r->Ok_0.frame_completed == (final(self).ppu.frame > old(self).ppu.frame),
            r is Ok && r->Ok_0.nmi_taken ==> crate::ppu::spec_nmi_enabled(final(self).ppu.ctrl),
            ({
                let m0 = *old(self);
                let pc = m0.regs.pc;
                let d = spec_decode(spec_peek(m0, pc));
                let pure2 = spec_pure_addr(pc) && spec_pure_addr(((pc + 1) % 65536) as u16);
                let pure3 = pure2 && spec_pure_addr(((pc + 2) % 65536) as u16);
                let v = spec_peek(m0, ((pc + 1) % 65536) as u16);
                let w = v + 256 * spec_peek(m0, ((pc + 2) % 65536) as u16);
                let quiet = r is Ok && !r->Ok_0.nmi_taken && !r->Ok_0.irq_taken;
                &&& (r is Ok && pure2 && d is Some && d->0.mode is Imm && spec_is_imm_op(
                    d->0.mnem,
                )) ==> r->Ok_0.cycles == d->0.cycles + m0.dma_stall && (quiet ==> final(self).regs
                    == (CpuRegs {
                    pc: ((pc + 2) % 65536) as u16,
                    ..spec_imm_regs(d->0.mnem, m0.regs, v)
                }) && final(self).ram@ == m0.ram@ && final(self).open_bus == v)
                &&& (r is Ok && pure2 && d is Some && d->0.mode is Rel && spec_is_branch(
                    d->0.mnem,
                )) ==> ({
                    let after = ((pc + 2) % 65536) as u16;
                    let target = ((after + crate::ops::signed_of(v) + 65536) % 65536) as u16;
                    let taken = spec_branch_taken(d->0.mnem, m0.regs.flags);
                    &&& r->Ok_0.cycles as int == spec_branch_cycles(taken, crate::ops::page_of(
                        after,
                    ) == crate::ops::page_of(target)) + m0.dma_stall
                    &&& quiet ==> final(self).regs == (CpuRegs {
                        pc: if taken {
                            target
                        } else {
                            after
                        },
                        ..m0.regs
                    }) && final(self).ram@ == m0.ram@ && final(self).open_bus == v
                })
                &&& (r is Ok && pure3 && d is Some && d->0.mnem is Sta && d->0.mode is Abs && w
                    < 0x2000) ==> r->Ok_0.cycles == d->0.cycles + m0.dma_stall && (quiet ==> final(self).ram@ == m0.ram@.update(w % 2048, m0.regs.a) && final(self).regs == (CpuRegs {
                    pc: ((pc + 3) % 65536) as u16,
                    ..m0.regs
                }) && final(self).open_bus == m0.regs.a)
                &&& (r is Ok && pure3 && d is Some && d->0.mnem is Jmp && d->0.mode is Abs)
                    ==> r->Ok_0.cycles == d->0.cycles + m0.dma_stall && (quiet ==> final(self).regs
                    == (CpuRegs { pc: (w % 65536) as u16, ..m0.regs }) && final(self).ram@
                    == m0.ram@)
            }),
            r is Err ==> final(self).cy == old(self).cy && final(self).dots == old(self).dots
                && final(self).apu.phase == old(self).apu.phase && final(self).regs == old(self).regs,
            spec_pure_addr(old(self).regs.pc) ==> (r is Err <==> spec_decode(spec_peek(*old(self),
                old(self).regs.pc)) is None),
    {
        let c = match self.step() {
            Ok(c) => c,
            Err(f) => {
                return Err(f);
            },
        };
        let (nmi_raised, irq_raised, frame1) = self.catch_up_ppu();
        self.apu_advance(c);
        self.serve_dmc();
        let mapper_irq = self.mapper.irq_pending();
        let apu_irq = self.apu.frame_irq;
        let mut nmi_taken = false;
        let mut irq_taken = false;
        if nmi_raised {
            let _ = self.nmi();
            nmi_taken = true;
        } else if (irq_raised || mapper_irq || apu_irq) && !self.regs.flags.irq_disable {
            let _ = self.irq();
            irq_taken = true;
            self.mapper.clear_irq();
        }
        let (_, _, frame2) = self.catch_up_ppu();
        let extra: u16 = if nmi_taken || irq_taken {
            7
        } else {
            0
        };
        self.apu_advance(extra);
        Ok(
            StepEvents {
                cycles: c,
                frame_completed: frame1 || frame2,
                nmi_taken,
                irq_taken,
            },
        )
    }

    /// Run the audio unit forward by the elapsed cycles.
    fn apu_advance(&mut self, n: u16)
        requires
            machine_wf(*old(self)),
            old(self).apu.phase + n <= old(self).cy,
        ensures
            machine_wf(*final(self)),
            final(self).apu.phase == old(self).apu.phase + n,
            final(self).open_bus == old(self).open_bus,
            final(self).cy == old(self).cy && final(self).dots == old(self).dots,
            final(self).regs == old(self).regs,
            final(self).ram@ == old(self).ram@,
            final(self).mapper == old(self).mapper,
            final(self).ppu == old(self).ppu,
            final(self).dma_stall == old(self).dma_stall,
    {
        let mut i: u16 = 0;
        while i < n
            invariant
                machine_wf(*self),
                i <= n,
                self.apu.phase == old(self).apu.phase + i,
                self.open_bus == old(self).open_bus,
                old(self).apu.phase + n <= old(self).cy,
                self.cy == old(self).cy && self.dots == old(self).dots,
                self.regs == old(self).regs,
                self.ram@ == old(self).ram@,
                self.mapper == old(self).mapper,
                self.ppu == old(self).ppu,
                self.dma_stall == old(self).dma_stall,
            decreases n - i,
        {
            self.apu.cycle();
            i = i + 1;
        }
    }

    /// Serve at most one pending delta-channel sample fetch: the only
    /// audio component with bus access issues its read here.
    fn serve_dmc(&mut self)
        requires
            machine_wf(*old(self)),
        ensures
            machine_wf(*final(self)),
            final(self).cy == old(self).cy && final(self).dots == old(self).dots,
            final(self).regs == old(self).regs,
            final(self).ram@ == old(self).ram@,
            final(self).mapper == old(self).mapper,
            final(self).apu.phase == old(self).apu.phase,
            final(self).dma_stall == old(self).dma_stall,
            final(self).ppu == old(self).ppu,
            final(self).open_bus == old(self).open_bus,
    {
        if self.apu.dmc_wants_fetch() {
            let off = self.apu.dmc_fetch_addr();
            let addr: u16 = 0x8000 + off % 0x8000;
            let v = self.mapper.prg_loadb(addr);
            self.apu.dmc_supply(v);
        }
    }
}



} // verus!
