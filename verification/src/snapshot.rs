//! The snapshot codec: one ordered record of every piece of machine
//! state the components own, captured from a running machine and
//! restorable onto a machine built around the same cartridge wiring.
//! Restoring onto an incompatible machine is a reported error that
//! leaves the machine untouched.

use vstd::prelude::*;
use crate::apu::Apu;
use crate::input::Controller;
use crate::machine::{CpuRegs, Machine, machine_wf};
use crate::mapper::{IrqRegs, Mapper};
use crate::ops;
use crate::ppu::Ppu;

verus! {

/// The bank-select state of each mapper variant.
#[derive(Clone, Copy, PartialEq, Eq, Structural, Debug)]
pub enum MapperSnapshot {
    Fixed,
    PrgSwitch { bank: u8 },
    ChrSwitch { bank: u8 },
    PrgChrIrq { regs: IrqRegs },
}

/// Why a snapshot was refused.
#[derive(Clone, Copy, PartialEq, Eq, Structural, Debug)]
pub enum SnapshotError {
    /// The snapshot's mapper state does not fit the loaded cartridge,
    /// or its fields are out of range for any machine.
    Incompatible,
}

/// The full machine record.
pub struct Snapshot {
    pub a: u8,
    pub x: u8,
    pub y: u8,
    pub s: u8,
    pub pc: u16,
    /// The status byte as pushed with the break bit clear.
    pub status: u8,
    pub cy: u64,
    pub dots: u64,
    pub dma_stall: u16,
    pub open_bus: u8,
    pub ram: Vec<u8>,
    pub ppu_ctrl: u8,
    pub ppu_mask: u8,
    pub ppu_vblank: bool,
    pub ppu_sprite0_hit: bool,
    pub ppu_sprite_overflow: bool,
    pub ppu_oam_addr: u8,
    pub vram: Vec<u8>,
    pub palette: Vec<u8>,
    pub oam: Vec<u8>,
    pub ppu_scroll_x: u8,
    pub ppu_scroll_y: u8,
    pub ppu_write_latch_second: bool,
    pub ppu_vram_addr: u16,
    pub ppu_read_buffer: u8,
    pub ppu_dot: u16,
    pub ppu_scanline: u16,
    pub ppu_frame: u64,
    pub ppu_odd: bool,
    pub ppu_suppress_nmi: bool,
    pub apu_regs: Vec<u8>,
    pub apu_enable: u8,
    pub apu_five_step: bool,
    pub apu_irq_inhibit: bool,
    pub apu_seq_cycles: u32,
    pub apu_seq_step: u8,
    pub apu_frame_irq: bool,
    pub apu_len1: u8,
    pub apu_len2: u8,
    pub apu_len3: u8,
    pub apu_len4: u8,
    pub apu_sample_cycles: u8,
    pub apu_phase: u64,
    pub apu_dmc_cur_addr: u16,
    pub apu_dmc_remaining: u16,
    pub apu_dmc_buf: u8,
    pub apu_dmc_active: bool,
    pub pad1_buttons: u8,
    pub pad1_strobe: bool,
    pub pad1_shift: u8,
    pub pad2_buttons: u8,
    pub pad2_strobe: bool,
    pub pad2_shift: u8,
    pub mapper: MapperSnapshot,
}

/// The bank-select state a mapper currently holds.
pub open spec fn spec_mapper_snap(m: Mapper) -> MapperSnapshot {
    match m {
        Mapper::Fixed { .. } => MapperSnapshot::Fixed,
        Mapper::PrgSwitch { bank, .. } => MapperSnapshot::PrgSwitch { bank },
        Mapper::ChrSwitch { bank, .. } => MapperSnapshot::ChrSwitch { bank },
        Mapper::PrgChrIrq { regs, .. } => MapperSnapshot::PrgChrIrq { regs },
    }
}

/// The snapshot records exactly this machine's state.
pub open spec fn spec_captured(s: Snapshot, m: Machine) -> bool {
    &&& s.a == m.regs.a && s.x == m.regs.x && s.y == m.regs.y && s.s == m.regs.s && s.pc
        == m.regs.pc
    &&& s.status == ops::spec_pack_status(m.regs.flags, false)
    &&& s.cy == m.cy && s.dots == m.dots && s.dma_stall == m.dma_stall && s.open_bus == m.open_bus
    &&& s.ram@ == m.ram@
    &&& s.ppu_ctrl == m.ppu.ctrl && s.ppu_mask == m.ppu.mask && s.ppu_vblank == m.ppu.vblank
    &&& s.ppu_sprite0_hit == m.ppu.sprite0_hit && s.ppu_sprite_overflow == m.ppu.sprite_overflow
    &&& s.ppu_oam_addr == m.ppu.oam_addr
    &&& s.vram@ == m.ppu.vram@ && s.palette@ == m.ppu.palette@ && s.oam@ == m.ppu.oam@
    &&& s.ppu_scroll_x == m.ppu.scroll_x && s.ppu_scroll_y == m.ppu.scroll_y
    &&& s.ppu_write_latch_second == m.ppu.write_latch_second && s.ppu_vram_addr == m.ppu.vram_addr
    &&& s.ppu_read_buffer == m.ppu.read_buffer
    &&& s.ppu_dot == m.ppu.dot && s.ppu_scanline == m.ppu.scanline && s.ppu_frame == m.ppu.frame
    &&& s.ppu_odd == m.ppu.odd && s.ppu_suppress_nmi == m.ppu.suppress_nmi
    &&& s.apu_regs@ == m.apu.regs@ && s.apu_enable == m.apu.enable
    &&& s.apu_five_step == m.apu.five_step && s.apu_irq_inhibit == m.apu.irq_inhibit
    &&& s.apu_seq_cycles == m.apu.seq_cycles && s.apu_seq_step == m.apu.seq_step
    &&& s.apu_frame_irq == m.apu.frame_irq
    &&& s.apu_len1 == m.apu.len1 && s.apu_len2 == m.apu.len2 && s.apu_len3 == m.apu.len3
        && s.apu_len4 == m.apu.len4
    &&& s.apu_sample_cycles == m.apu.sample_cycles && s.apu_phase == m.apu.phase
    &&& s.apu_dmc_cur_addr == m.apu.dmc_cur_addr && s.apu_dmc_remaining == m.apu.dmc_remaining
    &&& s.apu_dmc_buf == m.apu.dmc_buf && s.apu_dmc_active == m.apu.dmc_active
    &&& s.pad1_buttons == m.pad1.buttons && s.pad1_strobe == m.pad1.strobe && s.pad1_shift
        == m.pad1.shift
    &&& s.pad2_buttons == m.pad2.buttons && s.pad2_strobe == m.pad2.strobe && s.pad2_shift
        == m.pad2.shift
    &&& s.mapper == spec_mapper_snap(m.mapper)
}

/// The machine now holds exactly this snapshot's state; its six
/// stored flags come back through the status byte.
pub open spec fn spec_restored(m: Machine, s: Snapshot) -> bool {
    &&& m.regs.a == s.a && m.regs.x == s.x && m.regs.y == s.y && m.regs.s == s.s && m.regs.pc
        == s.pc
    &&& m.regs.flags == ops::spec_unpack_status(s.status)
    &&& m.cy == s.cy && m.dots == s.dots && m.dma_stall == s.dma_stall && m.open_bus == s.open_bus
    &&& m.ram@ == s.ram@
    &&& m.ppu.ctrl == s.ppu_ctrl && m.ppu.mask == s.ppu_mask && m.ppu.vblank == s.ppu_vblank
    &&& m.ppu.sprite0_hit == s.ppu_sprite0_hit && m.ppu.sprite_overflow == s.ppu_sprite_overflow
    &&& m.ppu.oam_addr == s.ppu_oam_addr
    &&& m.ppu.vram@ == s.vram@ && m.ppu.palette@ == s.palette@ && m.ppu.oam@ == s.oam@
    &&& m.ppu.scroll_x == s.ppu_scroll_x && m.ppu.scroll_y == s.ppu_scroll_y
    &&& m.ppu.write_latch_second == s.ppu_write_latch_second && m.ppu.vram_addr == s.ppu_vram_addr
    &&& m.ppu.read_buffer == s.ppu_read_buffer
    &&& m.ppu.dot == s.ppu_dot && m.ppu.scanline == s.ppu_scanline && m.ppu.frame == s.ppu_frame
    &&& m.ppu.odd == s.ppu_odd && m.ppu.suppress_nmi == s.ppu_suppress_nmi
    &&& m.apu.regs@ == s.apu_regs@ && m.apu.enable == s.apu_enable
    &&& m.apu.five_step == s.apu_five_step && m.apu.irq_inhibit == s.apu_irq_inhibit
    &&& m.apu.seq_cycles == s.apu_seq_cycles && m.apu.seq_step == s.apu_seq_step
    &&& m.apu.frame_irq == s.apu_frame_irq
    &&& m.apu.len1 == s.apu_len1 && m.apu.len2 == s.apu_len2 && m.apu.len3 == s.apu_len3
        && m.apu.len4 == s.apu_len4
    &&& m.apu.sample_cycles == s.apu_sample_cycles && m.apu.phase == s.apu_phase
    &&& m.apu.dmc_cur_addr == s.apu_dmc_cur_addr && m.apu.dmc_remaining == s.apu_dmc_remaining
    &&& m.apu.dmc_buf == s.apu_dmc_buf && m.apu.dmc_active == s.apu_dmc_active
    &&& m.pad1.buttons == s.pad1_buttons && m.pad1.strobe == s.pad1_strobe && m.pad1.shift
        == s.pad1_shift
    &&& m.pad2.buttons == s.pad2_buttons && m.pad2.strobe == s.pad2_strobe && m.pad2.shift
        == s.pad2_shift
    &&& spec_mapper_snap(m.mapper) == s.mapper
}

/// Every range and relation a machine's well-formedness needs of a
/// snapshot's fields.
pub open spec fn spec_snapshot_valid(s: Snapshot) -> bool {
    &&& s.ram.len() == 2048
    &&& s.vram.len() == 4096
    &&& s.palette.len() == 32
    &&& s.oam.len() == 256
    &&& s.apu_regs.len() == 20
    &&& s.ppu_dot < crate::ppu::DOTS_PER_LINE
    &&& s.ppu_scanline < crate::ppu::LINES_PER_FRAME
    &&& s.apu_seq_cycles < crate::apu::SEQ_QUARTER
    &&& s.apu_seq_step < 5
    &&& s.apu_sample_cycles < crate::apu::SAMPLE_PERIOD
    &&& s.pad1_shift <= 8
    &&& s.pad2_shift <= 8
    &&& s.cy < 0x1000_0000_0000_0000u64
    &&& s.dots <= 3 * s.cy
    &&& s.ppu_frame <= s.dots
    &&& s.apu_phase <= s.cy
    &&& s.dma_stall <= 60513
}

/// Whether a snapshot fits the machine it would be restored onto:
/// valid fields, and the bank-select record of the same wiring
/// variant the loaded cartridge uses.
pub open spec fn spec_compatible(s: Snapshot, m: Machine) -> bool {
    &&& spec_snapshot_valid(s)
    &&& (match (s.mapper, m.mapper) {
        (MapperSnapshot::Fixed, Mapper::Fixed { .. }) => true,
        (MapperSnapshot::PrgSwitch { .. }, Mapper::PrgSwitch { .. }) => true,
        (MapperSnapshot::ChrSwitch { .. }, Mapper::ChrSwitch { .. }) => true,
        (MapperSnapshot::PrgChrIrq { .. }, Mapper::PrgChrIrq { .. }) => true,
        _ => false,
    })
}

fn copy_bytes(src: &Vec<u8>) -> (r: Vec<u8>)
    ensures
        r@ == src@,
{
    let n = src.len();
    let mut out: Vec<u8> = Vec::new();
    let mut i: usize = 0;
    while i < n
        invariant
            n == src.len(),
            i <= n,
            out@ == src@.subrange(0, i as int),
        decreases n - i,
    {
        out.push(src[i]);
        assert(out@ =~= src@.subrange(0, i + 1));
        i = i + 1;
    }
    assert(out@ =~= src@);
    out
}

/// Capture the whole machine into one record.
pub fn capture(m: &Machine) -> (s: Snapshot)
    requires
        machine_wf(*m),
    ensures
        spec_captured(s, *m),
        spec_compatible(s, *m),
{
    let mapper = match &m.mapper {
        Mapper::Fixed { .. } => MapperSnapshot::Fixed,
        Mapper::PrgSwitch { bank, .. } => MapperSnapshot::PrgSwitch { bank: *bank },
        Mapper::ChrSwitch { bank, .. } => MapperSnapshot::ChrSwitch { bank: *bank },
        Mapper::PrgChrIrq { regs, .. } => MapperSnapshot::PrgChrIrq { regs: *regs },
    };
    Snapshot {
        a: m.regs.a,
        x: m.regs.x,
        y: m.regs.y,
        s: m.regs.s,
        pc: m.regs.pc,
        status: ops::pack_status(&m.regs.flags, false),
        cy: m.cy,
        dots: m.dots,
        dma_stall: m.dma_stall,
        open_bus: m.open_bus,
        ram: copy_bytes(&m.ram),
        ppu_ctrl: m.ppu.ctrl,
        ppu_mask: m.ppu.mask,
        ppu_vblank: m.ppu.vblank,
        ppu_sprite0_hit: m.ppu.sprite0_hit,
        ppu_sprite_overflow: m.ppu.sprite_overflow,
        ppu_oam_addr: m.ppu.oam_addr,
        vram: copy_bytes(&m.ppu.vram),
        palette: copy_bytes(&m.ppu.palette),
        oam: copy_bytes(&m.ppu.oam),
        ppu_scroll_x: m.ppu.scroll_x,
        ppu_scroll_y: m.ppu.scroll_y,
        ppu_write_latch_second: m.ppu.write_latch_second,
        ppu_vram_addr: m.ppu.vram_addr,
        ppu_read_buffer: m.ppu.read_buffer,
        ppu_dot: m.ppu.dot,
        ppu_scanline: m.ppu.scanline,
        ppu_frame: m.ppu.frame,
        ppu_odd: m.ppu.odd,
        ppu_suppress_nmi: m.ppu.suppress_nmi,
        apu_regs: copy_bytes(&m.apu.regs),
        apu_enable: m.apu.enable,
        apu_five_step: m.apu.five_step,
        apu_irq_inhibit: m.apu.irq_inhibit,
        apu_seq_cycles: m.apu.seq_cycles,
        apu_seq_step: m.apu.seq_step,
        apu_frame_irq: m.apu.frame_irq,
        apu_len1: m.apu.len1,
        apu_len2: m.apu.len2,
        apu_len3: m.apu.len3,
        apu_len4: m.apu.len4,
        apu_sample_cycles: m.apu.sample_cycles,
        apu_phase: m.apu.phase,
        apu_dmc_cur_addr: m.apu.dmc_cur_addr,
        apu_dmc_remaining: m.apu.dmc_remaining,
        apu_dmc_buf: m.apu.dmc_buf,
        apu_dmc_active: m.apu.dmc_active,
        pad1_buttons: m.pad1.buttons,
        pad1_strobe: m.pad1.strobe,
        pad1_shift: m.pad1.shift,
        pad2_buttons: m.pad2.buttons,
        pad2_strobe: m.pad2.strobe,
        pad2_shift: m.pad2.shift,
        mapper,
    }
}

/// Restore a machine from a record. Succeeds exactly when the record
/// is compatible with the loaded cartridge; on failure the machine is
/// untouched. On success every recorded field is written back and the
/// cartridge's bank data stays as loaded.
pub fn restore(m: &mut Machine, s: &Snapshot) -> (r: Result<(), SnapshotError>)
    requires
        machine_wf(*old(m)),
    ensures
        machine_wf(*final(m)),
        r is Ok <==> spec_compatible(*s, *old(m)),
        r is Ok ==> spec_restored(*final(m), *s),
        r is Ok ==> final(m).mapper.cart() == old(m).mapper.cart(),
        r is Ok ==> final(m).ppu.screen@ == old(m).ppu.screen@,
        r is Err ==> *final(m) == *old(m) && r->Err_0 == SnapshotError::Incompatible,
{
    let kind_ok = match (&s.mapper, &m.mapper) {
        (MapperSnapshot::Fixed, Mapper::Fixed { .. }) => true,
        (MapperSnapshot::PrgSwitch { .. }, Mapper::PrgSwitch { .. }) => true,
        (MapperSnapshot::ChrSwitch { .. }, Mapper::ChrSwitch { .. }) => true,
        (MapperSnapshot::PrgChrIrq { .. }, Mapper::PrgChrIrq { .. }) => true,
        _ => false,
    };
    let valid = s.ram.len() == 2048 && s.vram.len() == 4096 && s.palette.len() == 32 && s.oam.len()
        == 256 && s.apu_regs.len() == 20 && s.ppu_dot < crate::ppu::DOTS_PER_LINE
        && s.ppu_scanline < crate::ppu::LINES_PER_FRAME && s.apu_seq_cycles
        < crate::apu::SEQ_QUARTER && s.apu_seq_step < 5 && s.apu_sample_cycles
        < crate::apu::SAMPLE_PERIOD && s.pad1_shift <= 8 && s.pad2_shift <= 8 && s.cy
        < 0x1000_0000_0000_0000u64 && s.dots <= 3 * s.cy && s.ppu_frame <= s.dots && s.apu_phase
        <= s.cy && s.dma_stall <= 60513;
    if !(kind_ok && valid) {
        return Err(SnapshotError::Incompatible);
    }
    m.regs.a = s.a;
    m.regs.x = s.x;
    m.regs.y = s.y;
    m.regs.s = s.s;
    m.regs.pc = s.pc;
    m.regs.flags = ops::unpack_status(s.status);
    m.cy = s.cy;
    m.dots = s.dots;
    m.dma_stall = s.dma_stall;
    m.open_bus = s.open_bus;
    m.ram = copy_bytes(&s.ram);
    m.ppu.ctrl = s.ppu_ctrl;
    m.ppu.mask = s.ppu_mask;
    m.ppu.vblank = s.ppu_vblank;
    m.ppu.sprite0_hit = s.ppu_sprite0_hit;
    m.ppu.sprite_overflow = s.ppu_sprite_overflow;
    m.ppu.oam_addr = s.ppu_oam_addr;
    m.ppu.vram = copy_bytes(&s.vram);
    m.ppu.palette = copy_bytes(&s.palette);
    m.ppu.oam = copy_bytes(&s.oam);
    m.ppu.scroll_x = s.ppu_scroll_x;
    m.ppu.scroll_y = s.ppu_scroll_y;
    m.ppu.write_latch_second = s.ppu_write_latch_second;
    m.ppu.vram_addr = s.ppu_vram_addr;
    m.ppu.read_buffer = s.ppu_read_buffer;
    m.ppu.dot = s.ppu_dot;
    m.ppu.scanline = s.ppu_scanline;
    m.ppu.frame = s.ppu_frame;
    m.ppu.odd = s.ppu_odd;
    m.ppu.suppress_nmi = s.ppu_suppress_nmi;
    m.apu.regs = copy_bytes(&s.apu_regs);
    m.apu.enable = s.apu_enable;
    m.apu.five_step = s.apu_five_step;
    m.apu.irq_inhibit = s.apu_irq_inhibit;
    m.apu.seq_cycles = s.apu_seq_cycles;
    m.apu.seq_step = s.apu_seq_step;
    m.apu.frame_irq = s.apu_frame_irq;
    m.apu.len1 = s.apu_len1;
    m.apu.len2 = s.apu_len2;
    m.apu.len3 = s.apu_len3;
    m.apu.len4 = s.apu_len4;
    m.apu.sample_cycles = s.apu_sample_cycles;
    m.apu.phase = s.apu_phase;
    m.apu.dmc_cur_addr = s.apu_dmc_cur_addr;
    m.apu.dmc_remaining = s.apu_dmc_remaining;
    m.apu.dmc_buf = s.apu_dmc_buf;
    m.apu.dmc_active = s.apu_dmc_active;
    m.pad1.buttons = s.pad1_buttons;
    m.pad1.strobe = s.pad1_strobe;
    m.pad1.shift = s.pad1_shift;
    m.pad2.buttons = s.pad2_buttons;
    m.pad2.strobe = s.pad2_strobe;
    m.pad2.shift = s.pad2_shift;
    match (&s.mapper, &mut m.mapper) {
        (MapperSnapshot::PrgSwitch { bank: b }, Mapper::PrgSwitch { bank, .. }) => {
            *bank = *b;
        },
        (MapperSnapshot::ChrSwitch { bank: b }, Mapper::ChrSwitch { bank, .. }) => {
            *bank = *b;
        },
        (MapperSnapshot::PrgChrIrq { regs: r2 }, Mapper::PrgChrIrq { regs, .. }) => {
            *regs = *r2;
        },
        _ => {},
    }
    Ok(())
}

/// Capturing a machine, mutating it however one likes, then restoring
/// the capture onto any compatible machine of the same cartridge
/// reproduces the captured CPU registers, RAM, picture memories,
/// sprite table and mapper bank-select state exactly.
pub proof fn lemma_snapshot_round_trip(m0: Machine, s: Snapshot, m1: Machine)
    requires
        spec_captured(s, m0),
        spec_restored(m1, s),
    ensures
        m1.regs.a == m0.regs.a && m1.regs.x == m0.regs.x && m1.regs.y == m0.regs.y && m1.regs.s
            == m0.regs.s && m1.regs.pc == m0.regs.pc,
        m1.regs.flags == m0.regs.flags,
        m1.ram@ == m0.ram@,
        m1.ppu.vram@ == m0.ppu.vram@,
        m1.ppu.oam@ == m0.ppu.oam@,
        m1.ppu.palette@ == m0.ppu.palette@,
        spec_mapper_snap(m1.mapper) == spec_mapper_snap(m0.mapper),
        m1.cy == m0.cy,
        m1.ppu.dot == m0.ppu.dot && m1.ppu.scanline == m0.ppu.scanline && m1.ppu.frame
            == m0.ppu.frame,
{
    ops::lemma_status_round_trip(m0.regs.flags, false);
}

} // verus!
