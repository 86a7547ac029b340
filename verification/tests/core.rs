//! End-to-end checks of the machine: cartridge loading, instruction
//! execution with exact cycle accounting, interrupts, mapper bank
//! switching, the controller protocol, and the snapshot codec.

use nes::cart::{parse_cartridge, LoadError, MirrorMode};
use nes::decode::decode;
use nes::machine::Machine;
use nes::mapper::Mapper;
use nes::snapshot::{capture, restore, MapperSnapshot};

/// A minimal cartridge image: one 16K program bank, graphics RAM,
/// the given mapper, with `program` placed at the start of the bank
/// and the reset vector pointing at it.
fn build_image(mapper_id: u8, prg_banks: u8, program: &[u8]) -> Vec<u8> {
    let mut v = vec![0x4E, 0x45, 0x53, 0x1A, prg_banks, 0, (mapper_id % 16) << 4, (mapper_id / 16) << 4];
    v.extend_from_slice(&[0u8; 8]);
    let prg_len = prg_banks as usize * 16384;
    let mut prg = vec![0u8; prg_len];
    prg[..program.len()].copy_from_slice(program);
    // Reset vector in the last bank points at 0x8000.
    prg[prg_len - 4] = 0x00;
    prg[prg_len - 3] = 0x80;
    v.extend_from_slice(&prg);
    v
}

fn machine_with_program(program: &[u8]) -> Machine {
    let img = build_image(0, 1, program);
    let cart = parse_cartridge(&img).expect("image parses");
    let mut m = Machine::from_cartridge(cart).expect("mapper supported");
    m.reset();
    m
}

#[test]
fn cartridge_rejects_short_image() {
    let v = vec![0x4E, 0x45, 0x53];
    assert!(matches!(parse_cartridge(&v), Err(LoadError::BadHeader)));
}

#[test]
fn cartridge_rejects_bad_magic() {
    let mut img = build_image(0, 1, &[]);
    img[0] = 0x4D;
    assert!(matches!(parse_cartridge(&img), Err(LoadError::BadHeader)));
}

#[test]
fn cartridge_rejects_unsupported_mapper() {
    let img = build_image(1, 1, &[]);
    assert!(matches!(parse_cartridge(&img), Err(LoadError::UnsupportedMapper)));
}

#[test]
fn cartridge_rejects_truncated_banks() {
    let mut img = build_image(0, 1, &[]);
    img.truncate(16);
    assert!(matches!(parse_cartridge(&img), Err(LoadError::Truncated)));
}

#[test]
fn cartridge_decodes_header_fields() {
    let mut img = build_image(0, 1, &[]);
    img[6] |= 0x03; // vertical mirroring + battery
    let cart = parse_cartridge(&img).unwrap();
    assert_eq!(cart.mapper_id, 0);
    assert_eq!(cart.mirroring, MirrorMode::Vertical);
    assert!(cart.battery);
    assert!(cart.chr_is_ram);
    assert_eq!(cart.prg.len(), 16384);
    assert_eq!(cart.chr.len(), 8192);
}

#[test]
fn decode_is_deterministic_and_matches_table() {
    let a = decode(0xA9);
    let b = decode(0xA9);
    assert_eq!(a, b);
    let i = a.unwrap();
    assert!(matches!(i.mnem, nes::decode::Mnemonic::Lda));
    assert!(matches!(i.mode, nes::decode::AddrMode::Imm));
    assert_eq!(i.cycles, 2);
    let brk = decode(0x00).unwrap();
    assert_eq!(brk.cycles, 7);
    assert_eq!(decode(0x02), None);
    assert_eq!(decode(0x02), decode(0x02));
}

#[test]
fn adc_flag_reference_values() {
    // 0x50 + 0x50 with carry clear: 0xA0, carry clear, overflow set,
    // negative set.
    let r = nes::ops::adc_core(0x50, 0x50, false);
    assert_eq!(r.value, 0xA0);
    assert!(!r.carry);
    assert!(r.overflow);
    assert!(r.value >= 128);
    // 0xFF + 0x01: wraps to zero with carry, no signed overflow.
    let r = nes::ops::adc_core(0xFF, 0x01, false);
    assert_eq!(r.value, 0x00);
    assert!(r.carry);
    assert!(!r.overflow);
    // Subtraction: 0x00 - 0x01 with carry set borrows.
    let r = nes::ops::sbc_core(0x00, 0x01, true);
    assert_eq!(r.value, 0xFF);
    assert!(!r.carry);
}

#[test]
fn status_byte_round_trips() {
    let f = nes::ops::StatusFlags {
        carry: true,
        zero: false,
        irq_disable: true,
        decimal: false,
        overflow: true,
        negative: false,
    };
    let b = nes::ops::pack_status(&f, false);
    let g = nes::ops::unpack_status(b);
    assert_eq!(g.carry, f.carry);
    assert_eq!(g.zero, f.zero);
    assert_eq!(g.irq_disable, f.irq_disable);
    assert_eq!(g.decimal, f.decimal);
    assert_eq!(g.overflow, f.overflow);
    assert_eq!(g.negative, f.negative);
}

#[test]
fn program_stores_immediate_with_exact_cycles() {
    // LDA #$42; STA $0200; JMP $8005 (spins).
    let mut m = machine_with_program(&[0xA9, 0x42, 0x8D, 0x00, 0x02, 0x4C, 0x05, 0x80]);
    assert_eq!(m.regs.pc, 0x8000);
    let c1 = m.step().unwrap();
    assert_eq!(c1, 2);
    assert_eq!(m.regs.a, 0x42);
    let c2 = m.step().unwrap();
    assert_eq!(c2, 4);
    assert_eq!(m.ram[0x0200], 0x42);
    let c3 = m.step().unwrap();
    assert_eq!(c3, 3);
    assert_eq!(m.regs.pc, 0x8005);
    assert_eq!(m.cy, 2 + 4 + 3);
    // The jump spins in place with a constant cost per lap.
    let c4 = m.step().unwrap();
    assert_eq!(c4, 3);
    assert_eq!(m.regs.pc, 0x8005);
}

#[test]
fn undecodable_byte_is_a_reported_fault() {
    let mut m = machine_with_program(&[0x02]);
    let before_cy = m.cy;
    let r = m.step();
    assert_eq!(r.unwrap_err().opcode, 0x02);
    assert_eq!(m.cy, before_cy);
    assert_eq!(m.regs.pc, 0x8000);
}

#[test]
fn branch_timing_not_taken_same_page_and_cross_page() {
    // CLC then BCC +0x10 (same page): 2 then 3 cycles.
    let mut m = machine_with_program(&[0x18, 0x90, 0x10]);
    assert_eq!(m.step().unwrap(), 2);
    assert_eq!(m.step().unwrap(), 3);
    assert_eq!(m.regs.pc, 0x8003 + 0x10);

    // SEC then BCC: not taken, base cost 2.
    let mut m = machine_with_program(&[0x38, 0x90, 0x10]);
    assert_eq!(m.step().unwrap(), 2);
    assert_eq!(m.step().unwrap(), 2);
    assert_eq!(m.regs.pc, 0x8003);

    // CLC then BCC with a backward displacement crossing into the
    // previous page: base + 2.
    let mut m = machine_with_program(&[0x18, 0x90, 0x80]);
    assert_eq!(m.step().unwrap(), 2);
    assert_eq!(m.step().unwrap(), 4);
    assert_eq!(m.regs.pc, 0x8003 - 128);
}

#[test]
fn subroutine_and_stack_round_trip() {
    // JSR $8004; NOP; LDA #$07; RTS back to the NOP after the call.
    let mut m = machine_with_program(&[0x20, 0x04, 0x80, 0xEA, 0xA9, 0x07, 0x60]);
    assert_eq!(m.step().unwrap(), 6); // JSR
    assert_eq!(m.regs.pc, 0x8004);
    m.step().unwrap(); // LDA #$07
    assert_eq!(m.regs.a, 0x07);
    assert_eq!(m.step().unwrap(), 6); // RTS
    assert_eq!(m.regs.pc, 0x8003);
}

#[test]
fn prg_bank_switch_changes_only_the_switchable_window() {
    let img = build_image(2, 2, &[]);
    let cart = parse_cartridge(&img).unwrap();
    let mut map = Mapper::from_cartridge(cart).unwrap();
    assert_eq!(map.translate_prg_address(0x8000), 0);
    assert_eq!(map.translate_prg_address(0xC000), 16384);
    let chr_before = map.translate_chr_address(0x0123);
    map.on_cpu_write(0x8000, 1);
    // The switchable window moved to the second bank at once.
    assert_eq!(map.translate_prg_address(0x8000), 16384);
    assert_eq!(map.translate_prg_address(0x9000), 16384 + 0x1000);
    // The fixed window and the graphics window are untouched.
    assert_eq!(map.translate_prg_address(0xC000), 16384);
    assert_eq!(map.translate_chr_address(0x0123), chr_before);
}

#[test]
fn chr_bank_switch_changes_only_the_graphics_window() {
    let mut img = build_image(3, 1, &[]);
    img[5] = 2; // two graphics banks
    img.extend_from_slice(&vec![0u8; 2 * 8192]);
    let cart = parse_cartridge(&img).unwrap();
    let mut map = Mapper::from_cartridge(cart).unwrap();
    assert_eq!(map.translate_chr_address(0x0000), 0);
    let prg_before = map.translate_prg_address(0x9ABC);
    map.on_cpu_write(0x8000, 1);
    assert_eq!(map.translate_chr_address(0x0000), 8192);
    assert_eq!(map.translate_chr_address(0x07FF), 8192 + 0x07FF);
    assert_eq!(map.translate_prg_address(0x9ABC), prg_before);
}

#[test]
fn fixed_mapper_ignores_writes() {
    let img = build_image(0, 1, &[]);
    let cart = parse_cartridge(&img).unwrap();
    let mut map = Mapper::from_cartridge(cart).unwrap();
    let before = map.translate_prg_address(0x9000);
    map.on_cpu_write(0x8000, 0xFF);
    assert_eq!(map.translate_prg_address(0x9000), before);
}

#[test]
fn controller_strobe_then_shift() {
    let mut m = machine_with_program(&[]);
    m.pad1.set_buttons(0b1010_0101);
    m.storeb(0x4016, 1);
    m.storeb(0x4016, 0);
    let expected = [1, 0, 1, 0, 0, 1, 0, 1];
    for &want in expected.iter() {
        assert_eq!(m.loadb(0x4016), want);
    }
    // Past the eighth bit the line reads set.
    assert_eq!(m.loadb(0x4016), 1);
}

#[test]
fn apu_length_counter_and_status() {
    let mut m = machine_with_program(&[]);
    m.storeb(0x4015, 0x01);
    m.storeb(0x4003, 0x08); // length table entry 1: 254
    assert_eq!(m.apu.len1, 254);
    let status = m.loadb(0x4015);
    assert_eq!(status & 0x01, 0x01);
    // Disabling the channel clears its counter at once.
    m.storeb(0x4015, 0x00);
    assert_eq!(m.apu.len1, 0);
    assert_eq!(m.loadb(0x4015) & 0x01, 0);
}

#[test]
fn ram_is_mirrored_across_its_window() {
    let mut m = machine_with_program(&[]);
    m.storeb(0x0005, 0xAB);
    assert_eq!(m.loadb(0x0805), 0xAB);
    assert_eq!(m.loadb(0x1005), 0xAB);
    m.storeb(0x1805, 0xCD);
    assert_eq!(m.loadb(0x0005), 0xCD);
}

#[test]
fn open_bus_reads_return_last_value() {
    let mut m = machine_with_program(&[]);
    m.storeb(0x0000, 0x5A);
    assert_eq!(m.loadb(0x5000), 0x5A);
}

#[test]
fn snapshot_round_trip_restores_captured_state() {
    let mut m = machine_with_program(&[0xA9, 0x42, 0x8D, 0x00, 0x02]);
    m.step().unwrap();
    m.step().unwrap();
    let snap = capture(&m);
    // Mutate the machine thoroughly.
    m.step().unwrap();
    m.storeb(0x0000, 0x99);
    m.storeb(0x2000, 0xFF);
    m.regs.a = 0;
    restore(&mut m, &snap).unwrap();
    assert_eq!(m.regs.a, 0x42);
    assert_eq!(m.ram[0x0200], 0x42);
    assert_eq!(m.ppu.ctrl, snap.ppu_ctrl);
    assert_eq!(m.cy, snap.cy);
    let snap2 = capture(&m);
    assert_eq!(snap2.ram, snap.ram);
    assert_eq!(snap2.oam, snap.oam);
    assert_eq!(snap2.vram, snap.vram);
    assert_eq!(snap2.status, snap.status);
    assert_eq!(snap2.mapper, snap.mapper);
}

#[test]
fn snapshot_of_other_wiring_is_rejected() {
    let m0 = machine_with_program(&[]);
    let snap = capture(&m0);
    assert_eq!(snap.mapper, MapperSnapshot::Fixed);
    let img = build_image(2, 2, &[]);
    let cart = parse_cartridge(&img).unwrap();
    let mut m2 = Machine::from_cartridge(cart).unwrap();
    let before_cy = m2.cy;
    assert!(restore(&mut m2, &snap).is_err());
    assert_eq!(m2.cy, before_cy);
}

#[test]
fn oam_dma_copies_a_ram_page() {
    let mut m = machine_with_program(&[]);
    for i in 0..256u16 {
        m.storeb(0x0300 + i, i as u8);
    }
    m.storeb(0x4014, 0x03);
    for i in 0..256usize {
        assert_eq!(m.ppu.oam[i], i as u8);
    }
    assert!(m.dma_stall >= 513);
}

#[test]
fn unofficial_no_ops_have_real_length_and_cost() {
    // Implied-shape: one byte, two cycles.
    let mut m = machine_with_program(&[0x1A, 0xEA]);
    assert_eq!(m.step().unwrap(), 2);
    assert_eq!(m.regs.pc, 0x8001);
    // Zero-page shape: two bytes, three cycles, registers untouched.
    let mut m = machine_with_program(&[0x04, 0x33]);
    let a_before = m.regs.a;
    assert_eq!(m.step().unwrap(), 3);
    assert_eq!(m.regs.pc, 0x8002);
    assert_eq!(m.regs.a, a_before);
    // Absolute-indexed shape: three bytes, four cycles.
    let mut m = machine_with_program(&[0x1C, 0x00, 0x02]);
    assert_eq!(m.step().unwrap(), 4);
    assert_eq!(m.regs.pc, 0x8003);
}
