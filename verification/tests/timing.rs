//! Frame timing, interrupt generation, pixel output and the
//! instruction-text formatter.

use nes::cart::parse_cartridge;
use nes::machine::Machine;
use nes::mapper::Mapper;
use nes::ppu::Ppu;

fn build_image(mapper_id: u8, prg_banks: u8, program: &[u8]) -> Vec<u8> {
    let mut v = vec![0x4E, 0x45, 0x53, 0x1A, prg_banks, 0, (mapper_id % 16) << 4, (mapper_id / 16) << 4];
    v.extend_from_slice(&[0u8; 8]);
    let prg_len = prg_banks as usize * 16384;
    let mut prg = vec![0u8; prg_len];
    prg[..program.len()].copy_from_slice(program);
    prg[prg_len - 4] = 0x00;
    prg[prg_len - 3] = 0x80;
    v.extend_from_slice(&prg);
    v
}

fn fresh_ppu_and_mapper() -> (Ppu, Mapper) {
    let img = build_image(0, 1, &[]);
    let cart = parse_cartridge(&img).unwrap();
    let map = Mapper::from_cartridge(cart).unwrap();
    (Ppu::power_on(), map)
}

/// Ticks until a frame completes; returns how many dots it took.
fn run_one_frame(ppu: &mut Ppu, map: &mut Mapper) -> (u64, u32) {
    let mut dots = 0u64;
    let mut nmis = 0u32;
    loop {
        let t = ppu.tick(map);
        dots += 1;
        if t.vblank_nmi {
            nmis += 1;
        }
        if t.frame_completed {
            return (dots, nmis);
        }
    }
}

#[test]
fn frame_lengths_alternate_and_pair_sums_to_twice_nominal_minus_one() {
    let (mut ppu, mut map) = fresh_ppu_and_mapper();
    let nominal = 262u64 * 341;
    let (f0, _) = run_one_frame(&mut ppu, &mut map);
    let (f1, _) = run_one_frame(&mut ppu, &mut map);
    assert_eq!(f0 + 1, f1);
    assert_eq!(f0 + f1, 2 * nominal - 1);
    let (f2, _) = run_one_frame(&mut ppu, &mut map);
    assert_eq!(f2, f0);
}

#[test]
fn vblank_nmi_fires_exactly_once_per_frame_when_enabled() {
    let (mut ppu, mut map) = fresh_ppu_and_mapper();
    ppu.ctrl = 0x80;
    let (_, n0) = run_one_frame(&mut ppu, &mut map);
    assert_eq!(n0, 1);
    let (_, n1) = run_one_frame(&mut ppu, &mut map);
    assert_eq!(n1, 1);
    // Disabled, it never fires.
    ppu.ctrl = 0x00;
    let (_, n2) = run_one_frame(&mut ppu, &mut map);
    assert_eq!(n2, 0);
}

#[test]
fn status_read_on_the_entry_dot_suppresses_the_nmi() {
    let (mut ppu, mut map) = fresh_ppu_and_mapper();
    ppu.ctrl = 0x80;
    ppu.scanline = 241;
    ppu.dot = 1;
    let _status = ppu.reg_read(&map, 2, 0);
    let t = ppu.tick(&mut map);
    assert!(!t.vblank_nmi);
    assert!(ppu.vblank);
    // The rest of this frame is already past the entry dot.
    let (_, n) = run_one_frame(&mut ppu, &mut map);
    assert_eq!(n, 0);
    // The suppression is consumed: the next frame's interrupt fires.
    let (_, n2) = run_one_frame(&mut ppu, &mut map);
    assert_eq!(n2, 1);
}

#[test]
fn vblank_flag_sets_and_clears_at_the_documented_dots() {
    let (mut ppu, mut map) = fresh_ppu_and_mapper();
    ppu.scanline = 241;
    ppu.dot = 1;
    ppu.tick(&mut map);
    assert!(ppu.vblank);
    ppu.scanline = 261;
    ppu.dot = 1;
    ppu.tick(&mut map);
    assert!(!ppu.vblank);
}

/// A cartridge whose graphics RAM gets a solid tile 1, a background
/// naming tile 1 everywhere, and sprite zero over it.
fn collision_setup() -> (Ppu, Mapper) {
    let (mut ppu, mut map) = fresh_ppu_and_mapper();
    // Tile 1: all pattern bits set in plane 0.
    for row in 0..8u16 {
        map.chr_storeb(16 + row, 0xFF);
    }
    // Name the whole first nametable as tile 1.
    for i in 0..960usize {
        ppu.vram[i] = 1;
    }
    // Sprite zero at the top left; its rows cover y in 1..=8.
    ppu.oam[0] = 0; // top - 1
    ppu.oam[1] = 1; // tile
    ppu.oam[2] = 0; // attributes
    ppu.oam[3] = 0; // left
    ppu.mask = 0x18; // background and sprites on
    (ppu, map)
}

#[test]
fn sprite_zero_hit_sets_on_first_opaque_overlap_and_not_before() {
    let (mut ppu, map) = collision_setup();
    assert!(!ppu.sprite0_hit);
    // A pixel the sprite does not cover: no hit.
    nes::render::render_dot(&mut ppu, &map, 100, 100);
    assert!(!ppu.sprite0_hit);
    // The first covered pixel: both layers opaque, hit latches.
    nes::render::render_dot(&mut ppu, &map, 0, 1);
    assert!(ppu.sprite0_hit);
    // It stays latched on later pixels.
    nes::render::render_dot(&mut ppu, &map, 200, 200);
    assert!(ppu.sprite0_hit);
}

#[test]
fn sprite_zero_hit_needs_an_opaque_background() {
    let (mut ppu, map) = collision_setup();
    ppu.mask = 0x10; // sprites only
    nes::render::render_dot(&mut ppu, &map, 0, 1);
    assert!(!ppu.sprite0_hit);
}

#[test]
fn visible_pixels_land_in_the_frame_buffer() {
    let (mut ppu, map) = collision_setup();
    ppu.palette[0] = 0x0F;
    // Palette entry for background pixel value 1 of palette 0.
    ppu.palette[1] = 0x21;
    nes::render::render_dot(&mut ppu, &map, 5, 0);
    // Sprite zero also covers columns 0..8 from row 1; row 0 is
    // background only: tile 1 plane 0 is solid, so pixel value 1.
    assert_eq!(ppu.screen[5], 0x21);
}

#[test]
fn scanline_counter_raises_the_mapper_interrupt() {
    let mut img = build_image(4, 2, &[]);
    img[5] = 1;
    img.extend_from_slice(&vec![0u8; 8192]);
    let cart = parse_cartridge(&img).unwrap();
    let mut map = Mapper::from_cartridge(cart).unwrap();
    // Latch of 2, reload, enable.
    map.on_cpu_write(0xC000, 2);
    map.on_cpu_write(0xC001, 0);
    map.on_cpu_write(0xE001, 0);
    assert!(!map.irq_pending());
    map.scanline_tick(); // reload to 2
    assert!(!map.irq_pending());
    map.scanline_tick(); // 1
    assert!(!map.irq_pending());
    map.scanline_tick(); // 0: request raised
    assert!(map.irq_pending());
    map.clear_irq();
    assert!(!map.irq_pending());
}

#[test]
fn whole_machine_runs_a_frame_with_rendering_enabled() {
    // Enable background rendering and NMI, then spin.
    let mut m = {
        let img = build_image(0, 1, &[
            0xA9, 0x88, // LDA #$88 (NMI on)
            0x8D, 0x00, 0x20, // STA $2000
            0xA9, 0x18, // LDA #$18 (render on)
            0x8D, 0x01, 0x20, // STA $2001
            0x4C, 0x0A, 0x80, // JMP in place
        ]);
        let cart = parse_cartridge(&img).unwrap();
        let mut m = Machine::from_cartridge(cart).unwrap();
        m.reset();
        m
    };
    let mut frames = 0u32;
    let mut nmis = 0u32;
    let mut steps = 0u64;
    while frames < 2 && steps < 200_000 {
        let ev = m.step_instruction().unwrap();
        if ev.frame_completed {
            frames += 1;
        }
        if ev.nmi_taken {
            nmis += 1;
        }
        steps += 1;
    }
    assert_eq!(frames, 2);
    // One NMI per frame; the handler at the vector spins via BRK-free
    // code, so each delivery lands once per vertical blank.
    assert!(nmis >= 1 && nmis <= 2, "nmis = {}", nmis);
    assert_eq!(m.dots, 3 * m.cy);
}

#[test]
fn disassembler_renders_known_instructions() {
    let mut mem = vec![0u8; 65536];
    mem[0] = 0xA9;
    mem[1] = 0x10;
    mem[2] = 0x4C;
    mem[3] = 0x34;
    mem[4] = 0x12;
    mem[5] = 0xEA;
    mem[6] = 0xD0;
    mem[7] = 0x05;
    mem[8] = 0x8D;
    mem[9] = 0xCD;
    mem[10] = 0xAB;
    mem[11] = 0x01;
    mem[12] = 0x20;
    let mut d = nes::disasm::Disassembler { pc: 0, mem };
    assert_eq!(d.disassemble(), "LDA #$10");
    assert_eq!(d.pc, 2);
    assert_eq!(d.disassemble(), "JMP $1234");
    assert_eq!(d.pc, 5);
    assert_eq!(d.disassemble(), "NOP");
    assert_eq!(d.disassemble(), "BNE xx");
    assert_eq!(d.pc, 7); // the placeholder consumes nothing
    d.pc = 8;
    assert_eq!(d.disassemble(), "STA $ABCD");
    assert_eq!(d.disassemble(), "ORA ($20,X)");
}

#[test]
fn hex_formatting_is_exact() {
    assert_eq!(nes::disasm::hex2(0xAB), "AB");
    assert_eq!(nes::disasm::hex2(0x05), "05");
    assert_eq!(nes::disasm::hex4(0x1234), "1234");
}

#[test]
fn resampler_keeps_every_ratio_th_sample() {
    let mut r = nes::resampler::Resampler::new(1, 4000, 1000, 5).unwrap();
    let input: Vec<i16> = (0..16).map(|i| (i as i16) * 257 - 1000).collect();
    let (bytes, (consumed, written)) = r.process(0, &input, 4);
    assert_eq!(consumed, 16);
    assert_eq!(written, 4);
    assert_eq!(bytes.len(), 8);
    for o in 0..4usize {
        let s = input[o * 4] as u16;
        assert_eq!(bytes[2 * o], (s % 256) as u8);
        assert_eq!(bytes[2 * o + 1], (s / 256) as u8);
    }
}

#[test]
fn audio_samples_accumulate_and_drain() {
    let mut m = {
        let img = build_image(0, 1, &[0x4C, 0x00, 0x80]);
        let cart = parse_cartridge(&img).unwrap();
        let mut m = Machine::from_cartridge(cart).unwrap();
        m.reset();
        m
    };
    // Enable pulse one with a length and a period, then run.
    m.storeb(0x4015, 0x01);
    m.storeb(0x4000, 0x3F); // constant volume 15, halt
    m.storeb(0x4002, 0x80); // period low
    m.storeb(0x4003, 0x08); // length load + period high 0
    for _ in 0..1000 {
        m.step_instruction().unwrap();
    }
    let samples = m.apu.drain_samples();
    assert!(!samples.is_empty());
    assert!(samples.iter().any(|&s| s != 0));
    assert!(m.apu.drain_samples().is_empty());
}

#[test]
fn status_read_through_the_bus_clears_vblank_and_the_write_latch() {
    let img = build_image(0, 1, &[]);
    let cart = parse_cartridge(&img).unwrap();
    let mut m = Machine::from_cartridge(cart).unwrap();
    m.ppu.vblank = true;
    m.ppu.sprite0_hit = true;
    m.ppu.write_latch_second = true;
    let status = m.loadb(0x2002);
    assert_eq!(status & 0x80, 0x80);
    assert_eq!(status & 0x40, 0x40);
    assert!(!m.ppu.vblank);
    assert!(!m.ppu.write_latch_second);
    // A second read sees the bit already cleared.
    assert_eq!(m.loadb(0x2002) & 0x80, 0);
}

#[test]
fn data_port_reads_are_buffered_and_palette_reads_are_not() {
    let img = build_image(0, 1, &[]);
    let cart = parse_cartridge(&img).unwrap();
    let mut m = Machine::from_cartridge(cart).unwrap();
    // Point the address register at a nametable byte and write it.
    m.storeb(0x2006, 0x20);
    m.storeb(0x2006, 0x05);
    m.storeb(0x2007, 0xAB);
    // Read it back: the first read returns the stale buffer.
    m.storeb(0x2006, 0x20);
    m.storeb(0x2006, 0x05);
    let stale = m.loadb(0x2007);
    let fresh = m.loadb(0x2007);
    assert_eq!(stale, 0);
    assert_eq!(fresh, 0xAB);
    // Palette reads bypass the buffer.
    m.storeb(0x2006, 0x3F);
    m.storeb(0x2006, 0x01);
    m.storeb(0x2007, 0x2A);
    m.storeb(0x2006, 0x3F);
    m.storeb(0x2006, 0x01);
    assert_eq!(m.loadb(0x2007), 0x2A);
}

#[test]
fn scroll_register_uses_the_shared_two_step_latch() {
    let img = build_image(0, 1, &[]);
    let cart = parse_cartridge(&img).unwrap();
    let mut m = Machine::from_cartridge(cart).unwrap();
    m.storeb(0x2005, 17);
    m.storeb(0x2005, 99);
    assert_eq!(m.ppu.scroll_x, 17);
    assert_eq!(m.ppu.scroll_y, 99);
    // A status read resets the latch: the next write is horizontal.
    m.storeb(0x2005, 1);
    m.loadb(0x2002);
    m.storeb(0x2005, 55);
    assert_eq!(m.ppu.scroll_x, 55);
}

#[test]
fn dual_window_mapper_switches_half_banks() {
    let mut img = build_image(4, 2, &[]);
    img[5] = 1;
    img.extend_from_slice(&vec![0u8; 8192]);
    let cart = parse_cartridge(&img).unwrap();
    let mut map = Mapper::from_cartridge(cart).unwrap();
    // Four half-size banks; the two movable windows start at bank 0.
    assert_eq!(map.translate_prg_address(0x8000), 0);
    assert_eq!(map.translate_prg_address(0xA000), 0);
    // The last two windows are fixed to the last banks.
    assert_eq!(map.translate_prg_address(0xC000), 2 * 8192);
    assert_eq!(map.translate_prg_address(0xE000), 3 * 8192);
    // Select the first movable window, move it to bank 1.
    map.on_cpu_write(0x8000, 6);
    map.on_cpu_write(0x8001, 1);
    assert_eq!(map.translate_prg_address(0x8000), 8192);
    assert_eq!(map.translate_prg_address(0xC000), 2 * 8192);
    // Graphics fine banks move with their registers.
    map.on_cpu_write(0x8000, 2);
    map.on_cpu_write(0x8001, 5);
    assert_eq!(map.translate_chr_address(0x1000), 5 * 1024);
}
