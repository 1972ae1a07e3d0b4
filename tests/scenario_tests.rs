use gameboy::ppu::sprites::SpriteRenderer;
use gameboy::ppu::tiles::TileRenderer;
use gameboy::ppu::vram::{TileAddressingMode, Vram};
use gameboy::apu::Apu;
use gameboy::cartridge::Cartridge;
use gameboy::cpu::timer::Timer;
use gameboy::cpu::{Cpu, Registers};
use gameboy::memory::BootRom;
use gameboy::peripherals::Peripherals;
use gameboy::ppu::timing::get_expected_mode;
use gameboy::ppu::PpuMode;

fn system_with_program(program: &[u8]) -> (Cpu, Peripherals) {
    let cpu = Cpu::new();
    let mut bus = Peripherals::new(BootRom::new_dummy());
    bus.write(0xFF50, 0x01);
    for (i, &b) in program.iter().enumerate() {
        bus.write(0xC000 + i as u16, b);
    }
    let mut cpu = cpu;
    cpu.registers.pc = 0xC000;
    (cpu, bus)
}

fn header_rom(size: usize, cart_type: u8, rom_code: u8, ram_code: u8) -> Vec<u8> {
    let mut rom = vec![0u8; size];
    rom[0x0147] = cart_type;
    rom[0x0148] = rom_code;
    rom[0x0149] = ram_code;
    rom
}

#[test]
fn scenario_immediate_load() {
    let (mut cpu, mut bus) = system_with_program(&[0x3E, 0x42]);
    let cycles = cpu.step(&mut bus).unwrap();
    assert_eq!(cpu.registers.a, 0x42);
    assert_eq!(cpu.registers.pc, 0xC002);
    assert_eq!(cycles, 8);
}

#[test]
fn scenario_xor_self_for_zero() {
    let (mut cpu, mut bus) = system_with_program(&[0xAF]);
    cpu.registers.a = 0xFF;
    cpu.step(&mut bus).unwrap();
    assert_eq!(cpu.registers.a, 0x00);
    assert!(cpu.registers.zero_flag());
    assert!(!cpu.registers.subtract_flag());
    assert!(!cpu.registers.half_carry_flag());
    assert!(!cpu.registers.carry_flag());
}

#[test]
fn scenario_branch_not_taken() {
    let (mut cpu, mut bus) = system_with_program(&[0x20, 0x05]);
    cpu.registers.set_zero_flag(true);
    let cycles = cpu.step(&mut bus).unwrap();
    assert_eq!(cpu.registers.pc, 0xC002);
    assert_eq!(cycles, 8);
}

#[test]
fn branch_taken_costs_four_more() {
    let (mut cpu, mut bus) = system_with_program(&[0x20, 0x05]);
    let cycles = cpu.step(&mut bus).unwrap();
    assert_eq!(cpu.registers.pc, 0xC007);
    assert_eq!(cycles, 12);
    let (mut cpu2, mut bus2) = system_with_program(&[0xC2, 0x00, 0xC1]);
    let taken = cpu2.step(&mut bus2).unwrap();
    assert_eq!(cpu2.registers.pc, 0xC100);
    let (mut cpu3, mut bus3) = system_with_program(&[0xC2, 0x00, 0xC1]);
    cpu3.registers.set_zero_flag(true);
    let not_taken = cpu3.step(&mut bus3).unwrap();
    assert_eq!(taken, not_taken + 4);
}

#[test]
fn scenario_call_ret_round_trip() {
    let (mut cpu, mut bus) = system_with_program(&[0xCD, 0x00, 0xC1]);
    bus.write(0xC100, 0xC9);
    cpu.registers.sp = 0xDFF0;
    cpu.step(&mut bus).unwrap();
    assert_eq!(cpu.registers.pc, 0xC100);
    cpu.step(&mut bus).unwrap();
    assert_eq!(cpu.registers.pc, 0xC003);
    assert_eq!(cpu.registers.sp, 0xDFF0);
}

#[test]
fn scenario_interrupt_dispatch() {
    let (mut cpu, mut bus) = system_with_program(&[0x00]);
    cpu.registers.sp = 0xDFF0;
    cpu.ime = true;
    bus.write(0xFF0F, 0x01);
    bus.write(0xFFFF, 0x01);
    let cycles = cpu.step(&mut bus).unwrap();
    assert_eq!(cpu.registers.pc, 0x0040);
    assert!(!cpu.ime);
    assert_eq!(cpu.registers.sp, 0xDFEE);
    assert_eq!(bus.read(0xFF0F) & 0x01, 0);
    assert_eq!(cycles, 20);
    assert_eq!(bus.read(0xDFEF), 0xC0);
    assert_eq!(bus.read(0xDFEE), 0x00);
}

#[test]
fn halted_cpu_wakes_on_pending_interrupt() {
    let (mut cpu, mut bus) = system_with_program(&[0x76, 0x00]);
    assert_eq!(cpu.step(&mut bus).unwrap(), 4);
    assert!(cpu.halted);
    assert_eq!(cpu.step(&mut bus).unwrap(), 4);
    assert_eq!(cpu.registers.pc, 0xC001);
    bus.write(0xFFFF, 0x04);
    bus.write(0xFF0F, 0x04);
    cpu.step(&mut bus).unwrap();
    assert!(!cpu.halted);
    assert_eq!(cpu.registers.pc, 0xC002);
}

#[test]
fn ei_takes_effect_after_next_instruction() {
    let (mut cpu, mut bus) = system_with_program(&[0xFB, 0x00, 0x00]);
    cpu.step(&mut bus).unwrap();
    assert!(!cpu.ime);
    cpu.step(&mut bus).unwrap();
    assert!(cpu.ime);
}

#[test]
fn undefined_opcode_is_an_error() {
    let (mut cpu, mut bus) = system_with_program(&[0xD3]);
    let err = cpu.step(&mut bus).unwrap_err();
    assert_eq!(err, "undefined opcode: 0xD3 at PC=0xC000");
}

#[test]
fn scenario_dma_transfer() {
    let mut bus = Peripherals::new(BootRom::new_dummy());
    for i in 0..160u16 {
        bus.write(0xC000 + i, i as u8);
    }
    bus.write(0xFF46, 0xC0);
    bus.tick(700);
    for i in 0..160u16 {
        assert_eq!(bus.read(0xFE00 + i), i as u8);
    }
}

#[test]
fn scenario_vblank_arrival() {
    let mut bus = Peripherals::new(BootRom::new_dummy());
    bus.tick(144 * 456);
    assert_eq!(bus.read(0xFF0F) & 0x01, 0x01);
}

#[test]
fn f_register_keeps_upper_nibble() {
    let mut regs = Registers::new();
    for v in [0x00u8, 0x0F, 0x5A, 0xF3, 0xFF] {
        regs.set_af(0x1200 | v as u16);
        assert_eq!(regs.f, v & 0xF0);
    }
}

#[test]
fn push_then_pop_returns_value() {
    let (mut cpu, mut bus) = system_with_program(&[0xC5, 0xD1]);
    cpu.registers.sp = 0xDFF0;
    cpu.registers.set_bc(0xBEEF);
    cpu.step(&mut bus).unwrap();
    assert_eq!(cpu.registers.sp, 0xDFEE);
    cpu.step(&mut bus).unwrap();
    assert_eq!(cpu.registers.de(), 0xBEEF);
    assert_eq!(cpu.registers.sp, 0xDFF0);
}

#[test]
fn pop_af_masks_flags() {
    let (mut cpu, mut bus) = system_with_program(&[0xC5, 0xF1]);
    cpu.registers.sp = 0xDFF0;
    cpu.registers.set_bc(0x12FF);
    cpu.step(&mut bus).unwrap();
    cpu.step(&mut bus).unwrap();
    assert_eq!(cpu.registers.a, 0x12);
    assert_eq!(cpu.registers.f, 0xF0);
}

#[test]
fn alu_add_sets_half_and_full_carry() {
    let (mut cpu, mut bus) = system_with_program(&[0xC6, 0x01, 0xD6, 0x01]);
    cpu.registers.a = 0xFF;
    cpu.step(&mut bus).unwrap();
    assert_eq!(cpu.registers.a, 0x00);
    assert_eq!(cpu.registers.f, 0xB0);
    cpu.step(&mut bus).unwrap();
    assert_eq!(cpu.registers.a, 0xFF);
    assert_eq!(cpu.registers.f, 0x70);
}

#[test]
fn cb_operations_cost_eight_and_sixteen() {
    let (mut cpu, mut bus) = system_with_program(&[0xCB, 0x37, 0xCB, 0xC6]);
    cpu.registers.a = 0x1F;
    cpu.registers.set_hl(0xC100);
    assert_eq!(cpu.step(&mut bus).unwrap(), 8);
    assert_eq!(cpu.registers.a, 0xF1);
    assert_eq!(cpu.step(&mut bus).unwrap(), 16);
    assert_eq!(bus.read(0xC100), 0x01);
}

#[test]
fn mode_follows_line_and_dot() {
    assert_eq!(get_expected_mode(0, 0), PpuMode::OamScan);
    assert_eq!(get_expected_mode(10, 79), PpuMode::OamScan);
    assert_eq!(get_expected_mode(10, 80), PpuMode::Drawing);
    assert_eq!(get_expected_mode(143, 251), PpuMode::Drawing);
    assert_eq!(get_expected_mode(143, 252), PpuMode::HBlank);
    assert_eq!(get_expected_mode(153, 455), PpuMode::VBlank);
}

#[test]
fn timer_counts_once_per_sixteen_cycles() {
    let mut t = Timer::new();
    t.tac = 0x05;
    for window in 1..=20u8 {
        for _ in 0..16 {
            t.tick();
        }
        assert_eq!(t.tima, window);
    }
    let mut off = Timer::new();
    off.tac = 0x01;
    off.tima = 0x33;
    for _ in 0..100_000 {
        off.tick();
    }
    assert_eq!(off.tima, 0x33);
}

#[test]
fn mbc1_zero_selects_bank_one() {
    let mut rom = header_rom(0x100000, 0x01, 0x05, 0x00);
    rom[0x4000] = 0x11;
    rom[0x20 * 0x4000 + 1] = 0x77;
    rom[0x21 * 0x4000] = 0x21;
    let mut cart = Cartridge::new(rom).unwrap();
    cart.write_rom(0x2000, 0x00);
    assert_eq!(cart.rom_bank, 1);
    assert_eq!(cart.read_rom(0x4000), 0x11);
    cart.write_rom(0x2000, 0x20);
    assert_eq!(cart.rom_bank, 1);
    assert_eq!(cart.read_rom(0x4000), 0x11);
    cart.write_rom(0x4000, 0x01);
    assert_eq!(cart.read_rom(0x4000), 0x21);
    cart.write_rom(0x6000, 0x01);
    assert_eq!(cart.read_rom(0x0001), 0x77);
}

#[test]
fn apu_power_off_clears_channels_keeps_wave() {
    let mut apu = Apu::new();
    apu.write(0xFF26, 0x80);
    apu.write(0xFF12, 0xF0);
    apu.write(0xFF14, 0x80);
    apu.write(0xFF30, 0x5A);
    assert_eq!(apu.read(0xFF26) & 0x01, 0x01);
    apu.write(0xFF26, 0x00);
    assert_eq!(apu.read(0xFF26) & 0x0F, 0x00);
    assert_eq!(apu.read(0xFF30), 0x5A);
}

#[test]
fn memory_round_trips() {
    let mut bus = Peripherals::new(BootRom::new_dummy());
    let mut rom = header_rom(0x8000, 0x03, 0x00, 0x02);
    rom[0] = 0;
    bus.load_cartridge(Cartridge::new(rom).unwrap());
    bus.write(0x0000, 0x0A);
    bus.write(0xFF40, 0x00);
    for _ in 0..(80 + 172) {
        bus.tick(1);
    }
    for &(addr, v) in &[(0xC123u16, 0x11u8), (0xE456, 0x22), (0xFF90, 0x33), (0x8123, 0x44), (0xFE10, 0x55), (0xA010, 0x66), (0xFF35, 0x77)] {
        bus.write(addr, v);
        assert_eq!(bus.read(addr), v, "address {:04X}", addr);
    }
}

#[test]
fn rtc_latch_reads_written_time() {
    let rom = header_rom(0x8000, 0x0F, 0x00, 0x00);
    let mut cart = Cartridge::new(rom).unwrap();
    cart.write_rom(0x0000, 0x0A);
    cart.write_rom(0x4000, 0x08);
    cart.write_ram(0xA000, 30);
    cart.write_rom(0x4000, 0x09);
    cart.write_ram(0xA000, 45);
    cart.write_rom(0x6000, 0x00);
    cart.write_rom(0x6000, 0x01);
    cart.write_rom(0x4000, 0x08);
    assert_eq!(cart.read_ram(0xA000), 30);
    cart.write_rom(0x4000, 0x09);
    assert_eq!(cart.read_ram(0xA000), 45);
}

#[test]
fn rom_too_short_is_rejected() {
    assert!(Cartridge::new(vec![0u8; 0x14F]).is_err());
    assert!(Cartridge::new(vec![0u8; 0x150]).is_ok());
}

#[test]
fn boot_image_size_error_message() {
    let err = BootRom::new(vec![0u8; 100]).err().unwrap();
    assert_eq!(err, "BootRom must be exactly 256 bytes, got 100 bytes");
}

#[test]
fn header_sizes_from_codes() {
    let cart = Cartridge::new(header_rom(0x8000, 0x1B, 0x05, 0x04)).unwrap();
    assert_eq!(cart.header.rom_banks, 64);
    assert_eq!(cart.header.ram_size, 128 * 1024);
    assert_eq!(cart.ram.len(), 128 * 1024);
    let odd = Cartridge::new(header_rom(0x8000, 0x00, 0x52, 0x01)).unwrap();
    assert_eq!(odd.header.rom_banks, 2);
    assert_eq!(odd.header.ram_size, 0);
}

#[test]
fn title_stops_at_zero() {
    let mut rom = header_rom(0x8000, 0x00, 0x00, 0x00);
    rom[0x134..0x13A].copy_from_slice(b"POKEMO");
    let cart = Cartridge::new(rom).unwrap();
    assert_eq!(cart.header.title, "POKEMO");
}

#[test]
fn mixed_samples_are_scaled_levels() {
    let mut apu = Apu::new();
    apu.write(0xFF26, 0x80);
    apu.write(0xFF24, 0x77);
    apu.write(0xFF25, 0x11);
    apu.write(0xFF12, 0xF0);
    apu.write(0xFF11, 0xC0);
    apu.write(0xFF14, 0x87);
    for _ in 0..200 {
        apu.tick();
    }
    let samples = apu.drain_samples();
    assert!(!samples.is_empty());
    for pair in samples.chunks(2) {
        assert_eq!(pair[0], pair[1]);
        assert!(pair[0] == 15 * 8 || pair[0] == -15 * 8);
    }
    assert!(apu.drain_samples().is_empty());
}

#[test]
fn debug_line_lists_registers() {
    let mut cpu = Cpu::new();
    cpu.registers.pc = 0xC00A;
    cpu.registers.a = 0x42;
    cpu.registers.f = 0xB0;
    cpu.instruction_count = 123;
    assert_eq!(
        cpu.debug_string(),
        "PC:C00A SP:0000 A:42 F:B0 B:00 C:00 D:00 E:00 H:00 L:00 | 00000123"
    );
}

#[test]
fn boot_dump_lists_rows() {
    let boot = BootRom::new_dummy();
    let text = boot.dump();
    assert!(text.starts_with("BootRom Dump:\nActive: true\nAddress  : 00 01 02 03 04 05 06 07 08 09 0A 0B 0C 0D 0E 0F\n"));
    assert!(text.contains("0x0F0   : 00 00 00 00 00 00 00 00 00 00 00 00 C3 00 01 00 \n"));
    assert_eq!(text.lines().count(), 3 + 16);
}

#[test]
fn high_memory_dump_shows_text() {
    let mut hram = gameboy::memory::HighRam::new();
    hram.write(0xFF80, b'H');
    hram.write(0xFF81, b'i');
    hram.write(0xFFFE, 0x7F);
    let text = hram.dump();
    assert!(text.contains("0xFF80: 48 69 00"));
    let expected_text = format!(" | Hi{}\n", ".".repeat(14));
    assert!(text.contains(&expected_text));
    assert!(text.contains("0xFFF0: 00 00 00 00 00 00 00 00 00 00 00 00 00 00 7F     | ............... \n"));
}

#[test]
fn work_memory_dump_of_a_range() {
    let mut wram = gameboy::memory::WorkRam::new();
    wram.write(0xC002, b'A');
    wram.write(0xC003, 0x10);
    let text = wram.dump_range(0xC002, 0xC004);
    let expected = format!(
        "=== WRAM Dump 0xC002-0xC004 ===\n0xC000: {}41 10 00 {} |   A..{}\n",
        " ".repeat(6),
        " ".repeat(33),
        " ".repeat(11)
    );
    assert_eq!(text, expected);
}

#[test]
fn bus_dump_names_the_area() {
    let mut bus = Peripherals::new(BootRom::new_dummy());
    bus.write(0xFF80, 0x21);
    let text = bus.dump_memory(0xFF80, 0xFF81);
    let expected = format!(
        "=== Memory Dump 0xFF80-0xFF81 ===\n0xFF80: 21 00 {} | !.{} [High RAM]\n",
        " ".repeat(42),
        " ".repeat(14)
    );
    assert_eq!(text, expected);
    assert_eq!(bus.read_count, 4);
}

#[test]
fn sprite_at_x_zero_still_counts_toward_ten() {
    let mut renderer = SpriteRenderer::new();
    let mut oam = [0u8; 160];
    for i in 0..11 {
        oam[i * 4] = 80;
        oam[i * 4 + 1] = if i == 0 { 0 } else { 20 + i as u8 };
    }
    renderer.parse_oam(&oam);
    let found = renderer.find_sprites_on_scanline(64, 8);
    assert_eq!(found.len(), 10);
    assert_eq!(found[0].0, 0);
    assert!(found.iter().all(|e| e.0 != 10));
}

#[test]
fn window_left_of_screen_edge_is_shifted() {
    let mut ppu = gameboy::ppu::Ppu::new();
    ppu.write(0x8000, 0x01);
    ppu.write(0xFF40, 0x80 | 0x20 | 0x10 | 0x01);
    ppu.write(0xFF4A, 0);
    ppu.write(0xFF4B, 0);
    for _ in 0..(80 + 172) {
        ppu.step();
    }
    assert_eq!(&ppu.framebuffer[0..3], &[0x0F, 0x38, 0x0F]);
    assert_eq!(&ppu.framebuffer[3..6], &[0x9B, 0xBC, 0x0F]);
    assert_eq!(ppu.window_line_counter, 1);
}

#[test]
fn tile_cache_follows_video_memory() {
    let mut vram = Vram::new();
    let mut renderer = TileRenderer::new();
    let first = renderer.render_tile(&vram, 0, TileAddressingMode::Unsigned, 0xE4);
    assert_eq!(first[0], 0);
    vram.write(0, 0x80);
    let second = renderer.render_tile(&vram, 0, TileAddressingMode::Unsigned, 0xE4);
    assert_eq!(second[0], 1);
    let third = renderer.render_tile(&vram, 0, TileAddressingMode::Unsigned, 0xE4);
    assert_eq!(third, second);
}

#[test]
fn unknown_cartridge_type_is_rejected() {
    let err = Cartridge::new(header_rom(0x8000, 0x42, 0x00, 0x00)).err().unwrap();
    assert_eq!(err, "unknown cartridge type: 0x42");
}

#[test]
fn powered_off_apu_takes_only_length() {
    let mut apu = Apu::new();
    apu.write(0xFF11, 0xBE);
    assert_eq!(apu.channel1.length_counter, 2);
    assert_eq!(apu.channel1.duty, 0);
}

#[test]
fn di_cancels_pending_enable() {
    let (mut cpu, mut bus) = system_with_program(&[0xFB, 0xF3, 0x00]);
    cpu.step(&mut bus).unwrap();
    cpu.step(&mut bus).unwrap();
    assert!(!cpu.ime);
    cpu.step(&mut bus).unwrap();
    assert!(!cpu.ime);
}

#[test]
fn pop_restores_pair_and_rst_pushes_return() {
    let (mut cpu, mut bus) = system_with_program(&[0xEF]);
    cpu.registers.sp = 0xDFF0;
    cpu.step(&mut bus).unwrap();
    assert_eq!(cpu.registers.pc, 0x0028);
    assert_eq!(bus.read(0xDFEF), 0xC0);
    assert_eq!(bus.read(0xDFEE), 0x01);
}

#[test]
fn sprite_pass_counts_drawn_pixels() {
    let mut vram = Vram::new();
    vram.write(16, 0xF0);
    let mut renderer = SpriteRenderer::new();
    let mut oam = [0u8; 160];
    oam[0] = 16;
    oam[1] = 10;
    oam[2] = 1;
    oam[4] = 16;
    oam[5] = 6;
    oam[6] = 1;
    renderer.parse_oam(&oam);
    let mut fb = vec![0u8; 160 * 144 * 3];
    let drawn = renderer.render_sprites_on_scanline(0, 8, &mut fb, &vram, 0xE4, 0xE4, None);
    assert_eq!(drawn, 4 + 2);
    assert_eq!(&fb[6..9], &[0x8B, 0xAC, 0x0F]);
}
