use gameboy::bus::MemoryBus;
use gameboy::cartridge::{Cartridge, CartridgeError};
use gameboy::cpu::{DecodeError, CPU};
use gameboy::instructions::{Instruction, StackTarget};
use gameboy::interrupts::Interrupt;
use gameboy::lcd::{LCDControl, LCDMode};
use gameboy::palette::{Palette, Shade};
use gameboy::ppu::tile_pixel_value;
use gameboy::registers::{FlagsRegister, Registers};

fn machine_with(program: &[u8]) -> CPU {
    CPU::new(&program.to_vec())
}

fn run(cpu: &mut CPU, byte: u8) {
    let inst = Instruction::from_byte(byte, false).unwrap();
    let (next, _) = cpu.execute(inst);
    cpu.pc = next;
}

#[test]
fn palette_round_trips_every_byte() {
    for b in 0..=255u8 {
        assert_eq!(Palette::from_byte(b).to_byte(), b);
    }
    let p = Palette::from_byte(0b11_10_01_00);
    assert_eq!(p.index0, Shade::White);
    assert_eq!(p.index1, Shade::LightGray);
    assert_eq!(p.index2, Shade::DarkGray);
    assert_eq!(p.index3, Shade::Black);
    assert_eq!(p.apply(2), Shade::DarkGray);
}

#[test]
fn af_round_trips_every_flag_combination() {
    for a in [0u8, 0x01, 0x55, 0xAA, 0xFF] {
        for bits in 0..16u8 {
            let mut r = Registers::new();
            r.a = a;
            r.flags = FlagsRegister {
                zero: bits & 8 != 0,
                subtract: bits & 4 != 0,
                half_carry: bits & 2 != 0,
                carry: bits & 1 != 0,
            };
            let af = r.get_af();
            assert_eq!(af & 0x000F, 0);
            let mut s = Registers::new();
            s.set_af(af);
            assert_eq!(s.a, a);
            assert_eq!(s.flags, r.flags);
            assert_eq!(s.get_af(), af);
        }
    }
    let mut r = Registers::new();
    r.set_af(0x12FF);
    assert_eq!(r.get_af(), 0x12F0);
}

#[test]
fn push_then_pop_restores_stack_pointer() {
    let mut cpu = machine_with(&[]);
    cpu.sp = 0xC100;
    cpu.regs.set_bc(0xBEEF);
    cpu.push(StackTarget::BC);
    assert_eq!(cpu.sp, 0xC0FE);
    cpu.pop(StackTarget::HL);
    assert_eq!(cpu.sp, 0xC100);
    assert_eq!(cpu.regs.get_hl(), 0xBEEF);
}

#[test]
fn lcd_runs_visible_lines_then_vblank() {
    let mut bus = MemoryBus::new();
    assert_eq!(bus.lcd.mode(), LCDMode::SearchingOAM);
    assert!(!bus.tick(80));
    assert_eq!(bus.lcd.mode(), LCDMode::Transferring);
    assert!(!bus.tick(172));
    assert_eq!(bus.lcd.mode(), LCDMode::HBlank);
    assert!(!bus.tick(204));
    assert_eq!(bus.lcd.mode(), LCDMode::SearchingOAM);
    assert_eq!(bus.lcd.read_scanline(), 1);
    let mut raised = 0;
    for _ in 0..143 {
        for c in [80u16, 172, 204] {
            if bus.tick(c) {
                raised += 1;
            }
        }
    }
    assert_eq!(raised, 1);
    assert_eq!(bus.lcd.read_scanline(), 144);
    assert_eq!(bus.lcd.mode(), LCDMode::VBlank);
    assert_eq!(bus.read_byte(0xFF0F) & 0x01, 0x01);
    assert_eq!(bus.read_byte(0xFF44), 144);
}

#[test]
fn vblank_lines_wrap_to_scanline_zero() {
    let mut bus = MemoryBus::new();
    for _ in 0..144 {
        for c in [80u16, 172, 204] {
            bus.tick(c);
        }
    }
    assert_eq!(bus.lcd.mode(), LCDMode::VBlank);
    for line in 145..=153u8 {
        assert!(!bus.tick(456));
        assert_eq!(bus.lcd.read_scanline(), line);
        assert_eq!(bus.lcd.mode(), LCDMode::VBlank);
    }
    bus.tick(456);
    assert_eq!(bus.lcd.read_scanline(), 0);
    assert_eq!(bus.lcd.mode(), LCDMode::SearchingOAM);
}

#[test]
fn short_tick_only_counts_cycles() {
    let mut bus = MemoryBus::new();
    assert!(!bus.tick(79));
    assert_eq!(bus.lcd.mode(), LCDMode::SearchingOAM);
    assert_eq!(bus.lcd.clock, 79);
    bus.tick(1);
    assert_eq!(bus.lcd.mode(), LCDMode::Transferring);
    assert_eq!(bus.lcd.clock, 0);
}

#[test]
fn interrupt_dispatch_and_return() {
    let mut cpu = machine_with(&[]);
    cpu.ime = true;
    cpu.sp = 0xDFF0;
    cpu.pc = 0x1234;
    cpu.bus.write_byte(0xFFFF, 0x05);
    cpu.bus.write_byte(0xFF0F, 0x05);
    assert_eq!(cpu.handle_interrupts(), Some(Interrupt::VBlank));
    assert_eq!(cpu.pc, 0x0040);
    assert!(!cpu.ime);
    assert_eq!(cpu.bus.read_byte(0xFF0F), 0x04);
    assert_eq!(cpu.sp, 0xDFEE);
    run(&mut cpu, 0xC9);
    assert_eq!(cpu.pc, 0x1234);
    assert_eq!(cpu.sp, 0xDFF0);
}

#[test]
fn interrupt_priority_and_master_enable() {
    let mut cpu = machine_with(&[]);
    cpu.sp = 0xDFF0;
    cpu.pc = 0x0200;
    cpu.bus.write_byte(0xFFFF, 0x1C);
    cpu.bus.write_byte(0xFF0F, 0x18);
    assert_eq!(cpu.handle_interrupts(), None);
    assert_eq!(cpu.pc, 0x0200);
    cpu.ime = true;
    assert_eq!(cpu.handle_interrupts(), Some(Interrupt::Serial));
    assert_eq!(cpu.pc, 0x0058);
    assert_eq!(cpu.bus.read_byte(0xFF0F), 0x10);
}

#[test]
fn unknown_opcodes_are_reported() {
    let mut cpu = machine_with(&[0xD3]);
    assert_eq!(cpu.step(), Err(DecodeError { opcode: 0xD3, prefixed: false }));
    assert_eq!(cpu.pc, 0);
    let mut cpu = machine_with(&[0xCB, 0x36]);
    assert_eq!(cpu.run_step(), Err(DecodeError { opcode: 0x36, prefixed: true }));
}

#[test]
fn jump_call_and_return() {
    let mut program = vec![0u8; 0x200];
    program[0] = 0xC3; // JP 0x0100
    program[1] = 0x00;
    program[2] = 0x01;
    program[0x100] = 0xCD; // CALL 0x0180
    program[0x101] = 0x80;
    program[0x102] = 0x01;
    program[0x180] = 0xC9; // RET
    program[0x103] = 0x18; // JR -2
    program[0x104] = 0xFE;
    let mut cpu = CPU::new(&program);
    cpu.sp = 0xDFFF;
    assert_eq!(cpu.run_step(), Ok(16));
    assert_eq!(cpu.pc, 0x0100);
    assert_eq!(cpu.run_step(), Ok(24));
    assert_eq!(cpu.pc, 0x0180);
    assert_eq!(cpu.sp, 0xDFFD);
    assert_eq!(cpu.run_step(), Ok(16));
    assert_eq!(cpu.pc, 0x0103);
    assert_eq!(cpu.sp, 0xDFFF);
    assert_eq!(cpu.run_step(), Ok(12));
    assert_eq!(cpu.pc, 0x0103);
}

#[test]
fn conditional_jump_costs_less_when_not_taken() {
    let mut cpu = machine_with(&[0xC2, 0x00, 0x10]);
    cpu.regs.flags.zero = true;
    assert_eq!(cpu.step(), Ok(12));
    assert_eq!(cpu.pc, 3);
    let mut cpu = machine_with(&[0xC2, 0x00, 0x10]);
    assert_eq!(cpu.step(), Ok(16));
    assert_eq!(cpu.pc, 0x1000);
}

#[test]
fn loads_and_memory_through_hl() {
    let mut cpu = machine_with(&[0x21, 0x00, 0xC0, 0x3E, 0x42, 0x77, 0x46]);
    cpu.step().unwrap(); // LD HL, 0xC000
    assert_eq!(cpu.regs.get_hl(), 0xC000);
    cpu.step().unwrap(); // LD A, 0x42
    assert_eq!(cpu.regs.a, 0x42);
    assert_eq!(cpu.step(), Ok(8)); // LD (HL), A
    assert_eq!(cpu.bus.read_byte(0xC000), 0x42);
    cpu.step().unwrap(); // LD B, (HL)
    assert_eq!(cpu.regs.b, 0x42);
    assert_eq!(cpu.pc, 7);
}

#[test]
fn inc_dec_and_logic_flags() {
    let mut cpu = machine_with(&[]);
    cpu.regs.b = 0x0F;
    cpu.regs.flags.carry = true;
    run(&mut cpu, 0x04); // INC B
    assert_eq!(cpu.regs.b, 0x10);
    assert!(cpu.regs.flags.half_carry && !cpu.regs.flags.zero && cpu.regs.flags.carry);
    cpu.regs.c = 0x01;
    run(&mut cpu, 0x0D); // DEC C
    assert_eq!(cpu.regs.c, 0x00);
    assert!(cpu.regs.flags.zero && cpu.regs.flags.subtract && !cpu.regs.flags.half_carry);
    cpu.regs.a = 0xF0;
    cpu.regs.d = 0x0F;
    run(&mut cpu, 0xA2); // AND D
    assert_eq!(cpu.regs.a, 0);
    assert!(cpu.regs.flags.zero && cpu.regs.flags.half_carry && !cpu.regs.flags.carry);
    cpu.regs.a = 0xF0;
    run(&mut cpu, 0xB2); // OR D
    assert_eq!(cpu.regs.a, 0xFF);
    assert!(!cpu.regs.flags.zero && !cpu.regs.flags.half_carry);
    run(&mut cpu, 0xAF); // XOR A
    assert_eq!(cpu.regs.a, 0);
    assert!(cpu.regs.flags.zero);
    cpu.regs.a = 0x10;
    cpu.regs.e = 0x20;
    run(&mut cpu, 0xBB); // CP E
    assert_eq!(cpu.regs.a, 0x10);
    assert!(cpu.regs.flags.carry && cpu.regs.flags.subtract && !cpu.regs.flags.zero);
}

#[test]
fn extended_bit_operations() {
    let mut cpu = machine_with(&[0xCB, 0x37, 0xCB, 0x7F, 0xCB, 0xBF, 0xCB, 0xC0]);
    cpu.regs.a = 0x1F;
    assert_eq!(cpu.step(), Ok(8)); // SWAP A
    assert_eq!(cpu.regs.a, 0xF1);
    assert!(!cpu.regs.flags.zero && !cpu.regs.flags.carry);
    cpu.step().unwrap(); // BIT 7, A
    assert!(!cpu.regs.flags.zero && cpu.regs.flags.half_carry);
    cpu.step().unwrap(); // RES 7, A
    assert_eq!(cpu.regs.a, 0x71);
    cpu.step().unwrap(); // SET 0, B
    assert_eq!(cpu.regs.b, 0x01);
    assert_eq!(cpu.pc, 8);
}

#[test]
fn bus_routes_lcd_and_interrupt_registers() {
    let mut bus = MemoryBus::new();
    bus.write_byte(0xFF47, 0xE4);
    assert_eq!(bus.read_byte(0xFF47), 0xE4);
    assert_eq!(bus.lcd.bgpalette.index3, Shade::Black);
    bus.write_byte(0xFF44, 99);
    assert_eq!(bus.read_byte(0xFF44), 0);
    bus.write_byte(0xFF40, 0x91);
    assert!(bus.lcd.read_control(LCDControl::Power));
    assert!(bus.lcd.read_control(LCDControl::BGEnabled));
    assert!(!bus.lcd.read_control(LCDControl::BGTileMap));
    assert_eq!(bus.lcd.background_tile_map(), 0x9800);
    bus.lcd.set_control(LCDControl::BGTileMap);
    assert_eq!(bus.lcd.background_tile_map(), 0x9C00);
    bus.write_byte(0xFF43, 7);
    assert_eq!(bus.lcd.scx, 7);
    bus.write_byte(0xFFFF, 0x1F);
    assert_eq!(bus.interrupts.enable, 0x1F);
    bus.write_byte(0xC000, 0xAB);
    assert_eq!(bus.read_byte(0xC000), 0xAB);
    assert_eq!(bus.read_byte(0xFF41), 0);
}

#[test]
fn tiles_decode_from_bit_planes() {
    let mut bus = MemoryBus::new();
    // Tile 1, row 2: low plane 0b1010_0000, high plane 0b1100_0000.
    bus.write_byte(0x8000 + 16 + 4, 0b1010_0000);
    bus.write_byte(0x8000 + 16 + 5, 0b1100_0000);
    assert_eq!(tile_pixel_value(&bus.memory, 1, 2, 0), 3);
    assert_eq!(tile_pixel_value(&bus.memory, 1, 2, 1), 2);
    assert_eq!(tile_pixel_value(&bus.memory, 1, 2, 2), 1);
    assert_eq!(tile_pixel_value(&bus.memory, 1, 2, 3), 0);
}

#[test]
fn scanline_renders_through_map_and_palette() {
    let mut bus = MemoryBus::new();
    // Tile 1 is all value 1 on every row; the map's first cell points at it.
    for row in 0..8u16 {
        bus.write_byte(0x8010 + row * 2, 0xFF);
    }
    bus.write_byte(0x9800, 1);
    bus.write_byte(0xFF47, 0b11_10_01_00);
    bus.write_byte(0xFF40, 0x01);
    let lcd = &mut bus.lcd;
    lcd.render_scanline(&bus.memory);
    let frame = bus.lcd.read_screenbuffer();
    assert_eq!(frame.len(), 256 * 256);
    for x in 0..8 {
        assert_eq!(frame[x], 1);
    }
    for x in 8..160 {
        assert_eq!(frame[x], 0);
    }
    // Scrolled by 4: the tile covers the first four pixels.
    bus.write_byte(0xFF43, 4);
    bus.write_byte(0xFF47, 0b11_11_11_00);
    bus.lcd.render_scanline(&bus.memory);
    let frame = bus.lcd.read_screenbuffer();
    assert_eq!(frame[3], 3);
    assert_eq!(frame[4], 0);
    let bg = bus.lcd.read_background(&bus.memory);
    assert_eq!(bg[0], 3);
    assert_eq!(bg[8], 0);
    assert_eq!(bg[256 * 7 + 7], 3);
    let tiles = bus.lcd.read_tiledata(&bus.memory);
    assert_eq!(tiles[8], 3);
    assert_eq!(tiles[0], 0);
    // The tile image is 128 pixels wide: index 128 + 8 is tile 1, row 1.
    assert_eq!(tiles[128 + 8], 3);
    assert_eq!(tiles[128 * 192], 0);
}

#[test]
fn scanline_skipped_when_background_disabled() {
    let mut bus = MemoryBus::new();
    for row in 0..8u16 {
        bus.write_byte(0x8000 + row * 2, 0xFF);
    }
    bus.write_byte(0xFF47, 0xFF);
    bus.lcd.render_scanline(&bus.memory);
    assert!(bus.lcd.read_screenbuffer().iter().all(|&p| p == 0));
}

#[test]
fn cartridge_header_is_checked() {
    assert!(matches!(Cartridge::from_bytes(vec![0u8; 0x100]), Err(CartridgeError::TooShort)));
    assert!(matches!(Cartridge::from_bytes(vec![0u8; 0x143]), Err(CartridgeError::TooShort)));
    let mut image = vec![0u8; 0x150];
    image[0x143] = 0xFF;
    assert!(matches!(Cartridge::from_bytes(image), Err(CartridgeError::InvalidTitle)));
    let mut image = vec![0u8; 0x150];
    image[0x134] = 0xFF;
    assert!(matches!(Cartridge::from_bytes(image), Err(CartridgeError::InvalidTitle)));
    let mut image = vec![0u8; 0x150];
    image[0x134..0x13A].copy_from_slice(b"TETRIS");
    let cart = Cartridge::from_bytes(image).ok().unwrap();
    let mut expected = String::from("TETRIS");
    expected.push_str(&"\0".repeat(10));
    assert_eq!(cart.title(), expected);
    assert_eq!(cart.rom().len(), 0x150);
}

#[test]
fn boot_image_is_copied_to_the_bus() {
    let cpu = machine_with(&[0x31, 0xFE, 0xFF]);
    assert_eq!(cpu.bus.read_byte(0), 0x31);
    assert_eq!(cpu.bus.read_byte(2), 0xFF);
    assert_eq!(cpu.bus.read_byte(3), 0);
    assert_eq!(cpu.pc, 0);
}
