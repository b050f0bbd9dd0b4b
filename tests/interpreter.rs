use rusty_chip::display::{CellRect, Colour, Display};
use rusty_chip::emulator::{Emulator, Memory};
use rusty_chip::isa::{decode, EmulatorError, Instruction};

fn loaded(program: &[u8]) -> Emulator {
    let mut emu = Emulator::new();
    emu.load_rom(program).unwrap();
    emu
}

fn lit_cells(emu: &Emulator) -> Vec<usize> {
    (0..emu.display.cells.len()).filter(|&k| emu.display.cells[k].0).collect()
}

#[test]
fn add_program_scenario() {
    let mut emu = loaded(&[0x60, 0x05, 0x61, 0x03, 0x80, 0x14]);
    for _ in 0..3 {
        emu.emulate_cycle().unwrap();
    }
    assert_eq!(emu.mem.v[0], 8);
    assert_eq!(emu.mem.v[1], 3);
    assert_eq!(emu.mem.v[0xF], 0);
    assert_eq!(emu.mem.pc, 0x206);
}

#[test]
fn return_with_empty_stack_underflows() {
    let mut emu = loaded(&[0x00, 0xEE]);
    let r = emu.emulate_cycle();
    assert_eq!(r, Err(EmulatorError::StackUnderflow { opcode: 0x00EE, pc: 0x200 }));
    assert_eq!(emu.mem.pc, 0x200);
    assert!(emu.mem.stack.is_empty());
}

#[test]
fn draw_full_row_twice_toggles_back() {
    // I = 0x206; draw 1 row at (V0, V0); jump back to the draw; sprite byte.
    let mut emu = loaded(&[0xA2, 0x06, 0xD0, 0x01, 0x12, 0x02, 0xFF]);
    emu.step(0).unwrap();
    emu.step(0).unwrap();
    assert_eq!(lit_cells(&emu), vec![0, 1, 2, 3, 4, 5, 6, 7]);
    assert_eq!(emu.mem.v[0xF], 0);
    emu.step(0).unwrap();
    assert_eq!(emu.mem.pc, 0x202);
    emu.step(0).unwrap();
    assert!(lit_cells(&emu).is_empty());
    assert_eq!(emu.mem.v[0xF], 1);
}

#[test]
fn load_immediate_sets_register() {
    for x in 0..16u8 {
        for nn in [0u8, 1, 0x7F, 0xFF] {
            let mut emu = loaded(&[0x60 | x, nn]);
            emu.step(0).unwrap();
            assert_eq!(emu.mem.v[x as usize], nn);
            assert_eq!(emu.mem.pc, 0x202);
        }
    }
}

#[test]
fn add_immediate_wraps_without_flag() {
    let mut emu = loaded(&[0x63, 0xFA, 0x6F, 0x07, 0x73, 0x0A]);
    for _ in 0..3 {
        emu.step(0).unwrap();
    }
    assert_eq!(emu.mem.v[3], 4);
    assert_eq!(emu.mem.v[0xF], 7);
}

#[test]
fn add_registers_sets_carry() {
    let mut emu = loaded(&[0x62, 200, 0x65, 100, 0x82, 0x54]);
    for _ in 0..3 {
        emu.step(0).unwrap();
    }
    assert_eq!(emu.mem.v[2], 44);
    assert_eq!(emu.mem.v[0xF], 1);

    let mut emu = loaded(&[0x62, 1, 0x65, 2, 0x6F, 9, 0x82, 0x54]);
    for _ in 0..4 {
        emu.step(0).unwrap();
    }
    assert_eq!(emu.mem.v[2], 3);
    assert_eq!(emu.mem.v[0xF], 0);

    let mut emu = loaded(&[0x62, 255, 0x65, 1, 0x82, 0x54]);
    for _ in 0..3 {
        emu.step(0).unwrap();
    }
    assert_eq!(emu.mem.v[2], 0);
    assert_eq!(emu.mem.v[0xF], 1);
}

#[test]
fn subtract_registers_sets_borrow_flag() {
    let mut emu = loaded(&[0x61, 5, 0x62, 3, 0x81, 0x25]);
    for _ in 0..3 {
        emu.step(0).unwrap();
    }
    assert_eq!(emu.mem.v[1], 2);
    assert_eq!(emu.mem.v[0xF], 1);

    let mut emu = loaded(&[0x61, 3, 0x62, 5, 0x81, 0x25]);
    for _ in 0..3 {
        emu.step(0).unwrap();
    }
    assert_eq!(emu.mem.v[1], 254);
    assert_eq!(emu.mem.v[0xF], 0);

    let mut emu = loaded(&[0x61, 4, 0x62, 4, 0x6F, 1, 0x81, 0x25]);
    for _ in 0..4 {
        emu.step(0).unwrap();
    }
    assert_eq!(emu.mem.v[1], 0);
    assert_eq!(emu.mem.v[0xF], 0);
}

#[test]
fn subtract_reversed_sets_flag() {
    let mut emu = loaded(&[0x61, 3, 0x62, 5, 0x81, 0x27]);
    for _ in 0..3 {
        emu.step(0).unwrap();
    }
    assert_eq!(emu.mem.v[1], 2);
    assert_eq!(emu.mem.v[0xF], 1);

    let mut emu = loaded(&[0x61, 5, 0x62, 3, 0x81, 0x27]);
    for _ in 0..3 {
        emu.step(0).unwrap();
    }
    assert_eq!(emu.mem.v[1], 254);
    assert_eq!(emu.mem.v[0xF], 0);
}

#[test]
fn flag_register_as_target_keeps_result() {
    let mut emu = loaded(&[0x6F, 200, 0x61, 100, 0x8F, 0x14]);
    for _ in 0..3 {
        emu.step(0).unwrap();
    }
    assert_eq!(emu.mem.v[0xF], 44);
}

#[test]
fn bitwise_and_assign_instructions() {
    let mut emu = loaded(&[0x61, 0b1100, 0x62, 0b1010, 0x83, 0x10, 0x83, 0x21]);
    for _ in 0..4 {
        emu.step(0).unwrap();
    }
    assert_eq!(emu.mem.v[3], 0b1110);

    let mut emu = loaded(&[0x61, 0b1100, 0x62, 0b1010, 0x81, 0x22]);
    for _ in 0..3 {
        emu.step(0).unwrap();
    }
    assert_eq!(emu.mem.v[1], 0b1000);

    let mut emu = loaded(&[0x61, 0b1100, 0x62, 0b1010, 0x81, 0x23]);
    for _ in 0..3 {
        emu.step(0).unwrap();
    }
    assert_eq!(emu.mem.v[1], 0b0110);
}

#[test]
fn clear_screen_instruction_unlights_everything() {
    let mut emu = loaded(&[0x00, 0xE0]);
    emu.display.toggle(0, 0);
    emu.display.toggle(63, 31);
    emu.display.toggle(10, 5);
    assert_eq!(lit_cells(&emu).len(), 3);
    emu.step(0).unwrap();
    assert!(lit_cells(&emu).is_empty());
    assert_eq!(emu.mem.pc, 0x202);
}

#[test]
fn call_then_return_round_trips() {
    let mut emu = loaded(&[0x23, 0x00]);
    emu.mem.ram[0x300] = 0x00;
    emu.mem.ram[0x301] = 0xEE;
    emu.step(0).unwrap();
    assert_eq!(emu.mem.pc, 0x300);
    assert_eq!(emu.mem.stack, vec![0x202u16]);
    emu.step(0).unwrap();
    assert_eq!(emu.mem.pc, 0x202);
    assert!(emu.mem.stack.is_empty());
}

#[test]
fn jump_and_jump_with_offset() {
    let mut emu = loaded(&[0x1A, 0xBC]);
    emu.step(0).unwrap();
    assert_eq!(emu.mem.pc, 0xABC);

    let mut emu = loaded(&[0x60, 0x04, 0xB3, 0x00]);
    emu.step(0).unwrap();
    emu.step(0).unwrap();
    assert_eq!(emu.mem.pc, 0x304);
}

#[test]
fn skip_instructions() {
    // 3XNN taken and not taken.
    let mut emu = loaded(&[0x61, 0x07, 0x31, 0x07]);
    emu.step(0).unwrap();
    emu.step(0).unwrap();
    assert_eq!(emu.mem.pc, 0x206);
    let mut emu = loaded(&[0x61, 0x07, 0x31, 0x08]);
    emu.step(0).unwrap();
    emu.step(0).unwrap();
    assert_eq!(emu.mem.pc, 0x204);
    // 4XNN
    let mut emu = loaded(&[0x41, 0x08]);
    emu.step(0).unwrap();
    assert_eq!(emu.mem.pc, 0x204);
    let mut emu = loaded(&[0x41, 0x00]);
    emu.step(0).unwrap();
    assert_eq!(emu.mem.pc, 0x202);
    // 5XY0 and 9XY0
    let mut emu = loaded(&[0x51, 0x20]);
    emu.step(0).unwrap();
    assert_eq!(emu.mem.pc, 0x204);
    let mut emu = loaded(&[0x91, 0x20]);
    emu.step(0).unwrap();
    assert_eq!(emu.mem.pc, 0x202);
    let mut emu = loaded(&[0x61, 0x01, 0x91, 0x20]);
    emu.step(0).unwrap();
    emu.step(0).unwrap();
    assert_eq!(emu.mem.pc, 0x206);
}

#[test]
fn set_index_and_random() {
    let mut emu = loaded(&[0xA1, 0x23, 0xC3, 0x0F]);
    emu.step(0).unwrap();
    assert_eq!(emu.mem.i, 0x123);
    emu.step(0xAB).unwrap();
    assert_eq!(emu.mem.v[3], 0x0B);
}

#[test]
fn random_with_zero_mask_is_zero() {
    let mut emu = loaded(&[0x64, 0x55, 0xC4, 0x00]);
    emu.emulate_cycle().unwrap();
    emu.emulate_cycle().unwrap();
    assert_eq!(emu.mem.v[4], 0);
    assert_eq!(emu.mem.pc, 0x204);
}

#[test]
fn keypad_and_timer_classes_are_no_ops() {
    let mut emu = loaded(&[0xE1, 0x9E, 0xF2, 0x07]);
    emu.step(0).unwrap();
    emu.step(0).unwrap();
    assert_eq!(emu.mem.pc, 0x204);
    assert_eq!(emu.mem.v, [0u8; 16]);
}

#[test]
fn invalid_and_unimplemented_opcodes_fail() {
    for (program, opcode) in [([0x01u8, 0x23u8], 0x0123u16), ([0x51, 0x21], 0x5121), ([0x81, 0x28], 0x8128), ([0x91, 0x2F], 0x912F)] {
        let mut emu = loaded(&program);
        assert_eq!(emu.step(0), Err(EmulatorError::InvalidOpcode { opcode, pc: 0x200 }));
        assert_eq!(emu.mem.pc, 0x200);
    }
    let mut emu = loaded(&[0x81, 0x26]);
    assert_eq!(emu.step(0), Err(EmulatorError::UnimplementedOpcode { opcode: 0x8126, pc: 0x200 }));
    assert_eq!(emu.mem.pc, 0x200);
}

#[test]
fn program_counter_out_of_range_fails() {
    let mut emu = Emulator::new();
    emu.mem.pc = 4095;
    assert_eq!(emu.step(0), Err(EmulatorError::ProgramCounterOutOfRange { pc: 4095 }));
    emu.mem.pc = 5000;
    assert_eq!(emu.emulate_cycle(), Err(EmulatorError::ProgramCounterOutOfRange { pc: 5000 }));
    emu.mem.pc = 4094;
    emu.mem.ram[4094] = 0x60;
    emu.mem.ram[4095] = 0x01;
    assert_eq!(emu.step(0), Ok(()));
    assert_eq!(emu.mem.v[0], 1);
}

#[test]
fn sprite_beyond_memory_fails() {
    let mut emu = loaded(&[0xAF, 0xFF, 0xD0, 0x02]);
    emu.step(0).unwrap();
    assert_eq!(emu.step(0), Err(EmulatorError::SpriteOutOfRange { opcode: 0xD002, pc: 0x202 }));
    assert_eq!(emu.mem.pc, 0x202);
    assert!(lit_cells(&emu).is_empty());
    let mut emu = loaded(&[0xAF, 0xFF, 0xD0, 0x01]);
    emu.mem.ram[0xFFF] = 0x80;
    emu.step(0).unwrap();
    assert_eq!(emu.step(0), Ok(()));
    assert_eq!(lit_cells(&emu), vec![0]);
}

#[test]
fn sprite_is_clipped_at_the_edges() {
    // V0 = 60, V1 = 31: a two-row 0xFF sprite lights columns 60..63 of row 31 only.
    let mut emu = loaded(&[0x60, 60, 0x61, 31, 0xA2, 0x0A, 0xD0, 0x12, 0x00, 0x00, 0xFF, 0xFF]);
    for _ in 0..4 {
        emu.step(0).unwrap();
    }
    assert_eq!(lit_cells(&emu), vec![31 * 64 + 60, 31 * 64 + 61, 31 * 64 + 62, 31 * 64 + 63]);
    assert_eq!(emu.mem.v[0xF], 0);
}

#[test]
fn sprite_origin_wraps_coordinates() {
    // V0 = 65 and V1 = 33 draw at column 1, row 1; sprite 0b1010_0000.
    let mut emu = loaded(&[0x60, 65, 0x61, 33, 0xA2, 0x0A, 0xD0, 0x11, 0x00, 0x00, 0xA0]);
    for _ in 0..4 {
        emu.step(0).unwrap();
    }
    assert_eq!(lit_cells(&emu), vec![64 + 1, 64 + 3]);
}

#[test]
fn rom_too_large_is_refused() {
    let mut emu = Emulator::new();
    let rom = vec![0xAAu8; 4096 - 0x200 + 1];
    assert_eq!(emu.load_rom(&rom), Err(EmulatorError::RomTooLarge { len: 3585 }));
    assert_eq!(emu.mem.ram[0x200], 0);
    let rom = vec![0xAAu8; 4096 - 0x200];
    assert_eq!(emu.load_rom(&rom), Ok(()));
    assert_eq!(emu.mem.ram[0x1FF], 0);
    assert_eq!(emu.mem.ram[0x200], 0xAA);
    assert_eq!(emu.mem.ram[4095], 0xAA);
}

#[test]
fn load_rom_copies_at_program_start() {
    let emu = loaded(&[1, 2, 3]);
    assert_eq!(&emu.mem.ram[0x1FF..0x204], &[0, 1, 2, 3, 0]);
    let emu = loaded(&[]);
    assert!(emu.mem.ram.iter().all(|&b| b == 0));
}

#[test]
fn memory_initial_state() {
    let m = Memory::init();
    assert_eq!(m.pc, 0x200);
    assert_eq!(m.i, 0);
    assert!(m.stack.is_empty());
    assert_eq!(m.delay_timer, 255);
    assert_eq!(m.sound_timer, 255);
    assert_eq!(m.v, [0u8; 16]);
    assert!(m.ram.iter().all(|&b| b == 0));
}

#[test]
fn new_emulator_layout() {
    let emu = Emulator::new();
    assert!(lit_cells(&emu).is_empty());
    assert_eq!(emu.display.cells[0].1, CellRect { x: 0, y: 0, width: 16, height: 16 });
    assert_eq!(emu.display.cells[65].1, CellRect { x: 16, y: 16, width: 16, height: 16 });
    assert_eq!(emu.display.cells[2047].1, CellRect { x: 63 * 16, y: 31 * 16, width: 16, height: 16 });
    assert_eq!(emu.display.cell_colour_on, Colour::white());
    assert_eq!(emu.display.cell_colour_off, Colour::black());
}

#[test]
fn init_cells_uses_both_dimensions() {
    let mut d = Display::new();
    d.toggle(3, 3);
    let on = Colour { r: 1, g: 2, b: 3, a: 4 };
    let off = Colour { r: 5, g: 6, b: 7, a: 8 };
    d.init_cells(10, 20, on, off);
    assert_eq!(d.cells[64 * 2 + 5], (false, CellRect { x: 50, y: 40, width: 10, height: 20 }));
    assert!(!d.is_lit(3, 3));
    assert_eq!(d.cell_colour_on, on);
    assert_eq!(d.cell_colour_off, off);
}

#[test]
fn display_toggle_clear_and_colours() {
    let mut d = Display::new();
    assert!(!d.is_lit(5, 7));
    d.toggle(5, 7);
    assert!(d.is_lit(5, 7));
    assert!(d.cells[7 * 64 + 5].0);
    assert_eq!(d.cell_colour(&d.cells[7 * 64 + 5]), Colour::white());
    assert_eq!(d.cell_colour(&d.cells[0]), Colour::black());
    d.toggle(5, 7);
    assert!(!d.is_lit(5, 7));
    d.toggle(0, 0);
    d.toggle(63, 31);
    d.clear_screen();
    assert!(d.cells.iter().all(|c| !c.0));
}

#[test]
fn xor_sprite_row_reports_collision() {
    let mut d = Display::new();
    assert!(!d.xor_sprite_row(0b1000_0001, 10, 2));
    assert!(d.is_lit(10, 2));
    assert!(d.is_lit(17, 2));
    assert!(!d.is_lit(11, 2));
    assert!(d.xor_sprite_row(0b0100_0001, 10, 2));
    assert!(d.is_lit(10, 2));
    assert!(d.is_lit(11, 2));
    assert!(!d.is_lit(17, 2));
}

#[test]
fn decode_examples() {
    assert_eq!(decode(0x00E0), Instruction::ClearScreen);
    assert_eq!(decode(0x00EE), Instruction::Return);
    assert_eq!(decode(0x1234), Instruction::Jump { addr: 0x234 });
    assert_eq!(decode(0x2FED), Instruction::Call { addr: 0xFED });
    assert_eq!(decode(0x6A42), Instruction::Load { x: 0xA, value: 0x42 });
    assert_eq!(decode(0x8AB4), Instruction::Add { x: 0xA, y: 0xB });
    assert_eq!(decode(0x8AB6), Instruction::Unimplemented);
    assert_eq!(decode(0x8ABE), Instruction::Invalid);
    assert_eq!(decode(0xD12F), Instruction::Draw { x: 1, y: 2, rows: 0xF });
    assert_eq!(decode(0xC7F0), Instruction::Random { x: 7, mask: 0xF0 });
    assert_eq!(decode(0xE09E), Instruction::Ignored);
    assert_eq!(decode(0xF165), Instruction::Ignored);
    assert_eq!(decode(0x0000), Instruction::Invalid);
}
