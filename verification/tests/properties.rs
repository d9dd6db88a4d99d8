use chip8::opcode::{decode_nibbles, opcode_word};
use chip8::{Cpu, Fault, InputEvent, Key, Opcode, StepReport};

fn cpu_with_program(program: &[u8]) -> Cpu {
    let mut cpu = Cpu::new();
    cpu.load_rom(program);
    cpu
}

// ----- arithmetic with flags -----

#[test]
fn add_carry_for_every_pair_of_bytes() {
    let mut cpu = Cpu::new();
    cpu.current_op = (8, 3, 7, 4);
    for a in 0u16..256 {
        for b in 0u16..256 {
            cpu.v[3] = a as u8;
            cpu.v[7] = b as u8;
            cpu.op_8xy4();
            assert_eq!(cpu.v[3] as u16, (a + b) % 256);
            assert_eq!(cpu.v[0xF] == 1, a + b > 255);
            assert!(cpu.v[0xF] <= 1);
            assert_eq!(cpu.v[7] as u16, b);
        }
    }
}

#[test]
fn add_carry_into_the_flag_register_keeps_the_sum() {
    let mut cpu = Cpu::new();
    cpu.current_op = (8, 0xF, 0, 4);
    cpu.v[0xF] = 200;
    cpu.v[0] = 100;
    cpu.op_8xy4();
    assert_eq!(cpu.v[0xF], 44);
}

#[test]
fn add_carry_of_a_register_with_itself() {
    let mut cpu = Cpu::new();
    cpu.current_op = (8, 2, 2, 4);
    cpu.v[2] = 0x90;
    cpu.op_8xy4();
    assert_eq!(cpu.v[2], 0x20);
    assert_eq!(cpu.v[0xF], 1);
}

#[test]
fn sub_borrow_for_every_pair_of_bytes() {
    let mut cpu = Cpu::new();
    cpu.current_op = (8, 0xA, 0xB, 5);
    for a in 0i32..256 {
        for b in 0i32..256 {
            cpu.v[0xA] = a as u8;
            cpu.v[0xB] = b as u8;
            cpu.op_8xy5();
            assert_eq!(cpu.v[0xA] as i32, (a - b).rem_euclid(256));
            assert_eq!(cpu.v[0xF] == 1, a >= b);
            assert!(cpu.v[0xF] <= 1);
        }
    }
}

#[test]
fn sub_borrow_of_the_flag_register_subtracts_what_it_held() {
    let mut cpu = Cpu::new();
    cpu.current_op = (8, 0, 0xF, 5);
    cpu.v[0] = 5;
    cpu.v[0xF] = 3;
    cpu.op_8xy5();
    // 5 - 3, not 5 minus the flag that 5 >= 3 gives
    assert_eq!(cpu.v[0], 2);
    assert_eq!(cpu.v[0xF], 1);
}

#[test]
fn sub_borrow_from_every_register_with_the_flag_register_as_subtrahend() {
    let mut cpu = Cpu::new();
    for x in 0u8..15 {
        for a in 0i32..256 {
            for b in 0i32..256 {
                cpu.current_op = (8, x, 0xF, 5);
                cpu.v[x as usize] = a as u8;
                cpu.v[0xF] = b as u8;
                cpu.op_8xy5();
                assert_eq!(cpu.v[x as usize] as i32, (a - b).rem_euclid(256));
                assert_eq!(cpu.v[0xF] == 1, a >= b);
                assert!(cpu.v[0xF] <= 1);
            }
        }
    }
}

#[test]
fn sub_borrow_into_the_flag_register_keeps_the_difference() {
    let mut cpu = Cpu::new();
    cpu.current_op = (8, 0xF, 0, 5);
    cpu.v[0xF] = 10;
    cpu.v[0] = 3;
    cpu.op_8xy5();
    assert_eq!(cpu.v[0xF], 7);
    assert_eq!(cpu.v[0], 3);
}

#[test]
fn sub_borrow_of_a_register_from_itself() {
    let mut cpu = Cpu::new();
    cpu.current_op = (8, 4, 4, 5);
    cpu.v[4] = 0x9C;
    cpu.op_8xy5();
    assert_eq!(cpu.v[4], 0);
    assert_eq!(cpu.v[0xF], 1);
}

#[test]
fn sub_reverse_of_the_flag_register_subtracts_from_what_it_held() {
    let mut cpu = Cpu::new();
    cpu.current_op = (8, 0, 0xF, 7);
    cpu.v[0] = 3;
    cpu.v[0xF] = 5;
    cpu.op_8xy7();
    // 5 - 3, not the flag that 5 >= 3 gives minus 3
    assert_eq!(cpu.v[0], 2);
    assert_eq!(cpu.v[0xF], 1);
}

#[test]
fn sub_reverse_from_the_flag_register_for_every_pair_of_bytes() {
    let mut cpu = Cpu::new();
    for x in 0u8..15 {
        for a in 0i32..256 {
            for b in 0i32..256 {
                cpu.current_op = (8, x, 0xF, 7);
                cpu.v[x as usize] = a as u8;
                cpu.v[0xF] = b as u8;
                cpu.op_8xy7();
                assert_eq!(cpu.v[x as usize] as i32, (b - a).rem_euclid(256));
                assert_eq!(cpu.v[0xF] == 1, b >= a);
                assert!(cpu.v[0xF] <= 1);
            }
        }
    }
}

#[test]
fn sub_reverse_into_the_flag_register_keeps_the_difference() {
    let mut cpu = Cpu::new();
    cpu.current_op = (8, 0xF, 0, 7);
    cpu.v[0xF] = 3;
    cpu.v[0] = 10;
    cpu.op_8xy7();
    assert_eq!(cpu.v[0xF], 7);
    assert_eq!(cpu.v[0], 10);
}

#[test]
fn sub_reverse_for_every_pair_of_bytes() {
    let mut cpu = Cpu::new();
    cpu.current_op = (8, 1, 2, 7);
    for a in 0i32..256 {
        for b in 0i32..256 {
            cpu.v[1] = a as u8;
            cpu.v[2] = b as u8;
            cpu.op_8xy7();
            assert_eq!(cpu.v[1] as i32, (b - a).rem_euclid(256));
            assert_eq!(cpu.v[0xF] == 1, b >= a);
            assert!(cpu.v[0xF] <= 1);
            assert_eq!(cpu.v[2] as i32, b);
        }
    }
}

#[test]
fn shifts_for_every_byte() {
    let mut cpu = Cpu::new();
    for a in 0u16..256 {
        cpu.current_op = (8, 4, 0, 6);
        cpu.v[4] = a as u8;
        cpu.op_8xy6();
        assert_eq!(cpu.v[4] as u16, a / 2);
        assert_eq!(cpu.v[0xF] as u16, a % 2);

        cpu.current_op = (8, 4, 0, 0xE);
        cpu.v[4] = a as u8;
        cpu.op_8xye();
        assert_eq!(cpu.v[4] as u16, (a * 2) % 256);
        assert_eq!(cpu.v[0xF] as u16, a / 128);
    }
}

#[test]
fn shift_of_the_flag_register_keeps_the_shifted_value() {
    let mut cpu = Cpu::new();
    cpu.current_op = (8, 0xF, 0, 6);
    cpu.v[0xF] = 0xFF;
    cpu.op_8xy6();
    assert_eq!(cpu.v[0xF], 0x7F);

    cpu.current_op = (8, 0xF, 0, 0xE);
    cpu.v[0xF] = 0xC1;
    cpu.op_8xye();
    assert_eq!(cpu.v[0xF], 0x82);
}

#[test]
fn add_byte_wraps_for_every_pair_and_keeps_the_flag() {
    let mut cpu = Cpu::new();
    cpu.v[0xF] = 0x5A;
    for a in 0u16..256 {
        for nn in 0u16..256 {
            cpu.current_op = (7, 6, (nn / 16) as u8, (nn % 16) as u8);
            cpu.v[6] = a as u8;
            cpu.op_7xnn();
            assert_eq!(cpu.v[6] as u16, (a + nn) % 256);
            assert_eq!(cpu.v[0xF], 0x5A);
        }
    }
}

// ----- sprites -----

fn lit_pixels(cpu: &Cpu) -> Vec<(usize, usize)> {
    let mut lit: Vec<(usize, usize)> = Vec::new();
    for y in 0..Cpu::GFX_HEIGHT {
        for x in 0..Cpu::GFX_WIDTH {
            if cpu.pixel_lit(x, y) {
                lit.push((x, y));
            }
        }
    }
    lit
}

#[test]
fn drawing_twice_restores_the_display() {
    let mut cpu = Cpu::new();
    cpu.index = 0x300;
    cpu.memory[0x300] = 0b1010_0101;
    cpu.memory[0x301] = 0b1111_0000;
    cpu.memory[0x302] = 0b0000_0001;
    cpu.graphics[31][60] = 1;
    cpu.graphics[0][63] = 1;
    cpu.graphics[0][2] = 1;
    cpu.graphics[10][10] = 1;
    let before = cpu.graphics;
    cpu.v[1] = 60;
    cpu.v[2] = 31;
    cpu.current_op = (0xD, 1, 2, 3);
    cpu.op_dxyn();
    assert_ne!(cpu.graphics, before);
    let first: u8 = cpu.v[0xF];
    cpu.op_dxyn();
    assert_eq!(cpu.graphics, before);
    // the sprite covered lit and unlit pixels, so both draws report a collision
    assert_eq!(first, 1);
    assert_eq!(cpu.v[0xF], 1);
}

#[test]
fn drawing_twice_on_a_blank_screen_reports_different_flags() {
    let mut cpu = Cpu::new();
    cpu.index = 0x300;
    cpu.memory[0x300] = 0xFF;
    cpu.current_op = (0xD, 0, 0, 1);
    cpu.op_dxyn();
    assert_eq!(cpu.v[0xF], 0);
    assert_eq!(lit_pixels(&cpu).len(), 8);
    cpu.op_dxyn();
    assert_eq!(cpu.v[0xF], 1);
    assert_eq!(cpu.graphics, [[0; 64]; 32]);
}

#[test]
fn sprite_at_column_62_ends_in_column_5() {
    let mut cpu = Cpu::new();
    cpu.index = 0x300;
    cpu.memory[0x300] = 0x01; // only the last bit of the line
    cpu.v[0] = 62;
    cpu.v[1] = 3;
    cpu.current_op = (0xD, 0, 1, 1);
    cpu.op_dxyn();
    assert_eq!(lit_pixels(&cpu), vec![(5, 3)]);
    assert_eq!(cpu.v[0xF], 0);
}

#[test]
fn sprite_position_wraps_modulo_the_display_size() {
    let mut cpu = Cpu::new();
    cpu.index = 0x300;
    cpu.memory[0x300] = 0x80;
    cpu.memory[0x301] = 0x80;
    cpu.v[0] = 64 + 7; // column 7
    cpu.v[1] = 32 * 7 + 31; // row 31, the second line wraps to row 0
    cpu.current_op = (0xD, 0, 1, 2);
    cpu.op_dxyn();
    assert_eq!(lit_pixels(&cpu), vec![(7, 0), (7, 31)]);
}

#[test]
fn sprite_of_no_lines_draws_nothing_and_clears_the_flag() {
    let mut cpu = Cpu::new();
    cpu.index = 0xFFF;
    cpu.v[0xF] = 9;
    cpu.graphics[4][4] = 1;
    cpu.current_op = (0xD, 0, 0, 0);
    cpu.op_dxyn();
    assert_eq!(lit_pixels(&cpu), vec![(4, 4)]);
    assert_eq!(cpu.v[0xF], 0);
}

#[test]
fn sprite_position_is_read_before_the_flag_is_written() {
    let mut cpu = Cpu::new();
    cpu.index = 0x300;
    cpu.memory[0x300] = 0x80;
    cpu.v[0xF] = 20;
    cpu.v[0] = 2;
    cpu.current_op = (0xD, 0xF, 0, 1);
    cpu.op_dxyn();
    assert_eq!(lit_pixels(&cpu), vec![(20, 2)]);
    assert_eq!(cpu.v[0xF], 0);
}

#[test]
fn font_sprite_of_f_is_drawn_from_the_font_table() {
    let mut cpu = Cpu::new();
    cpu.v[0] = 0xF;
    cpu.current_op = (0xF, 0, 2, 9);
    cpu.op_fx29();
    assert_eq!(cpu.index, 0xF * 5);
    assert_eq!(cpu.memory[0x4B..0x50], [0xF0, 0x80, 0xF0, 0x80, 0x80]);
    cpu.v[1] = 0;
    cpu.v[2] = 0;
    cpu.current_op = (0xD, 1, 2, 5);
    cpu.op_dxyn();
    assert_eq!(
        lit_pixels(&cpu),
        vec![(0, 0), (1, 0), (2, 0), (3, 0), (0, 1), (0, 2), (1, 2), (2, 2), (3, 2), (0, 3), (0, 4)]
    );
}

// ----- the call stack -----

#[test]
fn call_then_return_restores_the_program_counter() {
    // 0x200: call 0x300; 0x300: return
    let mut cpu = cpu_with_program(&[0x23, 0x00]);
    cpu.memory[0x300] = 0x00;
    cpu.memory[0x301] = 0xEE;
    assert_eq!(cpu.advance_state(), StepReport::Completed);
    assert_eq!(cpu.pc, 0x300);
    assert_eq!(cpu.stack, vec![0x202]);
    assert_eq!(cpu.advance_state(), StepReport::Completed);
    assert_eq!(cpu.pc, 0x202);
    assert!(cpu.stack.is_empty());
}

#[test]
fn nested_calls_return_in_reverse_order() {
    let mut cpu = Cpu::new();
    cpu.pc = 0x202;
    cpu.current_op = (2, 0x4, 0, 0);
    cpu.op_2nnn();
    cpu.pc = 0x402;
    cpu.current_op = (2, 0x6, 0, 0);
    cpu.op_2nnn();
    assert_eq!(cpu.stack, vec![0x202, 0x402]);
    assert!(cpu.op_00ee());
    assert_eq!(cpu.pc, 0x402);
    assert!(cpu.op_00ee());
    assert_eq!(cpu.pc, 0x202);
    assert!(!cpu.op_00ee());
    assert_eq!(cpu.pc, 0x202);
}

#[test]
fn return_on_an_empty_stack_is_reported_and_the_cycle_goes_on() {
    let mut cpu = cpu_with_program(&[0x00, 0xEE, 0x61, 0x07]);
    assert_eq!(cpu.step_fault(), None);
    assert_eq!(cpu.advance_state(), StepReport::ReturnOnEmptyStack);
    assert_eq!(cpu.pc, 0x202);
    assert_eq!(cpu.advance_state(), StepReport::Completed);
    assert_eq!(cpu.v[1], 7);
}

// ----- fetch and whole cycles -----

#[test]
fn fetch_after_reset_decodes_a_jump() {
    let mut cpu = Cpu::new();
    cpu.v[0] = 1;
    cpu.reset();
    cpu.memory[0x200] = 0x12;
    cpu.memory[0x201] = 0x4e;
    let op = cpu.get_next_opcode();
    assert_eq!(cpu.pc, 0x202);
    assert_eq!(op, (0x1, 0x2, 0x4, 0xE));
    assert_eq!(decode_nibbles(op), Some(Opcode::Jump));
    cpu.current_op = op;
    assert_eq!(cpu.construct_address_from_op(), 0x24E);
    assert_eq!(opcode_word(op), 0x124E);
}

#[test]
fn peek_does_not_move_the_program_counter() {
    let cpu = cpu_with_program(&[0xAB, 0xCD]);
    assert_eq!(cpu.peek_next_opcode(), (0xA, 0xB, 0xC, 0xD));
    assert_eq!(cpu.pc, 0x200);
}

#[test]
fn a_short_program_runs_cycle_by_cycle() {
    let mut cpu = cpu_with_program(&[
        0x60, 0xC8, // V0 = 200
        0x61, 0x64, // V1 = 100
        0x80, 0x14, // V0 += V1
        0x3F, 0x01, // skip if VF == 1
        0x12, 0x00, // (skipped) jump 0x200
        0xA4, 0x00, // I = 0x400
        0xF0, 0x33, // BCD of V0 at I
        0xF2, 0x65, // V0..V2 = memory[I..]
        0x00, 0xE0, // clear
        0x12, 0x12, // jump to itself
    ]);
    cpu.graphics[3][3] = 1;
    for _ in 0..10 {
        assert_eq!(cpu.step_fault(), None);
        assert_eq!(cpu.advance_state(), StepReport::Completed);
    }
    // 200 + 100 = 300 = 44 mod 256, with carry
    assert_eq!(cpu.memory[0x400..0x403], [0, 4, 4]);
    assert_eq!(cpu.v[0..3], [0, 4, 4]);
    assert_eq!(cpu.v[0xF], 1);
    assert_eq!(cpu.index, 0x400);
    assert_eq!(cpu.pc, 0x212);
    assert_eq!(cpu.current_op, (1, 2, 1, 2));
    assert_eq!(cpu.graphics, [[0; 64]; 32]);
}

#[test]
fn every_listed_instruction_decodes() {
    let table: Vec<((u8, u8, u8, u8), Opcode)> = vec![
        ((0x0, 0x0, 0xE, 0x0), Opcode::ClearScreen),
        ((0x0, 0x0, 0xE, 0xE), Opcode::Return),
        ((0x1, 0xF, 0xF, 0xF), Opcode::Jump),
        ((0x2, 0x0, 0x0, 0x0), Opcode::Call),
        ((0x3, 0x1, 0x2, 0x3), Opcode::SkipEqualByte),
        ((0x4, 0x1, 0x2, 0x3), Opcode::SkipNotEqualByte),
        ((0x5, 0x1, 0x2, 0x0), Opcode::SkipEqual),
        ((0x6, 0x1, 0x2, 0x3), Opcode::LoadByte),
        ((0x7, 0x1, 0x2, 0x3), Opcode::AddByte),
        ((0x8, 0x1, 0x2, 0x0), Opcode::Move),
        ((0x8, 0x1, 0x2, 0x1), Opcode::Or),
        ((0x8, 0x1, 0x2, 0x2), Opcode::And),
        ((0x8, 0x1, 0x2, 0x3), Opcode::Xor),
        ((0x8, 0x1, 0x2, 0x4), Opcode::AddCarry),
        ((0x8, 0x1, 0x2, 0x5), Opcode::SubBorrow),
        ((0x8, 0x1, 0x2, 0x6), Opcode::ShiftRight),
        ((0x8, 0x1, 0x2, 0x7), Opcode::SubReverse),
        ((0x8, 0x1, 0x2, 0xE), Opcode::ShiftLeft),
        ((0x9, 0x1, 0x2, 0x0), Opcode::SkipNotEqual),
        ((0xA, 0x1, 0x2, 0x3), Opcode::LoadIndex),
        ((0xB, 0x1, 0x2, 0x3), Opcode::JumpOffset),
        ((0xC, 0x1, 0x2, 0x3), Opcode::Random),
        ((0xD, 0x1, 0x2, 0x3), Opcode::Draw),
        ((0xE, 0x1, 0x9, 0xE), Opcode::SkipKey),
        ((0xE, 0x1, 0xA, 0x1), Opcode::SkipNoKey),
        ((0xF, 0x1, 0x0, 0x7), Opcode::ReadDelay),
        ((0xF, 0x1, 0x0, 0xA), Opcode::WaitKey),
        ((0xF, 0x1, 0x1, 0x5), Opcode::SetDelay),
        ((0xF, 0x1, 0x1, 0x8), Opcode::SetSound),
        ((0xF, 0x1, 0x1, 0xE), Opcode::AddIndex),
        ((0xF, 0x1, 0x2, 0x9), Opcode::FontAddress),
        ((0xF, 0x1, 0x3, 0x3), Opcode::StoreBcd),
        ((0xF, 0x1, 0x5, 0x5), Opcode::StoreRegisters),
        ((0xF, 0x1, 0x6, 0x5), Opcode::LoadRegisters),
    ];
    for (nibbles, opcode) in table {
        assert_eq!(decode_nibbles(nibbles), Some(opcode));
    }
}

#[test]
fn count_of_words_that_decode_for_fixed_operands() {
    // with X = 1 and Y = 2 fixed, count the words that decode
    let mut listed: u32 = 0;
    for a in 0u8..16 {
        for n in 0u8..16 {
            if decode_nibbles((a, 1, 2, n)).is_some() {
                listed += 1;
            }
        }
    }
    // the ten instructions with an immediate take every N; of the others
    // only 5XY0, the nine 8XY_, 9XY0 and FX29 have Y = 2
    assert_eq!(listed, 10 * 16 + 1 + 9 + 1 + 1);
}

#[test]
fn unlisted_words_do_not_decode() {
    let unlisted: Vec<(u8, u8, u8, u8)> = vec![
        (0x0, 0x1, 0x2, 0x3),
        (0x0, 0x0, 0xE, 0x1),
        (0x0, 0x1, 0xE, 0x0),
        (0x5, 0x1, 0x2, 0x1),
        (0x8, 0x1, 0x2, 0x8),
        (0x8, 0x1, 0x2, 0xF),
        (0x9, 0x1, 0x2, 0x1),
        (0xE, 0x1, 0x9, 0x0),
        (0xE, 0x1, 0xA, 0xE),
        (0xE, 0x1, 0x0, 0x0),
        (0xF, 0x1, 0x0, 0x0),
        (0xF, 0x1, 0x6, 0x6),
        (0x10, 0x0, 0x0, 0x0),
    ];
    for nibbles in unlisted {
        assert_eq!(decode_nibbles(nibbles), None);
    }
}

// ----- faults -----

#[test]
fn fault_fetch_out_of_bounds() {
    let mut cpu = Cpu::new();
    cpu.pc = 0xFFF;
    assert_eq!(cpu.step_fault(), Some(Fault::FetchOutOfBounds));
    cpu.pc = 0xFFFF;
    assert_eq!(cpu.step_fault(), Some(Fault::FetchOutOfBounds));
    cpu.pc = 0xFFE;
    cpu.memory[0xFFE] = 0x00;
    cpu.memory[0xFFF] = 0xE0;
    assert_eq!(cpu.step_fault(), None);
    cpu.advance_state();
    assert_eq!(cpu.pc, 0x1000);
}

#[test]
fn fault_unknown_instruction() {
    let cpu = cpu_with_program(&[0x01, 0x23]);
    assert_eq!(cpu.step_fault(), Some(Fault::UnknownInstruction));
    let cpu = cpu_with_program(&[0x51, 0x21]);
    assert_eq!(cpu.step_fault(), Some(Fault::UnknownInstruction));
    // memory that was never written holds zeroes, which is no instruction
    let cpu = Cpu::new();
    assert_eq!(cpu.step_fault(), Some(Fault::UnknownInstruction));
}

#[test]
fn fault_address_out_of_bounds() {
    let mut cpu = cpu_with_program(&[0xD0, 0x02]);
    cpu.index = 0xFFF;
    assert_eq!(cpu.step_fault(), Some(Fault::AddressOutOfBounds));
    cpu.index = 0xFFE;
    assert_eq!(cpu.step_fault(), None);

    let mut cpu = cpu_with_program(&[0xF0, 0x33]);
    cpu.index = 0xFFE;
    assert_eq!(cpu.step_fault(), Some(Fault::AddressOutOfBounds));
    cpu.index = 0xFFD;
    assert_eq!(cpu.step_fault(), None);

    let mut cpu = cpu_with_program(&[0xF3, 0x55]);
    cpu.index = 0xFFD;
    assert_eq!(cpu.step_fault(), Some(Fault::AddressOutOfBounds));
    cpu.index = 0xFFC;
    assert_eq!(cpu.step_fault(), None);

    let mut cpu = cpu_with_program(&[0xF3, 0x65]);
    cpu.index = 0x1000;
    assert_eq!(cpu.step_fault(), Some(Fault::AddressOutOfBounds));
}

#[test]
fn fault_key_out_of_range() {
    let mut cpu = cpu_with_program(&[0xE4, 0x9E]);
    cpu.v[4] = 16;
    assert_eq!(cpu.step_fault(), Some(Fault::KeyOutOfRange));
    cpu.v[4] = 15;
    assert_eq!(cpu.step_fault(), None);
    let mut cpu = cpu_with_program(&[0xE4, 0xA1]);
    cpu.v[4] = 200;
    assert_eq!(cpu.step_fault(), Some(Fault::KeyOutOfRange));
}

#[test]
fn fault_index_overflow() {
    let mut cpu = cpu_with_program(&[0xF2, 0x1E]);
    cpu.index = 0xFFFF;
    cpu.v[2] = 1;
    assert_eq!(cpu.step_fault(), Some(Fault::IndexOverflow));
    cpu.v[2] = 0;
    assert_eq!(cpu.step_fault(), None);
    cpu.advance_state();
    assert_eq!(cpu.index, 0xFFFF);
    assert_eq!(cpu.v[0xF], 1);
}

// ----- keys -----

#[test]
fn wait_key_takes_the_lowest_pressed_key() {
    let mut cpu = Cpu::new();
    cpu.current_op = (0xF, 3, 0, 0xA);
    cpu.key_pressed[9] = true;
    cpu.key_pressed[4] = true;
    cpu.key_pressed[14] = true;
    cpu.op_fx0a();
    assert_eq!(cpu.v[3], 4);
    assert_eq!(cpu.pc, 0x200);
}

#[test]
fn wait_key_does_not_see_key_15() {
    let mut cpu = Cpu::new();
    cpu.current_op = (0xF, 3, 0, 0xA);
    cpu.key_pressed[15] = true;
    cpu.op_fx0a();
    assert_eq!(cpu.v[3], 0);
    assert_eq!(cpu.pc, 0x1FE);
}

#[test]
fn wait_key_repeats_until_a_key_is_down() {
    let mut cpu = cpu_with_program(&[0xF7, 0x0A, 0x00, 0xE0]);
    for _ in 0..5 {
        cpu.advance_state();
        assert_eq!(cpu.pc, 0x200);
        assert_eq!(cpu.current_op, (0xF, 7, 0, 0xA));
    }
    cpu.press_button(0xB);
    cpu.advance_state();
    assert_eq!(cpu.pc, 0x202);
    assert_eq!(cpu.v[7], 0xB);
}

#[test]
fn keyboard_layout() {
    let layout: Vec<(Key, usize)> = vec![
        (Key::X, 0),
        (Key::Num1, 1),
        (Key::Num2, 2),
        (Key::Num3, 3),
        (Key::Q, 4),
        (Key::W, 5),
        (Key::E, 6),
        (Key::A, 7),
        (Key::S, 8),
        (Key::D, 9),
        (Key::Z, 10),
        (Key::C, 11),
        (Key::Num4, 12),
        (Key::R, 13),
        (Key::F, 14),
        (Key::V, 15),
        (Key::Other, 16),
    ];
    for (key, index) in layout {
        assert_eq!(Cpu::keycode_to_index(key), index);
    }
}

#[test]
fn key_events_set_and_clear_flags() {
    let mut cpu = Cpu::new();
    cpu.process_input(InputEvent::KeyDown { keycode: Some(Key::W) });
    cpu.process_input(InputEvent::KeyDown { keycode: Some(Key::V) });
    assert!(cpu.key_pressed[5]);
    assert!(cpu.key_pressed[15]);
    assert_eq!(cpu.key_pressed.iter().filter(|down| **down).count(), 2);
    cpu.process_input(InputEvent::KeyUp { keycode: Some(Key::W) });
    assert!(!cpu.key_pressed[5]);
    assert!(cpu.key_pressed[15]);
}

#[test]
fn other_events_change_nothing() {
    let mut cpu = Cpu::new();
    cpu.press_button(3);
    cpu.process_input(InputEvent::KeyDown { keycode: Some(Key::Other) });
    cpu.process_input(InputEvent::KeyDown { keycode: None });
    cpu.process_input(InputEvent::KeyUp { keycode: Some(Key::Other) });
    cpu.process_input(InputEvent::KeyUp { keycode: None });
    cpu.process_input(InputEvent::Other);
    let mut expected = [false; 16];
    expected[3] = true;
    assert_eq!(cpu.key_pressed, expected);
}

// ----- timers -----

#[test]
fn timers_stop_at_zero_and_the_tone_follows_the_sound_timer() {
    let mut cpu = Cpu::new();
    cpu.sound_timer = 2;
    cpu.delay_timer = 1;
    assert!(cpu.decrement_timers());
    assert_eq!((cpu.delay_timer, cpu.sound_timer), (0, 1));
    assert!(!cpu.decrement_timers());
    assert_eq!((cpu.delay_timer, cpu.sound_timer), (0, 0));
    assert!(!cpu.decrement_timers());
    assert_eq!((cpu.delay_timer, cpu.sound_timer), (0, 0));
}

// ----- memory -----

#[test]
fn reset_gives_the_state_of_a_new_processor() {
    let mut cpu = cpu_with_program(&[0x60, 0x01, 0x22, 0x00]);
    cpu.advance_state();
    cpu.advance_state();
    cpu.graphics[5][5] = 1;
    cpu.press_button(1);
    cpu.sound_timer = 8;
    cpu.index = 77;
    cpu.reset();
    let fresh = Cpu::new();
    assert_eq!(cpu.memory, fresh.memory);
    assert_eq!(cpu.graphics, fresh.graphics);
    assert_eq!(cpu.v, fresh.v);
    assert_eq!(cpu.index, fresh.index);
    assert_eq!(cpu.pc, fresh.pc);
    assert_eq!(cpu.stack, fresh.stack);
    assert_eq!(cpu.sound_timer, fresh.sound_timer);
    assert_eq!(cpu.delay_timer, fresh.delay_timer);
    assert_eq!(cpu.current_op, fresh.current_op);
    assert_eq!(cpu.key_pressed, fresh.key_pressed);
}

#[test]
fn memory_outside_the_font_starts_at_zero() {
    let cpu = Cpu::new();
    assert_eq!(cpu.memory.len(), 4096);
    assert!(cpu.memory[80..].iter().all(|byte| *byte == 0));
}

#[test]
fn the_largest_program_fills_memory_to_its_end() {
    let rom: Vec<u8> = vec![0xAA; Cpu::MAX_ROM_SIZE];
    assert_eq!(Cpu::MAX_ROM_SIZE, 0xFFF - 0x200);
    let cpu = cpu_with_program(&rom);
    assert_eq!(cpu.memory[0x1FF], 0);
    assert!(cpu.memory[0x200..0xFFF].iter().all(|byte| *byte == 0xAA));
    assert_eq!(cpu.memory[0xFFF], 0);
}

#[test]
fn an_empty_program_leaves_the_initial_state() {
    let cpu = cpu_with_program(&[]);
    assert_eq!(cpu.memory, Cpu::new().memory);
}

#[test]
fn bcd_of_every_byte() {
    let mut cpu = Cpu::new();
    cpu.current_op = (0xF, 5, 3, 3);
    cpu.index = 0x500;
    for value in 0u16..256 {
        cpu.v[5] = value as u8;
        cpu.op_fx33();
        let digits = &cpu.memory[0x500..0x503];
        assert_eq!(
            digits[0] as u16 * 100 + digits[1] as u16 * 10 + digits[2] as u16,
            value
        );
        assert!(digits[1] < 10 && digits[2] < 10);
    }
    assert_eq!(cpu.index, 0x500);
}

#[test]
fn store_and_load_registers_cover_0_to_x_inclusive() {
    let mut cpu = Cpu::new();
    for i in 0..16 {
        cpu.v[i] = 0x10 + i as u8;
    }
    cpu.index = 0x600;
    cpu.memory[0x603] = 0x77;
    cpu.current_op = (0xF, 2, 5, 5);
    cpu.op_fx55();
    assert_eq!(cpu.memory[0x600..0x604], [0x10, 0x11, 0x12, 0x77]);
    assert_eq!(cpu.index, 0x600);

    cpu.v = [0; 16];
    cpu.current_op = (0xF, 3, 6, 5);
    cpu.op_fx65();
    assert_eq!(cpu.v[0..5], [0x10, 0x11, 0x12, 0x77, 0]);
    assert_eq!(cpu.index, 0x600);
}

#[test]
fn store_registers_with_x_15_writes_all_sixteen() {
    let mut cpu = Cpu::new();
    for i in 0..16 {
        cpu.v[i] = i as u8 + 1;
    }
    cpu.index = 0xFF0;
    cpu.current_op = (0xF, 0xF, 5, 5);
    cpu.op_fx55();
    assert_eq!(cpu.memory[0xFF0..0x1000], cpu.v);
}

#[test]
fn add_index_flag_is_set_above_0xfff_only() {
    let mut cpu = Cpu::new();
    cpu.current_op = (0xF, 1, 1, 0xE);
    cpu.v[1] = 1;
    cpu.index = 0xFFE;
    cpu.op_fx1e();
    assert_eq!((cpu.index, cpu.v[0xF]), (0xFFF, 0));
    cpu.op_fx1e();
    assert_eq!((cpu.index, cpu.v[0xF]), (0x1000, 1));
}

#[test]
fn jump_offset_may_leave_the_address_space() {
    let mut cpu = Cpu::new();
    cpu.current_op = (0xB, 0xF, 0xF, 0xF);
    cpu.v[0] = 0xFF;
    cpu.op_bnnn();
    assert_eq!(cpu.pc, 0x10FE);
    assert_eq!(cpu.step_fault(), Some(Fault::FetchOutOfBounds));
}

// ----- the random source -----

#[test]
fn random_with_a_mask_of_zero_gives_zero() {
    let mut cpu = Cpu::new();
    cpu.current_op = (0xC, 1, 0, 0);
    cpu.v[1] = 0x20;
    cpu.op_cxnn();
    assert_eq!(cpu.v[1], 0);
}

#[test]
fn random_for_a_given_byte_is_that_byte_masked() {
    let mut cpu = Cpu::new();
    cpu.current_op = (0xC, 1, 0x3, 0xC);
    cpu.op_cxnn_with(0xFF);
    assert_eq!(cpu.v[1], 0x3C);
    cpu.op_cxnn_with(0xA5);
    assert_eq!(cpu.v[1], 0x24);
    assert_eq!(cpu.pc, 0x200);
}

#[test]
fn random_bytes_are_not_all_the_same() {
    let mut cpu = cpu_with_program(&[0xC0, 0xFF, 0x12, 0x00]);
    let mut seen = [false; 256];
    for _ in 0..2000 {
        cpu.advance_state();
        seen[cpu.v[0] as usize] = true;
        cpu.advance_state();
    }
    assert!(seen.iter().filter(|hit| **hit).count() > 1);
}

// ----- the screen -----

#[test]
fn cell_rect_scales_the_position() {
    assert_eq!(Cpu::cell_rect(0, 0, 10), (0, 0, 10, 10));
    assert_eq!(Cpu::cell_rect(63, 31, 10), (630, 310, 10, 10));
    assert_eq!(Cpu::cell_rect(5, 7, 1), (5, 7, 1, 1));
}

#[test]
fn pixel_lit_reads_column_then_row() {
    let mut cpu = Cpu::new();
    cpu.graphics[2][40] = 1;
    assert!(cpu.pixel_lit(40, 2));
    assert!(!cpu.pixel_lit(2, 40 - 32));
}

#[test]
fn pixels_stay_0_or_1_through_overlapping_draws() {
    let mut cpu = cpu_with_program(&[
        0xA0, 0x00, // I = font sprite of 0
        0xD0, 0x15, // draw at (V0, V1)
        0x70, 0x03, // V0 += 3
        0x71, 0x02, // V1 += 2
        0x12, 0x02, // back to the draw
    ]);
    cpu.advance_state();
    for _ in 0..200 {
        cpu.advance_state();
        assert!(cpu.graphics.iter().all(|row| row.iter().all(|pixel| *pixel <= 1)));
        let shown = cpu.graphics;
        for _ in 0..3 {
            cpu.advance_state();
            assert_eq!(cpu.graphics, shown);
        }
    }
}
