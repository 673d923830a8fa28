use chip8::error::InterpreterError;
use chip8::opcode::{Instruction, Opcode};
use chip8::vm::VM;

fn op(raw: u16) -> Opcode {
    Opcode { raw }
}

fn run(vm: &mut VM, words: &[u16]) {
    for word in words {
        assert_eq!(vm.execute_with(op(*word), 0), Ok(()));
    }
}

fn lit_pixels(vm: &VM) -> Vec<(usize, usize)> {
    let mut lit = Vec::new();
    for (y, row) in vm.display().iter().enumerate() {
        for (x, pixel) in row.iter().enumerate() {
            if *pixel {
                lit.push((x, y));
            }
        }
    }
    lit
}

#[test]
fn decode_splits_a_word_into_its_four_digits() {
    assert_eq!(op(0xD12F).nibbles(), (0xD, 0x1, 0x2, 0xF));
    assert_eq!(op(0x0000).nibbles(), (0, 0, 0, 0));
    assert_eq!(op(0xFFFF).nibbles(), (0xF, 0xF, 0xF, 0xF));
    assert_eq!(op(0xABCD).nn(), 0xCD);
    assert_eq!(op(0xABCD).nnn(), 0xBCD);
}

#[test]
fn decode_knows_every_instruction() {
    assert_eq!(op(0x00E0).decode(), Some(Instruction::ClearScreen));
    assert_eq!(op(0x00EE).decode(), Some(Instruction::Return));
    assert_eq!(op(0x1ABC).decode(), Some(Instruction::Jump { nnn: 0xABC }));
    assert_eq!(op(0x2ABC).decode(), Some(Instruction::Call { nnn: 0xABC }));
    assert_eq!(op(0x3A12).decode(), Some(Instruction::SkipIfEqual { x: 0xA, nn: 0x12 }));
    assert_eq!(op(0x4A12).decode(), Some(Instruction::SkipIfNotEqual { x: 0xA, nn: 0x12 }));
    assert_eq!(op(0x5AB0).decode(), Some(Instruction::SkipIfSame { x: 0xA, y: 0xB }));
    assert_eq!(op(0x6A12).decode(), Some(Instruction::Load { x: 0xA, nn: 0x12 }));
    assert_eq!(op(0x7A12).decode(), Some(Instruction::AddByte { x: 0xA, nn: 0x12 }));
    assert_eq!(op(0x8AB0).decode(), Some(Instruction::Move { x: 0xA, y: 0xB }));
    assert_eq!(op(0x8AB1).decode(), Some(Instruction::Or { x: 0xA, y: 0xB }));
    assert_eq!(op(0x8AB2).decode(), Some(Instruction::And { x: 0xA, y: 0xB }));
    assert_eq!(op(0x8AB3).decode(), Some(Instruction::Xor { x: 0xA, y: 0xB }));
    assert_eq!(op(0x8AB4).decode(), Some(Instruction::Add { x: 0xA, y: 0xB }));
    assert_eq!(op(0x8AB5).decode(), Some(Instruction::Subtract { x: 0xA, y: 0xB }));
    assert_eq!(op(0x8AB6).decode(), Some(Instruction::ShiftRight { x: 0xA }));
    assert_eq!(op(0x8AB7).decode(), Some(Instruction::SubtractFrom { x: 0xA, y: 0xB }));
    assert_eq!(op(0x8ABE).decode(), Some(Instruction::ShiftLeft { x: 0xA }));
    assert_eq!(op(0x9AB0).decode(), Some(Instruction::SkipIfDifferent { x: 0xA, y: 0xB }));
    assert_eq!(op(0xAABC).decode(), Some(Instruction::LoadIndex { nnn: 0xABC }));
    assert_eq!(op(0xBABC).decode(), Some(Instruction::JumpOffset { nnn: 0xABC }));
    assert_eq!(op(0xCA12).decode(), Some(Instruction::Random { x: 0xA, nn: 0x12 }));
    assert_eq!(op(0xDAB5).decode(), Some(Instruction::Draw { x: 0xA, y: 0xB, n: 5 }));
    assert_eq!(op(0xEA9E).decode(), Some(Instruction::SkipIfKey { x: 0xA }));
    assert_eq!(op(0xEAA1).decode(), Some(Instruction::SkipIfNoKey { x: 0xA }));
    assert_eq!(op(0xFA07).decode(), Some(Instruction::ReadDelay { x: 0xA }));
    assert_eq!(op(0xFA0A).decode(), Some(Instruction::WaitKey { x: 0xA }));
    assert_eq!(op(0xFA15).decode(), Some(Instruction::SetDelay { x: 0xA }));
    assert_eq!(op(0xFA18).decode(), Some(Instruction::SetSound { x: 0xA }));
    assert_eq!(op(0xFA1E).decode(), Some(Instruction::AddIndex { x: 0xA }));
    assert_eq!(op(0xFA29).decode(), Some(Instruction::Glyph { x: 0xA }));
    assert_eq!(op(0xFA33).decode(), Some(Instruction::Decimal { x: 0xA }));
    assert_eq!(op(0xFA55).decode(), Some(Instruction::Store { x: 0xA }));
    assert_eq!(op(0xFA65).decode(), Some(Instruction::Restore { x: 0xA }));
}

#[test]
fn a_word_that_is_no_instruction_is_reported_and_changes_nothing() {
    for raw in [
        0x0000u16, 0x00E1, 0x00EF, 0x0123, 0x5AB1, 0x8AB8, 0x8ABF, 0x9AB1, 0xEA9F, 0xEAA0, 0xE000,
        0xFA00, 0xFA08, 0xFA1F, 0xFA34, 0xFA56, 0xFA66, 0xFFFF,
    ] {
        assert_eq!(op(raw).decode(), None);
        let mut vm = VM::new();
        assert_eq!(vm.execute_with(op(raw), 0), Err(InterpreterError::UnknownOpcode(raw)));
        assert_eq!(vm.execute(op(raw)), Err(InterpreterError::UnknownOpcode(raw)));
        let fresh = VM::new();
        assert_eq!(vm.pc(), 0x200);
        assert_eq!(vm.registers(), fresh.registers());
        assert_eq!(vm.memory(), fresh.memory());
    }
}

#[test]
fn a_tick_on_an_unknown_word_fails_with_the_program_counter_behind_it() {
    let mut vm = VM::new();
    assert_eq!(vm.tick(), Err(InterpreterError::UnknownOpcode(0)));
    assert_eq!(vm.pc(), 0x202);
}

#[test]
fn clear_screen_leaves_32_rows_of_64_dark_pixels() {
    let mut vm = VM::new();
    run(&mut vm, &[0xA000, 0xD005, 0xA005, 0x6108, 0xD105]);
    assert!(!lit_pixels(&vm).is_empty());
    run(&mut vm, &[0x00E0]);
    assert_eq!(vm.display().len(), 32);
    for row in vm.display().iter() {
        assert_eq!(row.len(), 64);
        assert!(row.iter().all(|pixel| !*pixel));
    }
    assert_eq!(vm.pc(), 0x200);
}

#[test]
fn jump_sets_the_program_counter() {
    let mut vm = VM::new();
    run(&mut vm, &[0x1ABC]);
    assert_eq!(vm.pc(), 0xABC);
    run(&mut vm, &[0x1001]);
    assert_eq!(vm.pc(), 0x001);
}

#[test]
fn jump_with_offset_adds_register_zero() {
    let mut vm = VM::new();
    run(&mut vm, &[0x6010, 0xB300]);
    assert_eq!(vm.pc(), 0x310);
    run(&mut vm, &[0x60FF, 0xBFFF]);
    assert_eq!(vm.pc(), 0x10FE);
}

#[test]
fn call_then_return_lands_behind_the_call() {
    let mut vm = VM::new();
    let mut program = vec![0u8; 0x40];
    program[0] = 0x22;
    program[1] = 0x30;
    program[0x30] = 0x00;
    program[0x31] = 0xEE;
    vm.load_rom(&program).unwrap();
    let before = vm.pc();
    assert_eq!(vm.tick(), Ok(()));
    assert_eq!(vm.pc(), 0x230);
    assert_eq!(vm.stack_depth(), 1);
    assert_eq!(vm.tick(), Ok(()));
    assert_eq!(vm.pc(), before + 2);
    assert_eq!(vm.stack_depth(), 0);
}

#[test]
fn calls_nest_and_return_in_reverse() {
    let mut vm = VM::new();
    run(&mut vm, &[0x1300, 0x2400, 0x1500, 0x2600]);
    assert_eq!(vm.stack_depth(), 2);
    assert_eq!(vm.pc(), 0x600);
    run(&mut vm, &[0x00EE]);
    assert_eq!(vm.pc(), 0x500);
    run(&mut vm, &[0x00EE]);
    assert_eq!(vm.pc(), 0x300);
    assert_eq!(vm.stack_depth(), 0);
}

#[test]
fn the_seventeenth_call_overflows_the_stack() {
    let mut vm = VM::new();
    for depth in 0..16 {
        assert_eq!(vm.stack_depth(), depth);
        run(&mut vm, &[0x2300]);
    }
    assert_eq!(vm.stack_depth(), 16);
    run(&mut vm, &[0x1234]);
    assert_eq!(vm.execute_with(op(0x2300), 0), Err(InterpreterError::StackOverflow));
    assert_eq!(vm.stack_depth(), 16);
    assert_eq!(vm.pc(), 0x234);
}

#[test]
fn a_return_without_a_call_underflows_the_stack() {
    let mut vm = VM::new();
    assert_eq!(vm.execute_with(op(0x00EE), 0), Err(InterpreterError::StackUnderflow));
    assert_eq!(vm.pc(), 0x200);
    assert_eq!(vm.stack_depth(), 0);
    vm.load_rom(&[0x00, 0xEE]).unwrap();
    assert_eq!(vm.tick(), Err(InterpreterError::StackUnderflow));
    assert_eq!(vm.pc(), 0x202);
}

#[test]
fn skip_if_equal_to_a_byte() {
    let mut vm = VM::new();
    run(&mut vm, &[0x6A42, 0x3A42]);
    assert_eq!(vm.pc(), 0x202);
    run(&mut vm, &[0x3A43]);
    assert_eq!(vm.pc(), 0x202);
}

#[test]
fn skip_if_not_equal_to_a_byte() {
    let mut vm = VM::new();
    run(&mut vm, &[0x6A42, 0x4A42]);
    assert_eq!(vm.pc(), 0x200);
    run(&mut vm, &[0x4A43]);
    assert_eq!(vm.pc(), 0x202);
}

#[test]
fn skip_if_two_registers_are_the_same() {
    let mut vm = VM::new();
    run(&mut vm, &[0x6A42, 0x6B42, 0x5AB0]);
    assert_eq!(vm.pc(), 0x202);
    run(&mut vm, &[0x6B41, 0x5AB0]);
    assert_eq!(vm.pc(), 0x202);
}

#[test]
fn skip_if_two_registers_differ() {
    let mut vm = VM::new();
    run(&mut vm, &[0x6A42, 0x6B42, 0x9AB0]);
    assert_eq!(vm.pc(), 0x200);
    run(&mut vm, &[0x6B41, 0x9AB0]);
    assert_eq!(vm.pc(), 0x202);
}

#[test]
fn a_skip_in_a_tick_moves_four_in_all() {
    let mut vm = VM::new();
    vm.load_rom(&[0x30, 0x00, 0x00, 0x00, 0x40, 0x00]).unwrap();
    assert_eq!(vm.tick(), Ok(()));
    assert_eq!(vm.pc(), 0x204);
    assert_eq!(vm.tick(), Ok(()));
    assert_eq!(vm.pc(), 0x206);
}

#[test]
fn a_skip_never_wraps_the_program_counter() {
    let mut vm = VM::new();
    let mut taken = 0u32;
    loop {
        match vm.execute_with(op(0x3000), 0) {
            Ok(()) => taken += 1,
            Err(error) => {
                assert_eq!(error, InterpreterError::OutOfBounds);
                break;
            }
        }
        assert!(taken < 40000);
    }
    assert_eq!(taken, (0xFFFE - 0x200) / 2);
    assert_eq!(vm.pc(), 0xFFFE);
    assert_eq!(vm.execute_with(op(0x3001), 0), Ok(()));
    assert_eq!(vm.pc(), 0xFFFE);
}

#[test]
fn load_puts_a_byte_into_a_register() {
    let mut vm = VM::new();
    run(&mut vm, &[0x6012, 0x6F34, 0x67FF]);
    assert_eq!(vm.registers()[0], 0x12);
    assert_eq!(vm.registers()[0xF], 0x34);
    assert_eq!(vm.registers()[7], 0xFF);
    assert_eq!(vm.pc(), 0x200);
}

#[test]
fn add_byte_wraps_and_sets_no_flag() {
    let mut vm = VM::new();
    run(&mut vm, &[0x63FF, 0x7302]);
    assert_eq!(vm.registers()[3], 0x01);
    assert_eq!(vm.registers()[0xF], 0);
    run(&mut vm, &[0x6F07, 0x7310]);
    assert_eq!(vm.registers()[3], 0x11);
    assert_eq!(vm.registers()[0xF], 7);
}

#[test]
fn move_or_and_xor() {
    let mut vm = VM::new();
    run(&mut vm, &[0x61CC, 0x62AA, 0x8310]);
    assert_eq!(vm.registers()[3], 0xCC);
    run(&mut vm, &[0x8321]);
    assert_eq!(vm.registers()[3], 0xEE);
    run(&mut vm, &[0x8310, 0x8322]);
    assert_eq!(vm.registers()[3], 0x88);
    run(&mut vm, &[0x8310, 0x8323]);
    assert_eq!(vm.registers()[3], 0x66);
    assert_eq!(vm.registers()[1], 0xCC);
    assert_eq!(vm.registers()[2], 0xAA);
    assert_eq!(vm.registers()[0xF], 0);
}

#[test]
fn add_sets_the_flag_exactly_on_carry() {
    for (a, b) in [(0u8, 0u8), (10, 5), (200, 100), (255, 1), (255, 255), (128, 127), (128, 128)] {
        let mut vm = VM::new();
        run(&mut vm, &[0x6000 | a as u16, 0x6100 | b as u16, 0x8014]);
        let sum = a as u16 + b as u16;
        assert_eq!(vm.registers()[0], (sum % 256) as u8);
        assert_eq!(vm.registers()[0xF], if sum > 255 { 1 } else { 0 });
        assert_eq!(vm.registers()[1], b);
    }
}

#[test]
fn add_with_the_flag_register_as_target_keeps_the_flag() {
    let mut vm = VM::new();
    run(&mut vm, &[0x6FF0, 0x6120, 0x8F14]);
    assert_eq!(vm.registers()[0xF], 1);
    run(&mut vm, &[0x6F10, 0x6120, 0x8F14]);
    assert_eq!(vm.registers()[0xF], 0);
}

#[test]
fn subtract_with_ten_and_five() {
    let mut vm = VM::new();
    run(&mut vm, &[0x600A, 0x6105, 0x8015]);
    assert_eq!(vm.registers()[0], 5);
    assert_eq!(vm.registers()[0xF], 1);
    let mut vm = VM::new();
    run(&mut vm, &[0x6005, 0x610A, 0x8015]);
    assert_eq!(vm.registers()[0], 251);
    assert_eq!(vm.registers()[0xF], 0);
}

#[test]
fn subtract_sets_the_flag_exactly_without_borrow() {
    for (a, b) in [(0u8, 0u8), (7, 7), (0, 1), (1, 0), (255, 0), (0, 255), (100, 200)] {
        let mut vm = VM::new();
        run(&mut vm, &[0x6200 | a as u16, 0x6300 | b as u16, 0x8235]);
        assert_eq!(vm.registers()[2], a.wrapping_sub(b));
        assert_eq!(vm.registers()[0xF], if a >= b { 1 } else { 0 });
    }
}

#[test]
fn subtract_from_takes_the_other_way_round() {
    for (a, b) in [(0u8, 0u8), (7, 7), (0, 1), (1, 0), (255, 0), (0, 255), (100, 200)] {
        let mut vm = VM::new();
        run(&mut vm, &[0x6200 | a as u16, 0x6300 | b as u16, 0x8237]);
        assert_eq!(vm.registers()[2], b.wrapping_sub(a));
        assert_eq!(vm.registers()[0xF], if b >= a { 1 } else { 0 });
        assert_eq!(vm.registers()[3], b);
    }
}

#[test]
fn shift_right_reports_the_low_bit() {
    let mut vm = VM::new();
    run(&mut vm, &[0x6405, 0x8406]);
    assert_eq!(vm.registers()[4], 2);
    assert_eq!(vm.registers()[0xF], 1);
    run(&mut vm, &[0x8406]);
    assert_eq!(vm.registers()[4], 1);
    assert_eq!(vm.registers()[0xF], 0);
    run(&mut vm, &[0x6F03, 0x8F06]);
    assert_eq!(vm.registers()[0xF], 1);
}

#[test]
fn shift_left_reports_the_high_bit() {
    let mut vm = VM::new();
    run(&mut vm, &[0x64C1, 0x840E]);
    assert_eq!(vm.registers()[4], 0x82);
    assert_eq!(vm.registers()[0xF], 1);
    run(&mut vm, &[0x6441, 0x840E]);
    assert_eq!(vm.registers()[4], 0x82);
    assert_eq!(vm.registers()[0xF], 0);
    run(&mut vm, &[0x6F7F, 0x8F0E]);
    assert_eq!(vm.registers()[0xF], 0);
}

#[test]
fn the_index_register_is_loaded_and_added_to() {
    let mut vm = VM::new();
    run(&mut vm, &[0xAFFF]);
    assert_eq!(vm.index(), 0xFFF);
    run(&mut vm, &[0x60FF, 0xF01E]);
    assert_eq!(vm.index(), 0x10FE);
    assert_eq!(vm.registers()[0xF], 0);
}

#[test]
fn the_index_register_wraps_at_sixteen_bits() {
    let mut vm = VM::new();
    run(&mut vm, &[0xAFFF, 0x60FF]);
    let mut expected: u16 = 0xFFF;
    for _ in 0..240 {
        run(&mut vm, &[0xF01E]);
        expected = expected.wrapping_add(0xFF);
        assert_eq!(vm.index(), expected);
    }
    assert_eq!(vm.index(), 0xFF0F);
    run(&mut vm, &[0xF01E]);
    assert_eq!(vm.index(), 0x000E);
    assert_eq!(vm.registers()[0xF], 0);
}

#[test]
fn glyph_points_at_five_bytes_a_digit() {
    let mut vm = VM::new();
    run(&mut vm, &[0x6000, 0xF029]);
    assert_eq!(vm.index(), 0);
    run(&mut vm, &[0x600F, 0xF029]);
    assert_eq!(vm.index(), 75);
    run(&mut vm, &[0x60FF, 0xF029]);
    assert_eq!(vm.index(), 1275);
}

#[test]
fn random_masks_the_byte_it_is_given() {
    let mut vm = VM::new();
    assert_eq!(vm.execute_with(op(0xC50F), 0xA7), Ok(()));
    assert_eq!(vm.registers()[5], 0x07);
    assert_eq!(vm.execute_with(op(0xC5F0), 0xA7), Ok(()));
    assert_eq!(vm.registers()[5], 0xA0);
    assert_eq!(vm.execute_with(op(0xC5FF), 0xA7), Ok(()));
    assert_eq!(vm.registers()[5], 0xA7);
    assert_eq!(vm.execute_with(op(0xC500), 0xA7), Ok(()));
    assert_eq!(vm.registers()[5], 0x00);
    vm.load_rom(&[0xC6, 0x3C]).unwrap();
    assert_eq!(vm.tick_with(0xFF), Ok(()));
    assert_eq!(vm.registers()[6], 0x3C);
}

#[test]
fn random_from_the_generator_stays_under_the_mask() {
    let mut vm = VM::new();
    let mut seen = [false; 256];
    for _ in 0..2000 {
        assert_eq!(vm.execute(op(0xC7FF)), Ok(()));
        seen[vm.registers()[7] as usize] = true;
        assert_eq!(vm.execute(op(0xC80F)), Ok(()));
        assert!(vm.registers()[8] <= 0x0F);
        assert_eq!(vm.execute(op(0xC900)), Ok(()));
        assert_eq!(vm.registers()[9], 0);
    }
    assert!(seen.iter().filter(|s| **s).count() > 64);
    vm.load_rom(&[0xCA, 0x03]).unwrap();
    assert_eq!(vm.tick(), Ok(()));
    assert!(vm.registers()[0xA] <= 3);
}

#[test]
fn draw_puts_the_glyph_for_zero_on_the_screen() {
    let mut vm = VM::new();
    run(&mut vm, &[0xA000, 0x6003, 0x6102, 0xD015]);
    let mut expected = Vec::new();
    for (row, bits) in [0xF0u8, 0x90, 0x90, 0x90, 0xF0].iter().enumerate() {
        for col in 0..8 {
            if bits & (0x80 >> col) != 0 {
                expected.push((3 + col, 2 + row));
            }
        }
    }
    expected.sort_by_key(|(x, y)| (*y, *x));
    assert_eq!(lit_pixels(&vm), expected);
    assert_eq!(lit_pixels(&vm).len(), 14);
    assert_eq!(vm.registers()[0xF], 0);
    assert_eq!(vm.index(), 0);
    assert_eq!(vm.pc(), 0x200);
}

#[test]
fn drawing_twice_restores_the_screen_and_reports_the_collision() {
    let mut vm = VM::new();
    run(&mut vm, &[0xA00A, 0x6005, 0x6107, 0xD015, 0xA000, 0x6006, 0x6108]);
    let before = *vm.display();
    run(&mut vm, &[0xD015]);
    let first_flag = vm.registers()[0xF];
    assert_ne!(vm.display(), &before);
    run(&mut vm, &[0xD015]);
    assert_eq!(vm.display(), &before);
    assert_eq!(vm.registers()[0xF], 1);
    assert_eq!(first_flag, 1);
}

#[test]
fn drawing_on_a_dark_screen_twice_collides_only_the_second_time() {
    let mut vm = VM::new();
    run(&mut vm, &[0xA005, 0x600A, 0x610A, 0xD015]);
    assert_eq!(vm.registers()[0xF], 0);
    assert!(!lit_pixels(&vm).is_empty());
    run(&mut vm, &[0xD015]);
    assert_eq!(vm.registers()[0xF], 1);
    assert!(lit_pixels(&vm).is_empty());
}

#[test]
fn a_sprite_without_set_bits_never_collides() {
    let mut vm = VM::new();
    run(&mut vm, &[0xA000, 0xD005]);
    let before = *vm.display();
    run(&mut vm, &[0xA300, 0xD00F]);
    assert_eq!(vm.display(), &before);
    assert_eq!(vm.registers()[0xF], 0);
}

#[test]
fn draw_detects_a_collision_on_a_single_pixel() {
    let mut vm = VM::new();
    run(&mut vm, &[0x6080, 0x6101, 0xA300, 0xF155]);
    run(&mut vm, &[0x6000, 0x6100, 0xA300, 0xD011]);
    assert_eq!(lit_pixels(&vm), vec![(0, 0)]);
    assert_eq!(vm.registers()[0xF], 0);
    run(&mut vm, &[0x6207, 0xA301, 0xD201]);
    assert_eq!(lit_pixels(&vm), vec![(0, 0), (14, 0)]);
    assert_eq!(vm.registers()[0xF], 0);
    run(&mut vm, &[0x6307, 0x6400, 0xD341]);
    assert_eq!(lit_pixels(&vm), vec![(0, 0)]);
    assert_eq!(vm.registers()[0xF], 1);
}

#[test]
fn draw_wraps_at_the_right_and_bottom_edges() {
    let mut vm = VM::new();
    run(&mut vm, &[0x60FF, 0x61FF, 0xA300, 0xF155]);
    run(&mut vm, &[0x603E, 0x611F, 0xA300, 0xD012]);
    let mut expected = Vec::new();
    for y in [0usize, 31] {
        for x in [0usize, 1, 2, 3, 4, 5, 62, 63] {
            expected.push((x, y));
        }
    }
    assert_eq!(lit_pixels(&vm), expected);
    assert_eq!(vm.registers()[0xF], 0);
}

#[test]
fn draw_takes_coordinates_modulo_the_screen() {
    let mut vm = VM::new();
    run(&mut vm, &[0x6080, 0xA300, 0xF055, 0x60C5, 0x6143, 0xD011]);
    assert_eq!(lit_pixels(&vm), vec![(0xC5 % 64, 0x43 % 32)]);
}

#[test]
fn draw_with_no_rows_draws_nothing_and_clears_the_flag() {
    let mut vm = VM::new();
    run(&mut vm, &[0xA000, 0xD005]);
    let before = *vm.display();
    run(&mut vm, &[0x6F01, 0xAFFF, 0x60FF, 0xF01E, 0xD120]);
    assert_eq!(vm.index(), 0x10FE);
    assert_eq!(vm.display(), &before);
    assert_eq!(vm.registers()[0xF], 0);
}

#[test]
fn draw_fails_where_the_sprite_runs_out_of_memory() {
    let mut vm = VM::new();
    run(&mut vm, &[0xAFFF, 0xD001]);
    assert_eq!(vm.registers()[0xF], 0);
    run(&mut vm, &[0x6F05]);
    let before = *vm.display();
    assert_eq!(vm.execute_with(op(0xD002), 0), Err(InterpreterError::OutOfBounds));
    assert_eq!(vm.display(), &before);
    assert_eq!(vm.registers()[0xF], 5);
    run(&mut vm, &[0xAFF1, 0xD00F]);
    assert_eq!(vm.execute_with(op(0xAFF2), 0), Ok(()));
    assert_eq!(vm.execute_with(op(0xD00F), 0), Err(InterpreterError::OutOfBounds));
}

#[test]
fn skip_if_key_looks_at_the_key_in_the_register() {
    let mut vm = VM::new();
    run(&mut vm, &[0x6A07, 0xEA9E]);
    assert_eq!(vm.pc(), 0x200);
    vm.set_key(7, true).unwrap();
    run(&mut vm, &[0xEA9E]);
    assert_eq!(vm.pc(), 0x202);
    vm.set_key(7, false).unwrap();
    vm.set_key(8, true).unwrap();
    run(&mut vm, &[0xEA9E]);
    assert_eq!(vm.pc(), 0x202);
}

#[test]
fn skip_if_no_key_looks_at_the_key_in_the_register() {
    let mut vm = VM::new();
    run(&mut vm, &[0x6A07, 0xEAA1]);
    assert_eq!(vm.pc(), 0x202);
    vm.set_key(7, true).unwrap();
    run(&mut vm, &[0xEAA1]);
    assert_eq!(vm.pc(), 0x202);
}

#[test]
fn a_key_number_past_the_keypad_is_out_of_range() {
    let mut vm = VM::new();
    run(&mut vm, &[0x6A10]);
    assert_eq!(vm.execute_with(op(0xEA9E), 0), Err(InterpreterError::OutOfRange));
    assert_eq!(vm.execute_with(op(0xEAA1), 0), Err(InterpreterError::OutOfRange));
    assert_eq!(vm.pc(), 0x200);
    run(&mut vm, &[0x6AFF]);
    assert_eq!(vm.execute_with(op(0xEA9E), 0), Err(InterpreterError::OutOfRange));
    run(&mut vm, &[0x6A0F, 0xEA9E, 0xEAA1]);
    assert_eq!(vm.pc(), 0x202);
}

#[test]
fn the_delay_timer_is_written_and_read() {
    let mut vm = VM::new();
    run(&mut vm, &[0x6A2A, 0xFA15, 0xFB07]);
    assert_eq!(vm.delay_timer(), 0x2A);
    assert_eq!(vm.registers()[0xB], 0x2A);
    assert_eq!(vm.sound_timer(), 0);
    vm.update_timers();
    run(&mut vm, &[0xFC07]);
    assert_eq!(vm.registers()[0xC], 0x29);
}

#[test]
fn the_sound_timer_is_written() {
    let mut vm = VM::new();
    run(&mut vm, &[0x6A2A, 0xFA18]);
    assert_eq!(vm.sound_timer(), 0x2A);
    assert_eq!(vm.delay_timer(), 0);
}

#[test]
fn wait_for_key_repeats_until_a_key_is_down() {
    let mut vm = VM::new();
    vm.load_rom(&[0xF3, 0x0A, 0x64, 0x01]).unwrap();
    for _ in 0..5 {
        assert_eq!(vm.tick(), Ok(()));
        assert_eq!(vm.pc(), 0x200);
        assert_eq!(vm.registers(), &[0u8; 16]);
    }
    vm.set_key(0xB, true).unwrap();
    assert_eq!(vm.tick(), Ok(()));
    assert_eq!(vm.registers()[3], 0xB);
    assert_eq!(vm.pc(), 0x202);
    assert_eq!(vm.tick(), Ok(()));
    assert_eq!(vm.registers()[4], 1);
    assert_eq!(vm.pc(), 0x204);
}

#[test]
fn wait_for_key_lets_the_timers_run_while_it_waits() {
    let mut vm = VM::new();
    vm.load_rom(&[0x60, 0x05, 0xF0, 0x15, 0xF3, 0x0A]).unwrap();
    vm.tick().unwrap();
    vm.tick().unwrap();
    for left in (0..5).rev() {
        assert_eq!(vm.tick(), Ok(()));
        vm.update_timers();
        assert_eq!(vm.delay_timer(), left);
        assert_eq!(vm.pc(), 0x204);
    }
}

#[test]
fn wait_for_key_takes_the_lowest_key_that_is_down() {
    let mut vm = VM::new();
    vm.set_key(9, true).unwrap();
    vm.set_key(4, true).unwrap();
    vm.set_key(0xF, true).unwrap();
    run(&mut vm, &[0xF60A]);
    assert_eq!(vm.registers()[6], 4);
    assert_eq!(vm.pc(), 0x200);
    vm.set_key(0, true).unwrap();
    run(&mut vm, &[0xF60A]);
    assert_eq!(vm.registers()[6], 0);
}

#[test]
fn wait_for_key_cannot_step_back_below_address_zero() {
    let mut vm = VM::new();
    run(&mut vm, &[0x1001]);
    assert_eq!(vm.execute_with(op(0xF00A), 0), Err(InterpreterError::OutOfBounds));
    assert_eq!(vm.pc(), 1);
    run(&mut vm, &[0x1002, 0xF00A]);
    assert_eq!(vm.pc(), 0);
}

#[test]
fn decimal_stores_hundreds_tens_and_ones() {
    let mut vm = VM::new();
    run(&mut vm, &[0xA300, 0x60FE, 0xF033]);
    assert_eq!(&vm.memory()[0x300..0x303], &[2, 5, 4]);
    run(&mut vm, &[0x6007, 0xF033]);
    assert_eq!(&vm.memory()[0x300..0x303], &[0, 0, 7]);
    run(&mut vm, &[0x6064, 0xF033]);
    assert_eq!(&vm.memory()[0x300..0x303], &[1, 0, 0]);
    run(&mut vm, &[0x602A, 0xF033]);
    assert_eq!(&vm.memory()[0x300..0x303], &[0, 4, 2]);
    assert_eq!(vm.memory()[0x303], 0);
    assert_eq!(vm.index(), 0x300);
}

#[test]
fn decimal_fails_where_three_bytes_do_not_fit() {
    let mut vm = VM::new();
    run(&mut vm, &[0x60FF, 0xAFFD, 0xF033]);
    assert_eq!(&vm.memory()[0xFFD..], &[2, 5, 5]);
    run(&mut vm, &[0x6000, 0xF033, 0x60FF, 0xAFFE]);
    assert_eq!(vm.execute_with(op(0xF033), 0), Err(InterpreterError::OutOfBounds));
    assert_eq!(&vm.memory()[0xFFD..], &[0, 0, 0]);
}

#[test]
fn store_writes_registers_zero_to_x_inclusive() {
    let mut vm = VM::new();
    run(&mut vm, &[0x6011, 0x6122, 0x6233, 0x6344, 0xA400, 0xF255]);
    assert_eq!(&vm.memory()[0x400..0x404], &[0x11, 0x22, 0x33, 0x00]);
    assert_eq!(vm.index(), 0x400);
    run(&mut vm, &[0xA500, 0xF055]);
    assert_eq!(&vm.memory()[0x500..0x502], &[0x11, 0x00]);
}

#[test]
fn store_of_all_sixteen_registers() {
    let mut vm = VM::new();
    for x in 0..16u16 {
        run(&mut vm, &[0x6000 | (x << 8) | (0xA0 + x)]);
    }
    run(&mut vm, &[0xAFF0, 0xFF55]);
    let expected: Vec<u8> = (0..16u8).map(|x| 0xA0 + x).collect();
    assert_eq!(&vm.memory()[0xFF0..], &expected[..]);
}

#[test]
fn store_fails_where_the_registers_do_not_fit() {
    let mut vm = VM::new();
    run(&mut vm, &[0x6011, 0x6122, 0xAFFF]);
    let before = *vm.memory();
    assert_eq!(vm.execute_with(op(0xF155), 0), Err(InterpreterError::OutOfBounds));
    assert_eq!(vm.memory(), &before);
    run(&mut vm, &[0xF055]);
    assert_eq!(vm.memory()[0xFFF], 0x11);
}

#[test]
fn restore_reads_registers_zero_to_x_inclusive() {
    let mut vm = VM::new();
    vm.load_rom(&[0xDE, 0xAD, 0xBE, 0xEF]).unwrap();
    run(&mut vm, &[0x6355, 0xA200, 0xF265]);
    assert_eq!(&vm.registers()[0..4], &[0xDE, 0xAD, 0xBE, 0x55]);
    assert_eq!(vm.index(), 0x200);
    run(&mut vm, &[0xA203, 0xF065]);
    assert_eq!(&vm.registers()[0..4], &[0xEF, 0xAD, 0xBE, 0x55]);
}

#[test]
fn restore_fails_where_memory_ends() {
    let mut vm = VM::new();
    run(&mut vm, &[0x6011, 0x6122, 0xAFFF]);
    assert_eq!(vm.execute_with(op(0xF165), 0), Err(InterpreterError::OutOfBounds));
    assert_eq!(&vm.registers()[0..2], &[0x11, 0x22]);
    run(&mut vm, &[0xF065]);
    assert_eq!(vm.registers()[0], 0);
}

#[test]
fn store_then_restore_gives_the_registers_back() {
    let mut vm = VM::new();
    for x in 0..16u16 {
        run(&mut vm, &[0x6000 | (x << 8) | (3 * x + 1)]);
    }
    let saved = *vm.registers();
    run(&mut vm, &[0xA600, 0xFF55]);
    for x in 0..16u16 {
        run(&mut vm, &[0x6000 | (x << 8)]);
    }
    assert_eq!(vm.registers(), &[0u8; 16]);
    run(&mut vm, &[0xFF65]);
    assert_eq!(vm.registers(), &saved);
}

#[test]
fn a_small_program_counts_to_ten() {
    let mut vm = VM::new();
    vm.load_rom(&[0x60, 0x00, 0x70, 0x01, 0x30, 0x0A, 0x12, 0x02, 0x12, 0x08]).unwrap();
    let mut ticks = 0;
    while vm.pc() != 0x208 {
        assert_eq!(vm.tick(), Ok(()));
        ticks += 1;
        assert!(ticks < 100);
    }
    assert_eq!(vm.registers()[0], 10);
    assert_eq!(ticks, 1 + 10 * 3 - 1);
}
