use yac8::chip::errors::ChipError;
use yac8::chip::font::FONT_SET;
use yac8::chip::instruction::Instruction;
use yac8::chip::interpreter::Chip8;
use yac8::chip::machine::RunState;

/// Executes each word in turn and expects every one to succeed.
fn run(chip: &mut Chip8, words: &[usize]) {
    for &word in words {
        assert_eq!(chip.execute(word), Ok(()), "opcode {:#06x}", word);
    }
}

fn lit_cells(chip: &Chip8) -> Vec<(usize, usize)> {
    let mut cells = Vec::new();
    for (y, row) in chip.screen().iter().enumerate() {
        for (x, &cell) in row.iter().enumerate() {
            assert!(cell <= 1);
            if cell == 1 {
                cells.push((y, x));
            }
        }
    }
    cells
}

#[test]
fn new_machine_is_zeroed_with_font_and_pc_at_0x200() {
    let chip = Chip8::new();
    assert_eq!(chip.program_counter(), 0x200);
    assert_eq!(chip.index(), 0);
    assert_eq!(chip.registers(), [0u8; 16]);
    assert_eq!(chip.return_addresses(), Vec::<u16>::new());
    assert_eq!(chip.delay_timer(), 0);
    assert_eq!(chip.sound_timer(), 0);
    assert_eq!(chip.keypad(), [false; 16]);
    assert_eq!(chip.run_state(), RunState::Running);
    assert!(!chip.screen_drawed());
    assert_eq!(&chip.memory()[..80], &FONT_SET[..]);
    assert!(chip.memory()[80..].iter().all(|&b| b == 0));
    assert!(lit_cells(&chip).is_empty());
}

#[test]
fn font_has_the_glyphs_of_zero_and_f() {
    assert_eq!(&FONT_SET[0..5], &[0xF0, 0x90, 0x90, 0x90, 0xF0]);
    assert_eq!(&FONT_SET[75..80], &[0xF0, 0x80, 0xF0, 0x80, 0x80]);
}

#[test]
fn cls_clears_a_drawn_screen() {
    let mut chip = Chip8::new();
    run(&mut chip, &[0xA000, 0xD015]);
    assert!(!lit_cells(&chip).is_empty());
    run(&mut chip, &[0x00E0]);
    assert!(lit_cells(&chip).is_empty());
    assert_eq!(chip.program_counter(), 0x206);
}

#[test]
fn scenario_rom_with_cls_clears_dirty_screen_and_moves_pc() {
    let mut chip = Chip8::new();
    // dirty the screen, then go back to the start of the program
    run(&mut chip, &[0xA000, 0xD015, 0x1200]);
    assert!(!lit_cells(&chip).is_empty());
    chip.load_rom(&[0x00, 0xE0]);
    assert_eq!(chip.program_counter(), 0x200);
    assert_eq!(chip.emulate_cycle(), Ok(()));
    assert!(lit_cells(&chip).is_empty());
    assert_eq!(chip.program_counter(), 0x202);
}

#[test]
fn ret_without_call_is_stack_underflow() {
    let mut chip = Chip8::new();
    let before = chip.clone();
    assert_eq!(chip.execute(0x00EE), Err(ChipError::StackUnderflow));
    assert_eq!(chip.program_counter(), before.program_counter());
    assert_eq!(chip.return_addresses(), before.return_addresses());
}

#[test]
fn jp_sets_pc() {
    let mut chip = Chip8::new();
    run(&mut chip, &[0x1ABC]);
    assert_eq!(chip.program_counter(), 0xABC);
}

#[test]
fn call_pushes_the_address_after_the_call() {
    let mut chip = Chip8::new();
    run(&mut chip, &[0x2345]);
    assert_eq!(chip.program_counter(), 0x345);
    assert_eq!(chip.return_addresses(), vec![0x202]);
}

#[test]
fn call_then_ret_returns_to_the_instruction_after_the_call() {
    let mut chip = Chip8::new();
    run(&mut chip, &[0x2345, 0x00EE]);
    assert_eq!(chip.program_counter(), 0x202);
    assert!(chip.return_addresses().is_empty());
}

#[test]
fn sixteen_nested_calls_return_in_reverse_order() {
    let mut chip = Chip8::new();
    let mut expected = Vec::new();
    for depth in 0..16usize {
        expected.push(chip.program_counter() + 2);
        assert_eq!(chip.execute(0x2300 + 2 * depth), Ok(()));
        assert_eq!(chip.program_counter() as usize, 0x300 + 2 * depth);
    }
    assert_eq!(chip.return_addresses(), expected);
    assert_eq!(expected[0], 0x202);
    assert_eq!(expected[15], 0x300 + 2 * 14 + 2);
    for depth in (0..16usize).rev() {
        assert_eq!(chip.execute(0x00EE), Ok(()));
        assert_eq!(chip.program_counter(), expected[depth]);
    }
    assert_eq!(chip.program_counter(), 0x202);
    assert_eq!(chip.execute(0x00EE), Err(ChipError::StackUnderflow));
}

#[test]
fn seventeenth_nested_call_is_stack_overflow() {
    let mut chip = Chip8::new();
    for _ in 0..16 {
        assert_eq!(chip.execute(0x2400), Ok(()));
    }
    let before = chip.clone();
    assert_eq!(chip.execute(0x2500), Err(ChipError::StackOverflow));
    assert_eq!(chip.program_counter(), 0x400);
    assert_eq!(chip.return_addresses(), before.return_addresses());
    assert_eq!(chip.return_addresses().len(), 16);
}

#[test]
fn se_byte_skips_on_equal() {
    let mut chip = Chip8::new();
    run(&mut chip, &[0x6A42, 0x3A42]);
    assert_eq!(chip.program_counter(), 0x206);
    run(&mut chip, &[0x3A43]);
    assert_eq!(chip.program_counter(), 0x208);
}

#[test]
fn sne_byte_skips_on_different() {
    let mut chip = Chip8::new();
    run(&mut chip, &[0x6A42, 0x4A42]);
    assert_eq!(chip.program_counter(), 0x204);
    run(&mut chip, &[0x4A43]);
    assert_eq!(chip.program_counter(), 0x208);
}

#[test]
fn se_reg_adds_four_to_pc_on_equal() {
    let mut chip = Chip8::new();
    run(&mut chip, &[0x6107, 0x6207, 0x6308, 0x5120]);
    assert_eq!(chip.program_counter(), 0x20A);
    run(&mut chip, &[0x5130]);
    assert_eq!(chip.program_counter(), 0x20C);
}

#[test]
fn sne_reg_skips_on_different() {
    let mut chip = Chip8::new();
    run(&mut chip, &[0x6107, 0x6207, 0x6308, 0x9120]);
    assert_eq!(chip.program_counter(), 0x208);
    run(&mut chip, &[0x9130]);
    assert_eq!(chip.program_counter(), 0x20C);
}

#[test]
fn ld_byte_sets_register() {
    let mut chip = Chip8::new();
    run(&mut chip, &[0x6C7F]);
    assert_eq!(chip.registers()[0xC], 0x7F);
    assert_eq!(chip.program_counter(), 0x202);
}

#[test]
fn add_byte_wraps_and_leaves_flag() {
    let mut chip = Chip8::new();
    run(&mut chip, &[0x6FAA, 0x61F0, 0x7120]);
    assert_eq!(chip.registers()[1], 0x10);
    assert_eq!(chip.registers()[0xF], 0xAA);
    run(&mut chip, &[0x7105]);
    assert_eq!(chip.registers()[1], 0x15);
}

#[test]
fn ld_reg_copies() {
    let mut chip = Chip8::new();
    run(&mut chip, &[0x6233, 0x8120]);
    assert_eq!(chip.registers()[1], 0x33);
    assert_eq!(chip.registers()[2], 0x33);
}

#[test]
fn or_and_xor() {
    let mut chip = Chip8::new();
    run(&mut chip, &[0x61CA, 0x62A5, 0x8121]);
    assert_eq!(chip.registers()[1], 0xCA | 0xA5);
    run(&mut chip, &[0x61CA, 0x8122]);
    assert_eq!(chip.registers()[1], 0xCA & 0xA5);
    run(&mut chip, &[0x61CA, 0x8123]);
    assert_eq!(chip.registers()[1], 0xCA ^ 0xA5);
    assert_eq!(chip.registers()[2], 0xA5);
    assert_eq!(chip.registers()[0xF], 0);
}

#[test]
fn add_reg_sets_carry_iff_sum_above_255() {
    let mut chip = Chip8::new();
    run(&mut chip, &[0x61F0, 0x6220, 0x8124]);
    assert_eq!(chip.registers()[1], 0x10);
    assert_eq!(chip.registers()[0xF], 1);
    run(&mut chip, &[0x61F0, 0x620F, 0x8124]);
    assert_eq!(chip.registers()[1], 0xFF);
    assert_eq!(chip.registers()[0xF], 0);
    assert_eq!(chip.program_counter(), 0x20C);
}

#[test]
fn add_reg_into_flag_register_keeps_the_sum() {
    let mut chip = Chip8::new();
    run(&mut chip, &[0x6FC8, 0x6164, 0x8F14]);
    // 200 + 100 = 300: the low byte prevails over the carry
    assert_eq!(chip.registers()[0xF], 44);
}

#[test]
fn sub_sets_flag_iff_minuend_greater() {
    let mut chip = Chip8::new();
    run(&mut chip, &[0x6150, 0x6220, 0x8125]);
    assert_eq!(chip.registers()[1], 0x30);
    assert_eq!(chip.registers()[0xF], 1);
    run(&mut chip, &[0x6120, 0x6250, 0x8125]);
    assert_eq!(chip.registers()[1], 0xD0);
    assert_eq!(chip.registers()[0xF], 0);
    run(&mut chip, &[0x6120, 0x6220, 0x8125]);
    assert_eq!(chip.registers()[1], 0);
    assert_eq!(chip.registers()[0xF], 0);
}

#[test]
fn shr_moves_low_bit_to_flag() {
    let mut chip = Chip8::new();
    run(&mut chip, &[0x6107, 0x8106]);
    assert_eq!(chip.registers()[1], 3);
    assert_eq!(chip.registers()[0xF], 1);
    run(&mut chip, &[0x6108, 0x8126]);
    assert_eq!(chip.registers()[1], 4);
    assert_eq!(chip.registers()[0xF], 0);
}

#[test]
fn subn_subtracts_the_other_way() {
    let mut chip = Chip8::new();
    run(&mut chip, &[0x6120, 0x6250, 0x8127]);
    assert_eq!(chip.registers()[1], 0x30);
    assert_eq!(chip.registers()[0xF], 1);
    run(&mut chip, &[0x6150, 0x6220, 0x8127]);
    assert_eq!(chip.registers()[1], 0xD0);
    assert_eq!(chip.registers()[0xF], 0);
}

#[test]
fn shl_moves_high_bit_to_flag() {
    let mut chip = Chip8::new();
    run(&mut chip, &[0x61C1, 0x810E]);
    assert_eq!(chip.registers()[1], 0x82);
    assert_eq!(chip.registers()[0xF], 1);
    run(&mut chip, &[0x6141, 0x812E]);
    assert_eq!(chip.registers()[1], 0x82);
    assert_eq!(chip.registers()[0xF], 0);
}

#[test]
fn ld_index_sets_i() {
    let mut chip = Chip8::new();
    run(&mut chip, &[0xA300]);
    assert_eq!(chip.index(), 0x300);
    assert_eq!(chip.program_counter(), 0x202);
}

#[test]
fn jp_offset_adds_v0() {
    let mut chip = Chip8::new();
    run(&mut chip, &[0x60FF, 0xBFFF]);
    assert_eq!(chip.program_counter(), 0xFFF + 0xFF);
}

#[test]
fn rnd_masks_the_random_byte() {
    let mut chip = Chip8::new();
    assert_eq!(chip.perform(Instruction::Rnd { x: 3, kk: 0x3C }, 0xA7), Ok(()));
    assert_eq!(chip.registers()[3], 0xA7 & 0x3C);
    assert_eq!(chip.program_counter(), 0x202);
}

#[test]
fn rnd_through_execute_stays_under_the_mask() {
    let mut chip = Chip8::new();
    for _ in 0..64 {
        run(&mut chip, &[0xC50F]);
        assert_eq!(chip.registers()[5] & 0xF0, 0);
        run(&mut chip, &[0xC600]);
        assert_eq!(chip.registers()[6], 0);
    }
    assert_eq!(chip.program_counter(), 0x200 + 4 * 64);
}

#[test]
fn skp_and_sknp_follow_the_keypad() {
    let mut chip = Chip8::new();
    let mut keys = [false; 16];
    keys[0xB] = true;
    chip.set_keypad(keys);
    assert_eq!(chip.keypad(), keys);
    run(&mut chip, &[0x610B, 0xE19E]);
    assert_eq!(chip.program_counter(), 0x206);
    run(&mut chip, &[0xE1A1]);
    assert_eq!(chip.program_counter(), 0x208);
    run(&mut chip, &[0x6103, 0xE19E]);
    assert_eq!(chip.program_counter(), 0x20C);
    run(&mut chip, &[0xE1A1]);
    assert_eq!(chip.program_counter(), 0x210);
}

#[test]
fn key_number_above_fifteen_is_never_down() {
    let mut chip = Chip8::new();
    chip.set_keypad([true; 16]);
    run(&mut chip, &[0x6110, 0xE19E]);
    assert_eq!(chip.program_counter(), 0x204);
    run(&mut chip, &[0xE1A1]);
    assert_eq!(chip.program_counter(), 0x208);
}

#[test]
fn timers_are_set_and_read() {
    let mut chip = Chip8::new();
    run(&mut chip, &[0x6109, 0xF115, 0x6204, 0xF218, 0xF307]);
    assert_eq!(chip.delay_timer(), 9);
    assert_eq!(chip.sound_timer(), 4);
    assert_eq!(chip.registers()[3], 9);
}

#[test]
fn add_index_adds_vx() {
    let mut chip = Chip8::new();
    run(&mut chip, &[0xAFFF, 0x61FF, 0xF11E]);
    assert_eq!(chip.index(), 0xFFF + 0xFF);
}

#[test]
fn add_index_fails_where_i_cannot_hold_the_sum() {
    let mut chip = Chip8::new();
    run(&mut chip, &[0xAFFF, 0x61FF]);
    while chip.index() as u32 + 0xFF <= 0xFFFF {
        run(&mut chip, &[0xF11E]);
    }
    let before = chip.clone();
    assert_eq!(chip.execute(0xF11E), Err(ChipError::AddressBoundaryError));
    assert_eq!(chip.index(), before.index());
    assert_eq!(chip.program_counter(), before.program_counter());
}

#[test]
fn scenario_ld_font_for_a_points_at_glyph_a() {
    let mut chip = Chip8::new();
    run(&mut chip, &[0x630A, 0xF329]);
    assert_eq!(chip.index(), 50);
    assert_eq!(&chip.memory()[50..55], &[0xF0, 0x90, 0xF0, 0x90, 0x90]);
    assert_eq!(chip.program_counter(), 0x204);
}

#[test]
fn scenario_bcd_of_157() {
    let mut chip = Chip8::new();
    run(&mut chip, &[0x649D, 0xA400, 0xF433]);
    assert_eq!(&chip.memory()[0x400..0x403], &[1, 5, 7]);
    assert_eq!(chip.memory()[0x403], 0);
    assert_eq!(chip.program_counter(), 0x206);
}

#[test]
fn bcd_of_small_and_large_values() {
    let mut chip = Chip8::new();
    run(&mut chip, &[0x6407, 0xA400, 0xF433]);
    assert_eq!(&chip.memory()[0x400..0x403], &[0, 0, 7]);
    run(&mut chip, &[0x64FF, 0xF433]);
    assert_eq!(&chip.memory()[0x400..0x403], &[2, 5, 5]);
}

#[test]
fn bcd_needs_three_bytes_inside_memory() {
    let mut chip = Chip8::new();
    run(&mut chip, &[0x649D, 0xAFFD, 0xF433]);
    assert_eq!(&chip.memory()[0xFFD..0x1000], &[1, 5, 7]);
    run(&mut chip, &[0xAFFE]);
    let before = chip.clone();
    assert_eq!(chip.execute(0xF433), Err(ChipError::AddressBoundaryError));
    assert_eq!(chip.memory()[..], before.memory()[..]);
    assert_eq!(chip.program_counter(), before.program_counter());
}

#[test]
fn scenario_store_three_registers_at_0x300() {
    let mut chip = Chip8::new();
    run(&mut chip, &[0x6001, 0x6102, 0x6203, 0x6304, 0xA300, 0xF255]);
    assert_eq!(chip.index(), 0x300);
    assert_eq!(&chip.memory()[0x300..0x303], &[1, 2, 3]);
    assert_eq!(chip.memory()[0x303], 0);
    assert_eq!(chip.memory()[0x2FF], 0);
}

#[test]
fn store_fails_behind_the_end_of_memory() {
    let mut chip = Chip8::new();
    run(&mut chip, &[0x6001, 0x6102, 0xAFFE, 0xF155]);
    assert_eq!(&chip.memory()[0xFFE..0x1000], &[1, 2]);
    let before = chip.clone();
    assert_eq!(chip.execute(0xF255), Err(ChipError::AddressBoundaryError));
    assert_eq!(chip.memory()[..], before.memory()[..]);
}

#[test]
fn load_reads_registers_from_memory() {
    let mut chip = Chip8::new();
    run(&mut chip, &[0x6577, 0xA005, 0xF465]);
    assert_eq!(&chip.registers()[0..5], &FONT_SET[5..10]);
    assert_eq!(chip.registers()[5], 0x77);
    assert_eq!(chip.index(), 5);
}

#[test]
fn load_fails_behind_the_end_of_memory() {
    let mut chip = Chip8::new();
    run(&mut chip, &[0x6577, 0xAFFF]);
    let before = chip.clone();
    assert_eq!(chip.execute(0xF165), Err(ChipError::AddressBoundaryError));
    assert_eq!(chip.registers(), before.registers());
    run(&mut chip, &[0xF065]);
    assert_eq!(chip.registers()[0], 0);
}

#[test]
fn ld_key_enters_the_wait() {
    let mut chip = Chip8::new();
    run(&mut chip, &[0xF70A]);
    assert_eq!(chip.run_state(), RunState::AwaitingKey { target: 7 });
    assert_eq!(chip.program_counter(), 0x202);
}

#[test]
fn invalid_words_are_rejected_and_change_nothing() {
    for word in [0x0000usize, 0x00E1, 0x0123, 0x5121, 0x8128, 0x812F, 0x9121, 0xE19F, 0xE1A0, 0xF100, 0xF1FF, 0xF166] {
        let mut chip = Chip8::new();
        assert_eq!(chip.execute(word), Err(ChipError::InvalidOpcode), "opcode {:#06x}", word);
        assert_eq!(chip.program_counter(), 0x200);
        assert_eq!(chip.registers(), [0u8; 16]);
    }
}

#[test]
fn execute_looks_at_the_low_sixteen_bits_only() {
    let mut chip = Chip8::new();
    run(&mut chip, &[0x7_6A42]);
    assert_eq!(chip.registers()[0xA], 0x42);
}

#[test]
fn perform_rejects_operands_out_of_range() {
    let mut chip = Chip8::new();
    assert_eq!(chip.perform(Instruction::LdByte { x: 16, kk: 1 }, 0), Err(ChipError::InvalidOpcode));
    assert_eq!(chip.perform(Instruction::Jp { addr: 0x1000 }, 0), Err(ChipError::InvalidOpcode));
    assert_eq!(chip.perform(Instruction::Drw { x: 0, y: 0, n: 16 }, 0), Err(ChipError::InvalidOpcode));
    assert_eq!(chip.perform(Instruction::AddReg { x: 1, y: 16 }, 0), Err(ChipError::InvalidOpcode));
    assert_eq!(chip.program_counter(), 0x200);
    assert_eq!(chip.perform(Instruction::LdByte { x: 15, kk: 1 }, 0), Ok(()));
    assert_eq!(chip.registers()[15], 1);
}

#[test]
fn program_counter_cannot_run_past_sixteen_bits() {
    let mut chip = Chip8::new();
    while chip.program_counter() < 0xFFFE {
        run(&mut chip, &[0x6000]);
    }
    assert_eq!(chip.program_counter(), 0xFFFE);
    assert_eq!(chip.execute(0x6001), Err(ChipError::AddressBoundaryError));
    assert_eq!(chip.registers()[0], 0);
    assert_eq!(chip.program_counter(), 0xFFFE);
    // a jump needs no room behind the counter
    run(&mut chip, &[0x1200]);
    assert_eq!(chip.program_counter(), 0x200);
}

#[test]
fn clone_is_independent() {
    let mut chip = Chip8::new();
    run(&mut chip, &[0x6A42]);
    let copy = chip.clone();
    run(&mut chip, &[0x6A43]);
    assert_eq!(copy.registers()[0xA], 0x42);
    assert_eq!(chip.registers()[0xA], 0x43);
}
