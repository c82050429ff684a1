use yac8::chip::errors::ChipError;
use yac8::chip::interpreter::Chip8;
use yac8::chip::machine::RunState;

fn keys(down: &[usize]) -> [bool; 16] {
    let mut snapshot = [false; 16];
    for &k in down {
        snapshot[k] = true;
    }
    snapshot
}

#[test]
fn fetch_composes_big_endian_words() {
    let mut chip = Chip8::new();
    chip.load_rom(&[0x12, 0x34, 0xAB]);
    assert_eq!(chip.fetch(0x200), Ok(0x1234));
    assert_eq!(chip.fetch(0x201), Ok(0x34AB));
    assert_eq!(chip.fetch(0), Ok(0xF090));
}

#[test]
fn fetch_needs_two_bytes_inside_memory() {
    let chip = Chip8::new();
    assert_eq!(chip.fetch(4094), Ok(0));
    assert_eq!(chip.fetch(4095), Err(ChipError::AddressBoundaryError));
    assert_eq!(chip.fetch(4096), Err(ChipError::AddressBoundaryError));
    assert_eq!(chip.fetch(usize::MAX), Err(ChipError::AddressBoundaryError));
}

#[test]
fn load_rom_copies_from_0x200() {
    let mut chip = Chip8::new();
    chip.load_rom(&[1, 2, 3]);
    assert_eq!(&chip.memory()[0x1FF..0x204], &[0, 1, 2, 3, 0]);
    assert_eq!(chip.memory()[0], 0xF0);
    assert_eq!(chip.program_counter(), 0x200);
}

#[test]
fn load_rom_drops_what_does_not_fit() {
    let mut chip = Chip8::new();
    let rom: Vec<u8> = (0..4000u32).map(|k| (k % 251) as u8 + 1).collect();
    chip.load_rom(&rom);
    for a in 0x200..0x1000usize {
        assert_eq!(chip.memory()[a], rom[a - 0x200]);
    }
    assert_eq!(chip.memory()[0x1FF], 0);
    assert_eq!(chip.memory().len(), 4096);
}

#[test]
fn load_rom_of_exactly_the_free_memory() {
    let mut chip = Chip8::new();
    let rom = vec![0xEEu8; 4096 - 0x200];
    chip.load_rom(&rom);
    assert_eq!(chip.memory()[0xFFF], 0xEE);
    assert_eq!(chip.memory()[0x200], 0xEE);
}

#[test]
fn load_rom_keeps_what_it_does_not_overwrite() {
    let mut chip = Chip8::new();
    chip.load_rom(&[9, 9, 9, 9]);
    chip.load_rom(&[7]);
    assert_eq!(&chip.memory()[0x200..0x204], &[7, 9, 9, 9]);
    chip.load_rom(&[]);
    assert_eq!(&chip.memory()[0x200..0x204], &[7, 9, 9, 9]);
}

#[test]
fn cycle_runs_the_program_in_memory() {
    let mut chip = Chip8::new();
    // V1 = 5; V1 += 3; jump to 0x200
    chip.load_rom(&[0x61, 0x05, 0x71, 0x03, 0x12, 0x00]);
    assert_eq!(chip.emulate_cycle(), Ok(()));
    assert_eq!(chip.registers()[1], 5);
    assert_eq!(chip.emulate_cycle(), Ok(()));
    assert_eq!(chip.registers()[1], 8);
    assert_eq!(chip.emulate_cycle(), Ok(()));
    assert_eq!(chip.program_counter(), 0x200);
}

#[test]
fn cycle_fails_on_an_invalid_word_and_changes_nothing() {
    let mut chip = Chip8::new();
    chip.load_rom(&[0x61, 0x09, 0xF1, 0x15, 0xFF, 0xFF]);
    assert_eq!(chip.emulate_cycle(), Ok(()));
    assert_eq!(chip.emulate_cycle(), Ok(()));
    assert_eq!(chip.delay_timer(), 8);
    assert_eq!(chip.emulate_cycle(), Err(ChipError::InvalidOpcode));
    assert_eq!(chip.delay_timer(), 8);
    assert_eq!(chip.program_counter(), 0x204);
}

#[test]
fn cycle_fails_when_the_program_counter_leaves_memory() {
    let mut chip = Chip8::new();
    chip.load_rom(&[0x1F, 0xFF]);
    assert_eq!(chip.emulate_cycle(), Ok(()));
    assert_eq!(chip.program_counter(), 0xFFF);
    assert_eq!(chip.emulate_cycle(), Err(ChipError::AddressBoundaryError));
    assert_eq!(chip.program_counter(), 0xFFF);
}

#[test]
fn cycle_at_the_last_instruction_address() {
    let mut chip = Chip8::new();
    // jump to 0xFFE, where the program holds CLS
    let mut rom = vec![0u8; 4096 - 0x200];
    rom[0] = 0x1F;
    rom[1] = 0xFE;
    rom[0xFFE - 0x200] = 0x00;
    rom[0xFFF - 0x200] = 0xE0;
    chip.load_rom(&rom);
    assert_eq!(chip.emulate_cycle(), Ok(()));
    assert_eq!(chip.emulate_cycle(), Ok(()));
    assert_eq!(chip.program_counter(), 0x1000);
    assert_eq!(chip.emulate_cycle(), Err(ChipError::AddressBoundaryError));
}

#[test]
fn timers_count_down_once_per_cycle_and_stop_at_zero() {
    let mut chip = Chip8::new();
    // V1 = 3; DT = V1; V2 = 2; ST = V2; then jump in place
    chip.load_rom(&[0x61, 0x03, 0xF1, 0x15, 0x62, 0x02, 0xF2, 0x18, 0x12, 0x08]);
    assert_eq!(chip.emulate_cycle(), Ok(()));
    assert_eq!(chip.emulate_cycle(), Ok(()));
    // set to 3, then the tick of the same cycle
    assert_eq!(chip.delay_timer(), 2);
    assert_eq!(chip.emulate_cycle(), Ok(()));
    assert_eq!(chip.delay_timer(), 1);
    assert_eq!(chip.emulate_cycle(), Ok(()));
    assert_eq!(chip.delay_timer(), 0);
    assert_eq!(chip.sound_timer(), 1);
    assert_eq!(chip.emulate_cycle(), Ok(()));
    assert_eq!(chip.delay_timer(), 0);
    assert_eq!(chip.sound_timer(), 0);
    assert_eq!(chip.emulate_cycle(), Ok(()));
    assert_eq!(chip.delay_timer(), 0);
    assert_eq!(chip.sound_timer(), 0);
}

#[test]
fn execute_alone_does_not_tick() {
    let mut chip = Chip8::new();
    assert_eq!(chip.execute(0x6103), Ok(()));
    assert_eq!(chip.execute(0xF115), Ok(()));
    assert_eq!(chip.execute(0x6000), Ok(()));
    assert_eq!(chip.delay_timer(), 3);
}

#[test]
fn waiting_machine_takes_a_key_pressed_after_the_wait_began() {
    let mut chip = Chip8::new();
    // wait for a key into V4, then V5 = 0x77
    chip.load_rom(&[0xF4, 0x0A, 0x65, 0x77]);
    assert_eq!(chip.emulate_cycle(), Ok(()));
    assert_eq!(chip.run_state(), RunState::AwaitingKey { target: 4 });
    assert_eq!(chip.program_counter(), 0x202);
    // nothing down: still waiting, nothing fetched
    assert_eq!(chip.emulate_cycle(), Ok(()));
    assert_eq!(chip.run_state(), RunState::AwaitingKey { target: 4 });
    assert_eq!(chip.program_counter(), 0x202);
    assert_eq!(chip.registers()[5], 0);
    chip.set_keypad(keys(&[9]));
    assert_eq!(chip.emulate_cycle(), Ok(()));
    assert_eq!(chip.run_state(), RunState::Running);
    assert_eq!(chip.registers()[4], 9);
    // the cycle of the key press executed no instruction
    assert_eq!(chip.program_counter(), 0x202);
    assert_eq!(chip.registers()[5], 0);
    assert_eq!(chip.emulate_cycle(), Ok(()));
    assert_eq!(chip.registers()[5], 0x77);
    assert_eq!(chip.program_counter(), 0x204);
}

#[test]
fn a_key_held_since_before_the_wait_does_not_end_it() {
    let mut chip = Chip8::new();
    chip.load_rom(&[0xF4, 0x0A]);
    chip.set_keypad(keys(&[2]));
    assert_eq!(chip.emulate_cycle(), Ok(()));
    assert_eq!(chip.run_state(), RunState::AwaitingKey { target: 4 });
    for _ in 0..5 {
        chip.set_keypad(keys(&[2]));
        assert_eq!(chip.emulate_cycle(), Ok(()));
        assert_eq!(chip.run_state(), RunState::AwaitingKey { target: 4 });
    }
    // released, then pressed again: that is an edge
    chip.set_keypad(keys(&[]));
    assert_eq!(chip.emulate_cycle(), Ok(()));
    assert_eq!(chip.run_state(), RunState::AwaitingKey { target: 4 });
    chip.set_keypad(keys(&[2]));
    assert_eq!(chip.emulate_cycle(), Ok(()));
    assert_eq!(chip.run_state(), RunState::Running);
    assert_eq!(chip.registers()[4], 2);
}

#[test]
fn the_lowest_new_key_wins_and_held_keys_do_not_count() {
    let mut chip = Chip8::new();
    chip.load_rom(&[0xF0, 0x0A]);
    chip.set_keypad(keys(&[1]));
    assert_eq!(chip.emulate_cycle(), Ok(()));
    chip.set_keypad(keys(&[1, 0xC, 0x5, 0xF]));
    assert_eq!(chip.emulate_cycle(), Ok(()));
    assert_eq!(chip.run_state(), RunState::Running);
    assert_eq!(chip.registers()[0], 5);
}

#[test]
fn key_zero_can_end_the_wait() {
    let mut chip = Chip8::new();
    chip.load_rom(&[0x6A, 0x55, 0xFA, 0x0A]);
    assert_eq!(chip.emulate_cycle(), Ok(()));
    assert_eq!(chip.emulate_cycle(), Ok(()));
    chip.set_keypad(keys(&[0]));
    assert_eq!(chip.emulate_cycle(), Ok(()));
    assert_eq!(chip.run_state(), RunState::Running);
    assert_eq!(chip.registers()[0xA], 0);
}

#[test]
fn timers_tick_while_waiting() {
    let mut chip = Chip8::new();
    chip.load_rom(&[0x61, 0x05, 0xF1, 0x15, 0xF2, 0x0A]);
    for _ in 0..3 {
        assert_eq!(chip.emulate_cycle(), Ok(()));
    }
    assert_eq!(chip.delay_timer(), 3);
    assert_eq!(chip.emulate_cycle(), Ok(()));
    assert_eq!(chip.delay_timer(), 2);
    assert_eq!(chip.run_state(), RunState::AwaitingKey { target: 2 });
}
