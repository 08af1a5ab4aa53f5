use chip8::cpu::{Cpu, EngineError, StepOutcome};
use chip8::display::Display;
use chip8::fontset::{FONTSET_LOCATION, FONTSET_SIZE};
use chip8::get_rom_name;
use chip8::keypad::Keypad;
use chip8::{DISPLAY_CELLS, MAX_PROGRAM_SIZE, MEMORY_SIZE, NUM_KEYS, PROGRAM_START, STACK_SIZE};

fn no_keys() -> Vec<bool> {
    vec![false; NUM_KEYS]
}

#[test]
fn full_cycle_load_register() {
    let mut cpu = Cpu::new();
    cpu.initialize().unwrap();
    cpu.load_game(&vec![0x65, 0x12]).unwrap();
    cpu.delay_timer = 3;
    cpu.sound_timer = 1;

    let outcome = cpu.emulate_cycle(false, no_keys()).unwrap();
    assert_eq!(StepOutcome::Continue, outcome);
    assert_eq!(0x12, cpu.get_register(5));
    assert_eq!(0x202, cpu.pc);
    assert_eq!(2, cpu.delay_timer);
    assert_eq!(0, cpu.sound_timer);
}

#[test]
fn quit_signal_stops_cycle() {
    let mut cpu = Cpu::new();
    cpu.initialize().unwrap();
    let outcome = cpu.emulate_cycle(true, no_keys()).unwrap();
    assert_eq!(StepOutcome::Stop, outcome);
    assert_eq!(0x200, cpu.pc);
}

#[test]
fn fetch_at_memory_edge_is_fatal() {
    let mut cpu = Cpu::new();
    cpu.pc = 4095;
    let result = cpu.emulate_cycle(false, no_keys());
    assert_eq!(Err(EngineError::MemoryOutOfRange), result);
}

#[test]
fn unknown_opcode_is_fatal_and_preserves_state() {
    let mut cpu = Cpu::new();
    cpu.set_register(2, 7);
    cpu.delay_timer = 9;
    cpu.i = 0x123;
    cpu.opcode = 0x5013;

    let result = cpu.execute_opcode();
    assert_eq!(Err(EngineError::UnknownOpcode(0x5013)), result);
    assert_eq!(7, cpu.get_register(2));
    assert_eq!(9, cpu.delay_timer);
    assert_eq!(0x123, cpu.i);
    assert_eq!(0, cpu.pc);
    assert_eq!(0, cpu.sp);
    assert!(cpu.memory.iter().all(|b| *b == 0));
}

#[test]
fn unmatched_f_pattern_is_fatal() {
    let mut cpu = Cpu::new();
    cpu.opcode = 0xF3FF;
    let result = cpu.execute_opcode();
    assert_eq!(Err(EngineError::UnknownOpcode(0xF3FF)), result);
}

#[test]
fn call_on_full_stack_is_fatal() {
    let mut cpu = Cpu::new();
    for k in 0..(STACK_SIZE - 1) {
        cpu.push_stack(0x200 + k as u16);
    }
    assert_eq!(STACK_SIZE - 1, cpu.sp);
    cpu.opcode = 0x2345;
    let result = cpu.execute_opcode();
    assert_eq!(Err(EngineError::StackOverflow), result);
    assert_eq!(15, cpu.sp);
}

#[test]
fn return_on_empty_stack_is_fatal() {
    let mut cpu = Cpu::new();
    cpu.opcode = 0x00EE;
    let result = cpu.execute_opcode();
    assert_eq!(Err(EngineError::StackUnderflow), result);
    assert_eq!(0, cpu.sp);
    assert_eq!(0, cpu.pc);
}

#[test]
fn bcd_near_memory_end_is_fatal() {
    let mut cpu = Cpu::new();
    cpu.i = 4094;
    cpu.set_register(3, 152);
    cpu.opcode = 0xF333;
    let result = cpu.execute_opcode();
    assert_eq!(Err(EngineError::MemoryOutOfRange), result);
}

#[test]
fn reg_dump_near_memory_end_is_fatal() {
    let mut cpu = Cpu::new();
    cpu.i = 4090;
    cpu.opcode = 0xFF55;
    let result = cpu.execute_opcode();
    assert_eq!(Err(EngineError::MemoryOutOfRange), result);
}

#[test]
fn sprite_rows_past_memory_end_are_fatal() {
    let mut cpu = Cpu::new();
    cpu.i = 4090;
    cpu.opcode = 0xD00F;
    let result = cpu.execute_opcode();
    assert_eq!(Err(EngineError::MemoryOutOfRange), result);
}

#[test]
fn offset_jump_past_address_space_is_fatal() {
    let mut cpu = Cpu::new();
    cpu.set_register(0, 255);
    cpu.opcode = 0xBFFF;
    let result = cpu.execute_opcode();
    assert_eq!(Err(EngineError::MemoryOutOfRange), result);
    assert_eq!(0, cpu.pc);
}

#[test]
fn key_query_outside_pad_is_fatal() {
    let mut cpu = Cpu::new();
    cpu.set_register(2, 200);
    cpu.opcode = 0xE29E;
    let result = cpu.execute_opcode();
    assert_eq!(Err(EngineError::KeyOutOfRange), result);

    cpu.opcode = 0xE2A1;
    let result = cpu.execute_opcode();
    assert_eq!(Err(EngineError::KeyOutOfRange), result);
}

#[test]
fn oversized_program_is_rejected() {
    let mut cpu = Cpu::new();
    let image = vec![0u8; MAX_PROGRAM_SIZE + 1];
    let result = cpu.load_game(&image);
    assert_eq!(Err(EngineError::ProgramTooLarge), result);
    assert!(cpu.memory.iter().all(|b| *b == 0));
}

#[test]
fn largest_program_loads_at_start_address() {
    let mut cpu = Cpu::new();
    let mut image = vec![0xABu8; MAX_PROGRAM_SIZE];
    image[0] = 1;
    image[1] = 2;
    cpu.load_game(&image).unwrap();
    assert_eq!(1, cpu.memory[PROGRAM_START]);
    assert_eq!(2, cpu.memory[PROGRAM_START + 1]);
    assert_eq!(0xAB, cpu.memory[MEMORY_SIZE - 1]);
    assert_eq!(0, cpu.memory[PROGRAM_START - 1]);
}

#[test]
fn initialize_installs_glyph_table() {
    let mut cpu = Cpu::new();
    cpu.memory[100] = 77;
    cpu.initialize().unwrap();
    assert_eq!(0x200, cpu.pc);
    assert_eq!(0, cpu.sp);
    assert_eq!(0, cpu.i);
    assert_eq!(0xF0, cpu.memory[FONTSET_LOCATION]);
    assert_eq!(0x20, cpu.memory[FONTSET_LOCATION + 5]);
    assert_eq!(0x80, cpu.memory[FONTSET_LOCATION + FONTSET_SIZE - 1]);
    assert_eq!(0, cpu.memory[FONTSET_LOCATION + FONTSET_SIZE]);
    assert_eq!(0, cpu.memory[0]);
}

#[test]
fn op_fx29_points_at_glyph() {
    let mut cpu = Cpu::new();
    cpu.set_register(1, 3);
    cpu.opcode = 0xF129;
    cpu.execute_opcode().unwrap();
    assert_eq!(FONTSET_LOCATION + 15, cpu.i);
}

#[test]
fn op_fx1e_sets_flag_past_address_space() {
    let mut cpu = Cpu::new();
    cpu.i = 0xFFE;
    cpu.set_register(2, 10);
    cpu.opcode = 0xF21E;
    cpu.execute_opcode().unwrap();
    assert_eq!(0x1008, cpu.i);
    assert_eq!(1, cpu.get_register(0xF));
}

#[test]
fn op_cxnn_masks_the_random_byte() {
    let mut cpu = Cpu::new();
    cpu.opcode = 0xC30F;
    cpu.execute_opcode().unwrap();
    assert_eq!(0, cpu.get_register(3) & 0xF0);

    cpu.opcode = 0xC500;
    cpu.execute_opcode().unwrap();
    assert_eq!(0, cpu.get_register(5));
}

#[test]
fn op_fx55_fx65_round_trip() {
    let mut cpu = Cpu::new();
    for k in 0..6 {
        cpu.set_register(k, (10 + k) as u8);
    }
    cpu.i = 0x300;
    cpu.opcode = 0xF555;
    cpu.execute_opcode().unwrap();
    for k in 0..6 {
        assert_eq!((10 + k) as u8, cpu.memory[0x300 + k]);
    }
    assert_eq!(0, cpu.memory[0x306]);

    for k in 0..6 {
        cpu.set_register(k, 0);
    }
    cpu.opcode = 0xF565;
    cpu.execute_opcode().unwrap();
    for k in 0..6 {
        assert_eq!((10 + k) as u8, cpu.get_register(k));
    }
}

#[test]
fn call_then_return_lands_after_call_site() {
    let mut cpu = Cpu::new();
    cpu.initialize().unwrap();
    // At 0x200: call 0x300. At 0x300: return.
    cpu.memory[0x200] = 0x23;
    cpu.memory[0x201] = 0x00;
    cpu.memory[0x300] = 0x00;
    cpu.memory[0x301] = 0xEE;

    let outcome = cpu.emulate_cycle(false, no_keys()).unwrap();
    assert_eq!(StepOutcome::Continue, outcome);
    assert_eq!(0x300, cpu.pc);
    assert_eq!(1, cpu.sp);
    assert_eq!(0x200, cpu.top_stack());

    let outcome = cpu.emulate_cycle(false, no_keys()).unwrap();
    assert_eq!(StepOutcome::Continue, outcome);
    assert_eq!(0x202, cpu.pc);
    assert_eq!(0, cpu.sp);
}

#[test]
fn key_wait_blocks_until_edge() {
    let mut cpu = Cpu::new();
    cpu.initialize().unwrap();
    cpu.delay_timer = 5;
    cpu.memory[0x200] = 0xF5;
    cpu.memory[0x201] = 0x0A;

    let outcome = cpu.emulate_cycle(false, no_keys()).unwrap();
    assert_eq!(StepOutcome::WaitingForKey(5), outcome);
    assert_eq!(0x200, cpu.pc);
    assert_eq!(5, cpu.delay_timer);

    // Still waiting on the next poll.
    let outcome = cpu.emulate_cycle(false, no_keys()).unwrap();
    assert_eq!(StepOutcome::WaitingForKey(5), outcome);
    assert_eq!(0x200, cpu.pc);

    assert_eq!(true, cpu.finish_key_wait(9));
    assert_eq!(9, cpu.get_register(5));
    assert_eq!(0x202, cpu.pc);
    assert_eq!(4, cpu.delay_timer);
    assert_eq!(false, cpu.finish_key_wait(9));
}

#[test]
fn keypad_reports_first_new_edge() {
    let mut keypad = Keypad::new();
    assert_eq!(None, keypad.wait_for_key(vec![false; 16]));

    let mut pressed = vec![false; 16];
    pressed[7] = true;
    pressed[9] = true;
    assert_eq!(Some(7), keypad.wait_for_key(pressed.clone()));

    // Keys still held: no new edge.
    assert_eq!(None, keypad.wait_for_key(pressed));
}

#[test]
fn keypad_tracks_pressed_keys() {
    let mut keypad = Keypad::new();
    let mut pressed = vec![false; 16];
    pressed[0xC] = true;
    keypad.emulate_cycle(pressed);
    assert!(keypad.is_key_pressed(0xC));
    assert!(!keypad.is_key_pressed(0x1));
}

#[test]
fn op_ex9e_exa1_follow_key_state() {
    let mut cpu = Cpu::new();
    let mut pressed = vec![false; 16];
    pressed[4] = true;
    cpu.get_keypad().emulate_cycle(pressed);
    cpu.set_register(1, 4);

    cpu.opcode = 0xE19E;
    cpu.execute_opcode().unwrap();
    assert_eq!(2, cpu.pc);

    cpu.opcode = 0xE1A1;
    cpu.execute_opcode().unwrap();
    assert_eq!(2, cpu.pc);

    cpu.set_register(1, 5);
    cpu.opcode = 0xE1A1;
    cpu.execute_opcode().unwrap();
    assert_eq!(4, cpu.pc);
}

#[test]
fn draw_sets_pixels_and_reports_collision() {
    let mut cpu = Cpu::new();
    cpu.i = 0x200;
    cpu.memory[0x200] = 0xFF;
    cpu.opcode = 0xD001;

    cpu.execute_opcode().unwrap();
    let display = cpu.get_display();
    for col in 0..8 {
        assert_eq!(1, display[col]);
    }
    assert_eq!(0, display[8]);
    assert_eq!(0, cpu.get_register(0xF));

    // The same sprite again erases every pixel and reports the collision.
    cpu.execute_opcode().unwrap();
    let display = cpu.get_display();
    for col in 0..8 {
        assert_eq!(0, display[col]);
    }
    assert_eq!(1, cpu.get_register(0xF));
}

#[test]
fn draw_wraps_base_coordinates() {
    let mut cpu = Cpu::new();
    cpu.i = 0x200;
    cpu.memory[0x200] = 0x80;
    cpu.set_register(0, 70);  // x wraps to 6
    cpu.set_register(1, 33);  // y wraps to 1
    cpu.opcode = 0xD011;

    cpu.execute_opcode().unwrap();
    let display = cpu.get_display();
    assert_eq!(1, display[64 + 6]);
    assert_eq!(0, display[6]);
}

#[test]
fn display_snapshot_restore_round_trip() {
    let mut display = Display::new();
    let mut image = vec![0u8; DISPLAY_CELLS];
    image[100] = 1;
    display.set_display(image.clone());
    assert_eq!(DISPLAY_CELLS, display.get_display().len());
    assert_eq!(image, display.get_display());
    display.clear_screen();
    assert!(display.get_display().iter().all(|b| *b == 0));
}

#[test]
fn rom_name_defaults_when_absent() {
    let args = vec![String::from("emulator")];
    assert_eq!("TICTAC", get_rom_name(args));

    let args = vec![String::from("emulator"), String::from("PONG")];
    assert_eq!("PONG", get_rom_name(args));
}
