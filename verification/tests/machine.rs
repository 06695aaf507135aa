use chip8::chip8::chip8::frame_due;
use chip8::chip8::input::keypad_index;
use chip8::chip8::Chip8;
use chip8::chip8::Chip8Config;
use chip8::chip8::Fault;
use chip8::chip8::InputEvent;
use chip8::chip8::Keys;
use chip8::chip8::Stack;

fn machine(program: &[u8]) -> Chip8 {
    let mut chip8 = Chip8::new(None);
    chip8.load_program(&program.to_vec()).unwrap();
    chip8
}

fn run(chip8: &mut Chip8, steps: usize) {
    for _ in 0..steps {
        chip8.step_with(0).unwrap();
    }
}

#[test]
fn new_machine_is_switched_on() {
    let chip8 = Chip8::new(None);
    assert_eq!(chip8.pc(), 0x200);
    assert_eq!(chip8.index(), 0);
    assert_eq!(chip8.stack_depth(), 0);
    assert_eq!(chip8.stack_top(), None);
    assert_eq!(chip8.delay_timer(), 0);
    assert_eq!(chip8.sound_timer(), 0);
    for x in 0..16 {
        assert_eq!(chip8.register(x), 0);
    }
    assert!(chip8.display().iter().all(|pixel| !pixel));
    assert_eq!(chip8.display_scale(), 10);
    assert_eq!(chip8.program(), "roms/test_opcode.ch8");
}

#[test]
fn new_machine_takes_its_setup() {
    let mut config = Chip8Config::new();
    config.program = "roms/pong.ch8".to_string();
    config.display_scale = 4;
    let chip8 = Chip8::new(Some(config));
    assert_eq!(chip8.display_scale(), 4);
    assert_eq!(chip8.program(), "roms/pong.ch8");
}

#[test]
fn config_log_lines() {
    let config = Chip8Config::new();
    assert_eq!(config.log(), vec!["Chip8Config".to_string(), "  display_scale: 10".to_string()]);
}

#[test]
fn font_is_in_memory() {
    let chip8 = Chip8::new(None);
    let zero = [0xF0, 0x90, 0x90, 0x90, 0xF0];
    let one = [0x20, 0x60, 0x20, 0x20, 0x70];
    let last = [0xF0, 0x80, 0xF0, 0x80, 0x80];
    for k in 0..5 {
        assert_eq!(chip8.memory_at(0x50 + k), zero[k]);
        assert_eq!(chip8.memory_at(0x55 + k), one[k]);
        assert_eq!(chip8.memory_at(0x9B + k), last[k]);
    }
    assert_eq!(chip8.memory_at(0x4F), 0);
    assert_eq!(chip8.memory_at(0xA0), 0);
}

#[test]
fn program_is_loaded_at_0x200() {
    let chip8 = machine(&[0x12, 0x34, 0x56]);
    assert_eq!(chip8.memory_at(0x1FF), 0);
    assert_eq!(chip8.memory_at(0x200), 0x12);
    assert_eq!(chip8.memory_at(0x201), 0x34);
    assert_eq!(chip8.memory_at(0x202), 0x56);
    assert_eq!(chip8.memory_at(0x203), 0);
}

#[test]
fn program_that_just_fits() {
    let mut chip8 = Chip8::new(None);
    let program = vec![0xAB; 0x1000 - 0x200];
    assert_eq!(chip8.load_program(&program), Ok(()));
    assert_eq!(chip8.memory_at(0xFFF), 0xAB);
}

#[test]
fn program_too_large() {
    let mut chip8 = Chip8::new(None);
    let program = vec![0xAB; 0x1000 - 0x200 + 1];
    assert_eq!(chip8.load_program(&program), Err("Program is too large to fit in memory"));
    assert_eq!(chip8.memory_at(0x200), 0);
}

#[test]
fn call_and_return_trace() {
    let mut chip8 = machine(&[0x22, 0x04, 0x00, 0x00, 0x00, 0xEE]);
    assert_eq!(chip8.pc(), 0x200);
    assert_eq!(chip8.step_with(0), Ok(()));
    assert_eq!(chip8.stack_depth(), 1);
    assert_eq!(chip8.stack_top(), Some(0x202));
    assert_eq!(chip8.pc(), 0x204);
    assert_eq!(chip8.step_with(0), Ok(()));
    assert_eq!(chip8.stack_depth(), 0);
    assert_eq!(chip8.stack_top(), None);
    assert_eq!(chip8.pc(), 0x202);
}

#[test]
fn return_with_empty_stack_is_a_fault() {
    let mut chip8 = machine(&[0x00, 0xEE]);
    assert_eq!(chip8.step_with(0), Err(Fault::StackUnderflow));
    assert_eq!(chip8.pc(), 0x200);
    assert_eq!(chip8.stack_depth(), 0);
}

#[test]
fn thirty_third_call_is_a_fault() {
    // call 0x200, over and over
    let mut chip8 = machine(&[0x22, 0x00]);
    for depth in 1..=32 {
        assert_eq!(chip8.step_with(0), Ok(()));
        assert_eq!(chip8.stack_depth(), depth);
        assert_eq!(chip8.pc(), 0x200);
    }
    assert_eq!(chip8.step_with(0), Err(Fault::StackOverflow));
    assert_eq!(chip8.stack_depth(), 32);
    assert_eq!(chip8.pc(), 0x200);
}

#[test]
fn fetch_beyond_memory_is_a_fault() {
    // jmp 0xFFF: one byte is left there, an opcode takes two
    let mut chip8 = machine(&[0x1F, 0xFF]);
    assert_eq!(chip8.step_with(0), Ok(()));
    assert_eq!(chip8.pc(), 0xFFF);
    assert_eq!(chip8.step_with(0), Err(Fault::FetchOutOfMemory));
    assert_eq!(chip8.pc(), 0xFFF);
    assert_eq!(chip8.fetch_opcode(), Err(Fault::FetchOutOfMemory));
}

#[test]
fn fetch_reads_big_endian_and_advances() {
    let mut chip8 = machine(&[0xAB, 0xCD]);
    assert_eq!(chip8.fetch_opcode(), Ok(0xABCD));
    assert_eq!(chip8.pc(), 0x202);
}

#[test]
fn jump_sets_pc() {
    let mut chip8 = machine(&[0x1A, 0xBC]);
    run(&mut chip8, 1);
    assert_eq!(chip8.pc(), 0xABC);
}

#[test]
fn jump_with_offset_adds_v0() {
    // ld v0, 0x10; jmp v0, 0x300
    let mut chip8 = machine(&[0x60, 0x10, 0xB3, 0x00]);
    run(&mut chip8, 2);
    assert_eq!(chip8.pc(), 0x310);
}

#[test]
fn jump_with_offset_may_leave_memory() {
    // ld v0, 0xFF; jmp v0, 0xFFF
    let mut chip8 = machine(&[0x60, 0xFF, 0xBF, 0xFF]);
    run(&mut chip8, 2);
    assert_eq!(chip8.pc(), 0x10FE);
    assert_eq!(chip8.step_with(0), Err(Fault::FetchOutOfMemory));
}

#[test]
fn skips_on_bytes() {
    // ld v1, 0x22; se v1, 0x22 (taken); -; se v1, 0x23 (not taken); sne v1, 0x23 (taken); -;
    // sne v1, 0x22 (not taken)
    let mut chip8 = machine(&[
        0x61, 0x22, 0x31, 0x22, 0x00, 0x00, 0x31, 0x23, 0x41, 0x23, 0x00, 0x00, 0x41, 0x22,
    ]);
    run(&mut chip8, 2);
    assert_eq!(chip8.pc(), 0x206);
    run(&mut chip8, 1);
    assert_eq!(chip8.pc(), 0x208);
    run(&mut chip8, 1);
    assert_eq!(chip8.pc(), 0x20C);
    run(&mut chip8, 1);
    assert_eq!(chip8.pc(), 0x20E);
}

#[test]
fn skips_on_registers() {
    // ld v1, 5; ld v2, 5; ld v3, 6; se v1, v2 (taken); -; se v1, v3 (not); sne v1, v3 (taken); -;
    // sne v1, v2 (not)
    let mut chip8 = machine(&[
        0x61, 0x05, 0x62, 0x05, 0x63, 0x06, 0x51, 0x20, 0x00, 0x00, 0x51, 0x30, 0x91, 0x30, 0x00,
        0x00, 0x91, 0x20,
    ]);
    run(&mut chip8, 4);
    assert_eq!(chip8.pc(), 0x20A);
    run(&mut chip8, 1);
    assert_eq!(chip8.pc(), 0x20C);
    run(&mut chip8, 1);
    assert_eq!(chip8.pc(), 0x210);
    run(&mut chip8, 1);
    assert_eq!(chip8.pc(), 0x212);
}

#[test]
fn add_byte_wraps_and_keeps_the_flag() {
    // ld vf, 0x07; ld v0, 0xFF; add v0, 0x02
    let mut chip8 = machine(&[0x6F, 0x07, 0x60, 0xFF, 0x70, 0x02]);
    run(&mut chip8, 3);
    assert_eq!(chip8.register(0), 0x01);
    assert_eq!(chip8.register(0xF), 0x07);
}

#[test]
fn register_logic() {
    // ld v0, 0xCC; ld v1, 0xAA; ld v2, v0; or v2, v1; ld v3, v0; and v3, v1; ld v4, v0; xor v4, v1
    let mut chip8 = machine(&[
        0x60, 0xCC, 0x61, 0xAA, 0x82, 0x00, 0x82, 0x11, 0x83, 0x00, 0x83, 0x12, 0x84, 0x00, 0x84,
        0x13,
    ]);
    run(&mut chip8, 8);
    assert_eq!(chip8.register(2), 0xEE);
    assert_eq!(chip8.register(3), 0x88);
    assert_eq!(chip8.register(4), 0x66);
    assert_eq!(chip8.register(0), 0xCC);
    assert_eq!(chip8.register(1), 0xAA);
}

#[test]
fn add_registers_sets_the_carry() {
    // ld v0, 0xF0; ld v1, 0x20; add v0, v1
    let mut chip8 = machine(&[0x60, 0xF0, 0x61, 0x20, 0x80, 0x14]);
    run(&mut chip8, 3);
    assert_eq!(chip8.register(0), 0x10);
    assert_eq!(chip8.register(0xF), 1);
}

#[test]
fn add_registers_clears_the_carry() {
    // ld vf, 1; ld v0, 0x0F; ld v1, 0x20; add v0, v1
    let mut chip8 = machine(&[0x6F, 0x01, 0x60, 0x0F, 0x61, 0x20, 0x80, 0x14]);
    run(&mut chip8, 4);
    assert_eq!(chip8.register(0), 0x2F);
    assert_eq!(chip8.register(0xF), 0);
}

#[test]
fn add_into_the_flag_register_leaves_the_flag() {
    // ld vf, 0xFF; ld v1, 0x02; add vf, v1: the flag is written after the sum
    let mut chip8 = machine(&[0x6F, 0xFF, 0x61, 0x02, 0x8F, 0x14]);
    run(&mut chip8, 3);
    assert_eq!(chip8.register(0xF), 1);
}

#[test]
fn sub_with_borrow_wraps_and_clears_the_flag() {
    // ld v0, 0x05; ld v1, 0x07; sub v0, v1
    let mut chip8 = machine(&[0x60, 0x05, 0x61, 0x07, 0x80, 0x15]);
    run(&mut chip8, 3);
    assert_eq!(chip8.register(0), 0xFE);
    assert_eq!(chip8.register(0xF), 0);
}

#[test]
fn sub_without_borrow_sets_the_flag() {
    // ld v0, 0x07; ld v1, 0x07; sub v0, v1
    let mut chip8 = machine(&[0x60, 0x07, 0x61, 0x07, 0x80, 0x15]);
    run(&mut chip8, 3);
    assert_eq!(chip8.register(0), 0x00);
    assert_eq!(chip8.register(0xF), 1);
}

#[test]
fn subn_subtracts_the_other_way() {
    // ld v0, 0x05; ld v1, 0x07; subn v0, v1
    let mut chip8 = machine(&[0x60, 0x05, 0x61, 0x07, 0x80, 0x17]);
    run(&mut chip8, 3);
    assert_eq!(chip8.register(0), 0x02);
    assert_eq!(chip8.register(0xF), 1);
    // ld v0, 0x09; ld v1, 0x07; subn v0, v1
    let mut chip8 = machine(&[0x60, 0x09, 0x61, 0x07, 0x80, 0x17]);
    run(&mut chip8, 3);
    assert_eq!(chip8.register(0), 0xFE);
    assert_eq!(chip8.register(0xF), 0);
}

#[test]
fn shift_right_in_place() {
    // ld v0, 0b10101011; ld v1, 0xF0; shr v0, v1
    let mut chip8 = machine(&[0x60, 0b10101011, 0x61, 0xF0, 0x80, 0x16]);
    run(&mut chip8, 3);
    assert_eq!(chip8.register(0), 0b01010101);
    assert_eq!(chip8.register(0xF), 1);
    assert_eq!(chip8.register(1), 0xF0);
}

#[test]
fn shift_left_in_place() {
    // ld v0, 0b10101011; ld v1, 0x01; shl v0, v1
    let mut chip8 = machine(&[0x60, 0b10101011, 0x61, 0x01, 0x80, 0x1E]);
    run(&mut chip8, 3);
    assert_eq!(chip8.register(0), 0b01010110);
    assert_eq!(chip8.register(0xF), 1);
    // ld v0, 0b00101011; shl v0, v1
    let mut chip8 = machine(&[0x60, 0b00101011, 0x80, 0x1E]);
    run(&mut chip8, 2);
    assert_eq!(chip8.register(0), 0b01010110);
    assert_eq!(chip8.register(0xF), 0);
}

#[test]
fn shifts_copy_vy_first_under_the_quirk() {
    let mut config = Chip8Config::new();
    config.set_vx_from_vy = true;
    let mut chip8 = Chip8::new(Some(config));
    // ld v0, 0xFF; ld v1, 0x04; shr v0, v1; shl v0, v1
    chip8.load_program(&vec![0x60, 0xFF, 0x61, 0x04, 0x80, 0x16, 0x80, 0x1E]).unwrap();
    run(&mut chip8, 3);
    assert_eq!(chip8.register(0), 0x02);
    assert_eq!(chip8.register(0xF), 0);
    run(&mut chip8, 1);
    assert_eq!(chip8.register(0), 0x08);
    assert_eq!(chip8.register(0xF), 0);
    assert_eq!(chip8.register(1), 0x04);
}

#[test]
fn load_index() {
    let mut chip8 = machine(&[0xAF, 0xFF]);
    run(&mut chip8, 1);
    assert_eq!(chip8.index(), 0xFFF);
}

#[test]
fn add_to_index_wraps_at_the_end_of_memory() {
    // ld i, 0xFFF; ld v0, 1; add i, v0
    let mut chip8 = machine(&[0xAF, 0xFF, 0x60, 0x01, 0xF0, 0x1E]);
    run(&mut chip8, 3);
    assert_eq!(chip8.index(), 0x000);
    assert_eq!(chip8.register(0xF), 1);
}

#[test]
fn add_to_index_within_memory() {
    // ld vf, 1; ld i, 0x300; ld v0, 0x20; add i, v0
    let mut chip8 = machine(&[0x6F, 0x01, 0xA3, 0x00, 0x60, 0x20, 0xF0, 0x1E]);
    run(&mut chip8, 4);
    assert_eq!(chip8.index(), 0x320);
    assert_eq!(chip8.register(0xF), 0);
}

#[test]
fn random_is_masked() {
    // rnd v0, 0x0F; rnd v1, 0x00
    let mut chip8 = machine(&[0xC0, 0x0F, 0xC1, 0x00]);
    assert_eq!(chip8.step_with(0xA7), Ok(()));
    assert_eq!(chip8.register(0), 0x07);
    assert_eq!(chip8.step_with(0xFF), Ok(()));
    assert_eq!(chip8.register(1), 0x00);
}

#[test]
fn step_draws_its_own_random_byte() {
    // rnd v0, 0x0F, forty times over
    let mut program = Vec::new();
    for _ in 0..40 {
        program.extend_from_slice(&[0xC0, 0x0F]);
    }
    let mut chip8 = machine(&program);
    for n in 0..40 {
        assert_eq!(chip8.step(), Ok(()));
        assert!(chip8.register(0) <= 0x0F);
        assert_eq!(chip8.pc(), 0x202 + 2 * n);
    }
}

#[test]
fn step_makes_the_step_of_step_with() {
    let program = [0x60, 0x12, 0x70, 0x01, 0xA1, 0x23];
    let mut a = machine(&program);
    let mut b = machine(&program);
    for _ in 0..3 {
        assert_eq!(a.step(), b.step_with(0));
        assert_eq!(a.pc(), b.pc());
        assert_eq!(a.register(0), b.register(0));
        assert_eq!(a.index(), b.index());
    }
    assert_eq!(a.register(0), 0x13);
    assert_eq!(a.index(), 0x123);
}

#[test]
fn sprite_is_drawn_with_xor() {
    // ld i, 0x20A; ld v0, 4; ld v1, 2; drw v0, v1, 2; drw v0, v1, 2; sprite
    let program = [0xA2, 0x0A, 0x60, 0x04, 0x61, 0x02, 0xD0, 0x12, 0xD0, 0x12, 0b10100000, 0xFF];
    let mut chip8 = machine(&program);
    run(&mut chip8, 4);
    assert!(chip8.pixel(4, 2));
    assert!(!chip8.pixel(5, 2));
    assert!(chip8.pixel(6, 2));
    assert!(!chip8.pixel(7, 2));
    for x in 4..12 {
        assert!(chip8.pixel(x, 3));
    }
    assert!(!chip8.pixel(3, 3));
    assert!(!chip8.pixel(12, 3));
    assert!(!chip8.pixel(4, 1));
    assert!(!chip8.pixel(4, 4));
    assert_eq!(chip8.display().iter().filter(|pixel| **pixel).count(), 10);
    assert_eq!(chip8.register(0xF), 0);
    assert_eq!(chip8.index(), 0x20A);
    assert_eq!(chip8.register(0), 4);
    assert_eq!(chip8.register(1), 2);
    // the same sprite again turns every pixel off and reports it
    run(&mut chip8, 1);
    assert!(chip8.display().iter().all(|pixel| !pixel));
    assert_eq!(chip8.register(0xF), 1);
}

#[test]
fn sprite_is_clipped_at_the_edges() {
    // ld i, 0x208; ld v0, 62; ld v1, 30; drw v0, v1, 3; sprite of three full rows
    let program = [0xA2, 0x08, 0x60, 62, 0x61, 30, 0xD0, 0x13, 0xFF, 0xFF, 0xFF];
    let mut chip8 = machine(&program);
    run(&mut chip8, 4);
    assert!(chip8.pixel(62, 30));
    assert!(chip8.pixel(63, 30));
    assert!(chip8.pixel(62, 31));
    assert!(chip8.pixel(63, 31));
    assert_eq!(chip8.display().iter().filter(|pixel| **pixel).count(), 4);
    for y in 0..32 {
        assert!(!chip8.pixel(0, y));
    }
    for x in 0..64 {
        assert!(!chip8.pixel(x, 0));
    }
    assert_eq!(chip8.register(0xF), 0);
}

#[test]
fn sprite_position_is_taken_modulo_the_screen() {
    // ld i, 0x208; ld v0, 64 + 3; ld v1, 32 + 1; drw v0, v1, 1; sprite
    let program = [0xA2, 0x08, 0x60, 67, 0x61, 33, 0xD0, 0x11, 0x80];
    let mut chip8 = machine(&program);
    run(&mut chip8, 4);
    assert!(chip8.pixel(3, 1));
    assert_eq!(chip8.display().iter().filter(|pixel| **pixel).count(), 1);
}

#[test]
fn blank_sprite_changes_nothing_but_the_flag() {
    // ld i, 0x20E; ld v0, 1; ld v1, 1; drw v0, v1, 1 (a pixel); ld i, 0x20F; ld vf, 1;
    // drw v0, v1, 1 (blank)
    let program = [
        0xA2, 0x0E, 0x60, 0x01, 0x61, 0x01, 0xD0, 0x11, 0xA2, 0x0F, 0x6F, 0x01, 0xD0, 0x11, 0x80,
        0x00,
    ];
    let mut chip8 = machine(&program);
    run(&mut chip8, 6);
    let before: Vec<bool> = chip8.display().to_vec();
    assert_eq!(chip8.register(0xF), 1);
    run(&mut chip8, 1);
    assert_eq!(chip8.display().to_vec(), before);
    assert!(chip8.pixel(1, 1));
    assert_eq!(chip8.register(0xF), 0);
    assert_eq!(chip8.register(0), 1);
    assert_eq!(chip8.register(1), 1);
    assert_eq!(chip8.index(), 0x20F);
}

#[test]
fn sprite_beyond_memory_is_a_fault() {
    // ld i, 0xFFF; drw v0, v0, 2
    let mut chip8 = machine(&[0xAF, 0xFF, 0xD0, 0x02]);
    run(&mut chip8, 1);
    assert_eq!(chip8.step_with(0), Err(Fault::AccessOutOfMemory));
    assert_eq!(chip8.pc(), 0x202);
    assert!(chip8.display().iter().all(|pixel| !pixel));
}

#[test]
fn clipped_rows_are_not_read() {
    // ld i, 0xFFF; ld v1, 31; drw v0, v1, 2: only one row is on the screen
    let mut chip8 = machine(&[0xAF, 0xFF, 0x61, 31, 0xD0, 0x12]);
    run(&mut chip8, 3);
    assert_eq!(chip8.pc(), 0x206);
}

#[test]
fn clear_screen() {
    // ld i, 0x206; drw v0, v0, 1; cls; sprite
    let mut chip8 = machine(&[0xA2, 0x06, 0xD0, 0x01, 0x00, 0xE0, 0xFF]);
    run(&mut chip8, 2);
    assert_eq!(chip8.display().iter().filter(|pixel| **pixel).count(), 8);
    run(&mut chip8, 1);
    assert!(chip8.display().iter().all(|pixel| !pixel));
}

#[test]
fn skip_if_key() {
    // ld v0, 0x1A; skp v0; -; sknp v0
    let mut chip8 = machine(&[0x60, 0x1A, 0xE0, 0x9E, 0x00, 0x00, 0xE0, 0xA1]);
    chip8.set_key(0xA, true);
    run(&mut chip8, 2);
    assert_eq!(chip8.pc(), 0x206);
    run(&mut chip8, 1);
    assert_eq!(chip8.pc(), 0x208);
    let mut chip8 = machine(&[0x60, 0x1A, 0xE0, 0x9E, 0xE0, 0xA1]);
    run(&mut chip8, 2);
    assert_eq!(chip8.pc(), 0x204);
    run(&mut chip8, 1);
    assert_eq!(chip8.pc(), 0x208);
}

#[test]
fn wait_for_key_repeats_until_a_key_is_down() {
    // ld v3, 0x77; wkp v3
    let mut chip8 = machine(&[0x63, 0x77, 0xF3, 0x0A]);
    run(&mut chip8, 1);
    for _ in 0..5 {
        run(&mut chip8, 1);
        assert_eq!(chip8.pc(), 0x202);
        assert_eq!(chip8.register(3), 0x77);
    }
    chip8.set_key(0xC, true);
    chip8.set_key(0x5, true);
    run(&mut chip8, 1);
    assert_eq!(chip8.pc(), 0x204);
    assert_eq!(chip8.register(3), 0x5);
}

#[test]
fn timers_are_loaded_and_read() {
    // ld v0, 0x03; ld dt, v0; ld st, v0; ld v1, dt
    let mut chip8 = machine(&[0x60, 0x03, 0xF0, 0x15, 0xF0, 0x18, 0xF1, 0x07]);
    run(&mut chip8, 3);
    assert_eq!(chip8.delay_timer(), 3);
    assert_eq!(chip8.sound_timer(), 3);
    assert!(chip8.update_timers());
    run(&mut chip8, 1);
    assert_eq!(chip8.register(1), 2);
}

#[test]
fn timers_stop_at_zero() {
    // ld v0, 0x02; ld st, v0; ld v0, 0x01; ld dt, v0
    let mut chip8 = machine(&[0x60, 0x02, 0xF0, 0x18, 0x60, 0x01, 0xF0, 0x15]);
    run(&mut chip8, 4);
    assert!(chip8.update_timers());
    assert_eq!((chip8.delay_timer(), chip8.sound_timer()), (0, 1));
    assert!(!chip8.update_timers());
    assert_eq!((chip8.delay_timer(), chip8.sound_timer()), (0, 0));
    assert!(!chip8.update_timers());
    assert_eq!((chip8.delay_timer(), chip8.sound_timer()), (0, 0));
}

#[test]
fn frames_are_due_after_sixteen_milliseconds() {
    assert!(!frame_due(0));
    assert!(!frame_due(15));
    assert!(frame_due(16));
    assert!(frame_due(1000));
    // ld v0, 0x02; ld st, v0
    let mut chip8 = machine(&[0x60, 0x02, 0xF0, 0x18]);
    run(&mut chip8, 2);
    assert_eq!(chip8.tick(15), None);
    assert_eq!(chip8.sound_timer(), 2);
    assert_eq!(chip8.tick(16), Some(true));
    assert_eq!(chip8.sound_timer(), 1);
    assert_eq!(chip8.tick(20), Some(false));
    assert_eq!(chip8.sound_timer(), 0);
    assert_eq!(chip8.pc(), 0x204);
}

#[test]
fn font_address() {
    // ld v0, 0x0A; ld f, v0; ld v0, 0x1F; ld f, v0
    let mut chip8 = machine(&[0x60, 0x0A, 0xF0, 0x29, 0x60, 0x1F, 0xF0, 0x29]);
    run(&mut chip8, 2);
    assert_eq!(chip8.index(), 0x50 + 50);
    run(&mut chip8, 2);
    assert_eq!(chip8.index(), 0x50 + 75);
}

#[test]
fn decimal_digits_are_stored() {
    // ld v0, 156; ld i, 0x300; ld b, v0
    let mut chip8 = machine(&[0x60, 156, 0xA3, 0x00, 0xF0, 0x33]);
    run(&mut chip8, 3);
    assert_eq!(chip8.memory_at(0x300), 1);
    assert_eq!(chip8.memory_at(0x301), 5);
    assert_eq!(chip8.memory_at(0x302), 6);
    assert_eq!(chip8.memory_at(0x303), 0);
    assert_eq!(chip8.index(), 0x300);
}

#[test]
fn decimal_digits_beyond_memory_are_a_fault() {
    // ld i, 0xFFE; ld b, v0
    let mut chip8 = machine(&[0xAF, 0xFE, 0xF0, 0x33]);
    run(&mut chip8, 1);
    assert_eq!(chip8.step_with(0), Err(Fault::AccessOutOfMemory));
    // ld i, 0xFFD; ld b, v0
    let mut chip8 = machine(&[0xAF, 0xFD, 0xF0, 0x33]);
    run(&mut chip8, 2);
    assert_eq!(chip8.pc(), 0x204);
}

#[test]
fn registers_are_stored_and_loaded() {
    // ld v0, 0x11; ld v1, 0x22; ld v2, 0x33; ld i, 0x300; ld [i], v1; ld v0, 0; ld v1, 0;
    // ld v2, 0; ld v2, [i]
    let mut chip8 = machine(&[
        0x60, 0x11, 0x61, 0x22, 0x62, 0x33, 0xA3, 0x00, 0xF1, 0x55, 0x60, 0x00, 0x61, 0x00, 0x62,
        0x00, 0xF2, 0x65,
    ]);
    run(&mut chip8, 5);
    assert_eq!(chip8.memory_at(0x300), 0x11);
    assert_eq!(chip8.memory_at(0x301), 0x22);
    assert_eq!(chip8.memory_at(0x302), 0x00);
    assert_eq!(chip8.index(), 0x300);
    run(&mut chip8, 4);
    assert_eq!(chip8.register(0), 0x11);
    assert_eq!(chip8.register(1), 0x22);
    assert_eq!(chip8.register(2), 0x00);
    assert_eq!(chip8.index(), 0x300);
}

#[test]
fn store_and_load_beyond_memory_are_faults() {
    // ld i, 0xFFF; ld [i], v1
    let mut chip8 = machine(&[0xAF, 0xFF, 0xF1, 0x55]);
    run(&mut chip8, 1);
    assert_eq!(chip8.step_with(0), Err(Fault::AccessOutOfMemory));
    assert_eq!(chip8.memory_at(0xFFF), 0);
    // ld i, 0xFFF; ld v1, [i]
    let mut chip8 = machine(&[0xAF, 0xFF, 0xF1, 0x65]);
    run(&mut chip8, 1);
    assert_eq!(chip8.step_with(0), Err(Fault::AccessOutOfMemory));
    // ld v0, 0x5A; ld i, 0xFFF; ld [i], v0
    let mut chip8 = machine(&[0x60, 0x5A, 0xAF, 0xFF, 0xF0, 0x55]);
    run(&mut chip8, 3);
    assert_eq!(chip8.memory_at(0xFFF), 0x5A);
}

#[test]
fn unknown_opcodes_change_nothing() {
    let mut chip8 = machine(&[0x00, 0x00, 0x51, 0x21, 0x81, 0x28, 0x91, 0x21, 0xE1, 0x00, 0xF1, 0xFF]);
    for n in 0..6 {
        assert_eq!(chip8.step_with(0), Ok(()));
        assert_eq!(chip8.pc(), 0x202 + 2 * n);
    }
    for x in 0..16 {
        assert_eq!(chip8.register(x), 0);
    }
    assert_eq!(chip8.index(), 0);
    assert_eq!(chip8.stack_depth(), 0);
    assert!(chip8.display().iter().all(|pixel| !pixel));
}

#[test]
fn pc_stays_in_memory_on_ordinary_steps() {
    // a loop: ld v0, 1; add v0, 1; se v0, 0; jmp 0x202; call 0x20C; jmp 0x200; ret
    let program = [0x60, 0x01, 0x70, 0x01, 0x30, 0x00, 0x12, 0x02, 0x22, 0x0C, 0x12, 0x00, 0x00, 0xEE];
    let mut chip8 = machine(&program);
    for _ in 0..2000 {
        assert_eq!(chip8.step(), Ok(()));
        assert!(chip8.pc() <= 0xFFF);
        assert!(chip8.stack_depth() <= 32);
        assert!(chip8.index() <= 0xFFF);
    }
}

#[test]
fn falling_off_the_end_of_memory() {
    // jmp 0xFFE; the opcode there is 0x0000
    let mut chip8 = machine(&[0x1F, 0xFE]);
    run(&mut chip8, 2);
    assert_eq!(chip8.pc(), 0x1000);
    assert_eq!(chip8.step_with(0), Err(Fault::FetchOutOfMemory));
}

#[test]
fn stack_pushes_and_pops() {
    let mut stack = Stack::new();
    assert_eq!(stack.len(), 0);
    assert_eq!(stack.pop(), Err("Stack underflow"));
    assert_eq!(stack.push(0x202), Ok(()));
    assert_eq!(stack.push(0x304), Ok(()));
    assert_eq!(stack.len(), 2);
    assert_eq!(stack.peek(), Some(0x304));
    assert_eq!(stack.pop(), Ok(0x304));
    assert_eq!(stack.pop(), Ok(0x202));
    assert_eq!(stack.pop(), Err("Stack underflow"));
    assert_eq!(stack.peek(), None);
}

#[test]
fn stack_holds_thirty_two_addresses() {
    let mut stack = Stack::new();
    for n in 0..32 {
        assert_eq!(stack.push(n), Ok(()));
    }
    assert_eq!(stack.push(99), Err("Stack overflow"));
    assert_eq!(stack.len(), 32);
    assert_eq!(stack.pop(), Ok(31));
}

#[test]
fn keys_go_down_and_up() {
    let mut keys = Keys::new();
    for key in 0..16 {
        assert!(!keys.is_key_pressed(key));
    }
    keys.set_key(3, true);
    keys.set_key(16, true);
    assert!(keys.is_key_pressed(3));
    assert!(!keys.is_key_pressed(2));
    assert!(!keys.is_key_pressed(16));
    keys.set_key(3, false);
    assert!(!keys.is_key_pressed(3));
}

#[test]
fn host_keys_stand_for_the_keypad() {
    let keys = [
        ('1', 0x1), ('2', 0x2), ('3', 0x3), ('4', 0xC), ('q', 0x4), ('w', 0x5), ('e', 0x6),
        ('r', 0xD), ('a', 0x7), ('s', 0x8), ('d', 0x9), ('f', 0xE), ('z', 0xA), ('x', 0x0),
        ('c', 0xB), ('v', 0xF),
    ];
    for (key, index) in keys.iter() {
        assert_eq!(keypad_index(*key), Some(*index));
        assert_eq!(keypad_index(key.to_ascii_uppercase()), Some(*index));
    }
    assert_eq!(keypad_index('5'), None);
    assert_eq!(keypad_index(' '), None);
}

#[test]
fn events_move_the_keypad() {
    let mut chip8 = Chip8::new(None);
    assert!(!chip8.handle_event(InputEvent::KeyDown('Q')));
    assert!(chip8.is_key_pressed(0x4));
    assert!(!chip8.handle_event(InputEvent::KeyDown('p')));
    assert!(!chip8.handle_event(InputEvent::Nothing));
    assert!(chip8.is_key_pressed(0x4));
    assert!(!chip8.handle_event(InputEvent::KeyUp('q')));
    assert!(!chip8.is_key_pressed(0x4));
    assert!(chip8.handle_event(InputEvent::Quit));
    assert_eq!(chip8.pc(), 0x200);
}
