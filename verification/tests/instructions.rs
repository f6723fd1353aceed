use chip8_core::error::VmError;
use chip8_core::machine::{step, CPU};
use chip8_core::screen::{BitmapScreen, ScreenDraw};

fn boot(program: &[u8]) -> CPU<BitmapScreen> {
    let mut cpu = CPU::new(BitmapScreen::new(64, 32));
    cpu.load_program(program.to_vec()).expect("program fits");
    cpu
}

fn step_ok(cpu: &mut CPU<BitmapScreen>) {
    step(&mut cpu.state, &mut cpu.screen).expect("step succeeds");
}

#[test]
fn fetch_is_big_endian() {
    let cpu = boot(&[0x12, 0x34]);
    assert_eq!(cpu.state.fetch(), 0x1234);
}

#[test]
fn clear_screen_clears_and_advances() {
    let mut cpu = boot(&[0x00, 0xE0]);
    cpu.screen.toggle_pixel(3, 4);
    assert!(cpu.screen.get_pixel(3, 4));
    step_ok(&mut cpu);
    for x in 0..64 {
        for y in 0..32 {
            assert!(!cpu.screen.get_pixel(x, y));
        }
    }
    assert_eq!(cpu.state.pc, 0x202);
    assert!(!cpu.state.repaint);
}

#[test]
fn load_immediate_sets_register() {
    let mut cpu = boot(&[0x60, 0x12]);
    step_ok(&mut cpu);
    assert_eq!(cpu.state.v[0], 0x12);
    assert_eq!(cpu.state.pc, 0x202);
}

#[test]
fn jump_sets_pc_exactly() {
    let mut cpu = boot(&[0x12, 0x02]);
    step_ok(&mut cpu);
    assert_eq!(cpu.state.pc, 0x202);
}

#[test]
fn jump_v0_adds_offset() {
    let mut cpu = boot(&[0xB2, 0x00]);
    cpu.state.v[0] = 4;
    step_ok(&mut cpu);
    assert_eq!(cpu.state.pc, 0x204);
}

#[test]
fn add_with_carry_sets_flag_last() {
    let mut cpu = boot(&[0x80, 0x14, 0x80, 0x14]);
    cpu.state.v[0] = 200;
    cpu.state.v[1] = 100;
    step_ok(&mut cpu);
    assert_eq!(cpu.state.v[0], 44);
    assert_eq!(cpu.state.v[15], 1);
    cpu.state.v[1] = 2;
    step_ok(&mut cpu);
    assert_eq!(cpu.state.v[0], 46);
    assert_eq!(cpu.state.v[15], 0);
}

#[test]
fn sub_sets_no_borrow_flag() {
    let mut cpu = boot(&[0x80, 0x15]);
    cpu.state.v[0] = 5;
    cpu.state.v[1] = 10;
    step_ok(&mut cpu);
    assert_eq!(cpu.state.v[0], 251);
    assert_eq!(cpu.state.v[15], 0);
}

#[test]
fn logic_ops_combine_registers() {
    let mut cpu = boot(&[0x80, 0x11, 0x80, 0x22, 0x80, 0x33]);
    cpu.state.v[0] = 0b1100;
    cpu.state.v[1] = 0b1010;
    cpu.state.v[2] = 0b0110;
    cpu.state.v[3] = 0b0101;
    step_ok(&mut cpu);
    assert_eq!(cpu.state.v[0], 0b1110);
    step_ok(&mut cpu);
    assert_eq!(cpu.state.v[0], 0b0110);
    step_ok(&mut cpu);
    assert_eq!(cpu.state.v[0], 0b0011);
}

#[test]
fn skip_eq_immediate_skips_only_on_match() {
    let mut cpu = boot(&[0x30, 0x12]);
    cpu.state.v[0] = 0x12;
    step_ok(&mut cpu);
    assert_eq!(cpu.state.pc, 0x204);

    let mut cpu = boot(&[0x30, 0x12]);
    cpu.state.v[0] = 0x13;
    step_ok(&mut cpu);
    assert_eq!(cpu.state.pc, 0x202);
}

#[test]
fn shift_right_without_quirk_uses_secondary_register() {
    let mut cpu = boot(&[0x81, 0x26]);
    cpu.state.v[1] = 0;
    cpu.state.v[2] = 11;
    assert!(!cpu.state.quirks.shift);
    step_ok(&mut cpu);
    assert_eq!(cpu.state.v[1], 5);
    assert_eq!(cpu.state.v[15], 1);
}

#[test]
fn shift_right_with_quirk_ignores_secondary_register() {
    let mut cpu = boot(&[0x81, 0x26]);
    cpu.state.quirks.shift = true;
    cpu.state.v[1] = 8;
    cpu.state.v[2] = 11;
    step_ok(&mut cpu);
    assert_eq!(cpu.state.v[1], 4);
    assert_eq!(cpu.state.v[15], 0);
}

#[test]
fn shift_left_doubles_and_keeps_high_bit() {
    let mut cpu = boot(&[0x81, 0x2E]);
    cpu.state.v[2] = 0x81;
    step_ok(&mut cpu);
    assert_eq!(cpu.state.v[1], 0x02);
    assert_eq!(cpu.state.v[15], 1);
}

#[test]
fn load_index_and_font_glyph() {
    let mut cpu = boot(&[0xA1, 0x23, 0xF1, 0x29]);
    step_ok(&mut cpu);
    assert_eq!(cpu.state.i, 0x123);
    cpu.state.v[1] = 0xA;
    step_ok(&mut cpu);
    assert_eq!(cpu.state.i, 50);
}

#[test]
fn add_index_wraps_in_address_space() {
    let mut cpu = boot(&[0xF0, 0x1E]);
    cpu.state.i = 4090;
    cpu.state.v[0] = 10;
    step_ok(&mut cpu);
    assert_eq!(cpu.state.i, 4);
}

#[test]
fn bcd_store_writes_decimal_digits() {
    let mut cpu = boot(&[0xF2, 0x33]);
    cpu.state.v[2] = 234;
    cpu.state.i = 300;
    step_ok(&mut cpu);
    assert_eq!(cpu.state.mem[300], 2);
    assert_eq!(cpu.state.mem[301], 3);
    assert_eq!(cpu.state.mem[302], 4);
}

#[test]
fn store_registers_advances_index_without_quirk() {
    let mut cpu = boot(&[0xF2, 0x55]);
    cpu.state.v[0] = 7;
    cpu.state.v[1] = 8;
    cpu.state.v[2] = 9;
    cpu.state.i = 400;
    step_ok(&mut cpu);
    assert_eq!(cpu.state.mem[400], 7);
    assert_eq!(cpu.state.mem[401], 8);
    assert_eq!(cpu.state.mem[402], 9);
    assert_eq!(cpu.state.i, 403);
}

#[test]
fn load_registers_keeps_index_with_quirk() {
    let mut cpu = boot(&[0xF1, 0x65]);
    cpu.state.quirks.load_store = true;
    cpu.state.mem[500] = 3;
    cpu.state.mem[501] = 4;
    cpu.state.i = 500;
    step_ok(&mut cpu);
    assert_eq!(cpu.state.v[0], 3);
    assert_eq!(cpu.state.v[1], 4);
    assert_eq!(cpu.state.i, 500);
}

#[test]
fn delay_timer_round_trip() {
    let mut cpu = boot(&[0xF0, 0x15, 0xF1, 0x07]);
    cpu.state.v[0] = 9;
    step_ok(&mut cpu);
    assert_eq!(cpu.state.dt, 9);
    step_ok(&mut cpu);
    assert_eq!(cpu.state.v[1], 9);
}

#[test]
fn sound_timer_is_set() {
    let mut cpu = boot(&[0xF0, 0x18]);
    cpu.state.v[0] = 5;
    step_ok(&mut cpu);
    assert_eq!(cpu.state.st, 5);
}

#[test]
fn call_pushes_return_address_and_ret_pops_it() {
    let mut cpu = boot(&[0x22, 0x04, 0x00, 0x00, 0x00, 0xEE]);
    step_ok(&mut cpu);
    assert_eq!(cpu.state.pc, 0x204);
    assert_eq!(cpu.state.sp, 1);
    assert_eq!(cpu.state.stack[0], 0x202);
    step_ok(&mut cpu);
    assert_eq!(cpu.state.pc, 0x202);
    assert_eq!(cpu.state.sp, 0);
}

#[test]
fn draw_reports_no_collision_on_clear_region() {
    // point the index register at the font glyph for 0 and draw it twice
    let mut cpu = boot(&[0xA0, 0x00, 0xD0, 0x05, 0xD0, 0x05]);
    step_ok(&mut cpu);
    step_ok(&mut cpu);
    assert_eq!(cpu.state.v[15], 0);
    assert!(cpu.screen.get_pixel(0, 0));
    assert!(cpu.screen.get_pixel(3, 0));
    assert!(!cpu.screen.get_pixel(1, 1));
    assert!(!cpu.state.repaint);
    // the second draw overlaps every pixel of the first: collision, and
    // the XOR toggles the glyph away again
    step_ok(&mut cpu);
    assert_eq!(cpu.state.v[15], 1);
    for x in 0..64 {
        for y in 0..32 {
            assert!(!cpu.screen.get_pixel(x, y));
        }
    }
}

#[test]
fn sprite_wraps_at_the_right_edge() {
    // glyph row 0xF0 drawn at x = 62 wraps onto columns 62, 63, 0, 1
    let mut cpu = boot(&[0xA0, 0x00, 0xD1, 0x21]);
    cpu.state.v[1] = 62;
    cpu.state.v[2] = 0;
    step_ok(&mut cpu);
    step_ok(&mut cpu);
    assert_eq!(cpu.state.v[15], 0);
    assert!(cpu.screen.get_pixel(62, 0));
    assert!(cpu.screen.get_pixel(63, 0));
    assert!(cpu.screen.get_pixel(0, 0));
    assert!(cpu.screen.get_pixel(1, 0));
    assert!(!cpu.screen.get_pixel(2, 0));
}

#[test]
fn pc_wraps_at_end_of_address_space() {
    let mut cpu = boot(&[]);
    cpu.state.mem[4094] = 0x60;
    cpu.state.mem[4095] = 0x12;
    cpu.state.pc = 4094;
    step_ok(&mut cpu);
    assert_eq!(cpu.state.pc, 0);
    assert_eq!(cpu.state.v[0], 0x12);
}

#[test]
fn unknown_opcode_is_a_hard_failure() {
    let mut cpu = boot(&[0xF0, 0xFF]);
    let r = step(&mut cpu.state, &mut cpu.screen);
    assert_eq!(r, Err(VmError::UnknownOpcode(0xF0FF)));
    assert_eq!(cpu.state.pc, 0x200);
}

#[test]
fn return_with_empty_stack_underflows() {
    let mut cpu = boot(&[0x00, 0xEE]);
    let r = step(&mut cpu.state, &mut cpu.screen);
    assert_eq!(r, Err(VmError::StackUnderflow));
}

#[test]
fn seventeenth_nested_call_overflows() {
    // the program calls its own first instruction over and over
    let mut cpu = boot(&[0x22, 0x00]);
    for _ in 0..16 {
        step_ok(&mut cpu);
    }
    assert_eq!(cpu.state.sp, 16);
    let r = step(&mut cpu.state, &mut cpu.screen);
    assert_eq!(r, Err(VmError::StackOverflow));
}

#[test]
fn draw_past_end_of_memory_is_out_of_range() {
    let mut cpu = boot(&[0xD0, 0x05]);
    cpu.state.i = 4094;
    let r = step(&mut cpu.state, &mut cpu.screen);
    assert_eq!(r, Err(VmError::AddressOutOfRange));
}

#[test]
fn bcd_past_end_of_memory_is_out_of_range() {
    let mut cpu = boot(&[0xF0, 0x33]);
    cpu.state.i = 4094;
    let r = step(&mut cpu.state, &mut cpu.screen);
    assert_eq!(r, Err(VmError::AddressOutOfRange));
}
