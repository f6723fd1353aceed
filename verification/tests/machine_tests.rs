use rand::RngCore;
use rand::Rng;
use rand::SeedableRng;
use rand_chacha::ChaCha8Rng;

use chip8_core::error::VmError;
use chip8_core::machine::{cycle, step, CPU};
use chip8_core::screen::BitmapScreen;
use chip8_core::state::CPUQuirks;

fn boot(program: &[u8]) -> CPU<BitmapScreen> {
    let mut cpu = CPU::new(BitmapScreen::new(64, 32));
    cpu.load_program(program.to_vec()).expect("program fits");
    cpu
}

#[test]
fn fresh_instance_has_font_and_zeroed_state() {
    let cpu = CPU::new(BitmapScreen::new(64, 32));
    assert_eq!(cpu.state.pc, 0x200);
    assert_eq!(cpu.state.i, 0);
    assert_eq!(cpu.state.sp, 0);
    assert_eq!(cpu.state.dt, 0);
    assert_eq!(cpu.state.st, 0);
    assert_eq!(cpu.state.mem.len(), 4096);
    assert_eq!(cpu.state.mem[0], 0xF0);
    assert_eq!(cpu.state.mem[79], 0x80);
    assert_eq!(cpu.state.mem[80], 0);
    for k in 0..16 {
        assert_eq!(cpu.state.v[k], 0);
        assert_eq!(cpu.state.stack[k], 0);
    }
    assert!(!cpu.is_done());
    assert!(!cpu.is_paused());
    assert!(!cpu.state.quirks.shift);
    assert!(!cpu.state.quirks.load_store);
}

#[test]
fn quirks_default_to_disabled() {
    let q = CPUQuirks::new();
    assert!(!q.shift);
    assert!(!q.load_store);
}

#[test]
fn load_program_implants_at_origin() {
    let cpu = boot(&[1, 2, 3]);
    assert_eq!(cpu.state.mem[0x200], 1);
    assert_eq!(cpu.state.mem[0x201], 2);
    assert_eq!(cpu.state.mem[0x202], 3);
    assert_eq!(cpu.state.mem[0x203], 0);
}

#[test]
fn load_program_accepts_the_largest_image() {
    let mut cpu = CPU::new(BitmapScreen::new(64, 32));
    let data = vec![7u8; 4096 - 0x200];
    assert_eq!(cpu.load_program(data), Ok(()));
    assert_eq!(cpu.state.mem[0x200], 7);
    assert_eq!(cpu.state.mem[4095], 7);
}

#[test]
fn load_program_rejects_one_byte_too_many_without_mutating() {
    let mut cpu = CPU::new(BitmapScreen::new(64, 32));
    let data = vec![7u8; 4096 - 0x200 + 1];
    assert_eq!(cpu.load_program(data), Err(VmError::ProgramTooLarge));
    assert_eq!(cpu.state.mem[0x200], 0);
    assert_eq!(cpu.state.mem[4095], 0);
}

#[test]
fn load_empty_program_is_fine() {
    let mut cpu = CPU::new(BitmapScreen::new(64, 32));
    assert_eq!(cpu.load_program(Vec::new()), Ok(()));
    assert_eq!(cpu.state.mem[0x200], 0);
}

#[test]
fn stop_is_terminal() {
    let mut cpu = CPU::new(BitmapScreen::new(64, 32));
    assert!(!cpu.is_done());
    cpu.stop();
    assert!(cpu.is_done());
}

#[test]
fn timers_run_down_to_zero_and_stay_there() {
    // the program jumps to its own first instruction forever
    let mut cpu = boot(&[0x12, 0x00]);
    cpu.state.dt = 3;
    cpu.state.st = 1;
    for expected_dt in [2u8, 1, 0, 0] {
        cycle(&mut cpu.state, &mut cpu.screen).expect("cycle succeeds");
        assert_eq!(cpu.state.dt, expected_dt);
    }
    assert_eq!(cpu.state.st, 0);
}

#[test]
fn cycle_is_a_noop_while_halted() {
    let mut cpu = boot(&[0xF0, 0x0A]);
    cpu.state.dt = 5;
    cycle(&mut cpu.state, &mut cpu.screen).expect("cycle succeeds");
    assert!(cpu.state.halted);
    // halted at entry: no steps, and no timer decrement either
    let dt_after_halt = cpu.state.dt;
    cycle(&mut cpu.state, &mut cpu.screen).expect("cycle succeeds");
    assert_eq!(cpu.state.dt, dt_after_halt);
}

#[test]
fn random_runs_with_equal_seeds_agree() {
    let program = [0xC0, 0xFF, 0xC1, 0xFF];
    let mut first = boot(&program);
    let mut second = boot(&program);
    first.state.rng_seed = 42;
    second.state.rng_seed = 42;
    for cpu in [&mut first, &mut second] {
        step(&mut cpu.state, &mut cpu.screen).expect("step succeeds");
        step(&mut cpu.state, &mut cpu.screen).expect("step succeeds");
    }
    assert_eq!(first.state.v[0], second.state.v[0]);
    assert_eq!(first.state.v[1], second.state.v[1]);
    assert_eq!(first.state.rng_seed, second.state.rng_seed);
}

#[test]
fn random_source_matches_the_generator_it_names() {
    let mut cpu = CPU::new(BitmapScreen::new(64, 32));
    cpu.state.rng_seed = 42;
    let byte = cpu.state.run_rng();

    let mut reference = ChaCha8Rng::seed_from_u64(42);
    let expected_seed = reference.next_u64();
    let expected_byte: u8 = reference.gen();
    assert_eq!(byte, expected_byte);
    assert_eq!(cpu.state.rng_seed, expected_seed);
}

#[test]
fn key_wait_halts_until_a_mapped_key_arrives() {
    let mut cpu = boot(&[0xF3, 0x0A]);
    step(&mut cpu.state, &mut cpu.screen).expect("step succeeds");
    assert!(cpu.state.halted);
    assert!(cpu.state.waiting_kb);
    assert!(cpu.is_paused());
    assert_eq!(cpu.state.pc, 0x200);
    // further steps are no-ops while halted
    step(&mut cpu.state, &mut cpu.screen).expect("step succeeds");
    assert_eq!(cpu.state.pc, 0x200);
    // an unmapped identifier is inert
    cpu.key_down(999);
    assert!(cpu.state.halted);
    // 'q' maps to virtual key 4: its value lands in the target register
    cpu.key_down(113);
    assert!(!cpu.state.halted);
    assert!(!cpu.state.waiting_kb);
    assert_eq!(cpu.state.v[3], 4);
    assert_eq!(cpu.state.pc, 0x202);
}

#[test]
fn key_state_feeds_the_skip_instructions() {
    let mut cpu = boot(&[0xE1, 0x9E]);
    cpu.state.v[1] = 1;
    // '1' maps to virtual key 1
    cpu.key_down(49);
    step(&mut cpu.state, &mut cpu.screen).expect("step succeeds");
    assert_eq!(cpu.state.pc, 0x204);

    let mut cpu = boot(&[0xE1, 0x9E]);
    cpu.state.v[1] = 1;
    cpu.key_down(49);
    cpu.key_up(49);
    step(&mut cpu.state, &mut cpu.screen).expect("step succeeds");
    assert_eq!(cpu.state.pc, 0x202);
}

#[test]
fn cycle_propagates_a_decode_failure() {
    let mut cpu = boot(&[0xF0, 0xFF]);
    let r = cycle(&mut cpu.state, &mut cpu.screen);
    assert_eq!(r, Err(VmError::UnknownOpcode(0xF0FF)));
}
