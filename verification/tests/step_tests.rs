use chip8::{Chip8, ExecInput, Fault, Flow, Machine, Quirks};

fn quiet() -> ExecInput {
    ExecInput { random: 0, keys: 0 }
}

fn no_quirks() -> Quirks {
    Quirks { wrap_sprite: false, high_precision_shift: false, auto_increment_index: false }
}

#[test]
fn step_fetches_big_endian_and_advances() {
    // 0x6123 = LDB(V1, 0x23)
    let mut m = Machine::new(&[], &[0x61, 0x23], no_quirks());
    let r = m.step(0, quiet());
    assert_eq!(r, Ok(Flow::Advance));
    assert_eq!(m.regs[1], 0x23);
    assert_eq!(m.pc, 0x202);
}

#[test]
fn step_jump_bypasses_the_generic_advance() {
    // 0x1300 = JP 0x300
    let mut m = Machine::new(&[], &[0x13, 0x00], no_quirks());
    let r = m.step(0, quiet());
    assert_eq!(r, Ok(Flow::Jumped));
    assert_eq!(m.pc, 0x300);
}

#[test]
fn step_taken_skip_advances_four_bytes() {
    // 0x3100 = SEB(V1, 0) with V1 == 0: skip taken
    let mut m = Machine::new(&[], &[0x31, 0x00], no_quirks());
    let r = m.step(0, quiet());
    assert_eq!(r, Ok(Flow::Advance));
    assert_eq!(m.pc, 0x204);
}

#[test]
fn step_call_and_ret_through_memory() {
    // 0x200: CALL 0x204; 0x202: JP 0x202; 0x204: RET
    let rom = [0x22, 0x04, 0x12, 0x02, 0x00, 0xEE];
    let mut m = Machine::new(&[], &rom, no_quirks());
    assert_eq!(m.step(0, quiet()), Ok(Flow::Jumped));
    assert_eq!(m.pc, 0x204);
    assert_eq!(m.sp, 1);
    assert_eq!(m.step(0, quiet()), Ok(Flow::Jumped));
    assert_eq!(m.pc, 0x202);
    assert_eq!(m.sp, 0);
}

#[test]
fn step_unrecognized_opcode_reports_and_stays() {
    let mut m = Machine::new(&[], &[], no_quirks());
    let r = m.step(0, quiet());
    assert_eq!(r, Err(Fault::UnrecognizedOpcode));
    assert_eq!(m.pc, 0x200);
}

#[test]
fn step_pc_out_of_bounds_reports_fault_after_timer_decay() {
    let mut m = Machine::new(&[], &[], no_quirks());
    m.pc = 4095;
    m.delay = 5;
    let r = m.step(2, quiet());
    assert_eq!(r, Err(Fault::ProgramCounterOutOfBounds));
    assert_eq!(m.pc, 4095);
    assert_eq!(m.delay, 3);
}

#[test]
fn step_waitkey_keeps_pc_until_a_key_arrives() {
    // 0xF10A = LDK(V1)
    let mut m = Machine::new(&[], &[0xF1, 0x0A], no_quirks());
    assert_eq!(m.step(0, quiet()), Ok(Flow::WaitKey));
    assert_eq!(m.pc, 0x200);
    assert_eq!(m.step(0, ExecInput { random: 0, keys: 1 << 7 }), Ok(Flow::Advance));
    assert_eq!(m.regs[1], 7);
    assert_eq!(m.pc, 0x202);
}

#[test]
fn timers_decay_to_zero_and_stay_there() {
    let mut m = Machine::new(&[], &[0x61, 0x23], no_quirks());
    m.delay = 5;
    m.sound = 1;
    m.step(2, quiet()).unwrap();
    assert_eq!(m.delay, 3);
    assert_eq!(m.sound, 0);
    m.pc = 0x200;
    m.step(200, quiet()).unwrap();
    assert_eq!(m.delay, 0);
    assert_eq!(m.sound, 0);
    m.pc = 0x200;
    m.step(255, quiet()).unwrap();
    assert_eq!(m.delay, 0);
    assert_eq!(m.sound, 0);
}

#[test]
fn ticks_from_millis_formula() {
    assert_eq!(chip8::ticks_from_millis(0), 0);
    assert_eq!(chip8::ticks_from_millis(16), 0);
    assert_eq!(chip8::ticks_from_millis(17), 1);
    assert_eq!(chip8::ticks_from_millis(1000), 60);
    assert_eq!(chip8::ticks_from_millis(4249), 254);
    assert_eq!(chip8::ticks_from_millis(4250), 255);
    assert_eq!(chip8::ticks_from_millis(u64::MAX), 255);
}

#[test]
fn chip8_boots_and_steps_with_a_seeded_generator() {
    let rng = <rand::rngs::StdRng as rand::SeedableRng>::seed_from_u64(0);
    // 0xC10F = RND(V1, 0x0F)
    let mut c8 = Chip8::new(&[0xDE, 0xAD], &[0xC1, 0x0F], rng);
    assert_eq!(c8.machine.pc, 0x200);
    assert_eq!(c8.machine.ram[0], 0xDE);
    assert_eq!(c8.machine.ram[0x200], 0xC1);
    assert!(c8.machine.quirks.wrap_sprite);
    let r = c8.step(0, 0);
    assert_eq!(r, Ok(Flow::Advance));
    assert_eq!(c8.machine.pc, 0x202);
    // whatever byte was drawn, only the masked low bits can be set
    assert_eq!(c8.machine.regs[1] & 0xF0, 0);
}
