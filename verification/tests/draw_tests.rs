use chip8::{ExecInput, Fault, Flow, Instruction, Machine, Quirks, VReg};

fn quiet() -> ExecInput {
    ExecInput { random: 0, keys: 0 }
}

fn clipping() -> Quirks {
    Quirks { wrap_sprite: false, high_precision_shift: false, auto_increment_index: false }
}

fn wrapping() -> Quirks {
    Quirks { wrap_sprite: true, high_precision_shift: false, auto_increment_index: false }
}

fn with_sprite(q: Quirks, bytes: &[u8]) -> Machine {
    let mut m = Machine::new(&[], &[], q);
    m.index = 0x300;
    for (j, &b) in bytes.iter().enumerate() {
        m.ram[0x300 + j] = b;
    }
    m
}

#[test]
fn draw_places_sprite_and_reports_no_collision() {
    let mut m = with_sprite(clipping(), &[0b1000_0001, 0b1111_1111]);
    m.regs[1] = 8;
    m.regs[2] = 5;
    let r = Instruction::DRW(VReg(1), VReg(2), 2).execute(&mut m, quiet());
    assert_eq!(r, Ok(Flow::Advance));
    assert_eq!(m.regs[15], 0);
    assert_eq!(m.screen[5], 0b1000_0001u64 << 48);
    assert_eq!(m.screen[6], 0b1111_1111u64 << 48);
    assert_eq!(m.screen[4], 0);
    assert_eq!(m.screen[7], 0);
}

#[test]
fn draw_twice_toggles_off_and_collides_second_time() {
    let mut m = with_sprite(clipping(), &[0xFF, 0xFF, 0xFF]);
    m.regs[1] = 3;
    m.regs[2] = 5;
    let r = Instruction::DRW(VReg(1), VReg(2), 3).execute(&mut m, quiet());
    assert_eq!(r, Ok(Flow::Advance));
    assert_eq!(m.regs[15], 0);
    assert_ne!(m.screen[5], 0);
    let r = Instruction::DRW(VReg(1), VReg(2), 3).execute(&mut m, quiet());
    assert_eq!(r, Ok(Flow::Advance));
    assert_eq!(m.regs[15], 1);
    assert!(m.screen.iter().all(|&row| row == 0));
}

#[test]
fn draw_clips_at_the_bottom_without_wrap() {
    let mut m = with_sprite(clipping(), &[0xFF, 0xFF, 0xFF, 0xFF]);
    m.regs[1] = 0;
    m.regs[2] = 30;
    let r = Instruction::DRW(VReg(1), VReg(2), 4).execute(&mut m, quiet());
    assert_eq!(r, Ok(Flow::Advance));
    assert_ne!(m.screen[30], 0);
    assert_ne!(m.screen[31], 0);
    assert_eq!(m.screen[0], 0);
    assert_eq!(m.screen[1], 0);
}

#[test]
fn draw_coordinates_wrap_modulo_without_wrap_quirk() {
    let mut m = with_sprite(clipping(), &[0xFF]);
    m.regs[1] = 65;  // 65 % 64 == 1
    m.regs[2] = 33;  // 33 % 32 == 1
    let r = Instruction::DRW(VReg(1), VReg(2), 1).execute(&mut m, quiet());
    assert_eq!(r, Ok(Flow::Advance));
    assert_eq!(m.screen[1], 0xFFu64 << 55);
}

#[test]
fn draw_truncates_at_the_right_edge_with_wrap_quirk() {
    let mut m = with_sprite(wrapping(), &[0xFF]);
    m.regs[1] = 60;
    m.regs[2] = 0;
    let r = Instruction::DRW(VReg(1), VReg(2), 1).execute(&mut m, quiet());
    assert_eq!(r, Ok(Flow::Advance));
    // columns 60..63 lit, the rest of the byte shifted out
    assert_eq!(m.screen[0], 0xFFu64 >> 4);
}

#[test]
fn draw_far_right_origin_with_wrap_quirk_lands_nowhere() {
    let mut m = with_sprite(wrapping(), &[0xFF]);
    m.regs[1] = 200;
    m.regs[2] = 0;
    let r = Instruction::DRW(VReg(1), VReg(2), 1).execute(&mut m, quiet());
    assert_eq!(r, Ok(Flow::Advance));
    assert!(m.screen.iter().all(|&row| row == 0));
    assert_eq!(m.regs[15], 0);
}

#[test]
fn draw_zero_rows_changes_nothing() {
    let mut m = with_sprite(clipping(), &[0xFF]);
    m.regs[15] = 7;
    let r = Instruction::DRW(VReg(1), VReg(2), 0).execute(&mut m, quiet());
    assert_eq!(r, Ok(Flow::Advance));
    assert!(m.screen.iter().all(|&row| row == 0));
    assert_eq!(m.regs[15], 7);
}

#[test]
fn draw_sprite_bytes_out_of_bounds_reports_fault() {
    let mut m = Machine::new(&[], &[], clipping());
    m.index = 4095;
    let r = Instruction::DRW(VReg(1), VReg(2), 2).execute(&mut m, quiet());
    assert_eq!(r, Err(Fault::MemoryRangeOutOfBounds));
    assert!(m.screen.iter().all(|&row| row == 0));
}

#[test]
fn cls_clears_the_display() {
    let mut m = with_sprite(clipping(), &[0xFF]);
    m.regs[1] = 0;
    m.regs[2] = 0;
    Instruction::DRW(VReg(1), VReg(2), 1).execute(&mut m, quiet()).unwrap();
    assert_ne!(m.screen[0], 0);
    let r = Instruction::CLS.execute(&mut m, quiet());
    assert_eq!(r, Ok(Flow::Advance));
    assert!(m.screen.iter().all(|&row| row == 0));
}

#[test]
fn render_row_unpacks_pixels_leftmost_first() {
    let pix = chip8::render_row(1u64 << 63);
    assert_eq!(pix.len(), 64);
    assert!(pix[0]);
    assert!(pix[1..].iter().all(|&p| !p));
    let pix = chip8::render_row(1u64);
    assert!(pix[63]);
    assert!(pix[..63].iter().all(|&p| !p));
}
