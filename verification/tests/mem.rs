use chip8::{ExecInput, Fault, Flow, Instruction, Machine, Quirks, VReg};

fn quiet() -> ExecInput {
    ExecInput { random: 0, keys: 0 }
}

fn machine_with(q: Quirks) -> Machine {
    Machine::new(&[], &[], q)
}

fn no_quirks() -> Quirks {
    Quirks { wrap_sprite: false, high_precision_shift: false, auto_increment_index: false }
}

#[test]
fn boot_memory_layout() {
    let m = Machine::new(&[1, 2, 3], &[9, 8], no_quirks());
    assert_eq!(m.ram.len(), 4096);
    assert_eq!(m.ram[0], 1);
    assert_eq!(m.ram[1], 2);
    assert_eq!(m.ram[2], 3);
    assert_eq!(m.ram[3], 0);
    assert_eq!(m.ram[511], 0);
    assert_eq!(m.ram[512], 9);
    assert_eq!(m.ram[513], 8);
    assert_eq!(m.ram[514], 0);
    assert_eq!(m.ram[4095], 0);
    assert_eq!(m.pc, 0x200);
    assert_eq!(m.sp, 0);
    assert_eq!(m.index, 0);
    assert_eq!(m.delay, 0);
    assert_eq!(m.sound, 0);
    assert!(m.regs.iter().all(|&v| v == 0));
    assert!(m.screen.iter().all(|&row| row == 0));
}

#[test]
fn bcd_digits_are_stored() {
    let mut m = machine_with(no_quirks());
    m.regs[3] = 234;
    m.index = 0x300;
    let r = Instruction::LDD(VReg(3)).execute(&mut m, quiet());
    assert_eq!(r, Ok(Flow::Advance));
    assert_eq!(m.ram[0x300], 2);
    assert_eq!(m.ram[0x301], 3);
    assert_eq!(m.ram[0x302], 4);
}

#[test]
fn bcd_out_of_bounds_reports_fault() {
    let mut m = machine_with(no_quirks());
    m.regs[3] = 7;
    m.index = 4094;
    let r = Instruction::LDD(VReg(3)).execute(&mut m, quiet());
    assert_eq!(r, Err(Fault::MemoryRangeOutOfBounds));
    assert_eq!(m.ram[4094], 0);
    assert_eq!(m.ram[4095], 0);
}

#[test]
fn register_round_trip_without_auto_increment() {
    for k in 0..16u8 {
        let mut m = machine_with(no_quirks());
        for j in 0..16 {
            m.regs[j] = (j as u8) * 3 + 1;
        }
        let saved = m.regs.clone();
        m.index = 0x300;
        let r = Instruction::LDMV(VReg(k)).execute(&mut m, quiet());
        assert_eq!(r, Ok(Flow::Advance));
        assert_eq!(m.index, 0x300);
        for j in 0..16 {
            m.regs[j] = 0;
        }
        let r = Instruction::LDVM(VReg(k)).execute(&mut m, quiet());
        assert_eq!(r, Ok(Flow::Advance));
        for j in 0..16usize {
            if j <= k as usize {
                assert_eq!(m.regs[j], saved[j]);
            } else {
                assert_eq!(m.regs[j], 0);
            }
        }
    }
}

#[test]
fn store_advances_index_with_auto_increment() {
    let mut m = machine_with(Quirks {
        wrap_sprite: false,
        high_precision_shift: false,
        auto_increment_index: true,
    });
    m.regs[0] = 0xAA;
    m.regs[1] = 0xBB;
    m.index = 0x300;
    let r = Instruction::LDMV(VReg(1)).execute(&mut m, quiet());
    assert_eq!(r, Ok(Flow::Advance));
    assert_eq!(m.ram[0x300], 0xAA);
    assert_eq!(m.ram[0x301], 0xBB);
    assert_eq!(m.index, 0x302);
    let r = Instruction::LDVM(VReg(1)).execute(&mut m, quiet());
    assert_eq!(r, Ok(Flow::Advance));
    assert_eq!(m.index, 0x304);
}

#[test]
fn store_out_of_bounds_reports_fault() {
    let mut m = machine_with(no_quirks());
    m.index = 4090;
    let r = Instruction::LDMV(VReg(15)).execute(&mut m, quiet());
    assert_eq!(r, Err(Fault::MemoryRangeOutOfBounds));
    assert_eq!(m.ram[4090], 0);
    let r = Instruction::LDVM(VReg(15)).execute(&mut m, quiet());
    assert_eq!(r, Err(Fault::MemoryRangeOutOfBounds));
}

#[test]
fn store_at_the_very_end_is_allowed() {
    let mut m = machine_with(no_quirks());
    m.index = 4095;
    m.regs[0] = 0x5A;
    let r = Instruction::LDMV(VReg(0)).execute(&mut m, quiet());
    assert_eq!(r, Ok(Flow::Advance));
    assert_eq!(m.ram[4095], 0x5A);
}
