use chip8::{Addr, Instruction, VReg};

#[test]
fn decode_full_word_opcodes() {
    assert_eq!(Instruction::decode(&0x00E0), Some(Instruction::CLS));
    assert_eq!(Instruction::decode(&0x00EE), Some(Instruction::RET));
}

#[test]
fn decode_examples() {
    assert_eq!(Instruction::decode(&0x1234), Some(Instruction::JP(Addr(0x234))));
    assert_eq!(Instruction::decode(&0xA2F0), Some(Instruction::LDI(Addr(0x2F0))));
    assert_eq!(Instruction::decode(&0x6A05), Some(Instruction::LDB(VReg(10), 0x05)));
}

#[test]
fn decode_high_nibble_families() {
    assert_eq!(Instruction::decode(&0x2ABC), Some(Instruction::CALL(Addr(0xABC))));
    assert_eq!(Instruction::decode(&0x31FE), Some(Instruction::SEB(VReg(1), 0xFE)));
    assert_eq!(Instruction::decode(&0x42AB), Some(Instruction::SNEB(VReg(2), 0xAB)));
    assert_eq!(Instruction::decode(&0x7C10), Some(Instruction::ADDB(VReg(12), 0x10)));
    assert_eq!(Instruction::decode(&0xB123), Some(Instruction::JPV(Addr(0x123))));
    assert_eq!(Instruction::decode(&0xC40F), Some(Instruction::RND(VReg(4), 0x0F)));
    assert_eq!(
        Instruction::decode(&0xD12F),
        Some(Instruction::DRW(VReg(1), VReg(2), 0x0F))
    );
}

#[test]
fn decode_low_nibble_families() {
    assert_eq!(Instruction::decode(&0x5AB0), Some(Instruction::SEV(VReg(10), VReg(11))));
    assert_eq!(Instruction::decode(&0x8120), Some(Instruction::LDV(VReg(1), VReg(2))));
    assert_eq!(Instruction::decode(&0x8121), Some(Instruction::OR(VReg(1), VReg(2))));
    assert_eq!(Instruction::decode(&0x8122), Some(Instruction::AND(VReg(1), VReg(2))));
    assert_eq!(Instruction::decode(&0x8123), Some(Instruction::XOR(VReg(1), VReg(2))));
    assert_eq!(Instruction::decode(&0x8124), Some(Instruction::ADDC(VReg(1), VReg(2))));
    assert_eq!(Instruction::decode(&0x8125), Some(Instruction::SUB(VReg(1), VReg(2))));
    assert_eq!(Instruction::decode(&0x8126), Some(Instruction::SHR(VReg(1), VReg(2))));
    assert_eq!(Instruction::decode(&0x8127), Some(Instruction::SUBN(VReg(1), VReg(2))));
    assert_eq!(Instruction::decode(&0x812E), Some(Instruction::SHL(VReg(1), VReg(2))));
    assert_eq!(Instruction::decode(&0x9AB0), Some(Instruction::SNEV(VReg(10), VReg(11))));
}

#[test]
fn decode_low_byte_families() {
    assert_eq!(Instruction::decode(&0xE19E), Some(Instruction::SKP(VReg(1))));
    assert_eq!(Instruction::decode(&0xE1A1), Some(Instruction::SKNP(VReg(1))));
    assert_eq!(Instruction::decode(&0xF107), Some(Instruction::LDVD(VReg(1))));
    assert_eq!(Instruction::decode(&0xF10A), Some(Instruction::LDK(VReg(1))));
    assert_eq!(Instruction::decode(&0xF115), Some(Instruction::LDDV(VReg(1))));
    assert_eq!(Instruction::decode(&0xF118), Some(Instruction::LDSV(VReg(1))));
    assert_eq!(Instruction::decode(&0xF11E), Some(Instruction::ADDI(VReg(1))));
    assert_eq!(Instruction::decode(&0xF129), Some(Instruction::LDIS(VReg(1))));
    assert_eq!(Instruction::decode(&0xF133), Some(Instruction::LDD(VReg(1))));
    assert_eq!(Instruction::decode(&0xF155), Some(Instruction::LDMV(VReg(1))));
    assert_eq!(Instruction::decode(&0xF165), Some(Instruction::LDVM(VReg(1))));
}

#[test]
fn decode_unrecognized() {
    // legacy machine-code-call opcodes and other unknown encodings
    assert_eq!(Instruction::decode(&0x0000), None);
    assert_eq!(Instruction::decode(&0x0123), None);
    assert_eq!(Instruction::decode(&0x00E1), None);
    assert_eq!(Instruction::decode(&0x5AB1), None);
    assert_eq!(Instruction::decode(&0x8AB8), None);
    assert_eq!(Instruction::decode(&0x812F), None);
    assert_eq!(Instruction::decode(&0x9AB5), None);
    assert_eq!(Instruction::decode(&0xE000), None);
    assert_eq!(Instruction::decode(&0xE19F), None);
    assert_eq!(Instruction::decode(&0xF100), None);
    assert_eq!(Instruction::decode(&0xF1FF), None);
}

#[test]
fn decode_total_and_deterministic() {
    // every 16-bit word decodes without panicking, and decoding twice gives
    // the same answer
    let mut w: u32 = 0;
    while w <= 0xFFFF {
        let word = w as u16;
        let a = Instruction::decode(&word);
        let b = Instruction::decode(&word);
        assert_eq!(a, b);
        w += 1;
    }
}
