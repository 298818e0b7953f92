//! The typed instruction set and the decoder.
//!
//! `decode` maps every 16-bit instruction word to `Some` typed instruction or
//! to `None` for an encoding the machine does not recognize (including the
//! legacy machine-code-call opcodes of the `0x0` family).  It is total and
//! deterministic: its result always equals the spec-level `spec_decode`.

use vstd::prelude::*;

verus! {

/// A 12-bit memory address operand (bits 0-11 of the instruction word).
#[derive(Clone, Copy, Debug, PartialEq, Eq, Structural)]
pub struct Addr(pub u16);

/// A 4-bit register index operand (one of the sixteen V registers).
#[derive(Clone, Copy, Debug, PartialEq, Eq, Structural)]
pub struct VReg(pub u8);

/// The closed instruction set: one variant per mnemonic, with typed operands.
#[derive(Clone, Copy, Debug, PartialEq, Eq, Structural)]
pub enum Instruction {
    /// 00E0: clear the display
    CLS,
    /// 00EE: return from subroutine
    RET,
    /// 1nnn: jump to address
    JP(Addr),
    /// 2nnn: call subroutine (push return address, jump)
    CALL(Addr),
    /// 3xkk: skip next instruction if Vx == kk
    SEB(VReg, u8),
    /// 4xkk: skip next instruction if Vx != kk
    SNEB(VReg, u8),
    /// 5xy0: skip next instruction if Vx == Vy
    SEV(VReg, VReg),
    /// 6xkk: Vx = kk
    LDB(VReg, u8),
    /// 7xkk: Vx = Vx + kk (wrapping, no flag)
    ADDB(VReg, u8),
    /// 8xy0: Vx = Vy
    LDV(VReg, VReg),
    /// 8xy1: Vx = Vx | Vy
    OR(VReg, VReg),
    /// 8xy2: Vx = Vx & Vy
    AND(VReg, VReg),
    /// 8xy3: Vx = Vx ^ Vy
    XOR(VReg, VReg),
    /// 8xy4: Vx = Vx + Vy, VF = carry
    ADDC(VReg, VReg),
    /// 8xy5: Vx = Vx - Vy, VF = NOT borrow
    SUB(VReg, VReg),
    /// 8xy6: shift right, VF = shifted-out bit (quirk-dependent source)
    SHR(VReg, VReg),
    /// 8xy7: Vx = Vy - Vx, VF = NOT borrow
    SUBN(VReg, VReg),
    /// 8xyE: shift left, VF = shifted-out bit (quirk-dependent source)
    SHL(VReg, VReg),
    /// 9xy0: skip next instruction if Vx != Vy
    SNEV(VReg, VReg),
    /// Annn: I = address
    LDI(Addr),
    /// Bnnn: jump to address + V0
    JPV(Addr),
    /// Cxkk: Vx = random byte & kk
    RND(VReg, u8),
    /// Dxyn: draw an n-byte sprite at (Vx, Vy), VF = collision
    DRW(VReg, VReg, u8),
    /// Ex9E: skip next instruction if key Vx is pressed
    SKP(VReg),
    /// ExA1: skip next instruction if key Vx is not pressed
    SKNP(VReg),
    /// Fx07: Vx = delay timer
    LDVD(VReg),
    /// Fx0A: wait for a key press, Vx = key code
    LDK(VReg),
    /// Fx15: delay timer = Vx
    LDDV(VReg),
    /// Fx18: sound timer = Vx
    LDSV(VReg),
    /// Fx1E: I = I + Vx
    ADDI(VReg),
    /// Fx29: I = address of the font sprite for digit Vx
    LDIS(VReg),
    /// Fx33: store the BCD digits of Vx at I, I+1, I+2
    LDD(VReg),
    /// Fx55: store V0..Vx to memory starting at I
    LDMV(VReg),
    /// Fx65: load V0..Vx from memory starting at I
    LDVM(VReg),
}

/// The mathematical decoder: what every 16-bit word means.
///
/// Two full-word matches handle the parameterless opcodes; the rest are
/// classified by the high nibble and, where that is ambiguous, by the low
/// nibble or the low byte.
pub open spec fn spec_decode(w: u16) -> Option<Instruction> {
    if w == 0x00E0 {
        Some(Instruction::CLS)
    } else if w == 0x00EE {
        Some(Instruction::RET)
    } else {
        let hi = w & 0xF000;
        let hi_lo = w & 0xF00F;
        let hi_byte = w & 0xF0FF;
        let addr = Addr(w & 0x0FFF);
        let x = VReg(((w & 0x0F00) >> 8u16) as u8);
        let y = VReg(((w & 0x00F0) >> 4u16) as u8);
        let kk = (w & 0x00FF) as u8;
        let n = (w & 0x000F) as u8;
        if hi == 0x0000 {
            None
        } else if hi == 0x1000 {
            Some(Instruction::JP(addr))
        } else if hi == 0x2000 {
            Some(Instruction::CALL(addr))
        } else if hi == 0x3000 {
            Some(Instruction::SEB(x, kk))
        } else if hi == 0x4000 {
            Some(Instruction::SNEB(x, kk))
        } else if hi == 0x6000 {
            Some(Instruction::LDB(x, kk))
        } else if hi == 0x7000 {
            Some(Instruction::ADDB(x, kk))
        } else if hi == 0xA000 {
            Some(Instruction::LDI(addr))
        } else if hi == 0xB000 {
            Some(Instruction::JPV(addr))
        } else if hi == 0xC000 {
            Some(Instruction::RND(x, kk))
        } else if hi == 0xD000 {
            Some(Instruction::DRW(x, y, n))
        } else if hi_lo == 0x5000 {
            Some(Instruction::SEV(x, y))
        } else if hi_lo == 0x8000 {
            Some(Instruction::LDV(x, y))
        } else if hi_lo == 0x8001 {
            Some(Instruction::OR(x, y))
        } else if hi_lo == 0x8002 {
            Some(Instruction::AND(x, y))
        } else if hi_lo == 0x8003 {
            Some(Instruction::XOR(x, y))
        } else if hi_lo == 0x8004 {
            Some(Instruction::ADDC(x, y))
        } else if hi_lo == 0x8005 {
            Some(Instruction::SUB(x, y))
        } else if hi_lo == 0x8006 {
            Some(Instruction::SHR(x, y))
        } else if hi_lo == 0x8007 {
            Some(Instruction::SUBN(x, y))
        } else if hi_lo == 0x800E {
            Some(Instruction::SHL(x, y))
        } else if hi_lo == 0x9000 {
            Some(Instruction::SNEV(x, y))
        } else if hi_byte == 0xE09E {
            Some(Instruction::SKP(x))
        } else if hi_byte == 0xE0A1 {
            Some(Instruction::SKNP(x))
        } else if hi_byte == 0xF007 {
            Some(Instruction::LDVD(x))
        } else if hi_byte == 0xF00A {
            Some(Instruction::LDK(x))
        } else if hi_byte == 0xF015 {
            Some(Instruction::LDDV(x))
        } else if hi_byte == 0xF018 {
            Some(Instruction::LDSV(x))
        } else if hi_byte == 0xF01E {
            Some(Instruction::ADDI(x))
        } else if hi_byte == 0xF029 {
            Some(Instruction::LDIS(x))
        } else if hi_byte == 0xF033 {
            Some(Instruction::LDD(x))
        } else if hi_byte == 0xF055 {
            Some(Instruction::LDMV(x))
        } else if hi_byte == 0xF065 {
            Some(Instruction::LDVM(x))
        } else {
            None
        }
    }
}

impl Instruction {
    /// Decode a 16-bit instruction word.
    ///
    /// Total (it cannot fail or panic) and deterministic: the result is
    /// exactly `spec_decode` of the word.  `None` is the defined result for
    /// an unrecognized encoding, not an error.
    pub fn decode(ins: &u16) -> (r: Option<Instruction>)
        ensures
            r == spec_decode(*ins),
    {
        let w = *ins;
        if w == 0x00E0 {
            return Some(Instruction::CLS);
        }
        if w == 0x00EE {
            return Some(Instruction::RET);
        }
        let hi = w & 0xF000;
        let hi_lo = w & 0xF00F;
        let hi_byte = w & 0xF0FF;
        proof {
            assert((w & 0x0F00) >> 8u16 <= 0xF) by (bit_vector);
            assert((w & 0x00F0) >> 4u16 <= 0xF) by (bit_vector);
            assert(w & 0x00FF <= 0xFF) by (bit_vector);
            assert(w & 0x000F <= 0xF) by (bit_vector);
        }
        let addr = Addr(w & 0x0FFF);
        let x = VReg(((w & 0x0F00) >> 8u16) as u8);
        let y = VReg(((w & 0x00F0) >> 4u16) as u8);
        let kk = (w & 0x00FF) as u8;
        let n = (w & 0x000F) as u8;
        if hi == 0x0000 {
            None
        } else if hi == 0x1000 {
            Some(Instruction::JP(addr))
        } else if hi == 0x2000 {
            Some(Instruction::CALL(addr))
        } else if hi == 0x3000 {
            Some(Instruction::SEB(x, kk))
        } else if hi == 0x4000 {
            Some(Instruction::SNEB(x, kk))
        } else if hi == 0x6000 {
            Some(Instruction::LDB(x, kk))
        } else if hi == 0x7000 {
            Some(Instruction::ADDB(x, kk))
        } else if hi == 0xA000 {
            Some(Instruction::LDI(addr))
        } else if hi == 0xB000 {
            Some(Instruction::JPV(addr))
        } else if hi == 0xC000 {
            Some(Instruction::RND(x, kk))
        } else if hi == 0xD000 {
            Some(Instruction::DRW(x, y, n))
        } else if hi_lo == 0x5000 {
            Some(Instruction::SEV(x, y))
        } else if hi_lo == 0x8000 {
            Some(Instruction::LDV(x, y))
        } else if hi_lo == 0x8001 {
            Some(Instruction::OR(x, y))
        } else if hi_lo == 0x8002 {
            Some(Instruction::AND(x, y))
        } else if hi_lo == 0x8003 {
            Some(Instruction::XOR(x, y))
        } else if hi_lo == 0x8004 {
            Some(Instruction::ADDC(x, y))
        } else if hi_lo == 0x8005 {
            Some(Instruction::SUB(x, y))
        } else if hi_lo == 0x8006 {
            Some(Instruction::SHR(x, y))
        } else if hi_lo == 0x8007 {
            Some(Instruction::SUBN(x, y))
        } else if hi_lo == 0x800E {
            Some(Instruction::SHL(x, y))
        } else if hi_lo == 0x9000 {
            Some(Instruction::SNEV(x, y))
        } else if hi_byte == 0xE09E {
            Some(Instruction::SKP(x))
        } else if hi_byte == 0xE0A1 {
            Some(Instruction::SKNP(x))
        } else if hi_byte == 0xF007 {
            Some(Instruction::LDVD(x))
        } else if hi_byte == 0xF00A {
            Some(Instruction::LDK(x))
        } else if hi_byte == 0xF015 {
            Some(Instruction::LDDV(x))
        } else if hi_byte == 0xF018 {
            Some(Instruction::LDSV(x))
        } else if hi_byte == 0xF01E {
            Some(Instruction::ADDI(x))
        } else if hi_byte == 0xF029 {
            Some(Instruction::LDIS(x))
        } else if hi_byte == 0xF033 {
            Some(Instruction::LDD(x))
        } else if hi_byte == 0xF055 {
            Some(Instruction::LDMV(x))
        } else if hi_byte == 0xF065 {
            Some(Instruction::LDVM(x))
        } else {
            None
        }
    }
}

} // verus!
