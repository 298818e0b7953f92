//! The executor: applying one decoded instruction to the machine state.
//!
//! `exec_spec` is the mathematical transition function — for every
//! instruction, machine view and injected input it gives the next view and
//! the outcome (a control-flow note, or a fault that left the state
//! untouched).  `Instruction::execute` is proved to implement it exactly.

use vstd::prelude::*;

use crate::arith::{
    add_with_carry, first_down, first_down_key_from, is_key_down, key_down, sub_with_borrow,
    wrap_add16, wrap_add8, wrap_sub8, wrapping_add_u16,
};
use crate::draw::{
    draw_collision, draw_rows, lemma_draw_rows_frame, lemma_draw_rows_len, sprite_row_mask,
};
use crate::insn::{Instruction, VReg};
use crate::machine::{
    reg_index, reg_sel, ExecInput, Fault, Flow, Machine, MachineView,
};

verus! {

/// The carry flag of an 8-bit addition: 1 exactly when the sum wrapped.
pub open spec fn carry8(a: u8, b: u8) -> u8 {
    if a + b >= 256 {
        1u8
    } else {
        0u8
    }
}

/// The NOT-borrow flag of an 8-bit subtraction: 1 exactly when no borrow
/// occurred.
pub open spec fn noborrow8(a: u8, b: u8) -> u8 {
    if a >= b {
        1u8
    } else {
        0u8
    }
}

/// The machine with register `x` set to `v`.
pub open spec fn with_reg(m: MachineView, x: VReg, v: u8) -> MachineView {
    MachineView { regs: m.regs.update(reg_sel(x), v), ..m }
}

/// The machine with register `x` set to `v` and then the flag register set
/// to `flag` (the flag wins when `x` selects register 15).
pub open spec fn with_reg_flag(m: MachineView, x: VReg, v: u8, flag: u8) -> MachineView {
    MachineView { regs: m.regs.update(reg_sel(x), v).update(15, flag), ..m }
}

/// The machine after a conditional two-byte skip: on top of this the
/// stepper still applies its generic advance.
pub open spec fn skip_if(m: MachineView, cond: bool) -> MachineView {
    if cond {
        MachineView { pc: wrap_add16(m.pc, 2), ..m }
    } else {
        m
    }
}

/// Memory after storing registers 0..count-1 at `base`.
pub open spec fn store_regs(ram: Seq<u8>, regs: Seq<u8>, base: int, count: int) -> Seq<u8> {
    Seq::new(
        ram.len(),
        |j: int|
            if base <= j < base + count {
                regs[j - base]
            } else {
                ram[j]
            },
    )
}

/// Registers after loading registers 0..count-1 from memory at `base`.
pub open spec fn load_regs(regs: Seq<u8>, ram: Seq<u8>, base: int, count: int) -> Seq<u8> {
    Seq::new(
        regs.len(),
        |j: int|
            if 0 <= j < count {
                ram[base + j]
            } else {
                regs[j]
            },
    )
}

/// The transition function: what executing `i` on machine `m` with injected
/// input `inp` yields — the next machine view and the outcome.  Faults
/// leave the view exactly as it was.
pub open spec fn exec_spec(i: Instruction, m: MachineView, inp: ExecInput) -> (
    MachineView,
    Result<Flow, Fault>,
) {
    match i {
        Instruction::CLS => (
            MachineView { screen: Seq::new(32, |j: int| 0u64), ..m },
            Ok(Flow::Advance),
        ),
        Instruction::RET => {
            if m.sp == 0 {
                (m, Err(Fault::StackUnderflow))
            } else {
                (
                    MachineView { pc: m.stack[m.sp - 1], sp: (m.sp - 1) as u8, ..m },
                    Ok(Flow::Jumped),
                )
            }
        },
        Instruction::JP(a) => (MachineView { pc: a.0, ..m }, Ok(Flow::Jumped)),
        Instruction::CALL(a) => {
            if m.sp >= 16 {
                (m, Err(Fault::StackOverflow))
            } else {
                (
                    MachineView {
                        stack: m.stack.update(m.sp as int, wrap_add16(m.pc, 2)),
                        sp: (m.sp + 1) as u8,
                        pc: a.0,
                        ..m
                    },
                    Ok(Flow::Jumped),
                )
            }
        },
        Instruction::SEB(x, kk) => (skip_if(m, m.regs[reg_sel(x)] == kk), Ok(Flow::Advance)),
        Instruction::SNEB(x, kk) => (skip_if(m, m.regs[reg_sel(x)] != kk), Ok(Flow::Advance)),
        Instruction::SEV(x, y) => (
            skip_if(m, m.regs[reg_sel(x)] == m.regs[reg_sel(y)]),
            Ok(Flow::Advance),
        ),
        Instruction::SNEV(x, y) => (
            skip_if(m, m.regs[reg_sel(x)] != m.regs[reg_sel(y)]),
            Ok(Flow::Advance),
        ),
        Instruction::LDB(x, kk) => (with_reg(m, x, kk), Ok(Flow::Advance)),
        Instruction::ADDB(x, kk) => (
            with_reg(m, x, wrap_add8(m.regs[reg_sel(x)], kk)),
            Ok(Flow::Advance),
        ),
        Instruction::LDV(x, y) => (with_reg(m, x, m.regs[reg_sel(y)]), Ok(Flow::Advance)),
        Instruction::OR(x, y) => (
            with_reg(m, x, m.regs[reg_sel(x)] | m.regs[reg_sel(y)]),
            Ok(Flow::Advance),
        ),
        Instruction::AND(x, y) => (
            with_reg(m, x, m.regs[reg_sel(x)] & m.regs[reg_sel(y)]),
            Ok(Flow::Advance),
        ),
        Instruction::XOR(x, y) => (
            with_reg(m, x, m.regs[reg_sel(x)] ^ m.regs[reg_sel(y)]),
            Ok(Flow::Advance),
        ),
        Instruction::ADDC(x, y) => (
            with_reg_flag(
                m,
                x,
                wrap_add8(m.regs[reg_sel(x)], m.regs[reg_sel(y)]),
                carry8(m.regs[reg_sel(x)], m.regs[reg_sel(y)]),
            ),
            Ok(Flow::Advance),
        ),
        Instruction::SUB(x, y) => (
            with_reg_flag(
                m,
                x,
                wrap_sub8(m.regs[reg_sel(x)], m.regs[reg_sel(y)]),
                noborrow8(m.regs[reg_sel(x)], m.regs[reg_sel(y)]),
            ),
            Ok(Flow::Advance),
        ),
        Instruction::SUBN(x, y) => (
            with_reg_flag(
                m,
                x,
                wrap_sub8(m.regs[reg_sel(y)], m.regs[reg_sel(x)]),
                noborrow8(m.regs[reg_sel(y)], m.regs[reg_sel(x)]),
            ),
            Ok(Flow::Advance),
        ),
        Instruction::SHR(x, y) => {
            let src = if m.quirks.high_precision_shift {
                m.regs[reg_sel(x)]
            } else {
                m.regs[reg_sel(y)]
            };
            (with_reg_flag(m, x, src >> 1u8, src & 1), Ok(Flow::Advance))
        },
        Instruction::SHL(x, y) => {
            let src = if m.quirks.high_precision_shift {
                m.regs[reg_sel(x)]
            } else {
                m.regs[reg_sel(y)]
            };
            (with_reg_flag(m, x, src << 1u8, src >> 7u8), Ok(Flow::Advance))
        },
        Instruction::LDI(a) => (MachineView { index: a.0, ..m }, Ok(Flow::Advance)),
        Instruction::JPV(a) => (
            MachineView { pc: wrap_add16(a.0, m.regs[0] as u16), ..m },
            Ok(Flow::Jumped),
        ),
        Instruction::RND(x, kk) => (with_reg(m, x, inp.random & kk), Ok(Flow::Advance)),
        Instruction::DRW(x, y, n) => {
            if n == 0 {
                (m, Ok(Flow::Advance))
            } else if m.index + n > 4096 {
                (m, Err(Fault::MemoryRangeOutOfBounds))
            } else {
                let px = if m.quirks.wrap_sprite {
                    m.regs[reg_sel(x)] as int
                } else {
                    (m.regs[reg_sel(x)] % 64) as int
                };
                let py = if m.quirks.wrap_sprite {
                    m.regs[reg_sel(y)] as int
                } else {
                    (m.regs[reg_sel(y)] % 32) as int
                };
                let coll = draw_collision(m.screen, m.ram, m.index as int, px, py, n as int);
                (
                    MachineView {
                        screen: draw_rows(m.screen, m.ram, m.index as int, px, py, n as int),
                        regs: m.regs.update(15, if coll { 1u8 } else { 0u8 }),
                        ..m
                    },
                    Ok(Flow::Advance),
                )
            }
        },
        Instruction::SKP(x) => (
            skip_if(m, key_down(inp.keys, m.regs[reg_sel(x)])),
            Ok(Flow::Advance),
        ),
        Instruction::SKNP(x) => (
            skip_if(m, !key_down(inp.keys, m.regs[reg_sel(x)])),
            Ok(Flow::Advance),
        ),
        Instruction::LDVD(x) => (with_reg(m, x, m.delay), Ok(Flow::Advance)),
        Instruction::LDK(x) => {
            if inp.keys == 0 {
                (m, Ok(Flow::WaitKey))
            } else {
                (with_reg(m, x, first_down(inp.keys)), Ok(Flow::Advance))
            }
        },
        Instruction::LDDV(x) => (
            MachineView { delay: m.regs[reg_sel(x)], ..m },
            Ok(Flow::Advance),
        ),
        Instruction::LDSV(x) => (
            MachineView { sound: m.regs[reg_sel(x)], ..m },
            Ok(Flow::Advance),
        ),
        Instruction::ADDI(x) => (
            MachineView { index: wrap_add16(m.index, m.regs[reg_sel(x)] as u16), ..m },
            Ok(Flow::Advance),
        ),
        Instruction::LDIS(x) => (
            MachineView { index: (0x50 + 5 * m.regs[reg_sel(x)]) as u16, ..m },
            Ok(Flow::Advance),
        ),
        Instruction::LDD(x) => {
            if m.index + 2 >= 4096 {
                (m, Err(Fault::MemoryRangeOutOfBounds))
            } else {
                let v = m.regs[reg_sel(x)];
                (
                    MachineView {
                        ram: m.ram.update(m.index as int, (v / 100) as u8).update(
                            m.index + 1,
                            ((v / 10) % 10) as u8,
                        ).update(m.index + 2, (v % 10) as u8),
                        ..m
                    },
                    Ok(Flow::Advance),
                )
            }
        },
        Instruction::LDMV(x) => {
            if m.index + reg_sel(x) >= 4096 {
                (m, Err(Fault::MemoryRangeOutOfBounds))
            } else {
                (
                    MachineView {
                        ram: store_regs(m.ram, m.regs, m.index as int, reg_sel(x) + 1),
                        index: if m.quirks.auto_increment_index {
                            (m.index + reg_sel(x) + 1) as u16
                        } else {
                            m.index
                        },
                        ..m
                    },
                    Ok(Flow::Advance),
                )
            }
        },
        Instruction::LDVM(x) => {
            if m.index + reg_sel(x) >= 4096 {
                (m, Err(Fault::MemoryRangeOutOfBounds))
            } else {
                (
                    MachineView {
                        regs: load_regs(m.regs, m.ram, m.index as int, reg_sel(x) + 1),
                        index: if m.quirks.auto_increment_index {
                            (m.index + reg_sel(x) + 1) as u16
                        } else {
                            m.index
                        },
                        ..m
                    },
                    Ok(Flow::Advance),
                )
            }
        },
    }
}

impl Machine {
    /// Set register `x` (clamped) to `v`.
    fn set_reg(&mut self, x: VReg, v: u8)
        requires
            old(self).wf(),
        ensures
            final(self).wf(),
            final(self)@ == with_reg(old(self)@, x, v),
    {
        let i = reg_index(x);
        self.regs[i] = v;
    }

    /// Set register `x` (clamped) to `v`, then the flag register to `flag`.
    fn set_reg_flag(&mut self, x: VReg, v: u8, flag: u8)
        requires
            old(self).wf(),
        ensures
            final(self).wf(),
            final(self)@ == with_reg_flag(old(self)@, x, v, flag),
    {
        let i = reg_index(x);
        self.regs[i] = v;
        self.regs[15] = flag;
    }

    /// Add the two-byte skip to the program counter when `cond` holds.
    fn skip_when(&mut self, cond: bool)
        requires
            old(self).wf(),
        ensures
            final(self).wf(),
            final(self)@ == skip_if(old(self)@, cond),
    {
        if cond {
            self.pc = wrapping_add_u16(self.pc, 2);
        }
    }

    /// Clear the display to all-zero rows.
    fn clear_screen(&mut self)
        requires
            old(self).wf(),
        ensures
            final(self).wf(),
            final(self)@ == (MachineView { screen: Seq::new(32, |j: int| 0u64), ..old(self)@ }),
    {
        let mut r: usize = 0;
        while r < 32
            invariant
                r <= 32,
                self@.screen.len() == 32,
                forall|j: int| 0 <= j < r ==> self@.screen[j] == 0u64,
                self@ == (MachineView { screen: self@.screen, ..old(self)@ }),
            decreases 32 - r,
        {
            self.screen[r] = 0;
            r = r + 1;
        }
        proof {
            assert(self@.screen =~= Seq::new(32, |j: int| 0u64));
        }
    }

    /// XOR-draw `n` sprite rows read from memory at `base` onto the display
    /// with origin (`px`, `py`); report whether any row landed on a lit
    /// pixel.
    fn draw_sprite(&mut self, base: usize, px: u8, py: u8, n: u8) -> (coll: bool)
        requires
            old(self).wf(),
            base + n <= 4096,
        ensures
            final(self).wf(),
            final(self)@ == (MachineView {
                screen: draw_rows(
                    old(self)@.screen,
                    old(self)@.ram,
                    base as int,
                    px as int,
                    py as int,
                    n as int,
                ),
                ..old(self)@
            }),
            coll == draw_collision(
                old(self)@.screen,
                old(self)@.ram,
                base as int,
                px as int,
                py as int,
                n as int,
            ),
    {
        let mut coll = false;
        let mut r: usize = 0;
        while r < n as usize
            invariant
                r <= n,
                base + n <= 4096,
                old(self)@.wf(),
                self@.screen == draw_rows(
                    old(self)@.screen,
                    old(self)@.ram,
                    base as int,
                    px as int,
                    py as int,
                    r as int,
                ),
                coll == draw_collision(
                    old(self)@.screen,
                    old(self)@.ram,
                    base as int,
                    px as int,
                    py as int,
                    r as int,
                ),
                self@ == (MachineView { screen: self@.screen, ..old(self)@ }),
            decreases n - r,
        {
            proof {
                lemma_draw_rows_len(
                    old(self)@.screen,
                    old(self)@.ram,
                    base as int,
                    px as int,
                    py as int,
                    r as int,
                );
            }
            let cy = py as usize + r;
            if cy < 32 {
                proof {
                    lemma_draw_rows_frame(
                        old(self)@.screen,
                        old(self)@.ram,
                        base as int,
                        px as int,
                        py as int,
                        r as int,
                        cy as int,
                    );
                }
                let mask = sprite_row_mask(self.ram[base + r], px);
                let cur = self.screen[cy];
                if cur & mask != 0 {
                    coll = true;
                }
                self.screen[cy] = cur ^ mask;
            }
            r = r + 1;
        }
        proof {
            lemma_draw_rows_len(
                old(self)@.screen,
                old(self)@.ram,
                base as int,
                px as int,
                py as int,
                n as int,
            );
        }
        coll
    }

    /// Store registers 0..count-1 to memory at the index register.
    fn store_regs_to_ram(&mut self, count: usize)
        requires
            old(self).wf(),
            1 <= count <= 16,
            old(self)@.index + count <= 4096,
        ensures
            final(self).wf(),
            final(self)@ == (MachineView {
                ram: store_regs(old(self)@.ram, old(self)@.regs, old(self)@.index as int, count as int),
                ..old(self)@
            }),
    {
        let base = self.index as usize;
        let mut j: usize = 0;
        while j < count
            invariant
                j <= count,
                1 <= count <= 16,
                base == old(self)@.index,
                base + count <= 4096,
                old(self)@.wf(),
                self@.ram.len() == 4096,
                forall|t: int|
                    0 <= t < 4096 ==> self@.ram[t] == (if base <= t < base + j {
                        old(self)@.regs[t - base]
                    } else {
                        old(self)@.ram[t]
                    }),
                self@ == (MachineView { ram: self@.ram, ..old(self)@ }),
            decreases count - j,
        {
            self.ram[base + j] = self.regs[j];
            j = j + 1;
        }
        proof {
            assert(self@.ram =~= store_regs(
                old(self)@.ram,
                old(self)@.regs,
                old(self)@.index as int,
                count as int,
            ));
        }
    }

    /// Load registers 0..count-1 from memory at the index register.
    fn load_regs_from_ram(&mut self, count: usize)
        requires
            old(self).wf(),
            1 <= count <= 16,
            old(self)@.index + count <= 4096,
        ensures
            final(self).wf(),
            final(self)@ == (MachineView {
                regs: load_regs(old(self)@.regs, old(self)@.ram, old(self)@.index as int, count as int),
                ..old(self)@
            }),
    {
        let base = self.index as usize;
        let mut j: usize = 0;
        while j < count
            invariant
                j <= count,
                1 <= count <= 16,
                base == old(self)@.index,
                base + count <= 4096,
                old(self)@.wf(),
                self@.regs.len() == 16,
                forall|t: int|
                    0 <= t < 16 ==> self@.regs[t] == (if 0 <= t < j {
                        old(self)@.ram[base + t]
                    } else {
                        old(self)@.regs[t]
                    }),
                self@ == (MachineView { regs: self@.regs, ..old(self)@ }),
            decreases count - j,
        {
            self.regs[j] = self.ram[base + j];
            j = j + 1;
        }
        proof {
            assert(self@.regs =~= load_regs(
                old(self)@.regs,
                old(self)@.ram,
                old(self)@.index as int,
                count as int,
            ));
        }
    }
    /// Store the three BCD digits of `v` at memory offsets `i`, `i+1`,
    /// `i+2`.
    fn write_bcd(&mut self, i: usize, v: u8)
        requires
            old(self).wf(),
            i + 2 < 4096,
        ensures
            final(self).wf(),
            final(self)@ == (MachineView {
                ram: old(self)@.ram.update(i as int, (v / 100) as u8).update(
                    i as int + 1,
                    ((v / 10) % 10) as u8,
                ).update(i as int + 2, (v % 10) as u8),
                ..old(self)@
            }),
    {
        self.ram[i] = v / 100;
        self.ram[i + 1] = (v / 10) % 10;
        self.ram[i + 2] = v % 10;
    }
}

impl Instruction {
    /// Execute one instruction against the machine state, consuming the
    /// injected input where the instruction calls for it.
    ///
    /// Implements `exec_spec` exactly: the new state is its first
    /// component, the returned outcome its second.  A fault leaves the
    /// machine untouched.
    pub fn execute(&self, m: &mut Machine, inp: ExecInput) -> (r: Result<Flow, Fault>)
        requires
            old(m).wf(),
        ensures
            final(m).wf(),
            final(m)@ == exec_spec(*self, old(m)@, inp).0,
            r == exec_spec(*self, old(m)@, inp).1,
    {
        match *self {
            Instruction::CLS => {
                m.clear_screen();
                Ok(Flow::Advance)
            },
            Instruction::RET => {
                if m.sp == 0 {
                    Err(Fault::StackUnderflow)
                } else {
                    m.sp = m.sp - 1;
                    m.pc = m.stack[m.sp as usize];
                    Ok(Flow::Jumped)
                }
            },
            Instruction::JP(a) => {
                m.pc = a.0;
                Ok(Flow::Jumped)
            },
            Instruction::CALL(a) => {
                if m.sp >= 16 {
                    Err(Fault::StackOverflow)
                } else {
                    let ret = wrapping_add_u16(m.pc, 2);
                    m.stack[m.sp as usize] = ret;
                    m.sp = m.sp + 1;
                    m.pc = a.0;
                    Ok(Flow::Jumped)
                }
            },
            Instruction::SEB(x, kk) => {
                let c = m.regs[reg_index(x)] == kk;
                m.skip_when(c);
                Ok(Flow::Advance)
            },
            Instruction::SNEB(x, kk) => {
                let c = m.regs[reg_index(x)] != kk;
                m.skip_when(c);
                Ok(Flow::Advance)
            },
            Instruction::SEV(x, y) => {
                let c = m.regs[reg_index(x)] == m.regs[reg_index(y)];
                m.skip_when(c);
                Ok(Flow::Advance)
            },
            Instruction::SNEV(x, y) => {
                let c = m.regs[reg_index(x)] != m.regs[reg_index(y)];
                m.skip_when(c);
                Ok(Flow::Advance)
            },
            Instruction::LDB(x, kk) => {
                m.set_reg(x, kk);
                Ok(Flow::Advance)
            },
            Instruction::ADDB(x, kk) => {
                let (v, _) = add_with_carry(m.regs[reg_index(x)], kk);
                m.set_reg(x, v);
                Ok(Flow::Advance)
            },
            Instruction::LDV(x, y) => {
                let v = m.regs[reg_index(y)];
                m.set_reg(x, v);
                Ok(Flow::Advance)
            },
            Instruction::OR(x, y) => {
                let v = m.regs[reg_index(x)] | m.regs[reg_index(y)];
                m.set_reg(x, v);
                Ok(Flow::Advance)
            },
            Instruction::AND(x, y) => {
                let v = m.regs[reg_index(x)] & m.regs[reg_index(y)];
                m.set_reg(x, v);
                Ok(Flow::Advance)
            },
            Instruction::XOR(x, y) => {
                let v = m.regs[reg_index(x)] ^ m.regs[reg_index(y)];
                m.set_reg(x, v);
                Ok(Flow::Advance)
            },
            Instruction::ADDC(x, y) => {
                let (v, flag) = add_with_carry(m.regs[reg_index(x)], m.regs[reg_index(y)]);
                m.set_reg_flag(x, v, flag);
                Ok(Flow::Advance)
            },
            Instruction::SUB(x, y) => {
                let (v, flag) = sub_with_borrow(m.regs[reg_index(x)], m.regs[reg_index(y)]);
                m.set_reg_flag(x, v, flag);
                Ok(Flow::Advance)
            },
            Instruction::SUBN(x, y) => {
                let (v, flag) = sub_with_borrow(m.regs[reg_index(y)], m.regs[reg_index(x)]);
                m.set_reg_flag(x, v, flag);
                Ok(Flow::Advance)
            },
            Instruction::SHR(x, y) => {
                let src = if m.quirks.high_precision_shift {
                    m.regs[reg_index(x)]
                } else {
                    m.regs[reg_index(y)]
                };
                m.set_reg_flag(x, src >> 1u8, src & 1);
                Ok(Flow::Advance)
            },
            Instruction::SHL(x, y) => {
                let src = if m.quirks.high_precision_shift {
                    m.regs[reg_index(x)]
                } else {
                    m.regs[reg_index(y)]
                };
                m.set_reg_flag(x, src << 1u8, src >> 7u8);
                Ok(Flow::Advance)
            },
            Instruction::LDI(a) => {
                m.index = a.0;
                Ok(Flow::Advance)
            },
            Instruction::JPV(a) => {
                m.pc = wrapping_add_u16(a.0, m.regs[0] as u16);
                Ok(Flow::Jumped)
            },
            Instruction::RND(x, kk) => {
                m.set_reg(x, inp.random & kk);
                Ok(Flow::Advance)
            },
            Instruction::DRW(x, y, n) => {
                if n == 0 {
                    Ok(Flow::Advance)
                } else if m.index as usize + n as usize > 4096 {
                    Err(Fault::MemoryRangeOutOfBounds)
                } else {
                    let (px, py) = if m.quirks.wrap_sprite {
                        (m.regs[reg_index(x)], m.regs[reg_index(y)])
                    } else {
                        (m.regs[reg_index(x)] % 64, m.regs[reg_index(y)] % 32)
                    };
                    let base = m.index as usize;
                    let coll = m.draw_sprite(base, px, py, n);
                    m.regs[15] = if coll {
                        1
                    } else {
                        0
                    };
                    Ok(Flow::Advance)
                }
            },
            Instruction::SKP(x) => {
                let c = is_key_down(inp.keys, m.regs[reg_index(x)]);
                m.skip_when(c);
                Ok(Flow::Advance)
            },
            Instruction::SKNP(x) => {
                let c = !is_key_down(inp.keys, m.regs[reg_index(x)]);
                m.skip_when(c);
                Ok(Flow::Advance)
            },
            Instruction::LDVD(x) => {
                let v = m.delay;
                m.set_reg(x, v);
                Ok(Flow::Advance)
            },
            Instruction::LDK(x) => {
                if inp.keys == 0 {
                    Ok(Flow::WaitKey)
                } else {
                    let k = first_down_key_from(inp.keys, 0);
                    m.set_reg(x, k);
                    Ok(Flow::Advance)
                }
            },
            Instruction::LDDV(x) => {
                m.delay = m.regs[reg_index(x)];
                Ok(Flow::Advance)
            },
            Instruction::LDSV(x) => {
                m.sound = m.regs[reg_index(x)];
                Ok(Flow::Advance)
            },
            Instruction::ADDI(x) => {
                m.index = wrapping_add_u16(m.index, m.regs[reg_index(x)] as u16);
                Ok(Flow::Advance)
            },
            Instruction::LDIS(x) => {
                m.index = 0x50 + 5 * (m.regs[reg_index(x)] as u16);
                Ok(Flow::Advance)
            },
            Instruction::LDD(x) => {
                if m.index >= 4094 {
                    Err(Fault::MemoryRangeOutOfBounds)
                } else {
                    let i = m.index as usize;
                    let v = m.regs[reg_index(x)];
                    m.write_bcd(i, v);
                    Ok(Flow::Advance)
                }
            },
            Instruction::LDMV(x) => {
                let xi = reg_index(x);
                if m.index as usize + xi >= 4096 {
                    Err(Fault::MemoryRangeOutOfBounds)
                } else {
                    m.store_regs_to_ram(xi + 1);
                    if m.quirks.auto_increment_index {
                        m.index = m.index + xi as u16 + 1;
                    }
                    Ok(Flow::Advance)
                }
            },
            Instruction::LDVM(x) => {
                let xi = reg_index(x);
                if m.index as usize + xi >= 4096 {
                    Err(Fault::MemoryRangeOutOfBounds)
                } else {
                    m.load_regs_from_ram(xi + 1);
                    if m.quirks.auto_increment_index {
                        m.index = m.index + xi as u16 + 1;
                    }
                    Ok(Flow::Advance)
                }
            },
        }
    }

}

} // verus!
