//! The stepper: one logical cycle — timer decay, fetch, decode, execute,
//! program-counter advance.

use vstd::prelude::*;

use crate::arith::{wrap_add16, wrapping_add_u16};
use crate::exec::exec_spec;
use crate::insn::{spec_decode, Instruction};
use crate::machine::{tick_spec, ExecInput, Fault, Flow, Machine, MachineView};

verus! {

/// The big-endian 16-bit instruction word at program-counter offset `pc`.
pub open spec fn fetch_word(ram: Seq<u8>, pc: u16) -> u16 {
    ((ram[pc as int] as u16) << 8u16) | (ram[pc as int + 1] as u16)
}

/// One logical cycle as a mathematical function: decay the timers by
/// `ticks`, then — if the program counter addresses two in-bounds bytes —
/// fetch, decode and execute, applying the generic two-byte advance unless
/// the instruction placed the program counter itself (or is still waiting
/// for a key).  A fault is reported with the state left as it was after the
/// timer decay.
pub open spec fn step_spec(m: MachineView, ticks: u8, inp: ExecInput) -> (
    MachineView,
    Result<Flow, Fault>,
) {
    let t = tick_spec(m, ticks);
    if t.pc >= 4095 {
        (t, Err(Fault::ProgramCounterOutOfBounds))
    } else {
        match spec_decode(fetch_word(t.ram, t.pc)) {
            Option::None => (t, Err(Fault::UnrecognizedOpcode)),
            Option::Some(ins) => {
                let e = exec_spec(ins, t, inp);
                match e.1 {
                    Result::Ok(Flow::Advance) => (
                        MachineView { pc: wrap_add16(e.0.pc, 2), ..e.0 },
                        Ok(Flow::Advance),
                    ),
                    _ => e,
                }
            },
        }
    }
}

impl Machine {
    /// Run one logical cycle: decay the timers by `ticks`, fetch the word
    /// at the program counter, decode and execute it, and advance the
    /// program counter by two bytes unless the instruction placed it
    /// itself.  Implements `step_spec` exactly.
    pub fn step(&mut self, ticks: u8, inp: ExecInput) -> (r: Result<Flow, Fault>)
        requires
            old(self).wf(),
        ensures
            final(self).wf(),
            final(self)@ == step_spec(old(self)@, ticks, inp).0,
            r == step_spec(old(self)@, ticks, inp).1,
    {
        self.tick_timers(ticks);
        if self.pc >= 4095 {
            return Err(Fault::ProgramCounterOutOfBounds);
        }
        let idx = self.pc as usize;
        let hi = self.ram[idx];
        let lo = self.ram[idx + 1];
        let w: u16 = ((hi as u16) << 8u16) | (lo as u16);
        match Instruction::decode(&w) {
            Option::None => Err(Fault::UnrecognizedOpcode),
            Option::Some(ins) => {
                let r = ins.execute(self, inp);
                if let Ok(Flow::Advance) = r {
                    self.pc = wrapping_add_u16(self.pc, 2);
                }
                r
            },
        }
    }
}

} // verus!
