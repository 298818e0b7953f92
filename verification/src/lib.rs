//! A verified interpreter core for the CHIP-8 family of 8-bit virtual
//! machines: a 4096-byte address space, sixteen 8-bit registers, a 12-bit
//! index register, a sixteen-entry call stack, two 60 Hz countdown timers and
//! a 64 x 32 monochrome display.
//!
//! The crate models the machine state, decodes 16-bit big-endian instruction
//! words into a typed instruction set, and executes each instruction with
//! exact, quirk-configurable bit-level semantics.  Faults (unrecognized
//! opcodes, out-of-range accesses, stack misuse) are reported to the caller
//! and never mutate the state of the offending operation.
//!
//! Everything the interpreter decides is specified against a mathematical
//! transition function over a ghost view of the machine; randomness and key
//! input enter as plain values so that the core stays deterministic.

pub mod arith;
pub mod display;
pub mod draw;
pub mod emu;
pub mod exec;
pub mod insn;
pub mod laws;
pub mod machine;
pub mod stepper;

pub use arith::ticks_from_millis;
pub use emu::Chip8;
pub use display::render_row;
pub use insn::{Addr, Instruction, VReg};
pub use machine::{ExecInput, Fault, Flow, Machine, MachineView, Quirks};
