//! The emulated machine together with its injected randomness source.
//!
//! The verified core is deterministic: the random byte an instruction may
//! consume enters `Machine::step` as a plain value.  `Chip8` packages a
//! machine with a concrete generator from the rand crate and draws that
//! byte itself, so a driver only supplies elapsed ticks and the key
//! bitmask.

use vstd::prelude::*;

use crate::machine::{boot_view, ExecInput, Fault, Flow, Machine, Quirks};
use crate::stepper::step_spec;

verus! {

#[verifier::external_type_specification]
#[verifier::external_body]
pub struct ExStdRng(rand::rngs::StdRng);

/// Relies on rand's `Rng::fill_bytes` for `StdRng`: it fills the buffer
/// with random bytes and cannot fail (`StdRng` is an infallible generator).
/// Nothing is promised of the value: callers state what holds of every
/// outcome.
#[verifier::external_body]
fn next_random_byte(rng: &mut rand::rngs::StdRng) -> u8 {
    let mut buf = [0u8; 1];
    rand::Rng::fill_bytes(rng, &mut buf);
    buf[0]
}

/// A machine plus the randomness source consumed by its random-byte
/// instruction.
pub struct Chip8 {
    /// The verified machine state.
    pub machine: Machine,
    /// The injected randomness source (opaque to verification).
    pub rng: rand::rngs::StdRng,
}

impl Chip8 {
    /// Construct a machine in the historical extended configuration (all
    /// three quirks enabled), seeded with the interpreter/font bytes at
    /// address 0 and the program image at 0x200, driven by the given
    /// randomness source.
    pub fn new(interpreter: &[u8], rom: &[u8], rng: rand::rngs::StdRng) -> (c: Chip8)
        ensures
            c.machine.wf(),
            c.machine@ == boot_view(
                interpreter@,
                rom@,
                Quirks { wrap_sprite: true, high_precision_shift: true, auto_increment_index: true },
            ),
    {
        Chip8 { machine: Machine::new(interpreter, rom, Quirks::extended()), rng }
    }

    /// Run one logical cycle, drawing the injected random byte from the
    /// owned generator.  The outcome and new state are those of
    /// `Machine::step` for some byte value.
    pub fn step(&mut self, ticks: u8, keys: u16) -> (r: Result<Flow, Fault>)
        requires
            old(self).machine.wf(),
        ensures
            final(self).machine.wf(),
            exists|b: u8|
                #![auto]
                final(self).machine@ == step_spec(
                    old(self).machine@,
                    ticks,
                    ExecInput { random: b, keys },
                ).0 && r == step_spec(old(self).machine@, ticks, ExecInput { random: b, keys }).1,
    {
        let b = next_random_byte(&mut self.rng);
        let r = self.machine.step(ticks, ExecInput { random: b, keys });
        r
    }
}

} // verus!
