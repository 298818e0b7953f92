//! The machine state: registers, memory, stack, timers, program counter,
//! display buffer and quirk configuration, together with its mathematical
//! view and the timer-decay step.

use vstd::prelude::*;

use crate::insn::VReg;

verus! {

/// The three independent behavioural quirks of the instruction set.
#[derive(Clone, Copy, Debug, PartialEq, Eq, Structural)]
pub struct Quirks {
    /// Sprite drawing uses the raw register values as the origin (rows past
    /// the right edge are truncated by the shift) instead of taking the
    /// coordinates modulo 64 and 32 and clipping.
    pub wrap_sprite: bool,
    /// Bit-shift instructions read and write register x only, instead of
    /// reading register y and writing register x.
    pub high_precision_shift: bool,
    /// Register dump/load instructions advance the index register by
    /// count + 1, instead of leaving it unchanged.
    pub auto_increment_index: bool,
}

impl Quirks {
    /// The configuration matching the historical extended behaviour: all
    /// three quirks enabled.
    pub fn extended() -> (q: Quirks)
        ensures
            q == (Quirks { wrap_sprite: true, high_precision_shift: true, auto_increment_index: true }),
    {
        Quirks { wrap_sprite: true, high_precision_shift: true, auto_increment_index: true }
    }
}

/// The fault taxonomy: every condition an instruction or step can report.
///
/// A fault never mutates machine state: the offending operation is not
/// performed, and whether execution halts or continues is the driver's
/// policy.
#[derive(Clone, Copy, Debug, PartialEq, Eq, Structural)]
pub enum Fault {
    /// The fetched word decodes to no known instruction.
    UnrecognizedOpcode,
    /// The program counter does not address two in-bounds memory bytes.
    ProgramCounterOutOfBounds,
    /// A call was issued with the stack pointer already at capacity.
    StackOverflow,
    /// A return was issued with an empty stack.
    StackUnderflow,
    /// A memory transfer would touch bytes outside the address space.
    MemoryRangeOutOfBounds,
}

/// How an executed instruction left the program counter.
#[derive(Clone, Copy, Debug, PartialEq, Eq, Structural)]
pub enum Flow {
    /// The instruction does not place the program counter itself: the
    /// stepper applies the generic two-byte advance (skip instructions have
    /// already added their extra two bytes).
    Advance,
    /// A jump, call or return placed the program counter; the generic
    /// advance is bypassed.
    Jumped,
    /// A wait-for-key instruction found no key down: nothing changed, and
    /// the program counter stays on the instruction so the driver can retry
    /// once a key event arrives.
    WaitKey,
}

/// The injected input capabilities an instruction may consume, as plain
/// values: one random byte (used only by the random-byte instruction) and
/// the current key bitmask (bit k set = key k down; used only by the key
/// instructions).
#[derive(Clone, Copy, Debug, PartialEq, Eq, Structural)]
pub struct ExecInput {
    pub random: u8,
    pub keys: u16,
}

/// The mathematical view of a machine: sequences instead of vectors,
/// otherwise the same fields.
#[verifier::ext_equal]
pub ghost struct MachineView {
    /// The sixteen 8-bit general-purpose registers; register 15 doubles as
    /// the flag register.
    pub regs: Seq<u8>,
    /// The 12-bit index register (held in 16 bits).
    pub index: u16,
    /// The delay timer.
    pub delay: u8,
    /// The sound timer.
    pub sound: u8,
    /// The program counter, a byte offset into memory.
    pub pc: u16,
    /// The stack pointer: the number of live stack entries (0 to 16).
    pub sp: u8,
    /// The sixteen 16-bit return-address slots.
    pub stack: Seq<u16>,
    /// The 4096 bytes of memory.
    pub ram: Seq<u8>,
    /// The display: 32 rows, each a 64-bit mask, most significant bit =
    /// leftmost pixel, bit set = pixel lit.
    pub screen: Seq<u64>,
    /// The quirk configuration, fixed at construction.
    pub quirks: Quirks,
}

impl MachineView {
    /// Well-formedness: the fixed shapes of the state.
    pub open spec fn wf(self) -> bool {
        &&& self.regs.len() == 16
        &&& self.stack.len() == 16
        &&& self.ram.len() == 4096
        &&& self.screen.len() == 32
        &&& self.sp <= 16
    }
}

/// The mutable CPU state of one emulated machine.
pub struct Machine {
    pub regs: Vec<u8>,
    pub index: u16,
    pub delay: u8,
    pub sound: u8,
    pub pc: u16,
    pub sp: u8,
    pub stack: Vec<u16>,
    pub ram: Vec<u8>,
    pub screen: Vec<u64>,
    pub quirks: Quirks,
}

impl View for Machine {
    type V = MachineView;

    open spec fn view(&self) -> MachineView {
        MachineView {
            regs: self.regs@,
            index: self.index,
            delay: self.delay,
            sound: self.sound,
            pc: self.pc,
            sp: self.sp,
            stack: self.stack@,
            ram: self.ram@,
            screen: self.screen@,
            quirks: self.quirks,
        }
    }
}

/// The register index an operand selects, clamped to 0..=15 so that a
/// malformed encoding can never cause an out-of-range access.
pub open spec fn reg_sel(r: VReg) -> int {
    if r.0 < 16 {
        r.0 as int
    } else {
        15
    }
}

/// Executable register selection, equal to `reg_sel`.
pub fn reg_index(r: VReg) -> (i: usize)
    ensures
        i == reg_sel(r),
        i < 16,
{
    if r.0 < 16 {
        r.0 as usize
    } else {
        15
    }
}

/// The byte memory holds at offset `j` right after construction:
/// interpreter/font bytes below 0x200, the program image from 0x200 on,
/// everything else zero (over-long inputs are truncated to their region).
pub open spec fn boot_byte(interpreter: Seq<u8>, rom: Seq<u8>, j: int) -> u8 {
    if j < 512 {
        if j < interpreter.len() {
            interpreter[j]
        } else {
            0u8
        }
    } else {
        if j - 512 < rom.len() {
            rom[j - 512]
        } else {
            0u8
        }
    }
}

/// The machine state right after construction: registers, timers, stack and
/// display zeroed, program counter at 0x200, memory laid out by `boot_byte`.
pub open spec fn boot_view(interpreter: Seq<u8>, rom: Seq<u8>, quirks: Quirks) -> MachineView {
    MachineView {
        regs: Seq::new(16, |j: int| 0u8),
        index: 0,
        delay: 0,
        sound: 0,
        pc: 0x200,
        sp: 0,
        stack: Seq::new(16, |j: int| 0u16),
        ram: Seq::new(4096, |j: int| boot_byte(interpreter, rom, j)),
        screen: Seq::new(32, |j: int| 0u64),
        quirks,
    }
}

/// Saturating decrement of a timer by `t` ticks: floored at zero, never
/// wrapping.
pub open spec fn sat_sub8(a: u8, t: u8) -> u8 {
    if t >= a {
        0u8
    } else {
        (a - t) as u8
    }
}

/// The machine after both timers have decayed by `ticks` 60 Hz ticks.
pub open spec fn tick_spec(m: MachineView, ticks: u8) -> MachineView {
    MachineView { delay: sat_sub8(m.delay, ticks), sound: sat_sub8(m.sound, ticks), ..m }
}

impl Machine {
    /// Well-formedness of the executable state.
    pub open spec fn wf(self) -> bool {
        self@.wf()
    }

    /// Construct a machine: interpreter/font bytes at address 0 (at most
    /// 512 are used), the program image at 0x200 (loaded verbatim, truncated
    /// at the end of memory), the rest of the 4096 bytes zero-filled, all
    /// registers, timers, stack and display zeroed, and the program counter
    /// at 0x200.
    pub fn new(interpreter: &[u8], rom: &[u8], quirks: Quirks) -> (m: Machine)
        ensures
            m.wf(),
            m@ == boot_view(interpreter@, rom@, quirks),
    {
        let mut regs: Vec<u8> = Vec::new();
        while regs.len() < 16
            invariant
                regs@.len() <= 16,
                forall|j: int| 0 <= j < regs@.len() ==> regs@[j] == 0u8,
            decreases 16 - regs.len(),
        {
            regs.push(0);
        }
        let mut stack: Vec<u16> = Vec::new();
        while stack.len() < 16
            invariant
                stack@.len() <= 16,
                forall|j: int| 0 <= j < stack@.len() ==> stack@[j] == 0u16,
            decreases 16 - stack.len(),
        {
            stack.push(0);
        }
        let mut screen: Vec<u64> = Vec::new();
        while screen.len() < 32
            invariant
                screen@.len() <= 32,
                forall|j: int| 0 <= j < screen@.len() ==> screen@[j] == 0u64,
            decreases 32 - screen.len(),
        {
            screen.push(0);
        }
        let mut ram: Vec<u8> = Vec::new();
        while ram.len() < 4096
            invariant
                ram@.len() <= 4096,
                forall|j: int| 0 <= j < ram@.len() ==> ram@[j] == boot_byte(interpreter@, rom@, j),
            decreases 4096 - ram.len(),
        {
            let j = ram.len();
            let b: u8 = if j < 512 {
                if j < interpreter.len() {
                    interpreter[j]
                } else {
                    0
                }
            } else {
                let k = j - 512;
                if k < rom.len() {
                    rom[k]
                } else {
                    0
                }
            };
            ram.push(b);
        }
        let m = Machine {
            regs,
            index: 0,
            delay: 0,
            sound: 0,
            pc: 0x200,
            sp: 0,
            stack,
            ram,
            screen,
            quirks,
        };
        proof {
            assert(m@.regs =~= boot_view(interpreter@, rom@, quirks).regs);
            assert(m@.stack =~= boot_view(interpreter@, rom@, quirks).stack);
            assert(m@.ram =~= boot_view(interpreter@, rom@, quirks).ram);
            assert(m@.screen =~= boot_view(interpreter@, rom@, quirks).screen);
            assert(m@ =~= boot_view(interpreter@, rom@, quirks));
        }
        m
    }

    /// Decay both timers by `ticks` 60 Hz ticks, floored at zero.
    pub fn tick_timers(&mut self, ticks: u8)
        requires
            old(self).wf(),
        ensures
            final(self).wf(),
            final(self)@ == tick_spec(old(self)@, ticks),
    {
        self.delay = if ticks >= self.delay {
            0
        } else {
            self.delay - ticks
        };
        self.sound = if ticks >= self.sound {
            0
        } else {
            self.sound - ticks
        };
    }
}

} // verus!
