//! General laws of the interpreter, stated and proved over the transition
//! functions `exec_spec` and `step_spec`.

use vstd::prelude::*;

use crate::arith::wrap_add16;
use crate::draw::{
    draw_collision, draw_rows, lemma_collision_row, lemma_draw_rows_at, lemma_draw_rows_frame,
    lemma_draw_rows_len, lemma_no_collision, sprite_mask,
};
use crate::exec::exec_spec;
use crate::insn::{Addr, Instruction, VReg};
use crate::machine::{reg_sel, tick_spec, ExecInput, Fault, Flow, MachineView};
use crate::stepper::step_spec;

verus! {

/// An input that no instruction in question consumes.
pub open spec fn no_input() -> ExecInput {
    ExecInput { random: 0, keys: 0 }
}

/// Timer decay law: a timer never increases under decay, reaches exactly
/// zero once at least its own value in ticks has elapsed, and stays at zero
/// until explicitly set.  (Timers are unsigned, so they can never go
/// negative.)
pub proof fn lemma_timer_decay(m: MachineView, ticks: u8)
    ensures
        tick_spec(m, ticks).delay <= m.delay,
        tick_spec(m, ticks).sound <= m.sound,
        ticks >= m.delay ==> tick_spec(m, ticks).delay == 0,
        ticks >= m.sound ==> tick_spec(m, ticks).sound == 0,
        m.delay == 0 ==> tick_spec(m, ticks).delay == 0,
        m.sound == 0 ==> tick_spec(m, ticks).sound == 0,
{
}

/// Out-of-bounds guard law: a call issued with the stack pointer already at
/// its maximum reports a stack overflow and leaves the machine — stack and
/// program counter included — exactly as it was.
pub proof fn lemma_call_overflow(m: MachineView, a: Addr, inp: ExecInput)
    requires
        m.sp >= 16,
    ensures
        exec_spec(Instruction::CALL(a), m, inp).0 == m,
        exec_spec(Instruction::CALL(a), m, inp).1 == Err::<Flow, Fault>(Fault::StackOverflow),
{
}

/// Fault isolation law: whenever an instruction reports a fault, the
/// machine state is left exactly as it was.
pub proof fn lemma_fault_preserves_state(i: Instruction, m: MachineView, inp: ExecInput)
    ensures
        exec_spec(i, m, inp).1 is Err ==> exec_spec(i, m, inp).0 == m,
{
}

/// Fault isolation for a whole step: a faulting cycle changes nothing but
/// the timer decay that precedes the fetch.
pub proof fn lemma_step_fault_preserves_state(m: MachineView, ticks: u8, inp: ExecInput)
    ensures
        step_spec(m, ticks, inp).1 is Err ==> step_spec(m, ticks, inp).0 == tick_spec(m, ticks),
{
    let t = tick_spec(m, ticks);
    if t.pc < 4095 {
        let w = crate::stepper::fetch_word(t.ram, t.pc);
        match crate::insn::spec_decode(w) {
            Option::Some(ins) => {
                lemma_fault_preserves_state(ins, t, inp);
            },
            Option::None => {},
        }
    }
}

/// The machine after `k` nested call/return pairs, innermost in the middle:
/// a call to `addrs[0]`, then `k - 1` nested pairs, then the matching
/// return.
pub open spec fn nested_call_ret(m: MachineView, addrs: Seq<u16>, k: int) -> MachineView
    decreases k,
{
    if k <= 0 {
        m
    } else {
        let m1 = exec_spec(Instruction::CALL(Addr(addrs[0])), m, no_input()).0;
        let m2 = nested_call_ret(m1, addrs.skip(1), k - 1);
        exec_spec(Instruction::RET, m2, no_input()).0
    }
}

/// Stack balance law: any sequence of up to 16 calls, each followed by its
/// matching return in nested order, leaves the stack pointer where it
/// started and the program counter exactly one instruction (two bytes) past
/// where it started; registers, memory, timers, index and display are
/// untouched, as are the stack slots that were live before the sequence.
pub proof fn lemma_stack_balance(m: MachineView, addrs: Seq<u16>, k: int)
    requires
        m.wf(),
        1 <= k,
        m.sp + k <= 16,
        k <= addrs.len(),
    ensures
        ({
            let r = nested_call_ret(m, addrs, k);
            &&& r.wf()
            &&& r.sp == m.sp
            &&& r.pc == wrap_add16(m.pc, 2)
            &&& r.regs == m.regs
            &&& r.ram == m.ram
            &&& r.screen == m.screen
            &&& r.delay == m.delay
            &&& r.sound == m.sound
            &&& r.index == m.index
            &&& r.quirks == m.quirks
            &&& forall|j: int| 0 <= j < m.sp ==> r.stack[j] == m.stack[j]
        }),
    decreases k,
{
    let m1 = exec_spec(Instruction::CALL(Addr(addrs[0])), m, no_input()).0;
    let m2 = nested_call_ret(m1, addrs.skip(1), k - 1);
    if k > 1 {
        lemma_stack_balance(m1, addrs.skip(1), k - 1);
    }
    assert(m2.sp == m.sp + 1);
    assert(m2.stack[m.sp as int] == wrap_add16(m.pc, 2));
}

/// Register round-trip law: with the auto-increment quirk disabled, storing
/// registers V0..Vx to memory and then loading V0..Vx back into zeroed
/// registers reproduces the original register values exactly (the
/// auto-increment quirk moves the index register between the two transfers,
/// so the law is stated for the configuration that keeps it still).
pub proof fn lemma_register_round_trip(m: MachineView, x: VReg, inp: ExecInput)
    requires
        m.wf(),
        !m.quirks.auto_increment_index,
        m.index + reg_sel(x) < 4096,
    ensures
        ({
            let stored = exec_spec(Instruction::LDMV(x), m, inp);
            let cleared = MachineView { regs: Seq::new(16, |j: int| 0u8), ..stored.0 };
            let loaded = exec_spec(Instruction::LDVM(x), cleared, inp);
            &&& stored.1 == Ok::<Flow, Fault>(Flow::Advance)
            &&& loaded.1 == Ok::<Flow, Fault>(Flow::Advance)
            &&& forall|j: int| 0 <= j <= reg_sel(x) ==> loaded.0.regs[j] == m.regs[j]
        }),
{
}

/// The clipped drawing origin of a sprite: the selected register values
/// taken modulo the display width and height.
pub open spec fn clip_px(m: MachineView, x: VReg) -> int {
    (m.regs[reg_sel(x)] % 64) as int
}

/// See `clip_px`.
pub open spec fn clip_py(m: MachineView, y: VReg) -> int {
    (m.regs[reg_sel(y)] % 32) as int
}

proof fn lemma_xor_cancel(a: u64, b: u64)
    ensures
        (a ^ b) ^ b == a,
{
    assert((a ^ b) ^ b == a) by (bit_vector);
}

proof fn lemma_xor_collides(a: u64, b: u64)
    requires
        a & b == 0,
        b != 0,
    ensures
        (a ^ b) & b != 0,
{
    assert((a ^ b) & b != 0) by (bit_vector)
        requires
            a & b == 0,
            b != 0,
    ;
}

proof fn lemma_shl_nonzero(sh: u64)
    requires
        sh <= 56,
    ensures
        (0xFFu64 << sh) != 0,
{
    assert(sh <= 56 ==> (0xFFu64 << sh) != 0) by (bit_vector);
}

proof fn lemma_shr_nonzero(sh: u64)
    requires
        1 <= sh <= 7,
    ensures
        (0xFFu64 >> sh) != 0,
{
    assert(1 <= sh && sh <= 7 ==> (0xFFu64 >> sh) != 0) by (bit_vector);
}

/// A full sprite row placed at any clipped column covers at least one
/// visible pixel.
proof fn lemma_full_mask_nonzero(px: int)
    requires
        0 <= px < 64,
    ensures
        sprite_mask(0xFFu8, px) != 0,
{
    if px <= 56 {
        let sh: u64 = (56 - px) as u64;
        lemma_shl_nonzero(sh);
    } else {
        let sh: u64 = (px - 56) as u64;
        lemma_shr_nonzero(sh);
    }
}

/// Draw-twice law: with the wrap quirk disabled (clipped drawing), drawing
/// an all-ones sprite twice at the same coordinates, onto pixels that were
/// clear, reports no collision on the first draw, toggles every drawn pixel
/// back off on the second draw, and reports the collision on that second
/// draw.  (Stated for coordinate registers other than the flag register,
/// which the draw itself overwrites.)
pub proof fn lemma_draw_twice_restores(
    m: MachineView,
    x: VReg,
    y: VReg,
    n: u8,
    inp: ExecInput,
)
    requires
        m.wf(),
        !m.quirks.wrap_sprite,
        1 <= n,
        m.index + n <= 4096,
        reg_sel(x) != 15,
        reg_sel(y) != 15,
        forall|r: int| 0 <= r < n ==> #[trigger] m.ram[m.index + r] == 0xFFu8,
        forall|r: int|
            0 <= r < n && clip_py(m, y) + r < 32 ==> #[trigger] m.screen[clip_py(m, y) + r]
                & sprite_mask(0xFFu8, clip_px(m, x)) == 0,
    ensures
        ({
            let first = exec_spec(Instruction::DRW(x, y, n), m, inp);
            let second = exec_spec(Instruction::DRW(x, y, n), first.0, inp);
            &&& first.1 == Ok::<Flow, Fault>(Flow::Advance)
            &&& second.1 == Ok::<Flow, Fault>(Flow::Advance)
            &&& first.0.regs[15] == 0
            &&& second.0.regs[15] == 1
            &&& second.0.screen == m.screen
        }),
{
    let px = clip_px(m, x);
    let py = clip_py(m, y);
    let base = m.index as int;
    let mask = sprite_mask(0xFFu8, px);
    let first = exec_spec(Instruction::DRW(x, y, n), m, inp);
    let s1 = draw_rows(m.screen, m.ram, base, px, py, n as int);
    lemma_draw_rows_len(m.screen, m.ram, base, px, py, n as int);

    // No collision on the first draw: every visible sprite row lands on
    // clear pixels.
    assert forall|r: int| 0 <= r < n && 0 <= py + r < 32 implies m.screen[py + r]
        & #[trigger] sprite_mask(m.ram[base + r], px) == 0 by {
        assert(m.ram[m.index + r] == 0xFFu8);
        assert(m.screen[clip_py(m, y) + r] & sprite_mask(0xFFu8, clip_px(m, x)) == 0);
    }
    lemma_no_collision(m.screen, m.ram, base, px, py, n as int);
    assert(first.0.regs[reg_sel(x)] == m.regs[reg_sel(x)]);
    assert(first.0.regs[reg_sel(y)] == m.regs[reg_sel(y)]);

    let second = exec_spec(Instruction::DRW(x, y, n), first.0, inp);

    // The second draw collides on its first row, which is always visible.
    lemma_draw_rows_at(m.screen, m.ram, base, px, py, n as int, py);
    assert(m.ram[m.index + 0] == 0xFFu8);
    assert(s1[py] == m.screen[py] ^ mask);
    assert(m.screen[py] & mask == 0) by {
        assert(m.screen[clip_py(m, y) + 0] & sprite_mask(0xFFu8, clip_px(m, x)) == 0);
    }
    lemma_full_mask_nonzero(px);
    lemma_xor_collides(m.screen[py], mask);
    lemma_collision_row(s1, m.ram, base, px, py, n as int, 0);
    assert(draw_collision(s1, m.ram, base, px, py, n as int));

    // The second draw XORs the same masks again, restoring the display.
    let s2 = draw_rows(s1, m.ram, base, px, py, n as int);
    lemma_draw_rows_len(s1, m.ram, base, px, py, n as int);
    assert forall|c: int| 0 <= c < 32 implies s2[c] == m.screen[c] by {
        if py <= c < py + n {
            lemma_draw_rows_at(m.screen, m.ram, base, px, py, n as int, c);
            lemma_draw_rows_at(s1, m.ram, base, px, py, n as int, c);
            assert(m.ram[m.index + (c - py)] == 0xFFu8);
            lemma_xor_cancel(m.screen[c], sprite_mask(m.ram[base + (c - py)], px));
        } else {
            lemma_draw_rows_frame(m.screen, m.ram, base, px, py, n as int, c);
            lemma_draw_rows_frame(s1, m.ram, base, px, py, n as int, c);
        }
    }
    assert(s2 =~= m.screen);
}

} // verus!
