//! The sprite-drawing model: how an 8-pixel-wide sprite row lands in a
//! packed 64-bit display row, how successive rows are XORed into the
//! display, and when a collision is reported.

use vstd::prelude::*;

verus! {

/// The 64-bit display mask of sprite byte `b` drawn with its leftmost bit at
/// column `px`: the byte is aligned by shift, and columns beyond 63 are
/// dropped by the shift itself (no toroidal wrap).  A placement so far right
/// that no shift can express it contributes nothing.
pub open spec fn sprite_mask(b: u8, px: int) -> u64 {
    if px <= 56 {
        (b as u64) << ((56 - px) as u64)
    } else if px < 120 {
        (b as u64) >> ((px - 56) as u64)
    } else {
        0u64
    }
}

/// Executable mask computation, equal to `sprite_mask`.
pub fn sprite_row_mask(b: u8, px: u8) -> (r: u64)
    ensures
        r == sprite_mask(b, px as int),
{
    if px <= 56 {
        (b as u64) << ((56 - px) as u64)
    } else if px < 120 {
        (b as u64) >> ((px - 56) as u64)
    } else {
        0
    }
}

/// The display after XOR-drawing the first `n` sprite rows read from
/// `ram[base..]` at origin (`px`, `py`).  Rows landing outside the 32
/// display rows are clipped.
pub open spec fn draw_rows(
    screen: Seq<u64>,
    ram: Seq<u8>,
    base: int,
    px: int,
    py: int,
    n: int,
) -> Seq<u64>
    decreases n,
{
    if n <= 0 {
        screen
    } else {
        let prev = draw_rows(screen, ram, base, px, py, n - 1);
        let cy = py + n - 1;
        if 0 <= cy < 32 {
            prev.update(cy, prev[cy] ^ sprite_mask(ram[base + n - 1], px))
        } else {
            prev
        }
    }
}

/// Whether any of the first `n` sprite rows lands on an already-lit pixel of
/// the original display.
pub open spec fn draw_collision(
    screen: Seq<u64>,
    ram: Seq<u8>,
    base: int,
    px: int,
    py: int,
    n: int,
) -> bool
    decreases n,
{
    if n <= 0 {
        false
    } else {
        draw_collision(screen, ram, base, px, py, n - 1) || {
            let cy = py + n - 1;
            0 <= cy < 32 && screen[cy] & sprite_mask(ram[base + n - 1], px) != 0
        }
    }
}

/// Drawing preserves the number of display rows.
pub proof fn lemma_draw_rows_len(
    screen: Seq<u64>,
    ram: Seq<u8>,
    base: int,
    px: int,
    py: int,
    n: int,
)
    requires
        0 <= n,
        screen.len() == 32,
    ensures
        draw_rows(screen, ram, base, px, py, n).len() == 32,
    decreases n,
{
    if n > 0 {
        lemma_draw_rows_len(screen, ram, base, px, py, n - 1);
    }
}

/// Rows outside the drawn band are untouched.
pub proof fn lemma_draw_rows_frame(
    screen: Seq<u64>,
    ram: Seq<u8>,
    base: int,
    px: int,
    py: int,
    n: int,
    c: int,
)
    requires
        0 <= n,
        screen.len() == 32,
        0 <= c < 32,
        !(py <= c < py + n),
    ensures
        draw_rows(screen, ram, base, px, py, n)[c] == screen[c],
    decreases n,
{
    if n > 0 {
        lemma_draw_rows_len(screen, ram, base, px, py, n - 1);
        lemma_draw_rows_frame(screen, ram, base, px, py, n - 1, c);
    }
}

/// What each row inside the drawn band becomes: the original row XORed with
/// the mask of its sprite byte.
pub proof fn lemma_draw_rows_at(
    screen: Seq<u64>,
    ram: Seq<u8>,
    base: int,
    px: int,
    py: int,
    n: int,
    c: int,
)
    requires
        0 <= n,
        screen.len() == 32,
        0 <= py,
        0 <= c < 32,
        py <= c < py + n,
    ensures
        draw_rows(screen, ram, base, px, py, n)[c] == screen[c] ^ sprite_mask(
            ram[base + (c - py)],
            px,
        ),
    decreases n,
{
    lemma_draw_rows_len(screen, ram, base, px, py, n - 1);
    if c == py + n - 1 {
        lemma_draw_rows_frame(screen, ram, base, px, py, n - 1, c);
    } else {
        lemma_draw_rows_at(screen, ram, base, px, py, n - 1, c);
    }
}

/// If no sprite row lands on a lit pixel, no collision is reported.
pub proof fn lemma_no_collision(
    screen: Seq<u64>,
    ram: Seq<u8>,
    base: int,
    px: int,
    py: int,
    n: int,
)
    requires
        0 <= n,
        forall|r: int|
            0 <= r < n && 0 <= py + r < 32 ==> screen[py + r] & #[trigger] sprite_mask(
                ram[base + r],
                px,
            ) == 0,
    ensures
        !draw_collision(screen, ram, base, px, py, n),
    decreases n,
{
    if n > 0 {
        lemma_no_collision(screen, ram, base, px, py, n - 1);
        assert(screen[py + (n - 1)] & sprite_mask(ram[base + (n - 1)], px) == 0 || !(0 <= py + n
            - 1 < 32));
    }
}

/// One visible row landing on a lit pixel is enough to report a collision.
pub proof fn lemma_collision_row(
    screen: Seq<u64>,
    ram: Seq<u8>,
    base: int,
    px: int,
    py: int,
    n: int,
    r: int,
)
    requires
        0 <= r < n,
        0 <= py + r < 32,
        screen[py + r] & sprite_mask(ram[base + r], px) != 0,
    ensures
        draw_collision(screen, ram, base, px, py, n),
    decreases n,
{
    if r < n - 1 {
        lemma_collision_row(screen, ram, base, px, py, n - 1, r);
    }
}

} // verus!
