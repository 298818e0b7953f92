//! Display export: the core defines only the bit semantics of the 32
//! packed 64-bit rows (1 = pixel lit, most significant bit = leftmost
//! pixel); rendering those bits to any surface is the consumer's business.

use vstd::prelude::*;

verus! {

/// Whether pixel `j` (0 = leftmost) of a packed display row is lit.
pub open spec fn pixel_lit(row: u64, j: int) -> bool {
    (row >> ((63 - j) as u64)) & 1 == 1
}

/// Unpack one display row into its 64 pixels, leftmost first.
pub fn render_row(row: u64) -> (pix: Vec<bool>)
    ensures
        pix@.len() == 64,
        forall|j: int| 0 <= j < 64 ==> pix@[j] == pixel_lit(row, j),
{
    let mut pix: Vec<bool> = Vec::new();
    let mut j: usize = 0;
    while j < 64
        invariant
            j <= 64,
            pix@.len() == j,
            forall|t: int| 0 <= t < j ==> pix@[t] == pixel_lit(row, t),
        decreases 64 - j,
    {
        let lit = (row >> ((63 - j) as u64)) & 1 == 1;
        pix.push(lit);
        j = j + 1;
    }
    pix
}

} // verus!
