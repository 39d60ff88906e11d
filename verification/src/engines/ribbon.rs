//! The ribbons' traits: ribbon count, frequency ratio and colours.
use vstd::prelude::*;

use crate::engines::common::{distinct3_of, Ctx};

verus! {

/// The Lissajous frequency pairs a figure can use.
pub open spec fn frequencies_at(i: int) -> (u32, u32) {
    if i == 0 {
        (1, 2)
    } else if i == 1 {
        (2, 3)
    } else if i == 2 {
        (3, 4)
    } else if i == 3 {
        (1, 3)
    } else {
        (3, 5)
    }
}

/// The ribbons' macroscopic traits.
#[derive(Clone, Copy, Debug, PartialEq, Eq)]
pub struct RibbonTraits {
    /// Number of ribbons, 1..=3.
    pub ribbon_count: usize,
    /// Horizontal and vertical Lissajous frequencies.
    pub frequencies: (u32, u32),
    /// Gradient colours of each ribbon: (a, b), (b, c), (c, a).
    pub color_pairs: [(usize, usize); 3],
}

/// Traits from hash bytes 0 (ribbon count), 1 (frequencies), 2 and 3 (colours).
pub fn traits(ctx: &Ctx) -> (t: RibbonTraits)
    ensures
        t.ribbon_count == 1 + ctx.trait_of(0, 3),
        t.frequencies == frequencies_at(ctx.trait_of(1, 5)),
        ({
            let (a, b, c) = distinct3_of(ctx.color_seed_of(2));
            t.color_pairs@ == seq![
                (a as usize, b as usize),
                (b as usize, c as usize),
                (c as usize, a as usize),
            ]
        }),
{
    let ribbon_count = 1 + ctx.trait_u8(0, 3) as usize;
    let table: [(u32, u32); 5] = [(1, 2), (2, 3), (3, 4), (1, 3), (3, 5)];
    let frequencies = table[ctx.trait_u8(1, 5) as usize];
    let c = Ctx::distinct3(ctx.color_seed(2));
    let (ca, cb, cc) = (c[0], c[1], c[2]);
    let color_pairs = [(ca, cb), (cb, cc), (cc, ca)];
    assert(color_pairs@ =~= seq![color_pairs[0], color_pairs[1], color_pairs[2]]);
    RibbonTraits { ribbon_count, frequencies, color_pairs }
}

} // verus!
