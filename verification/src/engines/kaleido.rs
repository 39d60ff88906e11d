//! The mandala's traits: fold count, mirroring, colours and layers.
use vstd::prelude::*;

use crate::engines::common::{distinct3_of, Ctx};

verus! {

/// Fold counts a mandala can have.
pub open spec fn fold_at(i: int) -> u32 {
    if i == 0 {
        3
    } else if i == 1 {
        4
    } else if i == 2 {
        5
    } else if i == 3 {
        6
    } else {
        8
    }
}

/// The mandala's macroscopic traits.
#[derive(Clone, Copy, Debug, PartialEq, Eq)]
pub struct KaleidoTraits {
    /// Rotational order: 3, 4, 5, 6 or 8.
    pub folds: u32,
    /// Dihedral (mirrored petals) rather than cyclic.
    pub mirror: bool,
    pub colors: [usize; 3],
    /// An inner petal layer as well as the outer one.
    pub two_layers: bool,
}

/// Traits from hash bytes 0 (folds), 1 (mirroring), 2 and 3 (colours) and 4
/// (three in four mandalas have two layers).
pub fn traits(ctx: &Ctx) -> (t: KaleidoTraits)
    ensures
        t.folds == fold_at(ctx.trait_of(0, 5)),
        t.mirror == (ctx.trait_of(1, 2) == 0),
        t.colors@ == seq![
            distinct3_of(ctx.color_seed_of(2)).0 as usize,
            distinct3_of(ctx.color_seed_of(2)).1 as usize,
            distinct3_of(ctx.color_seed_of(2)).2 as usize,
        ],
        t.two_layers == (ctx.trait_of(4, 4) != 0),
{
    let folds_table: [u32; 5] = [3, 4, 5, 6, 8];
    let folds = folds_table[ctx.trait_u8(0, 5) as usize];
    let mirror = ctx.trait_u8(1, 2) == 0;
    let colors = Ctx::distinct3(ctx.color_seed(2));
    let two_layers = ctx.trait_u8(4, 4) != 0;
    assert(colors@ =~= seq![colors[0], colors[1], colors[2]]);
    KaleidoTraits { folds, mirror, colors, two_layers }
}

} // verus!
