//! The stained glass's traits: symmetry, contour, cell count and dominant colour.
use vstd::prelude::*;

use crate::engines::common::{Contour, Ctx};

verus! {

/// The symmetry group of the cell sites.
#[derive(Clone, Copy, Debug, PartialEq, Eq, Structural)]
pub enum VoronoiSymmetry {
    MirrorX,
    MirrorXY,
    Rot3,
    Rot4,
}

pub open spec fn voronoi_symmetry_of(v: int) -> VoronoiSymmetry {
    if v == 0 {
        VoronoiSymmetry::MirrorX
    } else if v == 1 {
        VoronoiSymmetry::MirrorXY
    } else if v == 2 {
        VoronoiSymmetry::Rot3
    } else {
        VoronoiSymmetry::Rot4
    }
}

/// The stained glass's macroscopic traits.
#[derive(Clone, Copy, Debug, PartialEq, Eq)]
pub struct VoronoiTraits {
    pub symmetry: VoronoiSymmetry,
    /// A circle or a rounded square.
    pub contour: Contour,
    /// Number of base sites, 5..=8.
    pub base_count: usize,
    /// The colour about half the cells take, 0..=4.
    pub dominant: usize,
}

/// Traits from hash bytes 0 (symmetry), 1 (contour), 2 (site count) and 3 (dominant colour).
pub fn traits(ctx: &Ctx) -> (t: VoronoiTraits)
    ensures
        t.symmetry == voronoi_symmetry_of(ctx.trait_of(0, 4)),
        t.contour == if ctx.trait_of(1, 2) == 0 {
            Contour::Circle
        } else {
            Contour::RoundedSquare
        },
        t.base_count == 5 + ctx.trait_of(2, 4),
        t.dominant == ctx.trait_of(3, 5),
{
    let symmetry = match ctx.trait_u8(0, 4) {
        0 => VoronoiSymmetry::MirrorX,
        1 => VoronoiSymmetry::MirrorXY,
        2 => VoronoiSymmetry::Rot3,
        _ => VoronoiSymmetry::Rot4,
    };
    let contour = if ctx.trait_u8(1, 2) == 0 {
        Contour::Circle
    } else {
        Contour::RoundedSquare
    };
    let base_count = 5 + ctx.trait_u8(2, 4) as usize;
    let dominant = ctx.trait_u8(3, 5) as usize;
    VoronoiTraits { symmetry, contour, base_count, dominant }
}

} // verus!
