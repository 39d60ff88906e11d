//! The heraldic crest's traits: contour, field partition, charge and colours.
use vstd::prelude::*;

use crate::engines::common::{distinct3_of, Contour, Ctx};

verus! {

/// How the field is divided in two colours.
#[derive(Clone, Copy, Debug, PartialEq, Eq, Structural)]
pub enum Partition {
    Parti,
    Coupe,
    Ecartele,
    Chevron,
    Bande,
    Pal,
}

/// The figure drawn on the field.
#[derive(Clone, Copy, Debug, PartialEq, Eq, Structural)]
pub enum Charge {
    Star,
    Crescent,
    Lozenge,
    Ring,
    Chevron,
    Roundel,
}

pub open spec fn partition_of(v: int) -> Partition {
    if v == 0 {
        Partition::Parti
    } else if v == 1 {
        Partition::Coupe
    } else if v == 2 {
        Partition::Ecartele
    } else if v == 3 {
        Partition::Chevron
    } else if v == 4 {
        Partition::Bande
    } else {
        Partition::Pal
    }
}

pub open spec fn charge_of(v: int) -> Charge {
    if v == 0 {
        Charge::Star
    } else if v == 1 {
        Charge::Crescent
    } else if v == 2 {
        Charge::Lozenge
    } else if v == 3 {
        Charge::Ring
    } else if v == 4 {
        Charge::Chevron
    } else {
        Charge::Roundel
    }
}

/// The crest's macroscopic traits, each from its own hash byte.
#[derive(Clone, Copy, Debug, PartialEq, Eq)]
pub struct CrestTraits {
    pub contour: Contour,
    pub partition: Partition,
    pub charge: Charge,
    pub colors: [usize; 3],
    /// Three small charges instead of one large one.
    pub triple: bool,
}

/// Traits from hash bytes 0 (contour), 1 (partition), 2 (charge), 3 and 4
/// (colours) and 5 (one charge in three is tripled).
pub fn traits(ctx: &Ctx) -> (t: CrestTraits)
    ensures
        t.contour == Contour::at(ctx.trait_of(0, 5)),
        t.partition == partition_of(ctx.trait_of(1, 6)),
        t.charge == charge_of(ctx.trait_of(2, 6)),
        t.colors@ == seq![
            distinct3_of(ctx.color_seed_of(3)).0 as usize,
            distinct3_of(ctx.color_seed_of(3)).1 as usize,
            distinct3_of(ctx.color_seed_of(3)).2 as usize,
        ],
        t.triple == (ctx.trait_of(5, 3) == 0),
{
    let contour = Contour::from_index(ctx.trait_u8(0, 5));
    let partition = match ctx.trait_u8(1, 6) {
        0 => Partition::Parti,
        1 => Partition::Coupe,
        2 => Partition::Ecartele,
        3 => Partition::Chevron,
        4 => Partition::Bande,
        _ => Partition::Pal,
    };
    let charge = match ctx.trait_u8(2, 6) {
        0 => Charge::Star,
        1 => Charge::Crescent,
        2 => Charge::Lozenge,
        3 => Charge::Ring,
        4 => Charge::Chevron,
        _ => Charge::Roundel,
    };
    let colors = Ctx::distinct3(ctx.color_seed(3));
    let triple = ctx.trait_u8(5, 3) == 0;
    assert(colors@ =~= seq![colors[0], colors[1], colors[2]]);
    CrestTraits { contour, partition, charge, colors, triple }
}

} // verus!
