//! Parameters of the sigil style: folds, arc layers, orbit rings and a centre
//! glyph, chosen from the hash and the generator.
use vstd::prelude::*;

use crate::prng::{xoshiro_u32, Prng};

pub use crate::blob::{palette_color, BackgroundStyle};

verus! {

/// The mark drawn at the centre of a sigil.
#[derive(Clone, Copy, Debug, PartialEq, Eq, Structural)]
pub enum CenterGlyph {
    Ring,
    Cross,
    Diamond,
    Triad,
    Seal,
    Core,
}

/// The centre glyph that a value in `0..6` selects, in declaration order.
pub open spec fn center_glyph_of(v: int) -> CenterGlyph {
    if v == 0 {
        CenterGlyph::Ring
    } else if v == 1 {
        CenterGlyph::Cross
    } else if v == 2 {
        CenterGlyph::Diamond
    } else if v == 3 {
        CenterGlyph::Triad
    } else if v == 4 {
        CenterGlyph::Seal
    } else {
        CenterGlyph::Core
    }
}

/// Rotational order of a sigil, from hash byte 2: one of 4, 6, 8, 8, 12, 12.
pub open spec fn fold_of(b: u8) -> u32 {
    let i = b % 6;
    if i == 0 {
        4
    } else if i == 1 {
        6
    } else if i <= 3 {
        8
    } else {
        12
    }
}

/// The parameters of a sigil. The rotation offset is `rotation_byte / 255` of a
/// full turn; the stroke width is derived from a raw draw, in 1.5..3.5.
#[derive(Clone, Copy, Debug, PartialEq, Eq, Structural)]
pub struct SigilParams {
    pub fold: u32,
    pub arc_layers: u32,
    pub orbit_rings: u32,
    pub nodes_per_ring: u32,
    pub palette_index: usize,
    pub background_style: BackgroundStyle,
    pub center_glyph: CenterGlyph,
    pub rotation_byte: u8,
    pub stroke_draw: u32,
}

/// The sigil parameters for a hash and the four draws starting at `k`: arc
/// layers (2..=5), orbit rings (1..=3), nodes per ring (3..=max(fold, 6)),
/// stroke width.
pub open spec fn sigil_params_of(hash: Seq<u8>, seed: Seq<u8>, k: int) -> SigilParams {
    let fold = fold_of(hash[2]);
    let top: int = if fold > 6 { fold as int } else { 6 };
    SigilParams {
        fold,
        arc_layers: (2 + xoshiro_u32(seed, k as nat) % 4) as u32,
        orbit_rings: (1 + xoshiro_u32(seed, (k + 1) as nat) % 3) as u32,
        nodes_per_ring: (3 + (xoshiro_u32(seed, (k + 2) as nat) as int) % (top - 2)) as u32,
        palette_index: hash[3] as usize,
        background_style: if hash[5] % 2 == 0 {
            BackgroundStyle::Light
        } else {
            BackgroundStyle::Dark
        },
        center_glyph: center_glyph_of((hash[4] % 6) as int),
        rotation_byte: hash[6],
        stroke_draw: xoshiro_u32(seed, (k + 3) as nat),
    }
}

impl SigilParams {
    pub fn from_hash_and_prng(hash: &[u8; 32], prng: &mut Prng) -> (p: SigilParams)
        ensures
            p == sigil_params_of(hash@, old(prng)@.0, old(prng)@.1 as int),
            final(prng)@ == (old(prng)@.0, old(prng)@.1 + 4),
    {
        let folds: [u32; 6] = [4, 6, 8, 8, 12, 12];
        let fold = folds[(hash[2] as usize) % 6];
        let top: u32 = if fold > 6 { fold } else { 6 };
        let arc_layers = prng.range_u32(2, 5);
        let orbit_rings = prng.range_u32(1, 3);
        let nodes_per_ring = prng.range_u32(3, top);
        let b5: u8 = hash[5];
        assert(b5 & 1 == b5 % 2) by (bit_vector);
        let background_style = if b5 & 1 == 0 {
            BackgroundStyle::Light
        } else {
            BackgroundStyle::Dark
        };
        let center_glyph = match hash[4] % 6 {
            0 => CenterGlyph::Ring,
            1 => CenterGlyph::Cross,
            2 => CenterGlyph::Diamond,
            3 => CenterGlyph::Triad,
            4 => CenterGlyph::Seal,
            _ => CenterGlyph::Core,
        };
        let stroke_draw = prng.next_u32();
        SigilParams {
            fold,
            arc_layers,
            orbit_rings,
            nodes_per_ring,
            palette_index: hash[3] as usize,
            background_style,
            center_glyph,
            rotation_byte: hash[6],
            stroke_draw,
        }
    }
}

} // verus!
