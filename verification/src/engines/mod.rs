//! Identicon engines: the non-geometric parts of each visual style.
use vstd::prelude::*;

use crate::text::{lower_seq, lowercase_chars, spells};

pub mod common;
pub mod constellation;
pub mod crest;
pub mod glyphs;
pub mod kaleido;
pub mod monogram;
pub mod ribbon;
pub mod voronoi;

pub use common::Ctx;

verus! {

/// Visual engine used to turn a hash into shapes. Palettes/themes are shared
/// by every engine.
#[derive(Clone, Copy, Debug, PartialEq, Eq, Structural)]
pub enum Engine {
    /// The gradient-blob renderer.
    Blob,
    /// Heraldic escutcheon: contour, partition and charge.
    Crest,
    /// Symmetric stained-glass Voronoi tessellation.
    Voronoi,
    /// Kaleidoscopic mandala with N-fold symmetry.
    Kaleido,
    /// Interlaced Lissajous ribbons.
    Ribbon,
    /// Linked stars with a principal star.
    Constellation,
    /// Initials over a generative motif.
    Monogram,
}

impl Default for Engine {
    fn default() -> (e: Engine)
        ensures
            e == Engine::Blob,
    {
        Engine::Blob
    }
}

/// The engine that a lower-case name denotes, if any.
pub open spec fn engine_named(name: Seq<char>) -> Option<Engine> {
    if name == "blob"@ {
        Some(Engine::Blob)
    } else if name == "crest"@ {
        Some(Engine::Crest)
    } else if name == "voronoi"@ {
        Some(Engine::Voronoi)
    } else if name == "kaleido"@ {
        Some(Engine::Kaleido)
    } else if name == "ribbon"@ {
        Some(Engine::Ribbon)
    } else if name == "constellation"@ {
        Some(Engine::Constellation)
    } else if name == "monogram"@ {
        Some(Engine::Monogram)
    } else {
        None
    }
}

impl Engine {
    /// Every engine, in declaration order.
    pub const ALL: [Engine; 7] = [
        Engine::Blob,
        Engine::Crest,
        Engine::Voronoi,
        Engine::Kaleido,
        Engine::Ribbon,
        Engine::Constellation,
        Engine::Monogram,
    ];

    /// The engine's name.
    pub open spec fn spec_name(self) -> &'static str {
        match self {
            Engine::Blob => "blob",
            Engine::Crest => "crest",
            Engine::Voronoi => "voronoi",
            Engine::Kaleido => "kaleido",
            Engine::Ribbon => "ribbon",
            Engine::Constellation => "constellation",
            Engine::Monogram => "monogram",
        }
    }

    /// The engine whose name matches `name` without regard to ASCII case.
    pub fn from_name(name: &str) -> (e: Option<Engine>)
        ensures
            e == engine_named(lower_seq(name@)),
    {
        let lower = lowercase_chars(name);
        if spells(&lower, "blob") {
            return Some(Engine::Blob);
        }
        if spells(&lower, "crest") {
            return Some(Engine::Crest);
        }
        if spells(&lower, "voronoi") {
            return Some(Engine::Voronoi);
        }
        if spells(&lower, "kaleido") {
            return Some(Engine::Kaleido);
        }
        if spells(&lower, "ribbon") {
            return Some(Engine::Ribbon);
        }
        if spells(&lower, "constellation") {
            return Some(Engine::Constellation);
        }
        if spells(&lower, "monogram") {
            return Some(Engine::Monogram);
        }
        None
    }

    /// The engine's name.
    pub fn name(self) -> (n: &'static str)
        ensures
            n == self.spec_name(),
    {
        match self {
            Engine::Blob => "blob",
            Engine::Crest => "crest",
            Engine::Voronoi => "voronoi",
            Engine::Kaleido => "kaleido",
            Engine::Ribbon => "ribbon",
            Engine::Constellation => "constellation",
            Engine::Monogram => "monogram",
        }
    }
}

/// Every engine is found again from its own name.
pub proof fn lemma_engine_name_round_trip(e: Engine)
    ensures
        engine_named(lower_seq(e.spec_name()@)) == Some(e),
{
    reveal_strlit("blob");
    reveal_strlit("crest");
    reveal_strlit("voronoi");
    reveal_strlit("kaleido");
    reveal_strlit("ribbon");
    reveal_strlit("constellation");
    reveal_strlit("monogram");
    assert("blob"@.len() == 4 && "blob"@[0] == 'b' && "blob"@[1] == 'l');
    assert("crest"@.len() == 5 && "crest"@[0] == 'c' && "crest"@[1] == 'r');
    assert("voronoi"@.len() == 7 && "voronoi"@[0] == 'v' && "voronoi"@[1] == 'o');
    assert("kaleido"@.len() == 7 && "kaleido"@[0] == 'k' && "kaleido"@[1] == 'a');
    assert("ribbon"@.len() == 6 && "ribbon"@[0] == 'r' && "ribbon"@[1] == 'i');
    assert("constellation"@.len() == 13 && "constellation"@[0] == 'c' && "constellation"@[1] == 'o');
    assert("monogram"@.len() == 8 && "monogram"@[0] == 'm' && "monogram"@[1] == 'o');
    let n = e.spec_name()@;
    assert(lower_seq(n) =~= n);
}

/// A name that `from_name` accepts is, once lower-cased, the engine's own name.
pub proof fn lemma_engine_named_is_name(name: Seq<char>)
    ensures
        engine_named(name) matches Some(e) ==> name == e.spec_name()@,
{
}

} // verus!
