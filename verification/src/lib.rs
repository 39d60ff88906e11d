//! Deterministic SVG identicons: input validation, palettes, hashing and
//! pseudo-random draws, and the SVG text that the renderers assemble.
use vstd::prelude::*;

pub mod animation;
pub mod api;
pub mod blob;
pub mod engines;
pub mod hash;
pub mod palette;
pub mod prng;
pub mod render;
pub mod sigil;
pub mod svg;
pub mod text;

pub use engines::Engine;
pub use hash::{hash_input, validate_input, MAX_INPUT_LEN};
pub use palette::{palette_by_index, palette_by_theme, palettes, Palette, Theme, PALETTE_COUNT};

verus! {

/// Why an input was refused.
#[derive(Clone, Copy, Debug, PartialEq, Eq, Structural)]
pub enum RenderError {
    EmptyInput,
    InputTooLong,
    InvalidCharset,
}

impl RenderError {
    /// The human-readable message of the error.
    pub fn message(&self) -> (m: &'static str)
        ensures
            m@ == self.spec_message(),
    {
        match self {
            RenderError::EmptyInput => "input must not be empty",
            RenderError::InputTooLong => "input exceeds maximum length",
            RenderError::InvalidCharset => "input contains invalid characters",
        }
    }

    pub open spec fn spec_message(&self) -> Seq<char> {
        match self {
            RenderError::EmptyInput => "input must not be empty"@,
            RenderError::InputTooLong => "input exceeds maximum length"@,
            RenderError::InvalidCharset => "input contains invalid characters"@,
        }
    }
}

/// How an identicon is rendered.
#[derive(Clone, Copy, Debug, PartialEq, Eq, Structural)]
pub struct RenderOptions {
    /// Canvas side in pixels, held within 32..=1024 when rendering.
    pub size: u32,
    /// A fixed palette; `None` lets the input's hash pick one.
    pub theme: Option<Theme>,
    /// Whether to paint a background.
    pub background: bool,
    /// Whether to add SVG animations.
    pub animated: bool,
    /// The visual style.
    pub engine: Engine,
}

impl Default for RenderOptions {
    fn default() -> (o: RenderOptions)
        ensures
            o == (RenderOptions {
                size: 256,
                theme: None,
                background: true,
                animated: false,
                engine: Engine::Blob,
            }),
    {
        RenderOptions { size: 256, theme: None, background: true, animated: false, engine: Engine::Blob }
    }
}

} // verus!
