# identicon-core

Deterministic SVG identicons from a string, with the logic proved by Verus.

## Layout

- `src/` — the verified library.
  - `hash.rs` — input rules (non-empty, at most 256 characters, ASCII letters,
    digits and `-_.@`) and the BLAKE3 digest of an input.
  - `prng.rs` — the Xoshiro256++ generator seeded by the digest, and bounded draws.
  - `palette.rs` — the palettes, themes and their names.
  - `blob.rs` — the gradient-blob plan: parameters, blob copies under each
    symmetry, the stable depth sort, perturbations and accents.
  - `svg.rs`, `render.rs` — the SVG text of a blob identicon, assembled from a
    plan whose contract pins down every draw it makes.
  - `animation.rs` — a blob identicon's document holds `<animate` exactly when
    it is rendered animated.
  - `engines/` — the other visual styles: names, traits chosen from hash bytes,
    the glyph alphabet, initials, the links between a constellation's stars
    (hub, Prim's tree, nearest-neighbour chain), and the drawing context that
    writes SVG.
  - `sigil.rs` — the sigil parameters drawn from a hash and a generator.
  - `api.rs` — the HTTP service's decisions: query options, route labels,
    caller classes, ETags, error replies and the comparison page.
  - `text.rs` — decimal, hexadecimal and fixed-point text, case mapping and search.
- `tests/` — tests run against the compiled library.
- `app/` — the HTTP service (axum), metrics (prometheus), browser bindings, and
  the floating-point geometry of each style, which Verus does not reason about.

Coordinates and opacities cross from `app/` into the library in tenths, so the
library's text output is exact integer arithmetic.
