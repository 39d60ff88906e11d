use identicon_core::engines::glyphs::glyph_path;
use identicon_core::engines::monogram::initials;
use identicon_core::Engine;

#[test]
fn all_alnum_glyphs_exist() {
    for ch in ('A'..='Z').chain('0'..='9') {
        assert!(glyph_path(ch).is_some(), "{ch}");
    }
    assert!(glyph_path('-').is_none());
}

#[test]
fn names_round_trip() {
    for e in Engine::ALL {
        assert_eq!(Engine::from_name(e.name()), Some(e));
    }
    assert_eq!(Engine::from_name("nope"), None);
}

#[test]
fn initials_from_tokens() {
    assert_eq!(initials("alice"), Some(vec!['A', 'L']));
    assert_eq!(initials("jean.dupont@example.org"), Some(vec!['J', 'D']));
    assert_eq!(initials("bob_martin"), Some(vec!['B', 'M']));
    assert_eq!(initials("x"), Some(vec!['X']));
    assert_eq!(initials("12345"), None);
}

use identicon_core::engines::common::{polygon_d, Contour};
use identicon_core::engines::Ctx;
use identicon_core::palette_by_index;

#[test]
fn distinct3_are_distinct_and_in_range() {
    for seed in 0..300u32 {
        let [a, b, c] = Ctx::distinct3(seed);
        assert!(a < 5 && b < 5 && c < 5, "seed {seed}");
        assert!(a != b && b != c && a != c, "seed {seed}: {a} {b} {c}");
    }
}

#[test]
fn distinct3_covers_all_ordered_triples() {
    let mut seen = std::collections::HashSet::new();
    for seed in 0..60u32 {
        seen.insert(Ctx::distinct3(seed));
    }
    assert_eq!(seen.len(), 60);
    assert_eq!(Ctx::distinct3(0), [0, 1, 2]);
    assert_eq!(Ctx::distinct3(60), Ctx::distinct3(0));
    assert_eq!(Ctx::distinct3(1), [1, 0, 2]);
    assert_eq!(Ctx::distinct3(59), [4, 3, 2]);
    for seed in [61u32, 1000, 123_457, u32::MAX] {
        assert_eq!(Ctx::distinct3(seed), Ctx::distinct3(seed % 60), "seed {seed}");
    }
}

#[test]
fn engine_names_ignore_case_and_default_to_blob() {
    assert_eq!(Engine::from_name("CREST"), Some(Engine::Crest));
    assert_eq!(Engine::from_name("Monogram"), Some(Engine::Monogram));
    assert_eq!(Engine::from_name("ribbons"), None);
    assert_eq!(Engine::default(), Engine::Blob);
    assert_eq!(Engine::Constellation.name(), "constellation");
}

#[test]
fn glyphs_ignore_case() {
    assert_eq!(glyph_path('a'), glyph_path('A'));
    assert_eq!(glyph_path('T'), Some("M0,0 L4,0 M2,0 L2,6"));
    assert_eq!(glyph_path('é'), None);
    assert_eq!(glyph_path('@'), None);
}

#[test]
fn initials_edge_cases() {
    assert_eq!(initials("a.b.c"), Some(vec!['A', 'B']));
    assert_eq!(initials("..x.."), Some(vec!['X']));
    assert_eq!(initials("4ever"), Some(vec!['4', 'E']));
    assert_eq!(initials("7.alice"), Some(vec!['7', 'A']));
    assert_eq!(initials("12@abc"), None);
    assert_eq!(initials("@alice"), None);
    assert_eq!(initials(""), None);
    assert_eq!(initials("zoé"), Some(vec!['Z', 'O']));
}

#[test]
fn contours_cycle_through_five_shapes() {
    assert_eq!(Contour::from_index(0), Contour::Circle);
    assert_eq!(Contour::from_index(3), Contour::Shield);
    assert_eq!(Contour::from_index(9), Contour::Diamond);
    assert_eq!(Contour::from_index(255), Contour::Circle);
}

#[test]
fn drawing_context_writes_scoped_svg() {
    let mut hash = [0u8; 32];
    hash[28] = 0xab;
    hash[29] = 0x01;
    hash[30] = 7;
    let palette = palette_by_index(0);
    let mut ctx = Ctx::new(100, &palette, &hash, false, true);
    assert_eq!(ctx.id("clip"), "clip-ab0107");
    assert_eq!(ctx.trait_u8(30, 5), 2);
    assert_eq!(ctx.trait_u8(62, 5), 2);
    assert_eq!(ctx.color(7), "#ff6b9d");
    ctx.begin();
    ctx.close_defs();
    ctx.write_circle(105, 20, 30, "#fff", Some(5));
    ctx.write_circle(0, 0, 10, "#fff", None);
    ctx.write_ring(10, 10, 10, "#000", 3, 9);
    ctx.write_line((0, 0), (-10, 25), "#111", 10, 6);
    ctx.write_polygon(&[(0, 0), (10, 0), (10, 10)], "fill=\"red\"");
    ctx.out().push_str("<g/>");
    ctx.finish();
    assert_eq!(
        ctx.into_string(),
        "<svg xmlns=\"http://www.w3.org/2000/svg\" viewBox=\"0 0 100 100\" width=\"100\" height=\"100\" role=\"img\" aria-hidden=\"true\"><defs>\
<radialGradient id=\"bg-ab0107\" cx=\"0.5\" cy=\"0.4\" r=\"0.8\"><stop offset=\"0\" stop-color=\"#0a1628\" stop-opacity=\"1\"/><stop offset=\"1\" stop-color=\"#ff6b9d\" stop-opacity=\"0.16\"/></radialGradient>\
</defs><rect width=\"100%\" height=\"100%\" fill=\"#0a1628\"/><rect width=\"100%\" height=\"100%\" fill=\"url(#bg-ab0107)\"/>\
<circle cx=\"10.5\" cy=\"2\" r=\"3\" fill=\"#fff\" fill-opacity=\"0.5\"/>\
<circle cx=\"0\" cy=\"0\" r=\"1\" fill=\"#fff\"/>\
<circle cx=\"1\" cy=\"1\" r=\"1\" fill=\"none\" stroke=\"#000\" stroke-width=\"0.3\" stroke-opacity=\"0.9\"/>\
<line x1=\"0\" y1=\"0\" x2=\"-1\" y2=\"2.5\" stroke=\"#111\" stroke-width=\"1\" stroke-opacity=\"0.6\" stroke-linecap=\"round\"/>\
<path d=\"M0,0L1,0L1,1Z\" fill=\"red\"/><g/></svg>"
    );
    let mut d = String::new();
    polygon_d(&mut d, &[]);
    assert_eq!(d, "Z");
}

#[test]
fn ids_differ_between_identicons() {
    let palette = palette_by_index(2);
    let mut h1 = [9u8; 32];
    let mut h2 = [9u8; 32];
    h1[29] = 0x10;
    h2[29] = 0x01;
    let a = Ctx::new(64, &palette, &h1, false, false);
    let b = Ctx::new(64, &palette, &h2, false, false);
    assert_eq!(a.id("clip"), "clip-091009");
    assert_eq!(b.id("clip"), "clip-090109");
    assert_ne!(a.id("clip"), b.id("clip"));
}

#[test]
fn initials_ignore_what_follows_the_first_at() {
    assert_eq!(initials("x@anything.else"), initials("x"));
    assert_eq!(initials("jean.dupont@a.b@c"), Some(vec!['J', 'D']));
    assert_eq!(initials("42@example.org"), None);
    assert_eq!(initials("7a"), Some(vec!['7', 'A']));
    assert_eq!(initials("--q--"), Some(vec!['Q']));
    for input in ["alice", "a.b.c", "x_9", "bob-martin@x", "z"] {
        let v = initials(input).unwrap();
        assert!((1..=2).contains(&v.len()));
        assert!(v.iter().all(|c| c.is_ascii_uppercase() || c.is_ascii_digit()));
    }
}
