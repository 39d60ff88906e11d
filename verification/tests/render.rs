use identicon_core::render::plan_identicon;
use identicon_core::{RenderError, RenderOptions};

#[test]
fn deterministic_output() {
    let a = plan_identicon("alice", &RenderOptions::default()).unwrap();
    let b = plan_identicon("alice", &RenderOptions::default()).unwrap();
    assert_eq!(a, b);
}

#[test]
fn different_inputs_differ() {
    let a = plan_identicon("alice", &RenderOptions::default()).unwrap();
    let b = plan_identicon("bob", &RenderOptions::default()).unwrap();
    assert_ne!(a, b);
}

#[test]
fn rejects_empty() {
    assert!(plan_identicon("", &RenderOptions::default()).is_err());
}

#[test]
fn rejects_too_long() {
    let s = "a".repeat(300);
    assert!(plan_identicon(&s, &RenderOptions::default()).is_err());
}

#[test]
fn refusals_name_their_reason() {
    let opts = RenderOptions::default();
    assert_eq!(plan_identicon("", &opts).unwrap_err(), RenderError::EmptyInput);
    assert_eq!(plan_identicon(&"a".repeat(257), &opts).unwrap_err(), RenderError::InputTooLong);
    assert!(plan_identicon(&"a".repeat(256), &opts).is_ok());
    assert_eq!(plan_identicon("al ice", &opts).unwrap_err(), RenderError::InvalidCharset);
    assert_eq!(plan_identicon("é", &opts).unwrap_err(), RenderError::InvalidCharset);
}

use identicon_core::blob::{Placement, Symmetry};
use identicon_core::render::{anim_seed, select_palette};
use identicon_core::{hash_input, palette_by_index, palette_by_theme, Theme};

#[test]
fn plans_follow_the_options() {
    let opts = RenderOptions { size: 5000, theme: Some(Theme::Synthwave), animated: true, ..RenderOptions::default() };
    let p = plan_identicon("alice", &opts).unwrap();
    assert_eq!(p.size, 1024);
    assert_eq!(p.palette, palette_by_theme(Theme::Synthwave));
    assert!(p.animated);
    assert!(p.background);
    assert_eq!(p.hash, hash_input("alice"));
    assert_eq!(p.anim_seed, u32::from_le_bytes([p.hash[0], p.hash[1], p.hash[2], p.hash[3]]));
    let auto = plan_identicon("alice", &RenderOptions::default()).unwrap();
    assert_eq!(auto.palette, palette_by_index(auto.params.palette_index));
}

#[test]
fn plans_hold_sorted_blobs_and_their_draws() {
    for input in ["alice", "bob", "carol", "diego", "emma", "test-user-123", "x@y.z"] {
        let p = plan_identicon(input, &RenderOptions::default()).unwrap();
        assert!((3..=8).contains(&p.params.blob_count));
        assert!((2..=6).contains(&p.params.accent_count));
        assert_eq!(p.accents.len(), p.params.accent_count as usize);
        let per_base = match p.params.symmetry {
            Symmetry::Asymmetric => 1..=1,
            Symmetry::Mirror => 2..=2,
            Symmetry::Radial => 2..=4,
        };
        assert!(p.specs.len() >= *per_base.start() * p.params.blob_count as usize);
        assert!(p.specs.len() <= *per_base.end() * p.params.blob_count as usize);
        for w in p.specs.windows(2) {
            assert!(w[0].z <= w[1].z);
        }
        assert_eq!(p.perturbations.len(), p.specs.len());
        for (spec, draws) in p.specs.iter().zip(&p.perturbations) {
            assert!((8..=10).contains(&spec.point_count));
            assert_eq!(draws.len(), spec.point_count);
            assert!(spec.color_indices.iter().all(|c| *c < 5));
            if let Placement::Rotated { k, copies } = spec.placement {
                assert!(k < copies && (2..=4).contains(&copies));
            }
        }
        for a in &p.accents {
            assert!(a.color_index < 5);
        }
    }
}

#[test]
fn palette_selection_and_seed() {
    assert_eq!(select_palette(Some(Theme::Feu), 3), palette_by_theme(Theme::Feu));
    assert_eq!(select_palette(None, 15), palette_by_index(3));
    let mut h = [0u8; 32];
    h[0] = 1;
    h[3] = 2;
    assert_eq!(anim_seed(&h), 0x0200_0001);
}

#[test]
fn placeholder_is_an_empty_256_pixel_svg() {
    assert_eq!(
        identicon_core::render::placeholder_svg(),
        r#"<svg xmlns="http://www.w3.org/2000/svg" viewBox="0 0 256 256" width="256" height="256"></svg>"#
    );
}
