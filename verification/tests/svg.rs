use identicon_core::blob::{Accent, BackgroundGradient, BackgroundStyle, RenderedBlob};
use identicon_core::render::assemble_identicon;
use identicon_core::svg::SvgBuilder;
use identicon_core::{palette_by_index, Palette};

fn aurora() -> Palette {
    palette_by_index(0)
}

fn blob(radial: bool) -> RenderedBlob {
    RenderedBlob {
        path_d: "M1,2Z".to_string(),
        color_indices: [0, 6, 2],
        opacity: 7,
        mid_opacity: 5,
        use_radial: radial,
        cx: 4,
        cy: 6,
    }
}

#[test]
fn builder_frame() {
    let mut b = SvgBuilder::new(64, false, 0);
    b.begin(128);
    b.close_defs();
    b.write_background_rect();
    b.finish();
    assert_eq!(
        b.into_string(),
        "<svg xmlns=\"http://www.w3.org/2000/svg\" viewBox=\"0 0 128 128\" width=\"128\" height=\"128\" role=\"img\" aria-hidden=\"true\"><defs></defs><rect width=\"100%\" height=\"100%\" fill=\"url(#bg)\"/></svg>"
    );
}

#[test]
fn background_gradient_uses_style_colors() {
    let mut b = SvgBuilder::new(0, false, 0);
    b.write_background_gradient(&aurora(), BackgroundGradient { style: BackgroundStyle::Dark, x2: -5, y2: 10 });
    assert_eq!(
        b.into_string(),
        "<linearGradient id=\"bg\" x1=\"0\" y1=\"0\" x2=\"-0.5\" y2=\"1\"><stop offset=\"0\" stop-color=\"#0a1628\" stop-opacity=\"1\"/><stop offset=\"1\" stop-color=\"#ff6b9d\" stop-opacity=\"0.4\"/></linearGradient>"
    );
}

#[test]
fn blob_gradients() {
    let mut b = SvgBuilder::new(0, true, 7);
    b.write_blob_gradient("g0", &blob(true), &aurora());
    b.write_blob_gradient("g1", &blob(false), &aurora());
    assert_eq!(
        b.into_string(),
        "<radialGradient id=\"g0\" cx=\"0.4\" cy=\"0.6\" r=\"0.5\"><stop offset=\"0\" stop-color=\"#00d4aa\" stop-opacity=\"0.7\"/><stop offset=\"0.6\" stop-color=\"#7b68ee\" stop-opacity=\"0.5\"/><stop offset=\"1\" stop-color=\"#ff6b9d\" stop-opacity=\"0.2\"/></radialGradient>\
<linearGradient id=\"g1\" x1=\"0\" y1=\"0\" x2=\"1\" y2=\"1\"><stop offset=\"0\" stop-color=\"#00d4aa\" stop-opacity=\"0.7\"/><stop offset=\"0.5\" stop-color=\"#7b68ee\" stop-opacity=\"0.5\"/><stop offset=\"1\" stop-color=\"#ff6b9d\" stop-opacity=\"0.2\"/><animate attributeName=\"x1\" values=\"0;0.3;0\" dur=\"8s\" repeatCount=\"indefinite\"/></linearGradient>"
    );
}

#[test]
fn blob_paths_and_accents() {
    let accent = Accent { x: 105, y: 20, r: 30, r_pulse: 36, color_index: 8, opacity: 4 };
    let mut still = SvgBuilder::new(0, false, 0);
    still.write_blob_path("g3", &blob(true));
    still.write_accent(&aurora(), &accent, 0);
    assert_eq!(
        still.into_string(),
        "<path fill=\"url(#g3)\" d=\"M1,2Z\"/><circle cx=\"10.5\" cy=\"2\" r=\"3\" fill=\"#ffd93d\" fill-opacity=\"0.4\"/>"
    );
    let mut moving = SvgBuilder::new(0, true, 0);
    moving.write_blob_path("g3", &blob(true));
    moving.write_accent(&aurora(), &accent, 0);
    moving.write_accent(&aurora(), &accent, 1);
    assert_eq!(
        moving.into_string(),
        "<path fill=\"url(#g3)\" d=\"M1,2Z\" opacity=\"0.85\"><animate attributeName=\"opacity\" values=\"0.75;0.95;0.75\" dur=\"5s\" repeatCount=\"indefinite\"/></path>\
<circle cx=\"10.5\" cy=\"2\" r=\"3\" fill=\"#ffd93d\" fill-opacity=\"0.4\"><animate attributeName=\"r\" values=\"3;3.6;3\" dur=\"4s\" repeatCount=\"indefinite\"/></circle>\
<circle cx=\"10.5\" cy=\"2\" r=\"3\" fill=\"#ffd93d\" fill-opacity=\"0.4\"/>"
    );
}

#[test]
fn documents_are_assembled_in_order() {
    let accents = vec![Accent { x: 10, y: 10, r: 20, r_pulse: 24, color_index: 1, opacity: 3 }];
    let svg = assemble_identicon(
        64,
        &aurora(),
        Some(BackgroundGradient { style: BackgroundStyle::Light, x2: 10, y2: 0 }),
        false,
        0,
        &vec![blob(false)],
        &accents,
    );
    assert_eq!(
        svg,
        "<svg xmlns=\"http://www.w3.org/2000/svg\" viewBox=\"0 0 64 64\" width=\"64\" height=\"64\" role=\"img\" aria-hidden=\"true\"><defs>\
<linearGradient id=\"bg\" x1=\"0\" y1=\"0\" x2=\"1\" y2=\"0\"><stop offset=\"0\" stop-color=\"#e8f4f8\" stop-opacity=\"1\"/><stop offset=\"1\" stop-color=\"#00d4aa\" stop-opacity=\"0.4\"/></linearGradient>\
<linearGradient id=\"g0\" x1=\"0\" y1=\"0\" x2=\"1\" y2=\"1\"><stop offset=\"0\" stop-color=\"#00d4aa\" stop-opacity=\"0.7\"/><stop offset=\"0.5\" stop-color=\"#7b68ee\" stop-opacity=\"0.5\"/><stop offset=\"1\" stop-color=\"#ff6b9d\" stop-opacity=\"0.2\"/></linearGradient>\
</defs><rect width=\"100%\" height=\"100%\" fill=\"url(#bg)\"/>\
<path fill=\"url(#g0)\" d=\"M1,2Z\"/>\
<circle cx=\"1\" cy=\"1\" r=\"2\" fill=\"#7b68ee\" fill-opacity=\"0.3\"/></svg>"
    );
    let animated = assemble_identicon(64, &aurora(), None, true, 0, &vec![], &accents);
    assert!(animated.starts_with("<svg"));
    assert!(animated.ends_with("</svg>"));
    assert!(animated.contains("<animate"));
    assert!(!animated.contains("url(#bg)"));
}

#[test]
fn documents_animate_exactly_when_animated() {
    let accents = vec![Accent { x: 3, y: 9, r: 30, r_pulse: 36, color_index: 4, opacity: 5 }];
    let blobs = vec![blob(true), blob(false)];
    for index in 0..12 {
        let palette = palette_by_index(index);
        for animated in [false, true] {
            let svg = assemble_identicon(
                128,
                &palette,
                Some(BackgroundGradient { style: BackgroundStyle::Dark, x2: -7, y2: 7 }),
                animated,
                11,
                &blobs,
                &accents,
            );
            assert_eq!(svg.contains("<animate"), animated, "palette {index}");
        }
    }
}
