use identicon_core::render::grad_id_buf;
use identicon_core::svg::{clamp_size, write_simple_stop, write_u32};
use identicon_core::text::{write_hex_byte, write_tenths};

/// Float formatting as the renderer applies it: one decimal, no fraction for whole values.
fn float_text(v: f32) -> String {
    let rounded = (v * 10.0).round() / 10.0;
    if rounded.fract().abs() < 0.05 {
        let i = rounded as i32;
        i.to_string()
    } else {
        format!("{rounded:.1}")
    }
}

fn tenths(v: f32) -> i32 {
    (v * 10.0).round() as i32
}

fn tenths_string(t: i32) -> String {
    let mut s = String::new();
    write_tenths(&mut s, t);
    s
}

#[test]
fn tenths_are_written_with_one_decimal() {
    assert_eq!(tenths_string(0), "0");
    assert_eq!(tenths_string(30), "3");
    assert_eq!(tenths_string(-30), "-3");
    assert_eq!(tenths_string(5), "0.5");
    assert_eq!(tenths_string(-5), "-0.5");
    assert_eq!(tenths_string(123), "12.3");
    assert_eq!(tenths_string(-15), "-1.5");
    assert_eq!(tenths_string(i32::MIN), "-214748364.8");
    assert_eq!(tenths_string(i32::MAX), "214748364.7");
}

#[test]
fn tenths_match_float_formatting() {
    let mut v = -300.0f32;
    while v < 1100.0 {
        assert_eq!(tenths_string(tenths(v)), float_text(v), "{v}");
        v += 0.37;
    }
    for c in [0.0f32, 1.0, 0.35, 0.55, 0.15, 0.5, 0.2, 0.75, 0.8, 0.92, 0.042, -0.04] {
        assert_eq!(tenths_string(tenths(c)), float_text(c), "{c}");
    }
    assert_eq!(tenths(0.35), 4);
    assert_eq!(tenths(0.55), 6);
    assert_eq!(tenths(0.15), 2);
    assert_eq!(tenths(0.2), 2);
}

#[test]
fn decimals_and_hex() {
    for (v, t) in [(0u32, "0"), (9, "9"), (10, "10"), (256, "256"), (u32::MAX, "4294967295")] {
        let mut s = String::new();
        write_u32(&mut s, v);
        assert_eq!(s, t);
    }
    let mut h = String::new();
    for b in [0u8, 9, 10, 171, 255] {
        write_hex_byte(&mut h, b);
    }
    assert_eq!(h, "00090aabff");
}

#[test]
fn gradient_ids() {
    assert_eq!(grad_id_buf(0), "g0");
    assert_eq!(grad_id_buf(7), "g7");
    assert_eq!(grad_id_buf(12), "g12");
    assert_eq!(grad_id_buf(9999), "g9999");
}

#[test]
fn stops_and_sizes() {
    let mut s = String::new();
    write_simple_stop(&mut s, 6, "#abc", 4);
    assert_eq!(s, "<stop offset=\"0.6\" stop-color=\"#abc\" stop-opacity=\"0.4\"/>");
    assert_eq!(clamp_size(0), 32);
    assert_eq!(clamp_size(31), 32);
    assert_eq!(clamp_size(32), 32);
    assert_eq!(clamp_size(128), 128);
    assert_eq!(clamp_size(1024), 1024);
    assert_eq!(clamp_size(5000), 1024);
}
