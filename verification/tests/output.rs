use ray_tracer::color::Color;
use ray_tracer::fixed::Fx;
use ray_tracer::ppm::V3;
use ray_tracer::progress::{format_number, State};
use ray_tracer::text::{format_u64, fx_to_text};

/// The fixed-point value nearest to `x`.
fn fx(x: f64) -> Fx {
    Fx::from_raw((x * 65536.0).round() as i64)
}

#[test]
fn test_format_u64() {
    assert_eq!(format_u64(0), "0");
    assert_eq!(format_u64(7), "7");
    assert_eq!(format_u64(105), "105");
    assert_eq!(format_u64(18446744073709551615), "18446744073709551615");
}

#[test]
fn test_fx_to_text() {
    assert_eq!(fx_to_text(fx(0.0)), "0");
    assert_eq!(fx_to_text(fx(3.0)), "3");
    assert_eq!(fx_to_text(fx(-2.0)), "-2");
    assert_eq!(fx_to_text(fx(0.5)), "0.5");
    assert_eq!(fx_to_text(fx(-1.25)), "-1.25");
    assert_eq!(fx_to_text(Fx::from_raw(1)), "0.0000152587890625");
}

#[test]
fn test_format_number() {
    assert_eq!(format_number(0), "0");
    assert_eq!(format_number(12), "12");
    assert_eq!(format_number(999), "999");
    assert_eq!(format_number(1000), "1,000");
    assert_eq!(format_number(1234567), "1,234,567");
    assert_eq!(format_number(1000000), "1,000,000");
}

#[test]
fn test_bar_halfway() {
    let state = State { cur: 50, max: 100 };
    let expected = format!(
        "\u{1b}[1m\u{1b}[36m\u{280b}\u{1b}[0m 50% {}\u{1b}[90m{}\u{1b}[0m  50 / 100 ",
        "\u{2501}".repeat(24),
        "\u{2500}".repeat(24),
    );
    assert_eq!(state.bar(0), expected);
}

#[test]
fn test_bar_done() {
    let state = State { cur: 100, max: 100 };
    let expected = format!(
        "100% {}\u{1b}[90m\u{1b}[0m 100 / 100 ",
        "\u{2501}".repeat(48),
    );
    assert_eq!(state.bar(3), expected);
}

#[test]
fn test_bar_empty_total_counts_as_done() {
    let state = State { cur: 0, max: 0 };
    let expected = format!(
        "100% {}\u{1b}[90m\u{1b}[0m 0 / 0 ",
        "\u{2501}".repeat(48),
    );
    assert_eq!(state.bar(0), expected);
}

#[test]
fn test_bar_clamps_overshoot() {
    let state = State { cur: 150, max: 100 };
    let expected = format!(
        "100% {}\u{1b}[90m\u{1b}[0m 150 / 100 ",
        "\u{2501}".repeat(48),
    );
    assert_eq!(state.bar(0), expected);
}

#[test]
fn test_bar_spinner_frames_differ() {
    let state = State { cur: 1, max: 100 };
    assert_ne!(state.bar(0), state.bar(1));
}

#[test]
fn test_ppm_encode() {
    let buffer = V3 {
        width: 2,
        height: 1,
        pixels: vec![
            Color::new(fx(0.0), fx(0.0), fx(0.0)),
            Color::new(fx(1.0), fx(1.0), fx(1.0)),
        ],
    };
    assert_eq!(buffer.encode(), "P3\n2 1\n255\n0 0 0\n255 255 255\n");
}

#[test]
fn test_ppm_encode_empty() {
    let buffer = V3 { width: 0, height: 0, pixels: vec![] };
    assert_eq!(buffer.encode(), "P3\n0 0\n255\n");
}
