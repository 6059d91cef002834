use particle_flow::brightness::BRIGHTNESS_MAX_MIL;
use particle_flow::brightness::BrightnessGrid;
use particle_flow::brightness::brightness_milli;
use particle_flow::brightness::isqrt;

fn rgba_buffer(width: usize, height: usize, pixel: [u8; 4]) -> Vec<u8> {
    let mut buf = Vec::new();
    for _ in 0..width * height {
        buf.extend_from_slice(&pixel);
    }
    buf
}

/// The reference formula in floating point, in milli-units.
fn brightness_f64_milli(r: u8, g: u8, b: u8) -> f64 {
    let (r, g, b) = (r as f64, g as f64, b as f64);
    (r * r * 0.229 + g * g * 0.587 + b * b * 0.114).sqrt() / 100.0 * 1000.0
}

#[test]
fn isqrt_exact_values() {
    assert_eq!(isqrt(0), 0);
    assert_eq!(isqrt(1), 1);
    assert_eq!(isqrt(3), 1);
    assert_eq!(isqrt(4), 2);
    assert_eq!(isqrt(6_047_325), 2459);
    assert_eq!(isqrt(0xffff_ffff), 65535);
}

#[test]
fn brightness_exact_values() {
    // Black.
    assert_eq!(brightness_milli(0, 0, 0), 0);
    // One faint red step: isqrt(229 / 10) = 4.
    assert_eq!(brightness_milli(1, 0, 0), 4);
    // A mixed pixel: isqrt((229*100^2 + 587*150^2 + 114*200^2) / 10) = 1416.
    assert_eq!(brightness_milli(100, 150, 200), 1416);
    // Pure white, the maximum.
    assert_eq!(brightness_milli(255, 255, 255), BRIGHTNESS_MAX_MIL);
    assert_eq!(brightness_milli(255, 255, 255), 2459);
}

#[test]
fn brightness_matches_float_formula() {
    let samples: [(u8, u8, u8); 7] = [
        (0, 0, 0),
        (255, 255, 255),
        (1, 0, 0),
        (0, 1, 0),
        (17, 93, 201),
        (128, 128, 128),
        (255, 0, 255),
    ];
    for (r, g, b) in samples {
        let exact = brightness_milli(r, g, b) as f64;
        let float = brightness_f64_milli(r, g, b);
        assert!((exact - float).abs() <= 1.0, "({r},{g},{b}): {exact} vs {float}");
    }
}

#[test]
fn brightness_monotone_in_each_channel() {
    // Non-decreasing in each channel independently.
    for step in [0u8, 50, 100, 200, 255] {
        assert!(brightness_milli(step, 20, 30) <= brightness_milli(255, 20, 30));
        assert!(brightness_milli(10, step, 30) <= brightness_milli(10, 255, 30));
        assert!(brightness_milli(10, 20, step) <= brightness_milli(10, 20, 255));
    }
    assert!(brightness_milli(10, 20, 30) <= brightness_milli(11, 20, 30));
}

#[test]
fn brightness_deterministic() {
    assert_eq!(brightness_milli(90, 12, 240), brightness_milli(90, 12, 240));
}

#[test]
fn white_buffer_grid() {
    // A 2x2 all-white buffer: every cell is the white brightness, which is
    // floor(1000 * sqrt(255^2 * (0.229 + 0.587 + 0.114)) / 100) = 2459.
    let buf = rgba_buffer(2, 2, [255, 255, 255, 255]);
    let grid = BrightnessGrid::compute(&buf, 2, 2);
    for y in 0..2 {
        for x in 0..2 {
            assert_eq!(grid.sample(x, y, 2, 2), 2459);
        }
    }
}

#[test]
fn black_buffer_grid() {
    let buf = rgba_buffer(2, 2, [0, 0, 0, 255]);
    let grid = BrightnessGrid::compute(&buf, 2, 2);
    for y in 0..2 {
        for x in 0..2 {
            assert_eq!(grid.sample(x, y, 2, 2), 0);
        }
    }
}

#[test]
fn empty_surface_yields_empty_grid() {
    let buf: Vec<u8> = Vec::new();
    let _ = BrightnessGrid::compute(&buf, 0, 0);
    let one = rgba_buffer(1, 1, [12, 34, 56, 255]);
    let grid = BrightnessGrid::compute(&one, 1, 1);
    assert_eq!(grid.sample(0, 0, 1, 1), brightness_milli(12, 34, 56));
}

#[test]
fn compute_is_idempotent() {
    let mut buf = Vec::new();
    for i in 0..(3 * 4 * 4) {
        buf.push((i * 37 % 256) as u8);
    }
    let g1 = BrightnessGrid::compute(&buf, 3, 4);
    let g2 = BrightnessGrid::compute(&buf, 3, 4);
    for y in 0..4 {
        for x in 0..3 {
            assert_eq!(g1.sample(x, y, 3, 4), g2.sample(x, y, 3, 4));
        }
    }
}
