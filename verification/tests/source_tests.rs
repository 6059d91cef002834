use particle_flow::source::text_baseline_mil;
use particle_flow::source::text_origin_mil;

#[test]
fn label_right_edge_flush_with_surface() {
    // A label measured at 37.5 pixels on a 100-pixel-wide surface starts at
    // x = 62.5, so its right edge lands exactly on x = 100.
    let origin = text_origin_mil(100_000, 37_500);
    assert_eq!(origin, 62_500);
    assert_eq!(origin + 37_500, 100_000);
}

#[test]
fn oversized_label_starts_left_of_surface() {
    let origin = text_origin_mil(100_000, 150_000);
    assert_eq!(origin, -50_000);
    assert_eq!(origin + 150_000, 100_000);
}

#[test]
fn baseline_is_centre_plus_offset() {
    // A 100-pixel-tall surface centres text at 50 and pushes it 15 down.
    assert_eq!(text_baseline_mil(100_000), 65_000);
}
