use particle_flow::animation::EffectConfig;
use particle_flow::animation::EffectController;
use particle_flow::animation::LoopState;
use particle_flow::source::RasterSource;
use particle_flow::source::SourceError;
use particle_flow::source::SourceErrorKind;

fn image_config() -> EffectConfig {
    EffectConfig {
        width: 2,
        height: 2,
        particle_count: 5,
        trail_opacity_mil: 50,
        particle_opacity_scale_mil: 100,
        background_color: String::from("rgb(0,0,0)"),
        source: RasterSource::Image { path: String::from("content/missing.png") },
    }
}

fn white_buffer() -> Vec<u8> {
    let mut buf = Vec::new();
    for _ in 0..4 {
        buf.extend_from_slice(&[255, 255, 255, 255]);
    }
    buf
}

#[test]
fn fetch_failure_halts_and_never_runs() {
    // An unreachable image path resolves with the fetch category; the loop
    // never leaves the pre-running phases and never plans a frame.
    let mut c = EffectController::new(image_config());
    assert!(matches!(c.state, LoopState::Priming));
    assert!(c.tick().is_none());
    c.on_source(Err(SourceError {
        kind: SourceErrorKind::Fetch,
        message: String::from("network unreachable"),
    }));
    match &c.state {
        LoopState::Halted { error } => {
            assert_eq!(error.kind, SourceErrorKind::Fetch);
            assert_eq!(error.message, "network unreachable");
        }
        _ => panic!("expected a halted instance"),
    }
    for _ in 0..3 {
        assert!(c.tick().is_none());
        assert!(matches!(c.state, LoopState::Halted { .. }));
    }
}

#[test]
fn decode_failure_halts() {
    let mut c = EffectController::new(image_config());
    c.on_source(Err(SourceError {
        kind: SourceErrorKind::Decode,
        message: String::from("not an image"),
    }));
    match &c.state {
        LoopState::Halted { error } => assert_eq!(error.kind, SourceErrorKind::Decode),
        _ => panic!("expected a halted instance"),
    }
}

#[test]
fn surface_read_failure_halts() {
    let mut c = EffectController::new(image_config());
    c.on_source(Err(SourceError {
        kind: SourceErrorKind::SurfaceRead,
        message: String::from("surface torn down"),
    }));
    match &c.state {
        LoopState::Halted { error } => assert_eq!(error.kind, SourceErrorKind::SurfaceRead),
        _ => panic!("expected a halted instance"),
    }
}

#[test]
fn successful_source_starts_running() {
    let mut c = EffectController::new(image_config());
    c.on_source(Ok(white_buffer()));
    match &c.state {
        LoopState::Running { field, .. } => {
            assert_eq!(field.particles.len(), 5);
            for p in field.particles.iter() {
                assert_eq!(p.y_mil, 0);
            }
        }
        _ => panic!("expected a running instance"),
    }
}

#[test]
fn tick_plans_one_circle_per_particle() {
    let mut c = EffectController::new(image_config());
    c.on_source(Ok(white_buffer()));
    let plan = c.tick().expect("running instance plans a frame");
    assert_eq!(plan.trail_opacity_mil, 50);
    assert_eq!(plan.circles.len(), 5);
    for circle in plan.circles.iter() {
        // Every cell of a white buffer samples 2459, scaled by 0.100.
        assert_eq!(circle.opacity_mil, 245);
        assert!((1000..2000).contains(&circle.radius_mil));
        // First tick from the top edge: y = 2500 - 2459 + bias, bias < 500.
        assert!(circle.y_mil >= 41 && circle.y_mil < 541);
    }
}
