use mandelbrot::frame::{
    needs_offset, recovery_for, target_iterations, FrameStage, FrameUpdate, Recovery, Reference,
    SurfaceFailure, Uniforms, BASE_ITERS, MAX_ITER,
};

fn bits(x: f32) -> u32 {
    x.to_bits()
}

#[test]
fn budget_grows_with_the_logarithm_and_is_capped() {
    assert_eq!(BASE_ITERS, 500);
    assert_eq!(MAX_ITER, 20000);
    assert_eq!(target_iterations(0), 500);
    assert_eq!(target_iterations(1), 501);
    assert_eq!(target_iterations(100), 600);
    assert_eq!(target_iterations(19499), 19999);
    assert_eq!(target_iterations(19500), 20000);
    assert_eq!(target_iterations(19501), 20000);
    assert_eq!(target_iterations(i64::MAX), 20000);
    assert_eq!(target_iterations(u32::MAX as i64), 20000);
}

#[test]
fn budget_shrinks_below_zoom_one() {
    assert_eq!(target_iterations(-1), 499);
    assert_eq!(target_iterations(-200), 300);
    assert_eq!(target_iterations(-499), 1);
    assert_eq!(target_iterations(-500), 0);
    assert_eq!(target_iterations(-501), 0);
    assert_eq!(target_iterations(-(u32::MAX as i64)), 0);
    assert_eq!(target_iterations(i64::MIN), 0);
}

#[test]
fn zoom_of_a_hundredth_has_a_budget_of_three_hundred() {
    let log_zoom = 0.01f64.log10() as f32;
    assert_eq!(log_zoom, -2.0);
    let mut update = FrameUpdate::begin(bits(log_zoom));
    assert_eq!(update.target(), 300);
    update.scored(300, 300);
    let u = update.uniforms(bits(0.01), bits(1.0), (0, 0), 300).unwrap();
    assert_eq!(u.iter_count, 300);
    assert!(u.iter_count < BASE_ITERS);
}

#[test]
fn valid_camera_becomes_the_reference() {
    // Zoom one, camera at (-0.5, 0): the camera survives all 500 checks.
    let mut update = FrameUpdate::begin(bits(0.0));
    assert_eq!(update.target(), 500);
    assert_eq!(update.stage(), FrameStage::Scoring);
    assert_eq!(update.reference(), None);
    update.scored(500, 17);
    assert_eq!(update.stage(), FrameStage::Settled { reference: Reference::Camera });
    assert_eq!(update.reference(), Some(Reference::Camera));
    let u = update.uniforms(bits(1.0), bits(1.5), (bits(9.0), bits(-9.0)), 500).unwrap();
    assert_eq!((u.offset_re, u.offset_im), (0, 0));
    assert_eq!(u.iter_count, 500);
    assert_eq!(u.zoom, bits(1.0));
    assert_eq!(u.aspect, bits(1.5));
}

#[test]
fn valid_camera_wins_over_a_valid_reference() {
    let mut update = FrameUpdate::begin(bits(2.5));
    update.scored(750, 750);
    assert_eq!(update.reference(), Some(Reference::Camera));
}

#[test]
fn valid_reference_is_kept_when_the_camera_fails() {
    let mut update = FrameUpdate::begin(bits(0.0));
    update.scored(1, 500);
    assert_eq!(update.reference(), Some(Reference::Previous));
    let u = update.uniforms(bits(2.0), bits(1.0), (bits(0.25), bits(-0.5)), 500).unwrap();
    assert_eq!((u.offset_re, u.offset_im), (bits(0.25), bits(-0.5)));
}

#[test]
fn search_is_due_when_both_fail() {
    let mut update = FrameUpdate::begin(bits(0.0));
    update.scored(1, 3);
    assert_eq!(update.stage(), FrameStage::Searching { reference_score: 3 });
    assert_eq!(update.reference(), None);
    assert_eq!(update.uniforms(0, 0, (0, 0), 0), None);
}

#[test]
fn found_point_must_beat_the_reference() {
    for (found, want) in [(2, Reference::Previous), (3, Reference::Previous), (4, Reference::Found)]
    {
        let mut update = FrameUpdate::begin(bits(0.0));
        update.scored(1, 3);
        update.searched(found);
        assert_eq!(update.reference(), Some(want));
        let u = update.uniforms(bits(1.0), bits(1.0), (7, 8), 4).unwrap();
        assert_eq!((u.offset_re, u.offset_im, u.iter_count), (7, 8, 4));
    }
}

#[test]
fn events_out_of_turn_change_nothing() {
    let mut update = FrameUpdate::begin(bits(0.0));
    update.searched(9999);
    assert_eq!(update.stage(), FrameStage::Scoring);
    update.scored(500, 0);
    update.scored(0, 0);
    update.searched(9999);
    assert_eq!(update.reference(), Some(Reference::Camera));
    assert_eq!(update.target(), 500);
}

#[test]
fn offset_is_measured_unless_the_camera_is_the_reference() {
    assert!(!needs_offset(Reference::Camera));
    assert!(needs_offset(Reference::Found));
    assert!(needs_offset(Reference::Previous));
    let measured = (bits(0.125), bits(3.0));
    for reference in [Reference::Found, Reference::Previous] {
        let u = Uniforms::for_frame(reference, 1, 2, measured, 3);
        assert_eq!((u.offset_re, u.offset_im), measured);
    }
    let u = Uniforms::for_frame(Reference::Camera, 1, 2, measured, 3);
    assert_eq!((u.offset_re, u.offset_im), (0, 0));
}

#[test]
fn initial_uniforms() {
    let u = Uniforms::new();
    assert_eq!(f32::from_bits(u.zoom), 1.0);
    assert_eq!(f32::from_bits(u.aspect), 1.0);
    assert_eq!((u.offset_re, u.offset_im), (0, 0));
    assert_eq!(u.iter_count, 0);
}

#[test]
fn uniform_record_has_eight_words() {
    let u = Uniforms::for_frame(Reference::Found, bits(3.0), bits(0.5), (bits(1.0), bits(-1.0)), 42);
    let words = u.words();
    assert_eq!(words, [bits(3.0), bits(0.5), bits(1.0), bits(-1.0), 42, 0, 0, 0]);
    assert_eq!(std::mem::size_of_val(&words), 32);
}

#[test]
fn failures_are_answered_by_policy() {
    assert_eq!(recovery_for(SurfaceFailure::Lost), Recovery::Reconfigure);
    assert_eq!(recovery_for(SurfaceFailure::OutOfMemory), Recovery::Exit);
    assert_eq!(recovery_for(SurfaceFailure::Other), Recovery::Skip);
}

#[test]
fn budget_follows_the_logarithm_of_the_zoom() {
    for (log_zoom, want) in [
        (0.0f32, 500u32),
        (1.0, 600),
        (2.5, 750),
        (0.0607, 506),
        (-3.0, 200),
        (-2.0, 300),
        (-0.0607, 494),
        (-4.5, 50),
        (-5.0, 0),
        (-40.0, 0),
        (194.99, 19999),
        (195.0, 20000),
        (300.0, 20000),
        (f32::INFINITY, 20000),
        (f32::NEG_INFINITY, 0),
        (f32::NAN, 500),
        (-0.0, 500),
    ] {
        assert_eq!(FrameUpdate::begin(bits(log_zoom)).target(), want, "{}", log_zoom);
    }
}

#[test]
fn budget_agrees_with_the_formula_on_a_sweep() {
    let mut pattern: u32 = 0;
    loop {
        let x = f32::from_bits(pattern);
        let term = (100.0f32 * x) as i64;
        let want = (500 + term.clamp(-1_000_000, 1_000_000)).clamp(0, 20000) as u32;
        assert_eq!(FrameUpdate::begin(pattern).target(), want, "{:#x}", pattern);
        match pattern.checked_add(0x0000_3a71) {
            Some(next) => pattern = next,
            None => break,
        }
    }
}
