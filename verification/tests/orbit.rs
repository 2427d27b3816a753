use mandelbrot::orbit::{calculate_orbit, OrbitBuilder, OrbitStep};

fn bits(x: f64) -> u32 {
    (x as f32).to_bits()
}

fn steps_of(c: (f64, f64), count: u32) -> Vec<OrbitStep> {
    let mut z = (0.0f64, 0.0f64);
    let mut out = Vec::new();
    for _ in 0..count {
        let next = (z.0 * z.0 - z.1 * z.1 + c.0, 2.0 * z.0 * z.1 + c.1);
        out.push(OrbitStep {
            re: bits(z.0),
            im: bits(z.1),
            norm_after: bits(next.0 * next.0 + next.1 * next.1),
        });
        z = next;
    }
    out
}

#[test]
fn orbit_always_has_the_length_of_its_budget() {
    for c in [(0.0, 0.0), (2.0, 2.0), (-0.5, 0.0), (0.3, 0.5)] {
        for n in [0u32, 1, 5, 500] {
            let (orbit, valid) = calculate_orbit(&steps_of(c, n), n);
            assert_eq!(orbit.len(), n as usize);
            assert!(valid <= n);
            for entry in &orbit[valid as usize..] {
                assert_eq!(*entry, (0, 0));
            }
        }
    }
}

#[test]
fn interior_orbit_is_valid_throughout() {
    let steps = steps_of((-0.5, 0.0), 500);
    let (orbit, valid) = calculate_orbit(&steps, 500);
    assert_eq!(valid, 500);
    assert_eq!(orbit[0], (0, 0));
    assert_eq!(orbit[1], (bits(-0.5), bits(0.0)));
    assert_eq!(orbit[2], (bits(-0.25), bits(0.0)));
    for (entry, step) in orbit.iter().zip(steps.iter()) {
        assert_eq!(*entry, (step.re, step.im));
    }
}

#[test]
fn exterior_orbit_stops_after_its_first_point() {
    let (orbit, valid) = calculate_orbit(&steps_of((2.0, 2.0), 500), 500);
    assert_eq!(valid, 1);
    assert_eq!(orbit.len(), 500);
    assert!(orbit.iter().all(|e| *e == (0, 0)));
}

#[test]
fn point_before_the_break_is_kept() {
    let steps = vec![
        OrbitStep { re: bits(0.0), im: bits(0.0), norm_after: bits(1.0) },
        OrbitStep { re: bits(1.0), im: bits(0.0), norm_after: bits(4.0) },
        OrbitStep { re: bits(2.0), im: bits(0.0), norm_after: bits(25.0) },
        OrbitStep { re: bits(5.0), im: bits(0.0), norm_after: bits(676.0) },
    ];
    let (orbit, valid) = calculate_orbit(&steps, 6);
    assert_eq!(valid, 3);
    assert_eq!(
        orbit,
        vec![(bits(0.0), 0), (bits(1.0), 0), (bits(2.0), 0), (0, 0), (0, 0), (0, 0)]
    );
}

#[test]
fn budget_cuts_the_record() {
    let steps = steps_of((0.0, 0.0), 10);
    let (orbit, valid) = calculate_orbit(&steps, 4);
    assert_eq!((orbit.len(), valid), (4, 4));
    let (orbit, valid) = calculate_orbit(&steps, 0);
    assert_eq!((orbit.len(), valid), (0, 0));
}

#[test]
fn short_record_is_padded() {
    let steps = vec![OrbitStep { re: bits(0.5), im: bits(-0.5), norm_after: bits(0.1) }];
    let (orbit, valid) = calculate_orbit(&steps, 3);
    assert_eq!(valid, 1);
    assert_eq!(orbit, vec![(bits(0.5), bits(-0.5)), (0, 0), (0, 0)]);
}

#[test]
fn builder_stops_asking_after_an_escape() {
    let mut builder = OrbitBuilder::new(5);
    assert!(builder.wants_step());
    builder.record(OrbitStep { re: 1, im: 2, norm_after: bits(3.0) });
    assert!(builder.wants_step());
    builder.record(OrbitStep { re: 3, im: 4, norm_after: bits(4.5) });
    assert!(!builder.wants_step());
    builder.record(OrbitStep { re: 5, im: 6, norm_after: 0 });
    let (orbit, valid) = builder.finish();
    assert_eq!(valid, 2);
    assert_eq!(orbit, vec![(1, 2), (3, 4), (0, 0), (0, 0), (0, 0)]);
}

#[test]
fn builder_stops_asking_at_the_budget() {
    let mut builder = OrbitBuilder::new(2);
    builder.record(OrbitStep { re: 1, im: 1, norm_after: 0 });
    builder.record(OrbitStep { re: 2, im: 2, norm_after: 0 });
    assert!(!builder.wants_step());
    builder.record(OrbitStep { re: 3, im: 3, norm_after: 0 });
    let (orbit, valid) = builder.finish();
    assert_eq!((orbit, valid), (vec![(1, 1), (2, 2)], 2));
    assert!(!OrbitBuilder::new(0).wants_step());
}
