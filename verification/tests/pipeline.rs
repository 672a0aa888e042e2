//! End-to-end tests: a scalar driver for the geodesic arithmetic, wired to
//! the library's verified control layer, renders single rays against a
//! black hole of Schwarzschild radius one and checks where they stop.

use black_hole_sim::black_hole::AccretionDisk;
use black_hole_sim::compositor::{Color, Compositor, FP_ONE};
use black_hole_sim::integration::{
    cap_step_growth, IntegrationOutcome, Rkf45Session, StepControl,
};
use black_hole_sim::ray::{needs_renormalization, Ray, StepEvent, StoppingCriterion};
use black_hole_sim::tensors::SphericalState4D;
use black_hole_sim::trace::{Trace, TracePlan};

const DIV_EPSILON: f64 = 1e-8;

type State = SphericalState4D<f64>;

fn state_from(v: [f64; 8]) -> State {
    SphericalState4D::spherical(v[0], v[1], v[2], v[3], v[4], v[5], v[6], v[7])
}

fn state_to(s: State) -> [f64; 8] {
    [s.t, s.r, s.theta, s.phi, s.dt, s.dr, s.dtheta, s.dphi]
}

fn axpy(s: State, k: f64, d: State) -> State {
    let a = state_to(s);
    let b = state_to(d);
    let mut out = [0.0; 8];
    for i in 0..8 {
        out[i] = a[i] + k * b[i];
    }
    state_from(out)
}

fn norm_diff(a: State, b: State) -> f64 {
    let x = state_to(a);
    let y = state_to(b);
    let mut sum = 0.0;
    for i in 0..8 {
        sum += (x[i] - y[i]) * (x[i] - y[i]);
    }
    sum.sqrt()
}

/// The Schwarzschild geodesic right-hand side, with the altitude clamped
/// away from the coordinate singularity at the horizon.
fn geodesic(s: State, rs: f64) -> State {
    let (sin_theta, cos_theta) = s.theta.sin_cos();
    let altitude = (s.r - rs).max(DIV_EPSILON);

    let d2t = -rs * s.dr * s.dt / (s.r * altitude);
    let d2r = {
        let term1 = rs * altitude * s.dt.powi(2) / (2.0 * s.r.powi(3));
        let term2 = rs / (2.0 * s.r * altitude) * s.dr.powi(2);
        let term3 = s.dtheta.powi(2) + (sin_theta * s.dphi).powi(2);
        -term1 + term2 + altitude * term3
    };
    let d2theta = -2.0 * s.dr * s.dtheta / s.r + sin_theta * cos_theta * s.dphi.powi(2);
    let d2phi = -2.0 * (s.dr * s.dphi / s.r + s.dtheta * s.dphi * cos_theta / sin_theta);

    state_from([s.dt, s.dr, s.dtheta, s.dphi, d2t, d2r, d2theta, d2phi])
}

/// One embedded RKF45 trial: the fifth-order state, the error estimate and
/// the controller's suggested next step.
fn rkf45_trial(s: State, h: f64, tol: f64, rs: f64) -> (State, f64, f64) {
    let k1 = geodesic(s, rs);
    let k2 = geodesic(axpy(s, h * (1.0 / 4.0), k1), rs);
    let k3 = geodesic(axpy(axpy(s, h * (3.0 / 32.0), k1), h * (9.0 / 32.0), k2), rs);
    let k4 = geodesic(
        axpy(
            axpy(axpy(s, h * (1932.0 / 2197.0), k1), h * (-7200.0 / 2197.0), k2),
            h * (7296.0 / 2197.0),
            k3,
        ),
        rs,
    );
    let k5 = geodesic(
        axpy(
            axpy(
                axpy(axpy(s, h * (439.0 / 216.0), k1), h * (-8.0), k2),
                h * (3680.0 / 513.0),
                k3,
            ),
            h * (-845.0 / 4104.0),
            k4,
        ),
        rs,
    );
    let k6 = geodesic(
        axpy(
            axpy(
                axpy(
                    axpy(axpy(s, h * (-8.0 / 27.0), k1), h * 2.0, k2),
                    h * (-3544.0 / 2565.0),
                    k3,
                ),
                h * (1859.0 / 4104.0),
                k4,
            ),
            h * (-11.0 / 40.0),
            k5,
        ),
        rs,
    );

    let order4 = axpy(
        axpy(
            axpy(axpy(s, h * (25.0 / 216.0), k1), h * (1408.0 / 2565.0), k3),
            h * (2197.0 / 4104.0),
            k4,
        ),
        h * (-1.0 / 5.0),
        k5,
    );
    let order5 = axpy(
        axpy(
            axpy(
                axpy(axpy(s, h * (16.0 / 135.0), k1), h * (6656.0 / 12825.0), k3),
                h * (28561.0 / 56430.0),
                k4,
            ),
            h * (-9.0 / 50.0),
            k5,
        ),
        h * (2.0 / 55.0),
        k6,
    );

    let error = norm_diff(order4, order5);
    let new_h = 0.9 * h * (tol / error).powf(0.2);
    (order5, error, new_h)
}

/// One adaptive integration attempt, driven through the verified session.
fn integrate(
    s: State,
    h: f64,
    rs: f64,
    tol: f64,
    min_h: f64,
    max_retries: usize,
) -> IntegrationOutcome<State, f64> {
    let mut session: Rkf45Session<State, f64> = Rkf45Session::begin(s, h, max_retries);
    let mut current_h = h;
    loop {
        let (candidate, error, suggested) = rkf45_trial(s, current_h, tol, rs);
        let capped = cap_step_growth(suggested, current_h * 2.0, suggested > current_h * 2.0);
        match session.on_trial(candidate, capped, error < tol, suggested < min_h) {
            StepControl::Retry => current_h = suggested,
            StepControl::Accept | StepControl::Fail(_) => return session.resolve(),
        }
    }
}

fn spatial_to_spherical(x: f64, y: f64, z: f64, dx: f64, dy: f64, dz: f64) -> [f64; 6] {
    let r = (x * x + y * y + z * z).sqrt();
    let theta = if r == 0.0 { 0.0 } else { (z / r).acos() };
    let phi = y.atan2(x);
    let dr = if r > DIV_EPSILON { (x * dx + y * dy + z * dz) / r } else { 0.0 };
    let rho_sq = x * x + y * y;
    let rho = rho_sq.sqrt();
    let dtheta = if r > DIV_EPSILON && rho > DIV_EPSILON {
        (z * (x * dx + y * dy) - rho_sq * dz) / (r * r * rho)
    } else {
        0.0
    };
    let dphi = if rho_sq > DIV_EPSILON { (x * dy - y * dx) / rho_sq } else { 0.0 };
    [r, theta, phi, dr, dtheta, dphi]
}

/// The time-velocity that puts a spatial state on a null geodesic.
fn initial_dt(r: f64, theta: f64, dr: f64, dtheta: f64, dphi: f64, rs: f64) -> f64 {
    let denom = 1.0 - rs / r;
    let num_part1 = (1.0 / denom) * dr.powi(2);
    let num_part2 = r * r * dtheta.powi(2);
    let num_part3 = r * r * (theta.sin() * dphi).powi(2);
    ((num_part1 + num_part2 + num_part3) / denom).sqrt()
}

fn ray_from_cartesian(x: f64, y: f64, z: f64, dx: f64, dy: f64, dz: f64, rs: f64, h0: f64) -> Ray<f64> {
    let [r, theta, phi, dr, dtheta, dphi] = spatial_to_spherical(x, y, z, dx, dy, dz);
    let dt = initial_dt(r, theta, dr, dtheta, dphi, rs);
    Ray::new(state_from([0.0, r, theta, phi, dt, dr, dtheta, dphi]), h0)
}

fn renormalized_dt(s: State, rs: f64) -> f64 {
    initial_dt(s.r, s.theta, s.dr, s.dtheta, s.dphi, rs)
}

fn cartesian_position(s: State) -> [f64; 3] {
    let sin_theta = s.theta.sin();
    [
        s.r * sin_theta * s.phi.cos(),
        s.r * sin_theta * s.phi.sin(),
        s.r * s.theta.cos(),
    ]
}

fn cartesian_velocity(s: State) -> [f64; 3] {
    let sin_theta = s.theta.sin();
    let cos_theta = s.theta.cos();
    let sin_phi = s.phi.sin();
    let cos_phi = s.phi.cos();
    let dx = s.dr * sin_theta * cos_phi + s.r * s.dtheta * cos_theta * cos_phi
        - s.r * s.dphi * sin_theta * sin_phi;
    let dy = s.dr * sin_theta * sin_phi
        + s.r * s.dtheta * cos_theta * sin_phi
        + s.r * s.dphi * sin_theta * cos_phi;
    let dz = s.dr * cos_theta - s.r * s.dtheta * sin_theta;
    [dx, dy, dz]
}

struct TestScene {
    rs: f64,
    visual_radius: f64,
    bounding_box_radius: f64,
    disk: AccretionDisk<f64>,
    tol: f64,
    min_h: f64,
    max_retries: usize,
}

fn scene_with_rs_one() -> TestScene {
    let rs = 1.0;
    let r_isco = 3.0 * rs;
    let r_max = 15.0 * rs;
    TestScene {
        rs,
        visual_radius: 1.01 * rs,
        bounding_box_radius: 400.0 * rs,
        disk: AccretionDisk::new(r_isco, r_max, r_max - r_isco, 18000.0, 0.04, 3.0, 0.5, 1.0),
        tol: rs * 1e-8,
        min_h: rs * 1e-4,
        max_retries: 20,
    }
}

/// Evaluates the geometry of one accepted step: the plane-crossing
/// interpolation, the disk classification, and the escape flags.
fn advanced_event(
    s: State,
    new_state: State,
    next_step: f64,
    sc: &TestScene,
) -> StepEvent<f64, [f64; 3]> {
    let p1 = cartesian_position(s);
    let p2 = cartesian_position(new_state);
    let t = -p1[2] / (p2[2] - p1[2]);
    let crossing_point = [
        p1[0] + (p2[0] - p1[0]) * t,
        p1[1] + (p2[1] - p1[1]) * t,
        p1[2] + (p2[2] - p1[2]) * t,
    ];
    let r_plane = (crossing_point[0] * crossing_point[0]
        + crossing_point[1] * crossing_point[1]
        + crossing_point[2] * crossing_point[2])
        .sqrt();
    let disk_crossing = sc.disk.check_intersection(
        r_plane,
        t < 0.0,
        t > 1.0,
        r_plane < sc.disk.r_isco,
        r_plane > sc.disk.accretion_r_max,
    );
    let v1 = cartesian_velocity(s);
    let outward = p2[0] * v1[0] + p2[1] * v1[1] + p2[2] * v1[2] > 0.0;
    StepEvent::Advanced {
        state: new_state,
        next_step,
        disk_crossing,
        beyond_bounding_box: new_state.r > sc.bounding_box_radius,
        moving_outward: outward,
        position: p2,
    }
}

/// One full step of the termination state machine: the driver evaluates the
/// geometry and the verified machine decides.
fn drive_step(ray: &mut Ray<f64>, sc: &TestScene) -> Option<StoppingCriterion<f64, [f64; 3]>> {
    let s = ray.state();
    if s.r <= sc.visual_radius {
        return ray.step(true, None);
    }
    let event = match integrate(s, ray.d_lambda(), sc.rs, sc.tol, sc.min_h, sc.max_retries) {
        IntegrationOutcome::Failed { state, .. } => StepEvent::Failed {
            near_horizon: state.r < sc.visual_radius,
            last_position: cartesian_position(state),
        },
        IntegrationOutcome::Accepted { state: new_state, next_step } => {
            advanced_event(s, new_state, next_step, sc)
        }
    };
    ray.step(false, Some(event))
}

/// The original emission model, quantized to the fixed-point colour the
/// verified compositor takes.
fn disk_sample(sc: &TestScene, radius: f64) -> Option<Color> {
    let d = &sc.disk;
    if radius < d.r_isco || radius > d.accretion_r_max {
        return None;
    }
    let brightness = |r: f64| (1.0 - (d.r_isco / r).sqrt()) / (r.powi(3) + DIV_EPSILON);
    let r_peak = d.r_isco * (49.0 / 36.0);
    let peak = brightness(r_peak);
    let normalized_brightness = (brightness(radius) / peak).min(1.0);
    let normalized_radius = (radius - d.r_isco) / d.width;
    let smooth = {
        let t = ((normalized_radius - d.fade_start_ratio) / (1.0 - d.fade_start_ratio))
            .max(0.0)
            .min(1.0);
        t * t * (3.0 - 2.0 * t)
    };
    let geometric_falloff = 1.0 - smooth;
    let intensity = normalized_brightness * geometric_falloff;
    let opacity = d.step_opacity * intensity;
    let channel = |v: f64| ((v * FP_ONE as f64) as u64).min(FP_ONE);
    Some(Color {
        r: channel(intensity),
        g: channel(intensity * 0.8),
        b: channel(intensity * 0.6),
        a: channel(opacity),
    })
}

#[test]
fn zero_step_is_identity() {
    // Integrating with a step of zero accepts immediately and returns the
    // state bit for bit.
    let sc = scene_with_rs_one();
    let s = state_from([0.0, 10.0, 1.2, 0.3, 1.5, -0.4, 0.01, 0.02]);
    match integrate(s, 0.0, sc.rs, sc.tol, sc.min_h, sc.max_retries) {
        IntegrationOutcome::Accepted { state, .. } => {
            assert_eq!(state_to(state), state_to(s));
        }
        IntegrationOutcome::Failed { .. } => panic!("a zero step meets any tolerance"),
    }
}

#[test]
fn cartesian_spherical_roundtrip() {
    // The driver's conversion pair: Cartesian to spherical and back,
    // within floating-point tolerance, away from the poles.
    let cases = [
        [3.0, 4.0, 5.0, 0.1, -0.2, 0.3],
        [-7.0, 2.0, -1.0, 1.0, 0.0, 0.5],
        [10.0, -10.0, 0.5, -0.3, -0.3, 0.0],
    ];
    for c in cases.iter() {
        let [r, theta, phi, dr, dtheta, dphi] =
            spatial_to_spherical(c[0], c[1], c[2], c[3], c[4], c[5]);
        let s = state_from([0.0, r, theta, phi, 0.0, dr, dtheta, dphi]);
        let p = cartesian_position(s);
        let v = cartesian_velocity(s);
        for i in 0..3 {
            assert!((p[i] - c[i]).abs() < 1e-9, "position component {i} drifted");
            assert!((v[i] - c[i + 3]).abs() < 1e-9, "velocity component {i} drifted");
        }
    }
}

#[test]
fn central_ray_is_captured() {
    // A ray aimed straight at the centre from far away falls in within the
    // step cap.
    let sc = scene_with_rs_one();
    let mut ray = ray_from_cartesian(-100.0, 0.0, 0.0, 1.0, 0.0, 0.0, sc.rs, 0.1 * sc.rs);
    let mut outcome = None;
    for i in 0..1000 {
        if needs_renormalization(i, 10) {
            let s = ray.state();
            ray.renormalize_to(renormalized_dt(s, sc.rs));
        }
        if let Some(criterion) = drive_step(&mut ray, &sc) {
            outcome = Some(criterion);
            break;
        }
    }
    match outcome {
        Some(StoppingCriterion::EnteredEventHorizon) => {}
        other => panic!("expected capture, got {:?}", other.map(|_| ())),
    }
}

#[test]
fn far_parallel_outward_ray_escapes_on_first_step() {
    // Far outside the bounding box, moving away: the very first step ends
    // in an escape.
    let sc = scene_with_rs_one();
    let mut ray = ray_from_cartesian(10.0, 450.0, 5.0, 1.0, 0.0, 0.0, sc.rs, 0.1 * sc.rs);
    let mut steps = 0;
    let criterion = loop {
        steps += 1;
        if let Some(c) = drive_step(&mut ray, &sc) {
            break c;
        }
        if steps > 3 {
            panic!("ray failed to escape promptly");
        }
    };
    assert_eq!(steps, 1);
    match criterion {
        StoppingCriterion::OutOfBoundingBox(direction) => {
            assert!(direction[1] > 400.0);
        }
        _ => panic!("expected an escape"),
    }
}

#[test]
fn equatorial_crossing_inside_disk_yields_opaque_sample() {
    // A ray that pierces the equatorial plane between the disk's inner and
    // outer radii reports the crossing, and the emission there has
    // non-zero opacity.
    let sc = scene_with_rs_one();
    let mut ray = ray_from_cartesian(9.0, 0.0, 30.0, 0.0, 0.0, -1.0, sc.rs, 0.1 * sc.rs);
    let mut crossing = None;
    for i in 0..1000 {
        if needs_renormalization(i, 10) {
            let s = ray.state();
            ray.renormalize_to(renormalized_dt(s, sc.rs));
        }
        if let Some(criterion) = drive_step(&mut ray, &sc) {
            match criterion {
                StoppingCriterion::CrossedAccretionDisk(radius) => {
                    crossing = Some(radius);
                    break;
                }
                StoppingCriterion::EnteredEventHorizon => panic!("ray should not be captured"),
                StoppingCriterion::OutOfBoundingBox(_) => panic!("ray should hit the disk first"),
            }
        }
    }
    let radius = crossing.expect("the disk crossing was never reported");
    assert!(radius > sc.disk.r_isco && radius < sc.disk.accretion_r_max);
    let sample = disk_sample(&sc, radius).expect("a crossing radius must be inside the disk");
    assert!(sample.a > 0);
    let mut comp = Compositor::new();
    comp.add_sample(sample);
    assert!(comp.transmittance() < FP_ONE);
    assert!(comp.accumulated().r > 0);
}

/// One step of a trace, evaluating the geometry for the verified machine
/// as [`drive_step`] does for a bare ray.
fn drive_trace_step(
    trace: &mut Trace<f64>,
    sc: &TestScene,
) -> Option<StoppingCriterion<f64, [f64; 3]>> {
    let s = trace.state();
    if s.r <= sc.visual_radius {
        return trace.step(true, None);
    }
    let event = match integrate(s, trace.d_lambda(), sc.rs, sc.tol, sc.min_h, sc.max_retries) {
        IntegrationOutcome::Failed { state, .. } => StepEvent::Failed {
            near_horizon: state.r < sc.visual_radius,
            last_position: cartesian_position(state),
        },
        IntegrationOutcome::Accepted { state: new_state, next_step } => {
            advanced_event(s, new_state, next_step, sc)
        }
    };
    trace.step(false, Some(event))
}

#[test]
fn captured_ray_composites_to_the_capture_color() {
    // The full per-pixel pipeline for a captured ray, run through the
    // verified trace session: one opaque capture sample, then the
    // background contributes nothing.
    let sc = scene_with_rs_one();
    let ray = ray_from_cartesian(-100.0, 0.0, 0.0, 1.0, 0.0, 0.0, sc.rs, 0.1 * sc.rs);
    let capture_color = Color { r: 0, g: 0, b: 0, a: FP_ONE };
    let background = Color { r: FP_ONE / 2, g: FP_ONE / 2, b: FP_ONE / 2, a: FP_ONE };
    let mut trace: Trace<f64> = Trace::begin(ray, 1000, 10);
    loop {
        match trace.plan() {
            TracePlan::Done => break,
            TracePlan::Step { renormalize } => {
                if renormalize {
                    let s = trace.state();
                    trace.renormalize_to(renormalized_dt(s, sc.rs));
                }
                if let Some(criterion) = drive_trace_step(&mut trace, &sc) {
                    let sample = match criterion {
                        StoppingCriterion::EnteredEventHorizon => capture_color,
                        StoppingCriterion::CrossedAccretionDisk(radius) => {
                            black_hole_sim::compositor::disk_sample_or_transparent(disk_sample(
                                &sc, radius,
                            ))
                        }
                        StoppingCriterion::OutOfBoundingBox(_) => {
                            panic!("central ray cannot escape")
                        }
                    };
                    trace.absorb(sample);
                }
            }
        }
    }
    let out = trace.finish(background);
    // The opaque capture leaves the background a weight of exactly zero.
    assert_eq!(out.r, 0);
    assert_eq!(out.g, 0);
    assert_eq!(out.b, 0);
    assert_eq!(out.a, FP_ONE);
}
