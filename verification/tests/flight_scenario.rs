//! End-to-end flight scenarios.  The rounding float arithmetic of one
//! sub-step — seam generation and rotation, the drag/Magnus/SSW force law,
//! the Runge-Kutta combination — cannot live in the verified library, so this
//! file carries a reference integration of it (the same arithmetic the host
//! adapter runs) and drives the verified state with each sub-step's results:
//! every recording, capture and SSW-activation decision below goes through
//! the library.

use baseball_flight::ball_flight_state::{BaseballFlightState, N_SEAMS};
use baseball_flight::resources::BaseballPluginConfig;
use baseball_flight::ssw::{find_ssw_seams, SeamProbe};
use baseball_flight::vec3::DVec3Bits;
use glam::{DQuat, DVec3};

const PI: f64 = std::f64::consts::PI;
const T_STEP: f64 = 0.001;
const RHO: f64 = 0.074;
const DIAMETER: f64 = (2. + 15. / 16.) / 12.;
const MASS_OZ: f64 = 0.3203125;
const CD_CONST: f64 = 0.33;
const C_SEAMS: f64 = 0.02;
const SEAM_DIAMETER: f64 = 2. + 15. / 16.;
const SPIN_DECAY: f64 = 10000.;
const M_TO_FEET: f64 = 3.28084;

fn c_0() -> f64 {
    let area = 0.25 * PI * DIAMETER * DIAMETER;
    0.5 * RHO * area / MASS_OZ
}

fn to_bits(v: DVec3) -> DVec3Bits {
    DVec3Bits { x: v.x.to_bits(), y: v.y.to_bits(), z: v.z.to_bits() }
}

fn seams_to_bits(seams: &[DVec3]) -> Vec<DVec3Bits> {
    seams.iter().map(|p| to_bits(*p)).collect()
}

/// Converts a host-frame vector to baseball coordinates: swap and scale.
fn to_baseball(v: DVec3) -> DVec3 {
    DVec3::new(-v.x, v.z, v.y) * M_TO_FEET
}

/// The 108-point parametric seam curve, oriented by the seam angles and the
/// spin axis.
fn generate_seams(spin: DVec3, seam_y_angle: f64, seam_z_angle: f64) -> Vec<DVec3> {
    let align = DQuat::from_rotation_arc(DVec3::X, spin.normalize());
    (0..N_SEAMS)
        .map(|i| {
            let alpha = (PI * 2.) * (i as f64 / N_SEAMS as f64);
            let x = (1. / 13.) * (9. * alpha.cos() - 4. * (3. * alpha).cos());
            let y = (1. / 13.) * (9. * alpha.sin() + 4. * (3. * alpha).sin());
            let z = (12. / 13.) * (2. * alpha).cos();
            let point = DVec3::new(x, y, z) * (SEAM_DIAMETER / 2.);
            align.mul_vec3(
                DQuat::from_rotation_z(-seam_z_angle).mul_vec3(
                    DQuat::from_rotation_y(seam_y_angle).mul_vec3(
                        DQuat::from_rotation_y(PI / 2.)
                            .mul_vec3(DQuat::from_rotation_x(-PI / 2.).mul_vec3(point)),
                    ),
                ),
            )
        })
        .collect()
}

/// The transforms and angle measurements feeding the verified SSW filter.
fn active_seam_indices(cfg: &BaseballPluginConfig, v: DVec3, seams: &[DVec3]) -> Vec<usize> {
    let shift = f64::from_bits(cfg.ssw.seam_shift_factor);
    let angle_act = f64::from_bits(cfg.ssw.angle_of_activation);
    let act_shift = f64::from_bits(cfg.ssw.activation_shift);
    let rot_v = DQuat::from_rotation_arc(-DVec3::Y, v.normalize());
    let rot_spin = DQuat::from_rotation_x(shift * T_STEP);
    let acceptable_range = SEAM_DIAMETER * 1.1;
    let acceptable_thickness = SEAM_DIAMETER / 2. * (2. * angle_act).sin();
    let max = DVec3::new(0.5 * acceptable_range, acceptable_thickness + act_shift, 0.5 * acceptable_range);
    let min = DVec3::new(-0.5 * acceptable_range, -acceptable_thickness + act_shift, -0.5 * acceptable_range);
    let vn = v.normalize();
    let probes: Vec<SeamProbe> = (0..N_SEAMS)
        .map(|i| {
            let point_adjusted = rot_v
                .mul_vec3(rot_v.inverse().mul_vec3(rot_spin.inverse().mul_vec3(seams[i])));
            let prev = seams[(i + N_SEAMS - 1) % N_SEAMS];
            let next = seams[(i + 1) % N_SEAMS];
            let angle_d = vn.dot((seams[i] - prev).normalize()).acos();
            let angle_u = vn.dot((next - seams[i]).normalize()).acos();
            SeamProbe {
                point: to_bits(point_adjusted),
                dev_down: (angle_d - PI).to_bits(),
                dev_up: (angle_u - PI).to_bits(),
            }
        })
        .collect();
    find_ssw_seams(&probes, &to_bits(max), &to_bits(min), cfg.ssw.separated_flow_range)
}

/// Acceleration from drag, Magnus and SSW, in baseball coordinates.
fn derivs(
    cfg: &BaseballPluginConfig,
    v: DVec3,
    spin: DVec3,
    seams: &[DVec3],
    time_elapsed: f64,
    active: &[usize],
) -> DVec3 {
    let v_tot = v.length();
    let spin_rate = spin.length();
    let rw = (DIAMETER / 2.) * spin_rate;
    let s = (rw / v_tot) * (-time_elapsed / SPIN_DECAY).exp();
    let cl = 1. / (2.42 + 0.4 / s);
    let c0 = c_0();
    let a_drag = if cfg.drag_on { v * -c0 * CD_CONST * v_tot } else { DVec3::ZERO };
    let a_spin = if cfg.magnus_on {
        let (u, vv, w) = (v.x, v.y, v.z);
        DVec3::new(
            spin.y * w - spin.z * vv,
            spin.z * u - spin.x * w,
            spin.x * vv - spin.y * u,
        ) * c0
            * (cl / spin_rate)
            * v_tot
    } else {
        DVec3::ZERO
    };
    let a_ssw = if cfg.ssw_on {
        let sum = active.iter().fold(DVec3::ZERO, |acc, &i| acc + seams[i]);
        sum * -c0 * C_SEAMS * v_tot.powi(2)
    } else {
        DVec3::ZERO
    };
    a_drag + a_spin + a_ssw
}

/// Classic RK4 on velocity, seams and active set held fixed.
fn rk4(
    cfg: &BaseballPluginConfig,
    v: DVec3,
    spin: DVec3,
    seams: &[DVec3],
    time_elapsed: f64,
    active: &[usize],
) -> DVec3 {
    let v_1 = v;
    let t_1 = time_elapsed;
    let a_1 = derivs(cfg, v_1, spin, seams, t_1, active);
    let v_2 = v_1 + a_1 * T_STEP * 0.5;
    let t_2 = t_1 + T_STEP * 0.5;
    let a_2 = derivs(cfg, v_2, spin, seams, t_2, active);
    let v_3 = v_2 + a_2 * T_STEP * 0.5;
    let t_3 = t_2 + T_STEP * 0.5;
    let a_3 = derivs(cfg, v_3, spin, seams, t_3, active);
    let v_4 = v_3 + a_3 * T_STEP;
    let t_4 = t_3 + T_STEP;
    let a_4 = derivs(cfg, v_4, spin, seams, t_4, active);
    (a_1 + 2. * (a_2 + a_3) + a_4) / 6.0
}

/// The float mirror of one ball's flight, beside its verified state.
struct Flight {
    state: BaseballFlightState,
    pos: DVec3,
    v: DVec3,
    spin: DVec3,
    seams: Vec<DVec3>,
    time: f64,
}

fn launch(
    pos: DVec3,
    v: DVec3,
    spin: DVec3,
    seam_y_angle: f64,
    seam_z_angle: f64,
    record_times: Vec<f64>,
    panel_front_y: f64,
    panel_back_y: f64,
) -> Flight {
    let seams = generate_seams(spin, seam_y_angle, seam_z_angle);
    let state = BaseballFlightState::from_params(
        to_bits(pos),
        to_bits(v),
        to_bits(spin),
        seams_to_bits(&seams),
        record_times.iter().map(|t| t.to_bits()).collect(),
        panel_front_y.to_bits(),
        panel_back_y.to_bits(),
    );
    Flight { state, pos, v, spin, seams, time: 0.0 }
}

/// Integrates `delta_t` worth of fixed sub-steps, handing every sub-step's
/// results to the verified state.
fn advance(f: &mut Flight, cfg: &BaseballPluginConfig, delta_t: f64) {
    let front = f64::from_bits(f.state.strikezone_panel_front_y);
    let back = f64::from_bits(f.state.strikezone_panel_back_y);
    let iterations = (delta_t * 1000.).floor() as usize;
    for _ in 0..iterations {
        let q = DQuat::from_axis_angle(f.spin.normalize(), f.spin.length() * T_STEP);
        f.seams = f.seams.iter().map(|p| q.mul_vec3(*p)).collect();
        let active = active_seam_indices(cfg, f.v, &f.seams);
        let a = rk4(cfg, f.v, f.spin, &f.seams, f.time, &active);
        f.time += T_STEP;
        f.v += DVec3::new(a.x, a.y, a.z - 32.2) * T_STEP;
        f.pos += f.v * T_STEP;
        f.state.apply_substep(
            f.time.to_bits(),
            to_bits(f.pos),
            to_bits(f.v),
            seams_to_bits(&f.seams),
            (f.pos.y - front).to_bits(),
            (f.pos.y - back).to_bits(),
        );
    }
}

/// The release of the headline scenario: 96 mph straight downrange from the
/// host-frame release point, 2400 rpm of sidespin, capture planes at 2.0 and
/// 1.417 feet downrange (drag lets the ball cover about 53.6 of its 55 feet
/// within the 0.4 s flight).
fn scenario_flight() -> Flight {
    let release = to_baseball(DVec3::new(0.48, 1.82, 16.764));
    let v = DVec3::new(0.0, -140.8, 0.0);
    let spin_rate = 2400.0 * 2.0 * PI / 60.0;
    let spin = DVec3::new(0.0, 0.0, spin_rate);
    launch(release, v, spin, 0.2, 0.1, vec![0.1, 0.2, 0.3], 2.0, 1.417)
}

#[test]
fn forces_off_is_exactly_zero_acceleration() {
    let mut cfg = BaseballPluginConfig::default();
    cfg.drag_on = false;
    cfg.magnus_on = false;
    cfg.ssw_on = false;
    let spin = DVec3::new(0.0, 0.0, 251.327);
    let seams = generate_seams(spin, 0.0, 0.0);
    let v = DVec3::new(0.0, -140.8, 0.0);
    let active = active_seam_indices(&cfg, v, &seams);
    let a = derivs(&cfg, v, spin, &seams, 0.05, &active);
    assert_eq!(a, DVec3::ZERO);
    let slope = rk4(&cfg, v, spin, &seams, 0.05, &active);
    assert_eq!(slope, DVec3::ZERO);
}

#[test]
fn forces_off_reduces_to_gravity_parabola() {
    let mut cfg = BaseballPluginConfig::default();
    cfg.drag_on = false;
    cfg.magnus_on = false;
    cfg.ssw_on = false;
    let mut f = launch(
        DVec3::new(0.0, 55.0, 6.0),
        DVec3::new(0.0, -140.8, 1.5),
        DVec3::new(0.0, 0.0, 251.327),
        0.0,
        0.0,
        vec![],
        1.417,
        0.75,
    );
    let (z0, vz0) = (6.0, 1.5);
    let (y0, vy0) = (55.0, -140.8);
    for _ in 0..4 {
        advance(&mut f, &cfg, 0.1);
        let t = f.time;
        // One fixed sub-step applies gravity to the velocity first and then
        // moves the position, so the discrete trajectory trails the ideal
        // parabola by at most g * t * dt / 2 plus rounding.
        let ideal_z = z0 + vz0 * t - 16.1 * t * t;
        assert!((f.pos.z - ideal_z).abs() < 32.2 * t * T_STEP, "z off at t={t}: {} vs {ideal_z}", f.pos.z);
        let ideal_y = y0 + vy0 * t;
        assert!((f.pos.y - ideal_y).abs() < 1e-6, "y off at t={t}");
        assert!((f.pos.x - 0.0).abs() < 1e-12, "x off at t={t}");
    }
    // The verified state mirrors the float pipeline bit for bit.
    assert_eq!(f.state.translation, to_bits(f.pos));
    assert_eq!(f.state.v, to_bits(f.v));
    assert_eq!(f.state.time_elapsed, f.time.to_bits());
}

#[test]
fn scenario_ninety_six_mph_with_all_forces() {
    let cfg = BaseballPluginConfig::default();
    let mut f = scenario_flight();
    let x0 = f.pos.x;
    let z0 = f.pos.z;
    advance(&mut f, &cfg, 0.4);
    assert!((f.time - 0.4).abs() < 1e-9);
    // The ball flew past the front plane.
    assert!(f.pos.y < 2.0);
    // Sidespin pushed it laterally off the zero-force parabola.
    let lateral = (f.pos.x - x0).abs();
    assert!(lateral > 0.05, "expected sideways displacement, got {lateral}");
    // Gravity pulled it well below a straight line.
    assert!(f.pos.z < z0);
    // Both strike-zone slots captured a sample inside their windows.
    let (front, back) = f.state.get_pos_at_strikezone_panels_z();
    let front_y = f64::from_bits(front.y);
    let back_y = f64::from_bits(back.y);
    assert!((front_y - 2.0).abs() < 0.5, "front capture at y={front_y}");
    assert!((back_y - 1.417).abs() < 0.5, "back capture at y={back_y}");
    assert_ne!(front, to_bits(DVec3::ZERO));
    assert_ne!(back, to_bits(DVec3::ZERO));
    // Recording stayed off, so the write cursor never moved.
    assert_eq!(f.state.next_record_index, 0);
}

#[test]
fn recording_during_flight_samples_after_each_requested_time() {
    let cfg = BaseballPluginConfig::default();
    let mut f = scenario_flight();
    f.state.record_on = true;
    advance(&mut f, &cfg, 0.4);
    assert_eq!(f.state.next_record_index, 3);
    for (i, &t_req) in [0.1f64, 0.2, 0.3].iter().enumerate() {
        let sample = f.state.record_positions[i];
        let y = f64::from_bits(sample.y);
        // The sample was taken at the first sub-step past the requested time,
        // so its downrange coordinate sits near the ideal crossing point.
        let ideal_y = 55.0 - 140.8 * t_req;
        assert!((y - ideal_y).abs() < 5.0, "slot {i} at y={y}, expected near {ideal_y}");
        assert_ne!(sample, to_bits(DVec3::ZERO));
    }
}

#[test]
fn seam_rotation_is_rigid() {
    let cfg = BaseballPluginConfig::default();
    let mut f = scenario_flight();
    let pairs = [(0usize, 1usize), (0, 54), (13, 77), (27, 81), (107, 0)];
    let initial: Vec<f64> =
        pairs.iter().map(|&(i, j)| (f.seams[i] - f.seams[j]).length()).collect();
    for _ in 0..10 {
        advance(&mut f, &cfg, 0.01);
        for (k, &(i, j)) in pairs.iter().enumerate() {
            let d = (f.seams[i] - f.seams[j]).length();
            assert!(
                (d - initial[k]).abs() < 1e-9,
                "distance between seams {i} and {j} drifted: {d} vs {}",
                initial[k]
            );
        }
    }
}

#[test]
fn identical_inputs_reproduce_the_trajectory_bit_for_bit() {
    let cfg = BaseballPluginConfig::default();
    let mut f1 = scenario_flight();
    let mut f2 = scenario_flight();
    f1.state.record_on = true;
    f2.state.record_on = true;
    for &dt in &[0.016, 0.016, 0.1, 0.033, 0.2] {
        advance(&mut f1, &cfg, dt);
        advance(&mut f2, &cfg, dt);
    }
    assert_eq!(f1.state, f2.state);
    assert_eq!(f1.pos.to_array().map(f64::to_bits), f2.pos.to_array().map(f64::to_bits));
    assert_eq!(f1.v.to_array().map(f64::to_bits), f2.v.to_array().map(f64::to_bits));
}

#[test]
fn sub_millisecond_remainders_are_dropped() {
    let cfg = BaseballPluginConfig::default();
    let mut f = scenario_flight();
    let before = f.state.clone();
    // Less than one sub-step of elapsed time: nothing happens.
    advance(&mut f, &cfg, 0.0009);
    assert_eq!(f.state, before);
    // 2.7 ms yields exactly two sub-steps.
    advance(&mut f, &cfg, 0.0027);
    assert_eq!(f.state.time_elapsed, (0.001f64 + 0.001).to_bits());
}
