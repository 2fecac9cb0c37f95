//! Behavioral properties of the engine: zero-step identity, exact time
//! accumulation, correction idempotence, scratch-buffer non-interference,
//! energy conservation of the fourth-order scheme, and exact values for the
//! vector reductions.

use eom_sim::driver::{advance_n, advance_until};
use eom_sim::eom::Eom;
use eom_sim::fp::flt;
use eom_sim::models::{Anchored, Harmonic, Oscillator};
use eom_sim::steppers::{zeros, Stepper, RK1, RK2, RK4};
use eom_sim::utils::{diff_norm2, dot, norm2};

fn state(vals: &[f64]) -> Vec<u64> {
    vals.iter().map(|&x| x.to_bits()).collect()
}

fn floats(bits: &[u64]) -> Vec<f64> {
    bits.iter().map(|&b| f64::from_bits(b)).collect()
}

/// A zero-size step leaves time, position and velocity bit-for-bit
/// unchanged, for every stepper variant.
#[test]
fn zero_step_identity() {
    let eom = Oscillator::new();
    let (x0, v0) = eom.init_state();
    let t0 = 0.75_f64.to_bits();
    let dt = 0.0_f64.to_bits();

    let mut rk1 = RK1::new(eom.dimension());
    let (mut t, mut x, mut v) = (t0, x0.clone(), v0.clone());
    rk1.step(&eom, &mut t, &mut x, &mut v, dt);
    assert_eq!(t, t0);
    assert_eq!(x, x0);
    assert_eq!(v, v0);

    let mut rk2 = RK2::new(eom.dimension());
    let (mut t, mut x, mut v) = (t0, x0.clone(), v0.clone());
    rk2.step(&eom, &mut t, &mut x, &mut v, dt);
    assert_eq!(t, t0);
    assert_eq!(x, x0);
    assert_eq!(v, v0);

    let mut rk4 = RK4::new(eom.dimension());
    let (mut t, mut x, mut v) = (t0, x0.clone(), v0.clone());
    rk4.step(&eom, &mut t, &mut x, &mut v, dt);
    assert_eq!(t, t0);
    assert_eq!(x, x0);
    assert_eq!(v, v0);
}

/// After `advance_n(..., dt, n)` the time is exactly `t0 + n * dt` when the
/// additions are exact in binary64, here `1024` steps of `2^-10`.
#[test]
fn advance_n_time_accumulation() {
    let eom = Harmonic::new(4.0_f64.to_bits(), 1.0_f64.to_bits(), 1);
    let mut rk = RK4::new(eom.dimension());
    let mut t = 0.0_f64.to_bits();
    let mut x = state(&[1.0]);
    let mut v = state(&[0.0]);
    let dt = 2.0_f64.powi(-10).to_bits();
    advance_n(&mut rk, &eom, &mut t, &mut x, &mut v, dt, 1024);
    assert_eq!(f64::from_bits(t), 1.0);
}

/// `advance_until` stops as soon as the time reaches or passes the target;
/// a final partial step may overshoot the target and the overshoot stands.
#[test]
fn advance_until_reaches_target() {
    let eom = Harmonic::new(4.0_f64.to_bits(), 1.0_f64.to_bits(), 1);
    let mut rk = RK2::new(eom.dimension());
    let mut t = 0.0_f64.to_bits();
    let mut x = state(&[1.0]);
    let mut v = state(&[0.0]);
    let dt = 0.3_f64.to_bits();
    let until = 1.0_f64.to_bits();
    let steps = advance_until(&mut rk, &eom, &mut t, &mut x, &mut v, dt, until, 1000);
    // 0.3 does not divide 1.0: four steps land just past the target.
    assert_eq!(steps, 4);
    assert!(!flt(t, until));
    assert!(f64::from_bits(t) >= 1.0);
    assert_eq!(f64::from_bits(t), 0.3 + 0.3 + 0.3 + 0.3);
}

/// A target already reached means no step at all is taken.
#[test]
fn advance_until_no_step_needed() {
    let eom = Harmonic::new(4.0_f64.to_bits(), 1.0_f64.to_bits(), 1);
    let mut rk = RK1::new(eom.dimension());
    let mut t = 2.0_f64.to_bits();
    let mut x = state(&[1.0]);
    let mut v = state(&[0.0]);
    let dt = 0.5_f64.to_bits();
    let steps = advance_until(&mut rk, &eom, &mut t, &mut x, &mut v, dt, 1.0_f64.to_bits(), 1000);
    assert_eq!(steps, 0);
    assert_eq!(f64::from_bits(t), 2.0);
    assert_eq!(floats(&x), vec![1.0]);
    assert_eq!(floats(&v), vec![0.0]);
}

/// Correcting a state twice in succession gives the same state as
/// correcting it once (non-trivial constraint: coordinate 0 anchored).
#[test]
fn correct_twice_is_once() {
    let eom = Anchored::new(4.0_f64.to_bits(), 1.0_f64.to_bits(), 3, 0.25_f64.to_bits());
    let t = 0.5_f64.to_bits();
    let mut x = state(&[7.0, 2.0, 3.0]);
    let mut v = state(&[-1.0, 0.5, 0.125]);
    eom.correct(t, &mut x, &mut v);
    let (x_once, v_once) = (x.clone(), v.clone());
    assert_eq!(floats(&x_once), vec![0.25, 2.0, 3.0]);
    assert_eq!(floats(&v_once), vec![0.0, 0.5, 0.125]);
    eom.correct(t, &mut x, &mut v);
    assert_eq!(x, x_once);
    assert_eq!(v, v_once);
}

/// `advance_until` applies the correction after every step, so the anchored
/// coordinate stays pinned while the free coordinates move.
#[test]
fn advance_until_applies_correction() {
    let eom = Anchored::new(4.0_f64.to_bits(), 1.0_f64.to_bits(), 2, 1.0_f64.to_bits());
    let mut rk = RK4::new(eom.dimension());
    let mut t = 0.0_f64.to_bits();
    let mut x = state(&[1.0, 0.5]);
    let mut v = state(&[0.0, 0.0]);
    let dt = 0.125_f64.to_bits();
    let steps = advance_until(&mut rk, &eom, &mut t, &mut x, &mut v, dt, 1.0_f64.to_bits(), 100);
    assert_eq!(steps, 8);
    assert_eq!(f64::from_bits(x[0]), 1.0);
    assert_eq!(f64::from_bits(v[0]), 0.0);
    assert_ne!(f64::from_bits(x[1]), 0.5);
}

/// Two sequential `step` calls on one stepper never observe residue from
/// the previous call: stepping some other state first and then the state of
/// interest gives bit-for-bit the same result as a fresh stepper stepping
/// the state of interest directly.
#[test]
fn scratch_buffers_do_not_interfere() {
    let eom = Oscillator::new();
    let dt = 0.125_f64.to_bits();

    let mut used = RK4::new(eom.dimension());
    let mut t = 3.0_f64.to_bits();
    let mut x = state(&[9.0, -3.0, 8.5, 7.0, -6.0, 5.0]);
    let mut v = state(&[1.0, 2.0, -3.0, 4.0, 5.5, -6.0]);
    used.step(&eom, &mut t, &mut x, &mut v, dt);

    let (x0, v0) = eom.init_state();
    let t0 = 0.5_f64.to_bits();
    let (mut t_a, mut x_a, mut v_a) = (t0, x0.clone(), v0.clone());
    used.step(&eom, &mut t_a, &mut x_a, &mut v_a, dt);

    let mut fresh = RK4::new(eom.dimension());
    let (mut t_b, mut x_b, mut v_b) = (t0, x0, v0);
    fresh.step(&eom, &mut t_b, &mut x_b, &mut v_b, dt);

    assert_eq!(t_a, t_b);
    assert_eq!(x_a, x_b);
    assert_eq!(v_a, v_b);
}

/// The concrete scenario of the specification: an undamped harmonic
/// oscillator with stiffness 4 and mass 1, started at position 1 and
/// velocity 0, integrated with the fourth-order scheme at `dt = 2^-10` for
/// 10000 steps.  The energy `(k x^2 + m v^2) / 2` stays within `1e-6` of
/// its initial value 2, and the position tracks `cos(2 t)`.
#[test]
fn oscillator_energy_conservation() {
    let k: f64 = 4.0;
    let m: f64 = 1.0;
    let eom = Harmonic::new(k.to_bits(), m.to_bits(), 1);
    let mut rk = RK4::new(eom.dimension());
    let mut t = 0.0_f64.to_bits();
    let mut x = state(&[1.0]);
    let mut v = state(&[0.0]);
    let dt = 2.0_f64.powi(-10).to_bits();
    for _ in 0..10000 {
        rk.step(&eom, &mut t, &mut x, &mut v, dt);
        let xf = f64::from_bits(x[0]);
        let vf = f64::from_bits(v[0]);
        let energy = 0.5 * (k * xf * xf + m * vf * vf);
        assert!((energy - 2.0).abs() < 1e-6);
        assert!((xf - (2.0 * f64::from_bits(t)).cos()).abs() < 1e-9);
    }
    assert_eq!(f64::from_bits(t), 9.765625);
}

/// One first-order step with concrete numbers, checked against values
/// worked out by hand: `x' = x + v dt`, `v' = v - (k/m) x dt`.
#[test]
fn euler_step_concrete_values() {
    let eom = Harmonic::new(4.0_f64.to_bits(), 2.0_f64.to_bits(), 1);
    let mut rk = RK1::new(eom.dimension());
    let mut t = 0.0_f64.to_bits();
    let mut x = state(&[1.0]);
    let mut v = state(&[2.0]);
    let dt = 0.5_f64.to_bits();
    rk.step(&eom, &mut t, &mut x, &mut v, dt);
    // x' = 1 + 2 * 0.5 = 2;  a = -(4/2) * 1 = -2;  v' = 2 + (-2) * 0.5 = 1.
    assert_eq!(floats(&x), vec![2.0]);
    assert_eq!(floats(&v), vec![1.0]);
    assert_eq!(f64::from_bits(t), 0.5);
}

/// One midpoint step with concrete numbers, checked against values worked
/// out by hand.
#[test]
fn rk2_step_concrete_values() {
    let eom = Harmonic::new(4.0_f64.to_bits(), 1.0_f64.to_bits(), 1);
    let mut rk = RK2::new(eom.dimension());
    let mut t = 0.0_f64.to_bits();
    let mut x = state(&[1.0]);
    let mut v = state(&[0.0]);
    let dt = 0.5_f64.to_bits();
    rk.step(&eom, &mut t, &mut x, &mut v, dt);
    // dt2 = 0.25; a1 = -4; v1 = 0 + (-4)(0.25) = -1; x' = 1 + (-1)(0.5) = 0.5;
    // x1 = 1 + 0(0.25) = 1; a2 = -4 * 1 = -4; v' = 0 + (-4)(0.5) = -2.
    assert_eq!(floats(&x), vec![0.5]);
    assert_eq!(floats(&v), vec![-2.0]);
    assert_eq!(f64::from_bits(t), 0.5);
}

/// One fourth-order step with concrete numbers, checked against values
/// worked out by hand.
#[test]
fn rk4_step_concrete_values() {
    let eom = Harmonic::new(1.0_f64.to_bits(), 1.0_f64.to_bits(), 1);
    let mut rk = RK4::new(eom.dimension());
    let mut t = 0.0_f64.to_bits();
    let mut x = state(&[1.0]);
    let mut v = state(&[0.0]);
    let dt = 1.0_f64.to_bits();
    rk.step(&eom, &mut t, &mut x, &mut v, dt);
    // a = -x.  Stages: a1 = -1; x1 = 1, v1 = -0.5; a2 = -1; x2 = 0.75,
    // v2 = -0.5; a3 = -0.75; x3 = 0.5, v3 = -0.75; a4 = -0.5.
    // x' = 1 + (0 + 2(-0.5 - 0.5) - 0.75)/6 = 1 - 2.75/6;
    // v' = 0 + (-1 + 2(-1 - 0.75) - 0.5)/6 = -5/6.
    assert_eq!(floats(&x), vec![1.0 + (0.0 + (-0.5 + -0.5) * 2.0 + -0.75) * (1.0 / 6.0)]);
    assert_eq!(floats(&v), vec![0.0 + (-1.0 + (-1.0 + -0.75) * 2.0 + -0.5) * (1.0 / 6.0)]);
    assert_eq!(f64::from_bits(t), 1.0);
}

/// The damped-oscillator acceleration formula
/// `-2 zeta omega0 v - omega0^2 x`, with exact expected values.
#[test]
fn oscillator_acceleration_concrete_values() {
    let eom = Oscillator::new();
    let zeta: [f64; 6] = [0.0, 0.5, 1.0, 0.8, 1.5, 0.1];
    let omega0: [f64; 6] = [0.25, 0.5, 1.0, 0.75, 1.25, 0.25];
    let x = [1.0, -2.0, 0.5, 3.0, -0.25, 8.0];
    let v = [2.0, 1.0, -1.0, 0.5, 4.0, -2.0];
    let mut a = vec![0u64; 6];
    eom.acceleration(0.125_f64.to_bits(), &state(&x), &state(&v), &mut a);
    for i in 0..6 {
        let expected = -2.0 * zeta[i] * omega0[i] * v[i] + -omega0[i] * omega0[i] * x[i];
        assert_eq!(f64::from_bits(a[i]), expected);
    }
}

/// The vector reductions, with exact expected values.
#[test]
fn reductions_concrete_values() {
    let a = state(&[1.0, 2.0, 3.0]);
    let b = state(&[4.0, 5.0, 6.0]);
    assert_eq!(f64::from_bits(dot(&a, &b)), 32.0);
    assert_eq!(f64::from_bits(norm2(&a)), 14.0);
    assert_eq!(f64::from_bits(diff_norm2(&a, &b)), 27.0);
    assert_eq!(f64::from_bits(dot(&state(&[]), &state(&[]))), 0.0);
}

/// The IEEE ordering used by `advance_until`: strict, and false on NaN.
#[test]
fn ordering_is_ieee_less_than() {
    assert!(flt(1.0_f64.to_bits(), 2.0_f64.to_bits()));
    assert!(!flt(2.0_f64.to_bits(), 1.0_f64.to_bits()));
    assert!(!flt(1.0_f64.to_bits(), 1.0_f64.to_bits()));
    assert!(flt((-1.0_f64).to_bits(), 1.0_f64.to_bits()));
    assert!(!flt(f64::NAN.to_bits(), 1.0_f64.to_bits()));
    assert!(!flt(1.0_f64.to_bits(), f64::NAN.to_bits()));
}

/// `zeros` builds the zero vector of a given dimension.
#[test]
fn zeros_builds_zero_vector() {
    let z = zeros(4);
    assert_eq!(floats(&z), vec![0.0, 0.0, 0.0, 0.0]);
    assert!(zeros(0).is_empty());
}
