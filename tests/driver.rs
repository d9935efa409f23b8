use rusty_nbody::state::{PhysicsState, ThreeBodyState};
use rusty_nbody::simulate;

type V3 = [f64; 3];

fn at_rest() -> PhysicsState<V3, f64> {
    PhysicsState {
        p: vec![[0.0, 0.0, 0.0], [1e10, 0.0, 0.0], [0.0, -1e12, 0.0]],
        v: vec![[0.0, 0.0, 0.0], [0.0, 0.0, 1.5e5], [1e4, 0.0, 0.0]],
        m: vec![2e30, 0.0, 0.0],
        t: 0,
    }
}

/// Drifts each body along its velocity, one unit of time per step unit.
fn drift(s: ThreeBodyState<V3, f64>, steps: u64, dt: u64) -> ThreeBodyState<V3, f64> {
    let span = (steps * dt) as f64;
    let mut p = s.p;
    for i in 0..3 {
        for k in 0..3 {
            p[i][k] += s.v[i][k] * span;
        }
    }
    s.evolved(p, s.v, steps, dt)
}

#[test]
fn simulate_advances_time_by_every_batch() {
    let mut state = at_rest();
    simulate(drift, &mut state, 4, 25, 3);
    assert_eq!(state.t, 4 * 25 * 3);
    assert_eq!(state.m, vec![2e30, 0.0, 0.0]);
    assert_eq!(state.p.len(), 3);
    assert_eq!(state.v.len(), 3);
}

#[test]
fn simulate_runs_the_kernel_once_per_batch() {
    let mut state = at_rest();
    simulate(drift, &mut state, 3, 2, 5);
    assert_eq!(state.p[1], [1e10, 0.0, 1.5e5 * 30.0]);
    assert_eq!(state.p[2], [3e5, -1e12, 0.0]);
    assert_eq!(state.v, at_rest().v);
}

#[test]
fn simulate_without_batches_keeps_state() {
    let mut state = at_rest();
    simulate(drift, &mut state, 0, 100, 100);
    assert_eq!(state.p, at_rest().p);
    assert_eq!(state.v, at_rest().v);
    assert_eq!(state.m, at_rest().m);
    assert_eq!(state.t, 0);
}

#[test]
fn simulate_with_zero_steps_keeps_state() {
    let mut state = at_rest();
    state.t = 17;
    simulate(drift, &mut state, 5, 0, 9);
    assert_eq!(state.p, at_rest().p);
    assert_eq!(state.t, 17);
}
