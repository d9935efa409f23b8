use vstd::prelude::*;

use crate::state::{time_after, PhysicsState, SystemView, ThreeBodyState};

verus! {

/// A kernel accepts every state whose time it can advance without overflow,
/// hands the masses back untouched and advances the time by exactly
/// `steps * dt`.
pub open spec fn is_kernel<V, M, F: Fn(ThreeBodyState<V, M>, u64, u64) -> ThreeBodyState<V, M>>(
    kernel: F,
) -> bool {
    &&& forall|s: ThreeBodyState<V, M>, steps: u64, dt: u64|
        time_after(s.t, steps, dt) <= u64::MAX ==> #[trigger] kernel.requires((s, steps, dt))
    &&& forall|s: ThreeBodyState<V, M>, steps: u64, dt: u64, r: ThreeBodyState<V, M>|
        #[trigger] kernel.ensures((s, steps, dt), r) ==> r.m == s.m && r.t == time_after(
            s.t,
            steps,
            dt,
        )
}

/// `after` is what one run of `kernel` for `steps` steps of size `dt` may
/// return from a state that describes `before`.
pub open spec fn is_batch<V, M, F: Fn(ThreeBodyState<V, M>, u64, u64) -> ThreeBodyState<V, M>>(
    kernel: F,
    before: SystemView<V, M>,
    steps: u64,
    dt: u64,
    after: SystemView<V, M>,
) -> bool {
    exists|s: ThreeBodyState<V, M>, r: ThreeBodyState<V, M>|
        s@ == before && #[trigger] kernel.ensures((s, steps, dt), r) && r@ == after
}

/// Each state of `trace` is reached from the one before it by one batch.
pub open spec fn is_run<V, M, F: Fn(ThreeBodyState<V, M>, u64, u64) -> ThreeBodyState<V, M>>(
    kernel: F,
    trace: Seq<SystemView<V, M>>,
    steps: u64,
    dt: u64,
) -> bool {
    forall|i: int|
        0 <= i < trace.len() - 1 ==> is_batch(kernel, #[trigger] trace[i], steps, dt, trace[i + 1])
}

/// Runs `kernel` for `batch_count` batches of `step_count` steps of size
/// `dt`. Each batch takes the state into the three-body form, runs the
/// kernel once and takes the result back into the general form.
pub fn simulate<V: Copy, M: Copy, F: Fn(ThreeBodyState<V, M>, u64, u64) -> ThreeBodyState<V, M>>(
    kernel: F,
    state: &mut PhysicsState<V, M>,
    batch_count: u64,
    step_count: u64,
    dt: u64,
)
    requires
        old(state)@.is_three_body(),
        is_kernel(kernel),
        old(state).t + batch_count * step_count * dt <= u64::MAX,
    ensures
        final(state)@.is_three_body(),
        final(state)@.wf(),
        final(state).m@ == old(state).m@,
        final(state).t == old(state).t + batch_count * step_count * dt,
        exists|trace: Seq<SystemView<V, M>>|
            {
                &&& trace.len() == batch_count + 1
                &&& trace[0] == old(state)@
                &&& trace.last() == final(state)@
                &&& #[trigger] is_run(kernel, trace, step_count, dt)
            },
{
    let ghost t0 = state.t as int;
    let ghost m0 = state.m@;
    let ghost span = step_count * dt;
    proof {
        assert(batch_count * step_count * dt == batch_count * span) by (nonlinear_arith)
            requires
                span == step_count * dt,
        ;
    }
    let ghost mut trace = seq![state@];
    let mut batch: u64 = 0;
    while batch < batch_count
        invariant
            batch <= batch_count,
            is_kernel(kernel),
            state@.is_three_body(),
            state.m@ == m0,
            span == step_count * dt,
            state.t == t0 + batch * span,
            t0 + batch_count * span <= u64::MAX,
            trace.len() == batch + 1,
            trace[0] == old(state)@,
            trace.last() == state@,
            is_run(kernel, trace, step_count, dt),
        decreases batch_count - batch,
    {
        proof {
            assert(batch * span + span == (batch + 1) * span) by (nonlinear_arith);
            assert((batch + 1) * span <= batch_count * span) by (nonlinear_arith)
                requires
                    batch + 1 <= batch_count,
                    span >= 0,
            ;
        }
        let three = ThreeBodyState::from_general(&*state);
        let next = kernel(three, step_count, dt);
        *state = PhysicsState::from_three_body(&next);
        proof {
            assert(is_batch(kernel, trace.last(), step_count, dt, state@));
            let longer = trace.push(state@);
            assert forall|i: int| 0 <= i < longer.len() - 1 implies is_batch(
                kernel,
                #[trigger] longer[i],
                step_count,
                dt,
                longer[i + 1],
            ) by {
                if i < trace.len() - 1 {
                    assert(longer[i] == trace[i] && longer[i + 1] == trace[i + 1]);
                }
            }
            trace = longer;
        }
        batch = batch + 1;
    }
}

} // verus!
