use vstd::prelude::*;

verus! {

/// What a state describes, whatever its form: the positions, velocities and
/// masses of its bodies, index-aligned, and the simulated time.
pub struct SystemView<V, M> {
    pub p: Seq<V>,
    pub v: Seq<V>,
    pub m: Seq<M>,
    pub t: u64,
}

impl<V, M> SystemView<V, M> {
    /// Positions, velocities and masses describe the same bodies.
    pub open spec fn wf(self) -> bool {
        &&& self.p.len() == self.v.len()
        &&& self.v.len() == self.m.len()
    }

    /// The system has exactly three bodies.
    pub open spec fn is_three_body(self) -> bool {
        &&& self.p.len() == 3
        &&& self.v.len() == 3
        &&& self.m.len() == 3
    }
}

/// A system of bodies in general form: index-aligned positions, velocities
/// and masses, and the simulated time in step-size units.
#[derive(Clone, Debug)]
pub struct PhysicsState<V, M> {
    pub p: Vec<V>,
    pub v: Vec<V>,
    pub m: Vec<M>,
    pub t: u64,
}

/// A system of exactly three bodies.
#[derive(Clone, Copy, Debug)]
pub struct ThreeBodyState<V, M> {
    pub p: [V; 3],
    pub v: [V; 3],
    pub m: [M; 3],
    pub t: u64,
}

impl<V, M> View for PhysicsState<V, M> {
    type V = SystemView<V, M>;

    open spec fn view(&self) -> SystemView<V, M> {
        SystemView { p: self.p@, v: self.v@, m: self.m@, t: self.t }
    }
}

impl<V, M> View for ThreeBodyState<V, M> {
    type V = SystemView<V, M>;

    open spec fn view(&self) -> SystemView<V, M> {
        SystemView { p: self.p@, v: self.v@, m: self.m@, t: self.t }
    }
}

/// The simulated time after `steps` steps of size `dt` from time `t`.
pub open spec fn time_after(t: u64, steps: u64, dt: u64) -> int {
    t + steps * dt
}

/// The simulated time after `steps` steps of size `dt` from time `t`, or
/// `None` where it does not fit in a `u64`.
pub fn checked_time_after(t: u64, steps: u64, dt: u64) -> (r: Option<u64>)
    ensures
        r matches Some(x) ==> x == time_after(t, steps, dt),
        r is None <==> time_after(t, steps, dt) > u64::MAX,
{
    match steps.checked_mul(dt) {
        Some(span) => t.checked_add(span),
        None => {
            assert(steps * dt <= t + steps * dt) by (nonlinear_arith);
            None
        },
    }
}

impl<V, M> PhysicsState<V, M> {
    /// Whether the state can be taken into the three-body form.
    pub fn has_three_bodies(&self) -> (r: bool)
        ensures
            r == self@.is_three_body(),
    {
        self.p.len() == 3 && self.v.len() == 3 && self.m.len() == 3
    }
}

impl<V: Copy, M: Copy> PhysicsState<V, M> {
    /// Takes a three-body state into the general form.
    pub fn from_three_body(state: &ThreeBodyState<V, M>) -> (r: Self)
        ensures
            r@ == state@,
            r@.is_three_body(),
    {
        let r = PhysicsState {
            p: vec![state.p[0], state.p[1], state.p[2]],
            v: vec![state.v[0], state.v[1], state.v[2]],
            m: vec![state.m[0], state.m[1], state.m[2]],
            t: state.t,
        };
        assert(r.p@ =~= state.p@);
        assert(r.v@ =~= state.v@);
        assert(r.m@ =~= state.m@);
        r
    }
}

impl<V: Copy, M: Copy> ThreeBodyState<V, M> {
    /// Takes a general state of three bodies into the fixed form.
    pub fn from_general(state: &PhysicsState<V, M>) -> (r: Self)
        requires
            state@.is_three_body(),
        ensures
            r@ == state@,
    {
        let r = ThreeBodyState {
            p: [state.p[0], state.p[1], state.p[2]],
            v: [state.v[0], state.v[1], state.v[2]],
            m: [state.m[0], state.m[1], state.m[2]],
            t: state.t,
        };
        assert(r.p@ =~= state.p@);
        assert(r.v@ =~= state.v@);
        assert(r.m@ =~= state.m@);
        r
    }
}

impl<V, M> ThreeBodyState<V, M> {
    /// The state that a kernel returns after `steps` steps of size `dt` from
    /// `self`, given the positions and velocities it reached: the masses are
    /// carried over untouched and the time advances by `steps * dt`.
    pub fn evolved(self, p: [V; 3], v: [V; 3], steps: u64, dt: u64) -> (r: Self)
        requires
            time_after(self.t, steps, dt) <= u64::MAX,
        ensures
            r.p == p,
            r.v == v,
            r.m == self.m,
            r.t == time_after(self.t, steps, dt),
    {
        proof {
            assert(steps * dt <= self.t + steps * dt) by (nonlinear_arith);
        }
        ThreeBodyState { p, v, m: self.m, t: self.t + steps * dt }
    }
}

/// The two forms describe a three-body system one to one: a three-body
/// state taken into the general form and back is the state it was.
pub proof fn lemma_round_trip<V, M>(
    s: ThreeBodyState<V, M>,
    general: PhysicsState<V, M>,
    back: ThreeBodyState<V, M>,
)
    requires
        general@ == s@,
        back@ == general@,
    ensures
        back == s,
{
    assert(back.p =~= s.p);
    assert(back.v =~= s.v);
    assert(back.m =~= s.m);
}

} // verus!
