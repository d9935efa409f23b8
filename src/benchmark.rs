use vstd::prelude::*;
use vstd::arithmetic::power2::{lemma_pow2_adds, lemma_pow2_pos, lemma_pow2_strictly_increases, lemma_pow2_unfold, lemma2_to64, pow2};

verus! {

/// The benchmark covers `2^MAX_K` step-size units of simulated time and
/// sweeps the step sizes `2^1` to `2^MAX_K`.
pub const MAX_K: u32 = 25;

/// One run of a kernel: a single batch of `steps` steps of size `dt`.
#[derive(Clone, Copy, Debug, PartialEq, Eq, Structural)]
pub struct Run {
    pub dt: u64,
    pub steps: u64,
}

/// `2^k`.
pub fn power_of_two(k: u32) -> (r: u64)
    requires
        k < 64,
    ensures
        r == pow2(k as nat),
{
    proof {
        lemma2_to64();
    }
    let mut r: u64 = 1;
    let mut i: u32 = 0;
    while i < k
        invariant
            i <= k < 64,
            r == pow2(i as nat),
        decreases k - i,
    {
        proof {
            lemma_pow2_unfold((i + 1) as nat);
            lemma_pow2_strictly_increases((i + 1) as nat, 64);
            lemma2_to64();
        }
        r = r * 2;
        i = i + 1;
    }
    r
}

/// The total simulated duration of a benchmark with step sizes up to
/// `2^max_k`.
pub fn total_time(max_k: u32) -> (r: u64)
    requires
        max_k < 64,
    ensures
        r == pow2(max_k as nat),
{
    power_of_two(max_k)
}

/// The reference run: the whole duration at step size 1.
pub fn reference_run(max_k: u32) -> (r: Run)
    requires
        max_k < 64,
    ensures
        r.dt == 1,
        r.steps == pow2(max_k as nat),
{
    Run { dt: 1, steps: total_time(max_k) }
}

/// The runs of the sweep, one for each step size `2^i` with `i` from 1 to
/// `max_k`, each covering the whole duration `2^max_k`.
pub fn sweep(max_k: u32) -> (r: Vec<Run>)
    requires
        max_k < 64,
    ensures
        r@.len() == max_k,
        forall|i: int|
            0 <= i < max_k ==> {
                &&& (#[trigger] r@[i]).dt == pow2((i + 1) as nat)
                &&& r@[i].steps == pow2((max_k - i - 1) as nat)
                &&& r@[i].steps == pow2(max_k as nat) / pow2((i + 1) as nat)
                &&& r@[i].dt * r@[i].steps == pow2(max_k as nat)
            },
{
    let total = total_time(max_k);
    let mut runs: Vec<Run> = Vec::new();
    let mut i: u32 = 1;
    while i <= max_k
        invariant
            1 <= i <= max_k + 1,
            max_k < 64,
            total == pow2(max_k as nat),
            runs@.len() == i - 1,
            forall|j: int|
                0 <= j < i - 1 ==> {
                    &&& (#[trigger] runs@[j]).dt == pow2((j + 1) as nat)
                    &&& runs@[j].steps == pow2((max_k - j - 1) as nat)
                    &&& runs@[j].steps == pow2(max_k as nat) / pow2((j + 1) as nat)
                    &&& runs@[j].dt * runs@[j].steps == pow2(max_k as nat)
                },
        decreases max_k + 1 - i,
    {
        let dt = power_of_two(i);
        proof {
            lemma_pow2_pos(i as nat);
        }
        let steps = total / dt;
        proof {
            let rest = (max_k - i) as nat;
            lemma_pow2_adds(i as nat, rest);
            assert(i as nat + rest == max_k as nat);
            assert(pow2(max_k as nat) == pow2(i as nat) * pow2(rest));
            assert(pow2(max_k as nat) / pow2(i as nat) == pow2(rest)) by (nonlinear_arith)
                requires
                    pow2(max_k as nat) == pow2(i as nat) * pow2(rest),
                    pow2(i as nat) > 0,
            ;
        }
        runs.push(Run { dt, steps });
        i = i + 1;
    }
    runs
}

} // verus!
