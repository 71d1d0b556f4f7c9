use vstd::prelude::*;
use crate::scalar::Scalar;
use crate::vector::copy_vec;
use crate::rk4::{lemma_rk4_len, runge_kutta, trajectory, VectorField};

verus! {

/// The dimension of the state is kept along a trajectory.
pub proof fn lemma_trajectory_len<S: Scalar, F: VectorField<S>>(f: F, xs: Seq<S>, dt: S, n: nat)
    requires
        xs.len() == f.dim(),
    ensures
        trajectory(f, xs, dt, n).len() == xs.len(),
    decreases n,
{
    if n > 0 {
        lemma_trajectory_len(f, xs, dt, (n - 1) as nat);
        lemma_rk4_len(f, trajectory(f, xs, dt, (n - 1) as nat), dt);
    }
}

/// Runs `loops` steps of size `dt` from `xs` and records the state after
/// each completed step, in step order.
pub fn simulate<S: Scalar, F: VectorField<S>>(field: &F, xs: Vec<S>, dt: S, loops: usize) -> (r: Vec<
    Vec<S>,
>)
    requires
        xs@.len() == field.dim(),
    ensures
        r@.len() == loops,
        forall|i: int| 0 <= i < loops ==> #[trigger] r@[i]@ == trajectory(*field, xs@, dt, (i + 1) as nat),
{
    let ghost start = xs@;
    let mut states: Vec<Vec<S>> = Vec::with_capacity(loops);
    let mut current = xs;
    let mut i: usize = 0;
    while i < loops
        invariant
            i <= loops,
            states@.len() == i,
            current@ == trajectory(*field, start, dt, i as nat),
            start.len() == field.dim(),
            forall|j: int| 0 <= j < i ==> #[trigger] states@[j]@ == trajectory(*field, start, dt, (j + 1) as nat),
        decreases loops - i,
    {
        proof {
            lemma_trajectory_len(*field, start, dt, i as nat);
        }
        let next = runge_kutta(field, current, dt);
        current = copy_vec(&next);
        states.push(next);
        i = i + 1;
    }
    states
}

} // verus!
