use vstd::prelude::*;
use crate::scalar::Scalar;
use crate::vector::{add_vec, lemma_scale_zeros, lemma_sum_zeros, multiple_vec, scale_seq, sum_seq, zeros};

verus! {

/// A vector field on states of a fixed dimension: it gives the rate of
/// change of every coordinate of a state. The field's own parameters are
/// held by the value that implements it.
pub trait VectorField<S: Scalar> {
    /// The number of coordinates of a state.
    spec fn dim(&self) -> nat;

    /// The velocity at state `xs`.
    spec fn velocity(&self, xs: Seq<S>) -> Seq<S>;

    proof fn lemma_velocity_len(&self, xs: Seq<S>)
        requires
            xs.len() == self.dim(),
        ensures
            self.velocity(xs).len() == xs.len(),
    ;

    fn eval(&self, xs: &Vec<S>) -> (r: Vec<S>)
        requires
            xs@.len() == self.dim(),
        ensures
            r@ == self.velocity(xs@),
    ;
}

/// One step of the classical fourth-order Runge-Kutta method of step `dt`
/// from state `xs`.
pub open spec fn rk4_spec<S: Scalar, F: VectorField<S>>(f: F, xs: Seq<S>, dt: S) -> Seq<S> {
    let k1 = f.velocity(xs);
    let k2 = f.velocity(sum_seq(xs, scale_seq(k1, dt.half_spec())));
    let k3 = f.velocity(sum_seq(xs, scale_seq(k2, dt.half_spec())));
    let k4 = f.velocity(sum_seq(xs, scale_seq(k3, dt)));
    let slope = scale_seq(
        sum_seq(sum_seq(k1, k4), scale_seq(sum_seq(k2, k3), S::two())),
        dt.sixth_spec(),
    );
    sum_seq(xs, slope)
}

/// The state after `n` steps of size `dt` from `xs`.
pub open spec fn trajectory<S: Scalar, F: VectorField<S>>(f: F, xs: Seq<S>, dt: S, n: nat) -> Seq<S>
    decreases n,
{
    if n == 0 {
        xs
    } else {
        rk4_spec(f, trajectory(f, xs, dt, (n - 1) as nat), dt)
    }
}

/// Advances `xs` by one Runge-Kutta step of size `dt` through `field`,
/// evaluating the field four times.
pub fn runge_kutta<S: Scalar, F: VectorField<S>>(field: &F, xs: Vec<S>, dt: S) -> (r: Vec<S>)
    requires
        xs@.len() == field.dim(),
    ensures
        r@ == rk4_spec(*field, xs@, dt),
        r@.len() == xs@.len(),
{
    let half = dt.half();
    let k1 = field.eval(&xs);
    proof {
        field.lemma_velocity_len(xs@);
    }
    let x2 = add_vec(&xs, &multiple_vec(&k1, half));
    let k2 = field.eval(&x2);
    proof {
        field.lemma_velocity_len(x2@);
    }
    let x3 = add_vec(&xs, &multiple_vec(&k2, half));
    let k3 = field.eval(&x3);
    proof {
        field.lemma_velocity_len(x3@);
    }
    let x4 = add_vec(&xs, &multiple_vec(&k3, dt));
    let k4 = field.eval(&x4);
    proof {
        field.lemma_velocity_len(x4@);
    }
    let slope = multiple_vec(
        &add_vec(&add_vec(&k1, &k4), &multiple_vec(&add_vec(&k2, &k3), S::two_value())),
        dt.sixth(),
    );
    add_vec(&xs, &slope)
}

/// A step keeps the dimension of the state.
pub proof fn lemma_rk4_len<S: Scalar, F: VectorField<S>>(f: F, xs: Seq<S>, dt: S)
    requires
        xs.len() == f.dim(),
    ensures
        rk4_spec(f, xs, dt).len() == xs.len(),
{
    f.lemma_velocity_len(xs);
}

/// Under a field whose velocity is zero at every state, a step returns the
/// state unchanged, whatever the step size.
pub proof fn lemma_zero_field_fixes_state<S: Scalar, F: VectorField<S>>(f: F, xs: Seq<S>, dt: S)
    requires
        xs.len() == f.dim(),
        forall|ys: Seq<S>| ys.len() == f.dim() ==> #[trigger] f.velocity(ys) == zeros::<S>(ys.len()),
    ensures
        rk4_spec(f, xs, dt) == xs,
{
    let n = xs.len();
    let z = zeros::<S>(n);
    lemma_scale_zeros::<S>(n, dt.half_spec());
    lemma_scale_zeros::<S>(n, dt);
    lemma_scale_zeros::<S>(n, S::two());
    lemma_scale_zeros::<S>(n, dt.sixth_spec());
    lemma_sum_zeros::<S>(xs);
    lemma_sum_zeros::<S>(z);
    assert(f.velocity(xs) == z);
    assert(sum_seq(xs, scale_seq(z, dt.half_spec())) == xs);
    assert(sum_seq(xs, scale_seq(z, dt)) == xs);
    assert(sum_seq(z, z) == z);
}

/// Under a field whose velocity is the same vector `w` at every state, the
/// four stages of a step agree, and the step adds `w` combined as
/// `(w + w) + 2 (w + w)`, scaled by a sixth of `dt`.
pub proof fn lemma_constant_field_step<S: Scalar, F: VectorField<S>>(
    f: F,
    w: Seq<S>,
    xs: Seq<S>,
    dt: S,
)
    requires
        xs.len() == f.dim(),
        w.len() == f.dim(),
        forall|ys: Seq<S>| ys.len() == f.dim() ==> #[trigger] f.velocity(ys) == w,
    ensures
        rk4_spec(f, xs, dt) == sum_seq(
            xs,
            scale_seq(sum_seq(sum_seq(w, w), scale_seq(sum_seq(w, w), S::two())), dt.sixth_spec()),
        ),
{
    assert(sum_seq(xs, scale_seq(w, dt.half_spec())).len() == f.dim());
    assert(sum_seq(xs, scale_seq(w, dt)).len() == f.dim());
}

} // verus!
