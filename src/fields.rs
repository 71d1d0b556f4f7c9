use vstd::prelude::*;
use crate::scalar::Scalar;
use crate::rk4::VectorField;
use crate::vector::{copy_vec, multiple_vec, scale_seq, zeros};

verus! {

/// The field that is zero everywhere on states of `dim` coordinates.
pub struct ZeroField {
    pub dim: usize,
}

impl<S: Scalar> VectorField<S> for ZeroField {
    open spec fn dim(&self) -> nat {
        self.dim as nat
    }

    open spec fn velocity(&self, xs: Seq<S>) -> Seq<S> {
        zeros::<S>(xs.len())
    }

    proof fn lemma_velocity_len(&self, xs: Seq<S>) {
    }

    fn eval(&self, xs: &Vec<S>) -> (r: Vec<S>) {
        let mut vs: Vec<S> = Vec::with_capacity(xs.len());
        let mut i: usize = 0;
        while i < xs.len()
            invariant
                i <= xs.len(),
                vs@ == zeros::<S>(i as nat),
            decreases xs.len() - i,
        {
            vs.push(S::zero_value());
            i = i + 1;
            assert(vs@ =~= zeros::<S>(i as nat));
        }
        vs
    }
}

/// Uncoupled oscillators: every phase advances at its own natural
/// frequency, whatever the state. This is the Kuramoto field with coupling
/// strength zero.
pub struct Drift<S> {
    pub frequencies: Vec<S>,
}

impl<S: Scalar> VectorField<S> for Drift<S> {
    open spec fn dim(&self) -> nat {
        self.frequencies@.len()
    }

    open spec fn velocity(&self, xs: Seq<S>) -> Seq<S> {
        self.frequencies@
    }

    proof fn lemma_velocity_len(&self, xs: Seq<S>) {
    }

    fn eval(&self, xs: &Vec<S>) -> (r: Vec<S>) {
        copy_vec(&self.frequencies)
    }
}

/// Exponential growth or decay: every coordinate changes at `rate` times
/// its own value, on states of `dim` coordinates.
pub struct Linear<S> {
    pub rate: S,
    pub dim: usize,
}

impl<S: Scalar> VectorField<S> for Linear<S> {
    open spec fn dim(&self) -> nat {
        self.dim as nat
    }

    open spec fn velocity(&self, xs: Seq<S>) -> Seq<S> {
        scale_seq(xs, self.rate)
    }

    proof fn lemma_velocity_len(&self, xs: Seq<S>) {
    }

    fn eval(&self, xs: &Vec<S>) -> (r: Vec<S>) {
        multiple_vec(xs, self.rate)
    }
}

} // verus!
