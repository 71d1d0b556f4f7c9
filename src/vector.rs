use vstd::prelude::*;
use crate::scalar::Scalar;

verus! {

/// The elementwise sum of two sequences of equal length.
pub open spec fn sum_seq<S: Scalar>(a: Seq<S>, b: Seq<S>) -> Seq<S>
    recommends
        a.len() == b.len(),
{
    Seq::new(a.len(), |i: int| a[i].plus_spec(b[i]))
}

/// Each element of `a` multiplied by `c`.
pub open spec fn scale_seq<S: Scalar>(a: Seq<S>, c: S) -> Seq<S> {
    Seq::new(a.len(), |i: int| a[i].times_spec(c))
}

/// A sequence of `n` zeros.
pub open spec fn zeros<S: Scalar>(n: nat) -> Seq<S> {
    Seq::new(n, |i: int| S::zero())
}

/// A copy of `a`, element for element.
pub fn copy_vec<S: Scalar>(a: &Vec<S>) -> (r: Vec<S>)
    ensures
        r@ == a@,
{
    let mut vs: Vec<S> = Vec::with_capacity(a.len());
    let mut i: usize = 0;
    while i < a.len()
        invariant
            i <= a.len(),
            vs@ == a@.take(i as int),
        decreases a.len() - i,
    {
        vs.push(a[i]);
        i = i + 1;
        assert(vs@ =~= a@.take(i as int));
    }
    assert(a@.take(i as int) =~= a@);
    vs
}

/// Adds two vectors of equal length elementwise.
pub fn add_vec<S: Scalar>(a: &Vec<S>, b: &Vec<S>) -> (r: Vec<S>)
    requires
        a.len() == b.len(),
    ensures
        r@ == sum_seq(a@, b@),
{
    let mut vs: Vec<S> = Vec::with_capacity(a.len());
    let mut i: usize = 0;
    while i < a.len()
        invariant
            i <= a.len(),
            a.len() == b.len(),
            vs@ == sum_seq(a@.take(i as int), b@.take(i as int)),
        decreases a.len() - i,
    {
        vs.push(a[i].plus(&b[i]));
        i = i + 1;
        assert(vs@ =~= sum_seq(a@.take(i as int), b@.take(i as int)));
    }
    assert(a@.take(i as int) =~= a@);
    assert(b@.take(i as int) =~= b@);
    vs
}

/// Multiplies every element of a vector by `c`.
pub fn multiple_vec<S: Scalar>(a: &Vec<S>, c: S) -> (r: Vec<S>)
    ensures
        r@ == scale_seq(a@, c),
{
    let mut vs: Vec<S> = Vec::with_capacity(a.len());
    let mut i: usize = 0;
    while i < a.len()
        invariant
            i <= a.len(),
            vs@ == scale_seq(a@.take(i as int), c),
        decreases a.len() - i,
    {
        vs.push(a[i].times(&c));
        i = i + 1;
        assert(vs@ =~= scale_seq(a@.take(i as int), c));
    }
    assert(a@.take(i as int) =~= a@);
    vs
}

/// Adding a vector scaled by zero gives back the first vector, element for
/// element.
pub proof fn lemma_add_scaled_by_zero<S: Scalar>(a: Seq<S>, b: Seq<S>)
    requires
        a.len() == b.len(),
    ensures
        sum_seq(a, scale_seq(b, S::zero())) == a,
{
    assert forall|i: int| 0 <= i < a.len() implies #[trigger] sum_seq(
        a,
        scale_seq(b, S::zero()),
    )[i] == a[i] by {
        S::lemma_times_zero(b[i]);
        S::lemma_plus_zero(a[i]);
    }
    assert(sum_seq(a, scale_seq(b, S::zero())) =~= a);
}

/// Every multiple of a vector of zeros is a vector of zeros.
pub proof fn lemma_scale_zeros<S: Scalar>(n: nat, c: S)
    ensures
        scale_seq(zeros::<S>(n), c) == zeros::<S>(n),
{
    assert forall|i: int| 0 <= i < n implies #[trigger] scale_seq(zeros::<S>(n), c)[i] == S::zero() by {
        S::lemma_times_zero(c);
    }
    assert(scale_seq(zeros::<S>(n), c) =~= zeros::<S>(n));
}

/// Adding a vector of zeros leaves a vector unchanged.
pub proof fn lemma_sum_zeros<S: Scalar>(a: Seq<S>)
    ensures
        sum_seq(a, zeros::<S>(a.len())) == a,
{
    assert forall|i: int| 0 <= i < a.len() implies #[trigger] sum_seq(a, zeros::<S>(a.len()))[i] == a[i] by {
        S::lemma_plus_zero(a[i]);
    }
    assert(sum_seq(a, zeros::<S>(a.len())) =~= a);
}

} // verus!
