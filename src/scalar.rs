use vstd::prelude::*;

verus! {

/// The arithmetic that the integrator needs of a number: a sum, a product,
/// half and a sixth of a step, the constant two, and a zero that is an
/// identity of the sum and absorbs the product.
pub trait Scalar: Sized + Copy {
    spec fn zero() -> Self;

    spec fn two() -> Self;

    spec fn plus_spec(self, o: Self) -> Self;

    spec fn times_spec(self, o: Self) -> Self;

    spec fn half_spec(self) -> Self;

    spec fn sixth_spec(self) -> Self;

    fn zero_value() -> (r: Self)
        ensures
            r == Self::zero(),
    ;

    fn two_value() -> (r: Self)
        ensures
            r == Self::two(),
    ;

    fn plus(&self, o: &Self) -> (r: Self)
        ensures
            r == self.plus_spec(*o),
    ;

    fn times(&self, o: &Self) -> (r: Self)
        ensures
            r == self.times_spec(*o),
    ;

    fn half(&self) -> (r: Self)
        ensures
            r == self.half_spec(),
    ;

    fn sixth(&self) -> (r: Self)
        ensures
            r == self.sixth_spec(),
    ;

    proof fn lemma_plus_zero(a: Self)
        ensures
            a.plus_spec(Self::zero()) == a,
            Self::zero().plus_spec(a) == a,
    ;

    proof fn lemma_times_zero(a: Self)
        ensures
            a.times_spec(Self::zero()) == Self::zero(),
            Self::zero().times_spec(a) == Self::zero(),
    ;
}

/// The quotient of `a` by a positive `d`, rounded toward zero.
pub open spec fn quotient_toward_zero(a: i64, d: int) -> i64 {
    if a >= 0 {
        (a as int / d) as i64
    } else {
        (-((-(a as int)) / d)) as i64
    }
}

/// Two's-complement integers: sums and products wrap, halves and sixths
/// round toward zero.
impl Scalar for i64 {
    open spec fn zero() -> i64 {
        0
    }

    open spec fn two() -> i64 {
        2
    }

    open spec fn plus_spec(self, o: i64) -> i64 {
        vstd::wrapping::i64_specs::wrapping_add(self, o)
    }

    open spec fn times_spec(self, o: i64) -> i64 {
        vstd::wrapping::i64_specs::wrapping_mul(self, o)
    }

    open spec fn half_spec(self) -> i64 {
        quotient_toward_zero(self, 2)
    }

    open spec fn sixth_spec(self) -> i64 {
        quotient_toward_zero(self, 6)
    }

    fn zero_value() -> (r: i64) {
        0
    }

    fn two_value() -> (r: i64) {
        2
    }

    fn plus(&self, o: &i64) -> (r: i64) {
        self.wrapping_add(*o)
    }

    fn times(&self, o: &i64) -> (r: i64) {
        self.wrapping_mul(*o)
    }

    fn half(&self) -> (r: i64) {
        *self / 2
    }

    fn sixth(&self) -> (r: i64) {
        *self / 6
    }

    proof fn lemma_plus_zero(a: i64) {
    }

    proof fn lemma_times_zero(a: i64) {
        assert(a * 0 == 0);
        assert(0 * a == 0);
    }
}

} // verus!
