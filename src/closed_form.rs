use vstd::prelude::*;
use vstd::arithmetic::div_mod::{lemma_add_mod_noop, lemma_mul_mod_noop_left};
use vstd::wrapping::i64_specs::signed_crop;
use crate::scalar::{quotient_toward_zero, Scalar};
use crate::fields::Drift;
use crate::rk4::{rk4_spec, trajectory, VectorField};

verus! {

/// The number of distinct `i64` values.
pub open spec fn modulus() -> int {
    0x1_0000_0000_0000_0000
}

proof fn lemma_crop_mod(a: int)
    ensures
        (signed_crop(a) as int) % modulus() == a % modulus(),
{
}

proof fn lemma_crop_congruent(a: int, b: int)
    requires
        a % modulus() == b % modulus(),
    ensures
        signed_crop(a) == signed_crop(b),
{
}

proof fn lemma_plus_is_crop(x: i64, y: i64)
    ensures
        x.plus_spec(y) == signed_crop(x + y),
{
}

/// Wrapping an intermediate sum or product does not change what a later
/// sum or product wraps to.
proof fn lemma_crop_plus(a: int, b: int)
    ensures
        signed_crop(signed_crop(a) + b) == signed_crop(a + b),
{
    lemma_crop_mod(a);
    lemma_add_mod_noop(signed_crop(a) as int, b, modulus());
    lemma_add_mod_noop(a, b, modulus());
    lemma_crop_congruent(signed_crop(a) + b, a + b);
}

proof fn lemma_crop_times(a: int, b: int)
    ensures
        signed_crop(signed_crop(a) * b) == signed_crop(a * b),
{
    lemma_crop_mod(a);
    lemma_mul_mod_noop_left(signed_crop(a) as int, b, modulus());
    lemma_mul_mod_noop_left(a, b, modulus());
    lemma_crop_congruent(signed_crop(a) * b, a * b);
}

/// One coordinate of a step under a constant velocity `w`, with a step
/// size divisible by six: the coordinate advances by exactly `w * dt`,
/// wrapped.
proof fn lemma_drift_coordinate(x: i64, w: i64, dt: i64)
    requires
        dt % 6 == 0,
    ensures
        x.plus_spec(
            w.plus_spec(w).plus_spec(w.plus_spec(w).times_spec(i64::two())).times_spec(
                dt.sixth_spec(),
            ),
        ) == signed_crop(x + w * dt),
{
    let s = dt.sixth_spec();
    assert(s * 6 == dt);
    let p = w.plus_spec(w);
    let q = p.times_spec(2);
    let t = p.plus_spec(q);
    lemma_plus_is_crop(w, w);
    lemma_crop_times(w + w, 2);
    lemma_plus_is_crop(p, q);
    lemma_crop_plus(w + w, q as int);
    lemma_crop_plus((w + w) * 2, w + w);
    assert(t == signed_crop(6 * w)) by {
        assert(signed_crop(w + w + q) == signed_crop(q + (w + w)));
    }
    let slope = t.times_spec(s);
    lemma_crop_times(6 * w, s as int);
    assert(6 * w * s == w * dt) by (nonlinear_arith)
        requires
            s * 6 == dt,
    ;
    lemma_plus_is_crop(x, slope);
    lemma_crop_plus(w * dt, x as int);
    assert(slope + x == x + slope);
}

/// Uncoupled oscillators on two's-complement integers: when the step size
/// is a multiple of six, after `n` steps every phase is its starting phase
/// plus `n * dt` times its natural frequency, wrapped to `i64`.
pub proof fn lemma_drift_closed_form(f: Drift<i64>, xs: Seq<i64>, dt: i64, n: nat)
    requires
        xs.len() == f.frequencies@.len(),
        dt % 6 == 0,
    ensures
        trajectory(f, xs, dt, n) == Seq::new(
            xs.len(),
            |i: int| signed_crop(xs[i] + n * dt * f.frequencies@[i]),
        ),
    decreases n,
{
    let w = f.frequencies@;
    if n == 0 {
        assert(trajectory(f, xs, dt, n) =~= Seq::new(
            xs.len(),
            |i: int| signed_crop(xs[i] + n * dt * w[i]),
        )) by {
            assert forall|i: int| 0 <= i < xs.len() implies xs[i] == signed_crop(
                xs[i] + n * dt * w[i],
            ) by {
                assert(n * dt * w[i] == 0) by (nonlinear_arith)
                    requires
                        n == 0,
                ;
                lemma_crop_mod(xs[i] as int);
            }
        }
    } else {
        let m = (n - 1) as nat;
        lemma_drift_closed_form(f, xs, dt, m);
        let prev = trajectory(f, xs, dt, m);
        assert(rk4_spec(f, prev, dt) =~= Seq::new(
            xs.len(),
            |i: int| signed_crop(xs[i] + n * dt * w[i]),
        )) by {
            assert forall|i: int| 0 <= i < xs.len() implies #[trigger] rk4_spec(f, prev, dt)[i]
                == signed_crop(xs[i] + n * dt * w[i]) by {
                lemma_drift_coordinate(prev[i], w[i], dt);
                lemma_crop_plus(xs[i] + m * dt * w[i], w[i] * dt);
                assert(xs[i] + m * dt * w[i] + w[i] * dt == xs[i] + n * dt * w[i]) by (nonlinear_arith)
                    requires
                        n == m + 1,
                ;
            }
        }
    }
}

} // verus!
